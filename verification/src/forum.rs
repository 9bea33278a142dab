//! The forum: its boards, the orders in which a board lists its entries, and
//! the address of a listing.

use vstd::prelude::*;
use vstd::string::StringExecFns;
use crate::text::{decimal, decimal_text, same};

verus! {

/// Address of the forum's listing page.
pub const BASE_URL: &'static str = "https://www.p9.com.tw/Forum/ForumSection.aspx";

/// A label that names no board, or no order.
#[derive(Clone, Copy, Debug, PartialEq, Eq, Structural)]
pub enum LabelError {
    UnknownSection,
    UnknownSort,
}

/// The boards of the forum.
#[derive(Clone, Copy, Debug, PartialEq, Eq, Structural)]
pub enum SectionList {
    Whisky,
    Brandy,
}

/// The orders in which a board lists its entries.
#[derive(Clone, Copy, Debug, PartialEq, Eq, Structural)]
pub enum Sort {
    LastReplyTime,
    PostTime,
}

impl SectionList {
    /// The board's display label.
    pub open spec fn label(self) -> Seq<char> {
        match self {
            SectionList::Whisky => "威士忌"@,
            SectionList::Brandy => "白蘭地"@,
        }
    }

    /// The board that a display label names.
    pub open spec fn named(label: Seq<char>) -> Option<SectionList> {
        if label == SectionList::Whisky.label() {
            Some(SectionList::Whisky)
        } else if label == SectionList::Brandy.label() {
            Some(SectionList::Brandy)
        } else {
            None
        }
    }

    /// The number under which the site keeps the board.
    pub open spec fn id(self) -> nat {
        match self {
            SectionList::Whisky => 1,
            SectionList::Brandy => 3,
        }
    }

    /// The number under which the site keeps the board's bargaining category.
    pub open spec fn auction_id(self) -> nat {
        match self {
            SectionList::Whisky => 5,
            SectionList::Brandy => 12,
        }
    }

    /// The board's display label.
    pub fn zh_name(&self) -> (name: &'static str)
        ensures
            name@ == self.label(),
    {
        match self {
            SectionList::Whisky => "威士忌",
            SectionList::Brandy => "白蘭地",
        }
    }

    /// The board as it is shown: its display label.
    pub fn to_string(&self) -> (text: String)
        ensures
            text@ == self.label(),
    {
        String::from_str(self.zh_name())
    }

    /// The board that a display label names, or the reason there is none.
    pub fn from_zh_name(name: &str) -> (r: Result<SectionList, LabelError>)
        ensures
            r == match SectionList::named(name@) {
                Some(section) => Ok::<SectionList, LabelError>(section),
                None => Err(LabelError::UnknownSection),
            },
    {
        if same(name, "威士忌") {
            Ok(SectionList::Whisky)
        } else if same(name, "白蘭地") {
            Ok(SectionList::Brandy)
        } else {
            Err(LabelError::UnknownSection)
        }
    }

    /// The board that a display label names, if it names one.
    pub fn get_by_zh_name(name: String) -> (section: Option<SectionList>)
        ensures
            section == SectionList::named(name@),
    {
        match SectionList::from_zh_name(name.as_str()) {
            Ok(section) => Some(section),
            Err(_) => None,
        }
    }

    /// The number under which the site keeps the board.
    pub fn get_id(&self) -> (id: u8)
        ensures
            id == self.id(),
    {
        match self {
            SectionList::Whisky => 1,
            SectionList::Brandy => 3,
        }
    }

    /// The number under which the site keeps the board's bargaining category.
    pub fn get_auction_id(&self) -> (id: u8)
        ensures
            id == self.auction_id(),
    {
        match self {
            SectionList::Whisky => 5,
            SectionList::Brandy => 12,
        }
    }
}

impl Sort {
    /// The order's display label.
    pub open spec fn label(self) -> Seq<char> {
        match self {
            Sort::LastReplyTime => "最後回應時間"@,
            Sort::PostTime => "發文時間"@,
        }
    }

    /// The order that a display label names.
    pub open spec fn named(label: Seq<char>) -> Option<Sort> {
        if label == Sort::LastReplyTime.label() {
            Some(Sort::LastReplyTime)
        } else if label == Sort::PostTime.label() {
            Some(Sort::PostTime)
        } else {
            None
        }
    }

    /// The value that asks the site for the order.
    pub open spec fn query(self) -> Seq<char> {
        match self {
            Sort::LastReplyTime => "Last_Reply_Time"@,
            Sort::PostTime => "Post_Time"@,
        }
    }

    /// The value that asks the site for the order.
    pub fn get_query_string(&self) -> (query: &'static str)
        ensures
            query@ == self.query(),
    {
        match self {
            Sort::LastReplyTime => "Last_Reply_Time",
            Sort::PostTime => "Post_Time",
        }
    }

    /// The order's display label.
    pub fn get_method_name(&self) -> (name: &'static str)
        ensures
            name@ == self.label(),
    {
        match self {
            Sort::LastReplyTime => "最後回應時間",
            Sort::PostTime => "發文時間",
        }
    }

    /// The order as it is shown: its display label.
    pub fn to_string(&self) -> (text: String)
        ensures
            text@ == self.label(),
    {
        String::from_str(self.get_method_name())
    }

    /// The order that a display label names, or the reason there is none.
    pub fn from_zh_name(method: &str) -> (r: Result<Sort, LabelError>)
        ensures
            r == match Sort::named(method@) {
                Some(sort) => Ok::<Sort, LabelError>(sort),
                None => Err(LabelError::UnknownSort),
            },
    {
        if same(method, "最後回應時間") {
            Ok(Sort::LastReplyTime)
        } else if same(method, "發文時間") {
            Ok(Sort::PostTime)
        } else {
            Err(LabelError::UnknownSort)
        }
    }

    /// The order that a display label names, if it names one.
    pub fn get_by_zh_name(method: String) -> (sort: Option<Sort>)
        ensures
            sort == Sort::named(method@),
    {
        match Sort::from_zh_name(method.as_str()) {
            Ok(sort) => Some(sort),
            Err(_) => None,
        }
    }
}

/// The address of the listing of `section` in the order `sort`.
pub open spec fn listing_url(section: SectionList, sort: Sort) -> Seq<char> {
    BASE_URL@ + "?Id="@ + decimal(section.id()) + "&Sort="@ + sort.query()
}

/// The address of the listing of `section` in the order `sort`.
pub fn get_url(section: SectionList, sort: Sort) -> (url: String)
    ensures
        url@ == listing_url(section, sort),
{
    let mut url = String::from_str(BASE_URL);
    url.append("?Id=");
    url.append(decimal_text(section.get_id() as usize).as_str());
    url.append("&Sort=");
    url.append(sort.get_query_string());
    url
}

/// A board's label names that board and no other label does: labels and
/// boards stand one to one.
pub proof fn lemma_section_label_round_trip(section: SectionList, label: Seq<char>)
    ensures
        SectionList::named(section.label()) == Some(section),
        SectionList::named(label) == Some(section) <==> label == section.label(),
{
    reveal_strlit("威士忌");
    reveal_strlit("白蘭地");
    assert(SectionList::Whisky.label()[0] != SectionList::Brandy.label()[0]);
}

/// An order's label names that order and no other label does: labels and
/// orders stand one to one.
pub proof fn lemma_sort_label_round_trip(sort: Sort, label: Seq<char>)
    ensures
        Sort::named(sort.label()) == Some(sort),
        Sort::named(label) == Some(sort) <==> label == sort.label(),
{
    reveal_strlit("最後回應時間");
    reveal_strlit("發文時間");
    assert(Sort::LastReplyTime.label().len() != Sort::PostTime.label().len());
}

} // verus!
