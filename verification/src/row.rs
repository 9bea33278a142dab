//! The records of a listing page: the named columns, a row as it was
//! extracted from the markup, and a row that has an identity.

use vstd::prelude::*;

verus! {

/// Number of named columns of a listing row.
pub const FIELD_COUNT: usize = 8;

/// The named columns of a listing row, in column order.
#[derive(Clone, Copy, Debug, PartialEq, Eq, Structural)]
pub enum Field {
    Time,
    OriginalTitle,
    Author,
    ReplyCount,
    Views,
    Title1,
    Title2,
    Link,
}

impl Field {
    /// Position of the column in a row.
    pub open spec fn position(self) -> int {
        match self {
            Field::Time => 0,
            Field::OriginalTitle => 1,
            Field::Author => 2,
            Field::ReplyCount => 3,
            Field::Views => 4,
            Field::Title1 => 5,
            Field::Title2 => 6,
            Field::Link => 7,
        }
    }

    /// Position of the column in a row.
    pub fn index(self) -> (i: usize)
        ensures
            i == self.position(),
            i < FIELD_COUNT,
    {
        match self {
            Field::Time => 0,
            Field::OriginalTitle => 1,
            Field::Author => 2,
            Field::ReplyCount => 3,
            Field::Views => 4,
            Field::Title1 => 5,
            Field::Title2 => 6,
            Field::Link => 7,
        }
    }

    /// The column's name.
    pub open spec fn label(self) -> Seq<char> {
        match self {
            Field::Time => "time"@,
            Field::OriginalTitle => "original_title"@,
            Field::Author => "author"@,
            Field::ReplyCount => "reply_count"@,
            Field::Views => "views"@,
            Field::Title1 => "title1"@,
            Field::Title2 => "title2"@,
            Field::Link => "link"@,
        }
    }

    /// The column's name.
    pub fn name(self) -> (s: &'static str)
        ensures
            s@ == self.label(),
    {
        match self {
            Field::Time => "time",
            Field::OriginalTitle => "original_title",
            Field::Author => "author",
            Field::ReplyCount => "reply_count",
            Field::Views => "views",
            Field::Title1 => "title1",
            Field::Title2 => "title2",
            Field::Link => "link",
        }
    }
}

/// The text of each cell of a row, in column order.
pub open spec fn cell_texts(cells: Seq<String>) -> Seq<Seq<char>> {
    cells.map_values(|s: String| s@)
}

/// The title of a row with the given cells: the text of the title column,
/// or the empty text where the row is too short to have one.
pub open spec fn title_of(cells: Seq<Seq<char>>) -> Seq<char> {
    if Field::OriginalTitle.position() < cells.len() {
        cells[Field::OriginalTitle.position()]
    } else {
        Seq::empty()
    }
}

/// What a `RawRow` holds.
pub struct RawRowView {
    pub cells: Seq<Seq<char>>,
    pub link: Option<Seq<char>>,
}

/// A table row as it was read from the markup: the text of its cells in
/// column order, and the absolute link to its detail page where it has one.
#[derive(Debug)]
pub struct RawRow {
    pub cells: Vec<String>,
    pub link: Option<String>,
}

impl View for RawRow {
    type V = RawRowView;

    open spec fn view(&self) -> RawRowView {
        RawRowView {
            cells: cell_texts(self.cells@),
            link: match self.link {
                Some(l) => Some(l@),
                None => None,
            },
        }
    }
}

impl DeepView for RawRow {
    type V = RawRowView;

    open spec fn deep_view(&self) -> RawRowView {
        self@
    }
}

/// What a `Row` holds.
pub struct RowView {
    pub cells: Seq<Seq<char>>,
    pub link: Seq<char>,
}

impl RowView {
    /// The row's title.
    pub open spec fn title(self) -> Seq<char> {
        title_of(self.cells)
    }
}

/// An entry of the listing: the text of its cells in column order, and the
/// absolute link to its detail page, which identifies the entry across polls.
#[derive(Debug)]
pub struct Row {
    pub cells: Vec<String>,
    pub link: String,
}

impl View for Row {
    type V = RowView;

    open spec fn view(&self) -> RowView {
        RowView { cells: cell_texts(self.cells@), link: self.link@ }
    }
}

impl DeepView for Row {
    type V = RowView;

    open spec fn deep_view(&self) -> RowView {
        self@
    }
}

/// Copies a list of texts.
pub fn clone_texts(texts: &Vec<String>) -> (copy: Vec<String>)
    ensures
        cell_texts(copy@) == cell_texts(texts@),
{
    let mut copy: Vec<String> = Vec::new();
    let mut i: usize = 0;
    while i < texts.len()
        invariant
            i <= texts.len(),
            copy.len() == i,
            forall|j: int| 0 <= j < i ==> copy@[j]@ == texts@[j]@,
        decreases texts.len() - i,
    {
        copy.push(texts[i].clone());
        i += 1;
    }
    copy
}

impl Clone for RawRow {
    fn clone(&self) -> (copy: Self)
        ensures
            copy@ == self@,
    {
        let link = match &self.link {
            Some(l) => Some(l.clone()),
            None => None,
        };
        RawRow { cells: clone_texts(&self.cells), link }
    }
}

impl Clone for Row {
    fn clone(&self) -> (copy: Self)
        ensures
            copy@ == self@,
    {
        Row { cells: clone_texts(&self.cells), link: self.link.clone() }
    }
}

impl Row {
    /// The text of a named column, where the row has that column.
    pub fn get(&self, field: Field) -> (text: Option<&String>)
        ensures
            field.position() < self@.cells.len() <==> text is Some,
            text matches Some(t) ==> t@ == self@.cells[field.position()],
    {
        let i = field.index();
        if i < self.cells.len() {
            Some(&self.cells[i])
        } else {
            None
        }
    }
}

} // verus!
