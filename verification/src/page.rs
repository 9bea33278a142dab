//! The pin filter: from the rows as they were extracted to the page that the
//! tracker compares, without the rows that cannot be trusted and without the
//! rows that the site keeps pinned on top.

use vstd::prelude::*;
use crate::row::{RawRow, RawRowView, Row, RowView, clone_texts, title_of};
use crate::text::{contains, occurs_in};

verus! {

/// The tag that the site puts in the title of a pinned entry.
pub const PIN_TAG: &'static str = "【頂】";

/// The fewest cells that a row of the listing has.
pub const MIN_FIELDS: usize = 5;

/// Why a row is kept off the page.
#[derive(Clone, Copy, Debug, PartialEq, Eq, Structural)]
pub enum Rejection {
    /// The row has fewer cells than a row of the listing has.
    MalformedRow,
    /// The row is pinned on top of the listing.
    Pinned,
    /// The row has no link that identifies it.
    MissingIdentifier,
}

/// The row is pinned: its title holds the pin tag.
pub open spec fn is_pinned(row: RawRowView, pin_tag: Seq<char>) -> bool {
    occurs_in(pin_tag, title_of(row.cells))
}

/// The row cannot be trusted: it has too few cells or no link.
pub open spec fn is_malformed(row: RawRowView, min_fields: nat) -> bool {
    row.cells.len() < min_fields || row.link is None
}

/// The row belongs on the page.
pub open spec fn admitted(row: RawRowView, pin_tag: Seq<char>, min_fields: nat) -> bool {
    !is_malformed(row, min_fields) && !is_pinned(row, pin_tag)
}

/// An admitted row as an entry of the page.
pub open spec fn entry_of(row: RawRowView) -> RowView {
    RowView { cells: row.cells, link: row.link->0 }
}

/// What becomes of a row: its entry on the page, or the first reason that
/// keeps it off. The number of cells is looked at first, then the title,
/// then the link.
pub open spec fn verdict(row: RawRowView, pin_tag: Seq<char>, min_fields: nat) -> Result<
    RowView,
    Rejection,
> {
    if row.cells.len() < min_fields {
        Err(Rejection::MalformedRow)
    } else if is_pinned(row, pin_tag) {
        Err(Rejection::Pinned)
    } else if row.link is None {
        Err(Rejection::MissingIdentifier)
    } else {
        Ok(entry_of(row))
    }
}

/// The entry is fit for the page: it has enough cells and is not pinned.
pub open spec fn fit_for_page(row: RowView, pin_tag: Seq<char>, min_fields: nat) -> bool {
    row.cells.len() >= min_fields && !occurs_in(pin_tag, row.title())
}

/// The page made of the extracted rows: the admitted ones, in their order.
pub open spec fn page_of(raw: Seq<RawRowView>, pin_tag: Seq<char>, min_fields: nat) -> Seq<
    RowView,
> {
    raw.filter(|row: RawRowView| admitted(row, pin_tag, min_fields)).map_values(
        |row: RawRowView| entry_of(row),
    )
}

impl RawRow {
    /// Whether the row's title holds `pin_tag`.
    pub fn is_pinned(&self, pin_tag: &str) -> (b: bool)
        ensures
            b == is_pinned(self@, pin_tag@),
    {
        if 1 < self.cells.len() {
            contains(self.cells[1].as_str(), pin_tag)
        } else {
            let empty = String::new();
            contains(empty.as_str(), pin_tag)
        }
    }

    /// The row's entry on the page, or the reason that keeps it off.
    pub fn screen(&self, pin_tag: &str, min_fields: usize) -> (r: Result<Row, Rejection>)
        ensures
            match r {
                Ok(row) => verdict(self@, pin_tag@, min_fields as nat) == Ok::<RowView, Rejection>(
                    row@,
                ),
                Err(e) => verdict(self@, pin_tag@, min_fields as nat) == Err::<RowView, Rejection>(
                    e,
                ),
            },
            r is Ok <==> admitted(self@, pin_tag@, min_fields as nat),
    {
        if self.cells.len() < min_fields {
            return Err(Rejection::MalformedRow);
        }
        if self.is_pinned(pin_tag) {
            return Err(Rejection::Pinned);
        }
        match &self.link {
            Some(link) => Ok(Row { cells: clone_texts(&self.cells), link: link.clone() }),
            None => Err(Rejection::MissingIdentifier),
        }
    }
}

/// Keeps the rows that belong on the page, in their order: those with at
/// least `min_fields` cells and a link whose title does not hold `pin_tag`.
pub fn pin_filter(raw: &Vec<RawRow>, pin_tag: &str, min_fields: usize) -> (page: Vec<Row>)
    ensures
        page.deep_view() == page_of(raw.deep_view(), pin_tag@, min_fields as nat),
        forall|k: int|
            0 <= k < page.len() ==> fit_for_page(
                #[trigger] page.deep_view()[k],
                pin_tag@,
                min_fields as nat,
            ),
{
    let ghost rows = raw.deep_view();
    let ghost keep = |row: RawRowView| admitted(row, pin_tag@, min_fields as nat);
    let ghost entry = |row: RawRowView| entry_of(row);
    let mut page: Vec<Row> = Vec::new();
    let mut i: usize = 0;
    proof {
        reveal(Seq::filter);
    }
    while i < raw.len()
        invariant
            i <= raw.len(),
            rows == raw.deep_view(),
            keep == |row: RawRowView| admitted(row, pin_tag@, min_fields as nat),
            entry == |row: RawRowView| entry_of(row),
            page.deep_view() == rows.take(i as int).filter(keep).map_values(entry),
        decreases raw.len() - i,
    {
        let row = &raw[i];
        let ghost kept = rows.take(i as int).filter(keep);
        proof {
            assert(rows.take(i + 1) =~= rows.take(i as int).push(row@));
            rows.take(i as int).lemma_filter_push(row@, keep);
        }
        match row.screen(pin_tag, min_fields) {
            Ok(kept_row) => {
                page.push(kept_row);
                assert(kept.push(row@).map_values(entry) =~= kept.map_values(entry).push(
                    entry(row@),
                ));
            },
            Err(_) => {},
        }
        i += 1;
    }
    assert(rows.take(raw.len() as int) =~= rows);
    proof {
        lemma_page_is_fit(rows, pin_tag@, min_fields as nat);
    }
    page
}

/// Every row of the page is an admitted row of the extraction.
pub proof fn lemma_page_rows_admitted(
    raw: Seq<RawRowView>,
    pin_tag: Seq<char>,
    min_fields: nat,
    k: int,
)
    requires
        0 <= k < page_of(raw, pin_tag, min_fields).len(),
    ensures
        exists|i: int|
            0 <= i < raw.len() && admitted(#[trigger] raw[i], pin_tag, min_fields) && page_of(
                raw,
                pin_tag,
                min_fields,
            )[k] == entry_of(raw[i]),
{
    let keep = |row: RawRowView| admitted(row, pin_tag, min_fields);
    let kept = raw.filter(keep);
    raw.lemma_filter_pred(keep, k);
    raw.lemma_filter_contains_rev(keep, kept[k]);
    let i = choose|i: int| 0 <= i < raw.len() && raw[i] == kept[k];
}

/// Every row of the page is fit for it: none is short of cells, none is
/// pinned.
pub proof fn lemma_page_is_fit(raw: Seq<RawRowView>, pin_tag: Seq<char>, min_fields: nat)
    ensures
        forall|k: int|
            0 <= k < page_of(raw, pin_tag, min_fields).len() ==> fit_for_page(
                #[trigger] page_of(raw, pin_tag, min_fields)[k],
                pin_tag,
                min_fields,
            ),
{
    assert forall|k: int| 0 <= k < page_of(raw, pin_tag, min_fields).len() implies fit_for_page(
        #[trigger] page_of(raw, pin_tag, min_fields)[k],
        pin_tag,
        min_fields,
    ) by {
        lemma_page_rows_admitted(raw, pin_tag, min_fields, k);
    }
}

/// A row that is not admitted leaves no trace: with it or without it, at
/// whatever position, the page is the same.
pub proof fn lemma_dropped_row_leaves_no_trace(
    raw: Seq<RawRowView>,
    at: int,
    row: RawRowView,
    pin_tag: Seq<char>,
    min_fields: nat,
)
    requires
        0 <= at <= raw.len(),
        !admitted(row, pin_tag, min_fields),
    ensures
        page_of(raw.insert(at, row), pin_tag, min_fields) == page_of(raw, pin_tag, min_fields),
{
    let keep = |row: RawRowView| admitted(row, pin_tag, min_fields);
    let front = raw.take(at);
    let back = raw.skip(at);
    assert(raw =~= front + back);
    Seq::filter_distributes_over_add(front.push(row), back, keep);
    Seq::filter_distributes_over_add(front, back, keep);
    front.lemma_filter_push(row, keep);
}

} // verus!
