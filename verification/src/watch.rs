//! One poll of the listing, from the markup that was fetched to the report
//! that is shown: read the rows, make the page, compare it with the marker,
//! lay out what is new. Fetching, showing and waiting are the caller's.

use vstd::prelude::*;
use crate::markup::{
    extract_rows, first_unreadable, raw_rows, table_of, SelectorError, Selectors, TABLE_BODY,
    TABLE_CELL, TABLE_ROW, TITLE_ANCHOR,
};
use crate::clock::stamp;
use crate::page::{is_malformed, is_pinned, lemma_dropped_row_leaves_no_trace, page_of, pin_filter};
use crate::report::{layout, rendered, report, MAX_COLUMN_WIDTH};
use crate::row::{RawRow, RawRowView, Row, RowView};
use crate::tracker::{new_rows, next_checkpoint, scan, Checkpoint, Tracker};

verus! {

/// Seconds between two polls.
pub const POLL_INTERVAL_SECS: u64 = 600;

/// The rows that a poll reports, given the rows it extracted.
pub open spec fn reported(
    raw: Seq<RawRowView>,
    pin_tag: Seq<char>,
    min_fields: nat,
    checkpoint: Option<Seq<char>>,
) -> Seq<RowView> {
    new_rows(page_of(raw, pin_tag, min_fields), checkpoint)
}

/// The marker that a poll leaves, given the rows it extracted.
pub open spec fn marked(
    raw: Seq<RawRowView>,
    pin_tag: Seq<char>,
    min_fields: nat,
    checkpoint: Option<Seq<char>>,
) -> Option<Seq<char>> {
    next_checkpoint(page_of(raw, pin_tag, min_fields), checkpoint)
}

/// One poll over the rows that were extracted: the new rows in page order,
/// and the marker for the next poll.
pub fn poll_rows(raw: &Vec<RawRow>, pin_tag: &str, min_fields: usize, checkpoint: &Checkpoint) -> (out:
    (Vec<Row>, Checkpoint))
    ensures
        out.0.deep_view() == reported(raw.deep_view(), pin_tag@, min_fields as nat, checkpoint@),
        out.1@ == marked(raw.deep_view(), pin_tag@, min_fields as nat, checkpoint@),
{
    let page = pin_filter(raw, pin_tag, min_fields);
    scan(&page, checkpoint)
}

/// A pinned row is never reported and never marked: wherever it stands among
/// the extracted rows, the poll reports and marks what it would without it.
pub proof fn lemma_pinned_row_is_never_seen(
    raw: Seq<RawRowView>,
    at: int,
    row: RawRowView,
    pin_tag: Seq<char>,
    min_fields: nat,
    checkpoint: Option<Seq<char>>,
)
    requires
        0 <= at <= raw.len(),
        is_pinned(row, pin_tag),
    ensures
        page_of(raw.insert(at, row), pin_tag, min_fields) == page_of(raw, pin_tag, min_fields),
        reported(raw.insert(at, row), pin_tag, min_fields, checkpoint) == reported(
            raw,
            pin_tag,
            min_fields,
            checkpoint,
        ),
        marked(raw.insert(at, row), pin_tag, min_fields, checkpoint) == marked(
            raw,
            pin_tag,
            min_fields,
            checkpoint,
        ),
{
    lemma_dropped_row_leaves_no_trace(raw, at, row, pin_tag, min_fields);
}

/// A malformed row is never on the page and never marked: wherever it stands
/// among the extracted rows, the poll reports and marks what it would
/// without it.
pub proof fn lemma_malformed_row_is_never_seen(
    raw: Seq<RawRowView>,
    at: int,
    row: RawRowView,
    pin_tag: Seq<char>,
    min_fields: nat,
    checkpoint: Option<Seq<char>>,
)
    requires
        0 <= at <= raw.len(),
        is_malformed(row, min_fields),
    ensures
        page_of(raw.insert(at, row), pin_tag, min_fields) == page_of(raw, pin_tag, min_fields),
        reported(raw.insert(at, row), pin_tag, min_fields, checkpoint) == reported(
            raw,
            pin_tag,
            min_fields,
            checkpoint,
        ),
        marked(raw.insert(at, row), pin_tag, min_fields, checkpoint) == marked(
            raw,
            pin_tag,
            min_fields,
            checkpoint,
        ),
{
    lemma_dropped_row_leaves_no_trace(raw, at, row, pin_tag, min_fields);
}

/// The watcher of one listing: what it needs to read the listing's page, and
/// the marker that it carries from poll to poll.
pub struct Watcher {
    selectors: Selectors,
    base_url: String,
    pin_tag: String,
    min_fields: usize,
    tracker: Tracker,
}

impl Watcher {
    /// The address of the listing.
    pub closed spec fn base(&self) -> Seq<char> {
        self.base_url@
    }

    /// The tag that marks a pinned entry.
    pub closed spec fn tag(&self) -> Seq<char> {
        self.pin_tag@
    }

    /// The fewest cells of a row that is trusted.
    pub closed spec fn least(&self) -> nat {
        self.min_fields as nat
    }

    /// The marker that the watcher holds.
    pub closed spec fn marker(&self) -> Option<Seq<char>> {
        self.tracker.marker()
    }

    /// The selectors with which the watcher reads a page.
    pub closed spec fn finders(&self) -> Selectors {
        self.selectors
    }

    /// A watcher of the listing at `base_url` that has seen nothing yet.
    /// Fails with the first of the listing's selectors that cannot be parsed.
    pub fn new(base_url: String, pin_tag: String, min_fields: usize) -> (r: Result<
        Watcher,
        SelectorError,
    >)
        ensures
            match r {
                Ok(w) => {
                    &&& first_unreadable(TABLE_BODY@, TABLE_ROW@, TABLE_CELL@, TITLE_ANCHOR@) is None
                    &&& w.base() == base_url@
                    &&& w.tag() == pin_tag@
                    &&& w.least() == min_fields
                    &&& w.marker() is None
                },
                Err(e) => first_unreadable(TABLE_BODY@, TABLE_ROW@, TABLE_CELL@, TITLE_ANCHOR@)
                    == Some(e),
            },
    {
        match Selectors::listing() {
            Ok(selectors) => Ok(
                Watcher { selectors, base_url, pin_tag, min_fields, tracker: Tracker::new() },
            ),
            Err(e) => Err(e),
        }
    }

    /// The marker that the watcher holds.
    pub fn checkpoint(&self) -> (c: &Checkpoint)
        ensures
            c@ == self.marker(),
    {
        self.tracker.checkpoint()
    }

    /// The rows that the watcher reads from a page with the given markup.
    pub open spec fn seen(&self, markup: Seq<char>) -> Seq<RawRowView> {
        raw_rows(table_of(markup, self.finders()), self.base())
    }

    /// The rows that the watcher reports for a page with the given markup.
    pub open spec fn news(&self, markup: Seq<char>) -> Seq<RowView> {
        reported(self.seen(markup), self.tag(), self.least(), self.marker())
    }

    /// The watcher after a poll of a page with the given markup is `after`:
    /// its settings are the same and its marker has moved as `marked` says.
    pub open spec fn moved_to(&self, markup: Seq<char>, after: &Watcher) -> bool {
        &&& after.finders() == self.finders()
        &&& after.base() == self.base()
        &&& after.tag() == self.tag()
        &&& after.least() == self.least()
        &&& after.marker() == marked(self.seen(markup), self.tag(), self.least(), self.marker())
    }

    /// Takes the markup of one poll: returns the new rows in page order and
    /// moves the marker.
    pub fn poll(&mut self, markup: &str) -> (fresh: Vec<Row>)
        ensures
            fresh.deep_view() == old(self).news(markup@),
            old(self).moved_to(markup@, final(self)),
    {
        let raw = extract_rows(markup, &self.selectors, self.base_url.as_str());
        let page = pin_filter(&raw, self.pin_tag.as_str(), self.min_fields);
        self.tracker.poll(&page)
    }

    /// Takes the markup of one poll made at the time `stamp`: moves the
    /// marker and returns the report of the new rows, drawn as a table.
    pub fn poll_report(&mut self, markup: &str, stamp: &str) -> (text: String)
        ensures
            text@ == rendered(layout(old(self).news(markup@), stamp@), MAX_COLUMN_WIDTH as nat),
            old(self).moved_to(markup@, final(self)),
    {
        let fresh = self.poll(markup);
        report(&fresh, stamp)
    }

    /// Takes the markup of a poll made just now: moves the marker and
    /// returns the report of the new rows under the machine's local time.
    pub fn poll_report_now(&mut self, markup: &str) -> (text: String)
        ensures
            exists|time: Seq<char>|
                text@ == #[trigger] rendered(
                    layout(old(self).news(markup@), time),
                    MAX_COLUMN_WIDTH as nat,
                ),
            old(self).moved_to(markup@, final(self)),
    {
        let time = stamp();
        self.poll_report(markup, time.as_str())
    }
}

} // verus!
