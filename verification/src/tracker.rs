//! The checkpoint tracker: which rows of a freshly read page are new since
//! the previous poll, and which row the next poll compares against.
//!
//! The tracker keeps one marker, the link of the newest row it saw at the
//! previous poll. A page lists its rows newest first, so the rows in front of
//! the marked one are the new ones.

use vstd::prelude::*;
use crate::row::{Row, RowView};

verus! {

/// The marker that one poll hands to the next.
#[derive(Debug)]
pub enum Checkpoint {
    /// No page with a row in it has been seen yet.
    Unset,
    /// The link of the newest row of the last page that had a row.
    Seen(String),
}

impl View for Checkpoint {
    type V = Option<Seq<char>>;

    open spec fn view(&self) -> Option<Seq<char>> {
        match self {
            Checkpoint::Unset => None,
            Checkpoint::Seen(link) => Some(link@),
        }
    }
}

impl Clone for Checkpoint {
    fn clone(&self) -> (copy: Self)
        ensures
            copy@ == self@,
    {
        match self {
            Checkpoint::Unset => Checkpoint::Unset,
            Checkpoint::Seen(link) => Checkpoint::Seen(link.clone()),
        }
    }
}

impl Checkpoint {
    /// The marker a tracker starts with.
    pub fn unset() -> (c: Checkpoint)
        ensures
            c@ is None,
    {
        Checkpoint::Unset
    }

    /// Whether no row has been seen yet.
    pub fn is_unset(&self) -> (b: bool)
        ensures
            b == (self@ is None),
    {
        match self {
            Checkpoint::Unset => true,
            Checkpoint::Seen(_) => false,
        }
    }

    /// The marked link, once a row has been seen.
    pub fn link(&self) -> (l: Option<&String>)
        ensures
            match l {
                Some(s) => self@ == Some(s@),
                None => self@ is None,
            },
    {
        match self {
            Checkpoint::Unset => None,
            Checkpoint::Seen(link) => Some(link),
        }
    }
}

/// How many rows stand in front of the first row of `page` whose link is
/// `link`; all of them where no row has that link.
pub open spec fn rows_before(page: Seq<RowView>, link: Seq<char>) -> nat
    decreases page.len(),
{
    if page.len() == 0 || page[0].link == link {
        0
    } else {
        1 + rows_before(page.drop_first(), link)
    }
}

/// The rows of `page` that are new to a tracker holding `checkpoint`.
///
/// A tracker that has seen nothing yet has nothing to compare with and
/// reports nothing. Otherwise the new rows are those in front of the marked
/// row, in page order, or the whole page where the marked row is not on it.
pub open spec fn new_rows(page: Seq<RowView>, checkpoint: Option<Seq<char>>) -> Seq<RowView> {
    match checkpoint {
        None => Seq::empty(),
        Some(link) => page.take(rows_before(page, link) as int),
    }
}

/// The marker after a poll that read `page`: the link of the page's first
/// row, or the marker as it was where the page has no row.
pub open spec fn next_checkpoint(page: Seq<RowView>, checkpoint: Option<Seq<char>>) -> Option<
    Seq<char>,
> {
    if page.len() == 0 {
        checkpoint
    } else {
        Some(page[0].link)
    }
}

/// `rows_before` is the one position `n` such that no row in front of `n`
/// has the link and `n` is either the end of the page or a row that has it.
pub proof fn lemma_rows_before_is(page: Seq<RowView>, link: Seq<char>, n: int)
    requires
        0 <= n <= page.len(),
        forall|j: int| 0 <= j < n ==> page[j].link != link,
        n == page.len() || page[n].link == link,
    ensures
        rows_before(page, link) == n,
    decreases n,
{
    if n > 0 {
        let rest = page.drop_first();
        assert forall|j: int| 0 <= j < n - 1 implies rest[j].link != link by {
        }
        lemma_rows_before_is(rest, link, n - 1);
    }
}

/// `rows_before` stays on the page, passes over no row that has the link, and
/// stops at one that has it unless it reaches the end.
pub proof fn lemma_rows_before_bounds(page: Seq<RowView>, link: Seq<char>)
    ensures
        rows_before(page, link) <= page.len(),
        forall|j: int| 0 <= j < rows_before(page, link) ==> page[j].link != link,
        rows_before(page, link) < page.len() ==> page[rows_before(page, link) as int].link == link,
    decreases page.len(),
{
    if page.len() == 0 || page[0].link == link {
    } else {
        let rest = page.drop_first();
        lemma_rows_before_bounds(rest, link);
        let n = rows_before(rest, link) as int;
        assert forall|j: int| 0 <= j < n + 1 implies page[j].link != link by {
            if j > 0 {
                assert(rest[j - 1] == page[j]);
            }
        }
    }
}

/// What a tracker with a set marker reports: the rows at the head of the
/// page, none of which is the marked row, up to the marked row or, where the
/// marked row is not on the page, up to the end.
pub proof fn lemma_new_rows_stop_at_marker(page: Seq<RowView>, link: Seq<char>)
    ensures
        ({
            let fresh = new_rows(page, Some(link));
            &&& fresh.len() <= page.len()
            &&& fresh == page.take(fresh.len() as int)
            &&& forall|j: int| 0 <= j < fresh.len() ==> (#[trigger] fresh[j]).link != link
            &&& fresh.len() < page.len() ==> page[fresh.len() as int].link == link
            &&& fresh.len() == page.len() <==> forall|j: int|
                0 <= j < page.len() ==> (#[trigger] page[j]).link != link
        }),
{
    lemma_rows_before_bounds(page, link);
}

/// A tracker that has seen nothing yet reports nothing, whatever the page.
pub proof fn lemma_first_poll_reports_nothing(page: Seq<RowView>)
    ensures
        new_rows(page, None) == Seq::<RowView>::empty(),
        next_checkpoint(page, None) == if page.len() == 0 {
            None
        } else {
            Some(page[0].link)
        },
{
}

/// One poll: the rows of `page` that are new since the poll that left
/// `checkpoint`, in page order, and the marker for the next poll.
pub fn scan(page: &Vec<Row>, checkpoint: &Checkpoint) -> (out: (Vec<Row>, Checkpoint))
    ensures
        out.0.deep_view() == new_rows(page.deep_view(), checkpoint@),
        out.1@ == next_checkpoint(page.deep_view(), checkpoint@),
{
    let ghost rows = page.deep_view();
    let mut fresh: Vec<Row> = Vec::new();
    if page.len() == 0 {
        return (fresh, checkpoint.clone());
    }
    let next = Checkpoint::Seen(page[0].link.clone());
    match checkpoint {
        Checkpoint::Unset => {},
        Checkpoint::Seen(seen) => {
            let mut i: usize = 0;
            while i < page.len() && page[i].link != *seen
                invariant
                    i <= page.len(),
                    rows == page.deep_view(),
                    fresh.deep_view() == rows.take(i as int),
                    forall|j: int| 0 <= j < i ==> rows[j].link != seen@,
                decreases page.len() - i,
            {
                fresh.push(page[i].clone());
                assert(rows.take(i + 1) =~= rows.take(i as int).push(rows[i as int]));
                i += 1;
            }
            proof {
                lemma_rows_before_is(rows, seen@, i as int);
            }
        },
    }
    (fresh, next)
}

/// The checkpoint tracker: it owns the marker and moves it once per poll.
#[derive(Debug)]
pub struct Tracker {
    checkpoint: Checkpoint,
}

impl Tracker {
    /// The marker the tracker holds.
    pub closed spec fn marker(&self) -> Option<Seq<char>> {
        self.checkpoint@
    }

    /// A tracker that has seen nothing yet.
    pub fn new() -> (t: Tracker)
        ensures
            t.marker() is None,
    {
        Tracker { checkpoint: Checkpoint::Unset }
    }

    /// The marker the tracker holds.
    pub fn checkpoint(&self) -> (c: &Checkpoint)
        ensures
            c@ == self.marker(),
    {
        &self.checkpoint
    }

    /// Takes the page of one poll: returns its new rows and moves the marker.
    pub fn poll(&mut self, page: &Vec<Row>) -> (fresh: Vec<Row>)
        ensures
            fresh.deep_view() == new_rows(page.deep_view(), old(self).marker()),
            final(self).marker() == next_checkpoint(page.deep_view(), old(self).marker()),
    {
        let (fresh, next) = scan(page, &self.checkpoint);
        self.checkpoint = next;
        fresh
    }
}

} // verus!
