//! What holds of the marker over a run of polls.

use vstd::prelude::*;
use crate::row::RowView;
use crate::tracker::{lemma_rows_before_is, new_rows, next_checkpoint};

verus! {

/// The marker after the first `n` polls of a tracker that started unset,
/// where poll number `k` read `pages[k]`.
pub open spec fn checkpoint_after(pages: Seq<Seq<RowView>>, n: nat) -> Option<Seq<char>>
    decreases n,
{
    if n == 0 {
        None
    } else {
        next_checkpoint(pages[n - 1], checkpoint_after(pages, (n - 1) as nat))
    }
}

/// No two entries of `site` have the same link.
pub open spec fn distinct_links(site: Seq<RowView>) -> bool {
    forall|i: int, j: int| 0 <= i < j < site.len() ==> site[i].link != site[j].link
}

/// `page` is the stretch of `site` that starts at position `from`.
pub open spec fn shows(site: Seq<RowView>, from: int, page: Seq<RowView>) -> bool {
    &&& 0 <= from
    &&& from + page.len() <= site.len()
    &&& page == site.subrange(from, from + page.len())
}

/// The listing only ever gained newer entries. `site` is every entry it has
/// had, newest first; poll number `k` read a page that starts at position
/// `from[k]` of it, and no poll starts behind an earlier one.
pub open spec fn only_appended(
    site: Seq<RowView>,
    pages: Seq<Seq<RowView>>,
    from: Seq<int>,
) -> bool {
    &&& from.len() == pages.len()
    &&& forall|k: int| 0 <= k < pages.len() ==> shows(site, #[trigger] from[k], pages[k])
    &&& forall|j: int, k: int| 0 <= j <= k < pages.len() ==> from[k] <= from[j]
}

/// The marker `later` does not name an older entry of `site` than the marker
/// `earlier` does. A set marker is never older than an unset one, and an
/// unset marker is older than any set one.
pub open spec fn not_older(
    site: Seq<RowView>,
    later: Option<Seq<char>>,
    earlier: Option<Seq<char>>,
) -> bool {
    match (later, earlier) {
        (_, None) => true,
        (None, Some(_)) => false,
        (Some(l), Some(e)) => forall|i: int, j: int|
            0 <= i < site.len() && 0 <= j < site.len() && site[i].link == l && site[j].link == e
                ==> i <= j,
    }
}

/// Poll number `k` is the last of the first `n` polls whose page had a row,
/// and `link` is the link of the first row of its page.
pub open spec fn marked_by(pages: Seq<Seq<RowView>>, n: nat, k: int, link: Seq<char>) -> bool {
    &&& 0 <= k < n
    &&& pages[k].len() > 0
    &&& pages[k][0].link == link
    &&& forall|m: int| k < m < n ==> pages[m].len() == 0
}

/// A second poll of an unchanged page reports no row and leaves the marker
/// where the first poll put it.
pub proof fn lemma_scan_idempotent(page: Seq<RowView>, checkpoint: Option<Seq<char>>)
    ensures
        new_rows(page, next_checkpoint(page, checkpoint)) == Seq::<RowView>::empty(),
        next_checkpoint(page, next_checkpoint(page, checkpoint)) == next_checkpoint(
            page,
            checkpoint,
        ),
{
    if page.len() > 0 {
        lemma_rows_before_is(page, page[0].link, 0);
    }
}

/// The marker is unset until a page with a row has been read, and from then
/// on it is the link of the first row of the last such page.
pub proof fn lemma_checkpoint_origin(pages: Seq<Seq<RowView>>, n: nat)
    requires
        n <= pages.len(),
    ensures
        checkpoint_after(pages, n) is None ==> forall|k: int|
            0 <= k < n ==> (#[trigger] pages[k]).len() == 0,
        checkpoint_after(pages, n) matches Some(link) ==> exists|k: int|
            marked_by(pages, n, k, link),
    decreases n,
{
    if n > 0 {
        let last = (n - 1) as nat;
        lemma_checkpoint_origin(pages, last);
        if let Some(link) = checkpoint_after(pages, n) {
            if pages[last as int].len() > 0 {
                assert(marked_by(pages, n, last as int, link));
            } else {
                let k = choose|k: int| marked_by(pages, last, k, link);
                assert(marked_by(pages, n, k, link));
            }
        }
    }
}

/// Once set, the marker is never unset again.
pub proof fn lemma_checkpoint_stays_set(pages: Seq<Seq<RowView>>, n: nat)
    requires
        n < pages.len(),
        checkpoint_after(pages, n) is Some,
    ensures
        checkpoint_after(pages, n + 1) is Some,
{
}

/// While the listing only gains newer entries, a set marker names an entry
/// of the listing: the one that stood first on the page of some poll.
pub proof fn lemma_checkpoint_names_an_entry(
    site: Seq<RowView>,
    pages: Seq<Seq<RowView>>,
    from: Seq<int>,
    n: nat,
)
    requires
        only_appended(site, pages, from),
        n <= pages.len(),
    ensures
        checkpoint_after(pages, n) matches Some(link) ==> exists|k: int|
            0 <= k < n && 0 <= from[k] < site.len() && (#[trigger] site[from[k]]).link == link,
{
    lemma_checkpoint_origin(pages, n);
    if let Some(link) = checkpoint_after(pages, n) {
        let k = choose|k: int| marked_by(pages, n, k, link);
        assert(site[from[k]] == pages[k][0]);
    }
}

/// While the listing only gains newer entries, each poll leaves a marker
/// that is not older than the one the poll before it left.
pub proof fn lemma_checkpoint_never_regresses(
    site: Seq<RowView>,
    pages: Seq<Seq<RowView>>,
    from: Seq<int>,
    n: nat,
)
    requires
        distinct_links(site),
        only_appended(site, pages, from),
        n < pages.len(),
    ensures
        not_older(site, checkpoint_after(pages, n + 1), checkpoint_after(pages, n)),
{
    lemma_checkpoint_origin(pages, n);
    if let Some(earlier) = checkpoint_after(pages, n) {
        if pages[n as int].len() > 0 {
            // The earlier marker is the head of the page of some poll `k`, the
            // later one the head of the page of poll `n`, which starts no
            // further back in the listing.
            let k = choose|k: int| marked_by(pages, n, k, earlier);
            let later = pages[n as int][0].link;
            assert(site[from[k]] == pages[k][0]);
            assert(site[from[n as int]] == pages[n as int][0]);
            assert forall|i: int, j: int|
                0 <= i < site.len() && 0 <= j < site.len() && site[i].link == later
                    && site[j].link == earlier implies i <= j by {
                assert(i == from[n as int]);
                assert(j == from[k]);
            }
        }
    }
}

} // verus!
