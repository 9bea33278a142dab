//! Links: a reference as the markup writes it, resolved against the address
//! of the page it stands on.

use vstd::prelude::*;
use reqwest::Url;

verus! {

/// The absolute address that `Url::join` gives for `reference` on the page at
/// `base`, as text; `None` where `base` is no absolute address or the
/// reference cannot be resolved against it.
pub uninterp spec fn resolved_link(base: Seq<char>, reference: Seq<char>) -> Option<Seq<char>>;

/// The text that an optional string holds.
pub open spec fn text_of(s: Option<String>) -> Option<Seq<char>> {
    match s {
        Some(text) => Some(text@),
        None => None,
    }
}

/// `reqwest::Url::join` (that is `url::Url::join`), on a base that
/// `Url::parse` reads from `base`: the address that `reference` points to
/// from the page at `base`, written out. Both calls depend on their
/// arguments alone. The result is given the name `resolved_link`.
#[verifier::external_body]
fn join_url(base: &str, reference: &str) -> (link: Option<String>)
    ensures
        text_of(link) == resolved_link(base@, reference@),
{
    match Url::parse(base) {
        Ok(base) => match base.join(reference) {
            Ok(url) => Some(String::from(url)),
            Err(_) => None,
        },
        Err(_) => None,
    }
}

/// The link of a row: what the reference of its title's anchor resolves to
/// from the page at `base`. A row whose anchor has no reference has no link.
pub open spec fn link_of(base: Seq<char>, reference: Option<Seq<char>>) -> Option<Seq<char>> {
    match reference {
        Some(r) => resolved_link(base, r),
        None => None,
    }
}

/// The link of a row whose title's anchor refers to `reference`, seen from
/// the page at `base`.
pub fn resolve(base: &str, reference: &Option<String>) -> (link: Option<String>)
    ensures
        text_of(link) == link_of(base@, text_of(*reference)),
{
    match reference {
        Some(r) => join_url(base, r.as_str()),
        None => None,
    }
}

} // verus!
