//! Resolving the reference found on a page against the address of the page.

use vstd::prelude::*;

verus! {

/// What joining `reference` to the URL `base` gives, as text; `None` where
/// `base` is no absolute URL or the two cannot be joined.
pub uninterp spec fn joined(base: Seq<char>, reference: Seq<char>) -> Option<Seq<char>>;

/// Reads `base` with `reqwest::Url::parse` (the `Url` of the `url` crate),
/// resolves `reference` against it with `Url::join` and gives the result's
/// serialization. The contract only names the outcome, which the two texts
/// fix; either failure gives `None`.
#[verifier::external_body]
pub(crate) fn join(base: &str, reference: &str) -> (url: Option<String>)
    ensures
        url.deep_view() == joined(base@, reference@),
{
    let base = reqwest::Url::parse(base).ok()?;
    let url = base.join(reference).ok()?;
    Some(String::from(url))
}

} // verus!
