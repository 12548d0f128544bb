//! Finding the search index's reference on a landing page: a dedicated
//! attribute of a block element first, the source of a script second.

use vstd::prelude::*;
use crate::text::{contains, has_substring};

verus! {

/// The values that one attribute has on the elements of one tag.
pub type Values = Seq<Option<Seq<char>>>;

/// What the HTML parser and selector engine give for a page: for each element
/// named `tag` of the parsed `html`, in the order in which the selection
/// yields them, the value of `attribute` where the element has it.
pub uninterp spec fn selected_attributes(html: Seq<char>, tag: Seq<char>, attribute: Seq<char>) -> Seq<Option<Seq<char>>>;

/// A tag written in lower-case ASCII letters alone: as a selector, such a
/// word is a type selector and nothing else.
pub open spec fn is_plain_tag(tag: Seq<char>) -> bool {
    &&& tag.len() > 0
    &&& forall|i: int| 0 <= i < tag.len() ==> 'a' <= #[trigger] tag[i] <= 'z'
}

/// Parses `html` with `scraper::Html::parse_document`, parses `tag` with
/// `scraper::Selector::parse`, walks `Html::select` and reads `attribute` of
/// each element with `Element::attr`. The contract only names the outcome:
/// it is fixed by the three texts. A word of lower-case letters always
/// parses as a selector, so the `unwrap` cannot fail.
#[verifier::external_body]
fn select_attributes(html: &str, tag: &str, attribute: &str) -> (values: Vec<Option<String>>)
    requires
        is_plain_tag(tag@),
    ensures
        values.deep_view() == selected_attributes(html@, tag@, attribute@),
{
    let document = scraper::Html::parse_document(html);
    let selector = scraper::Selector::parse(tag).unwrap();
    document.select(&selector).map(|element| element.value().attr(attribute).map(String::from)).collect()
}

/// The text by which a script's source shows that it is a search index.
pub open spec fn marker() -> Seq<char> {
    "search-index"@
}

/// A value of the dedicated attribute names the asset when it is there and
/// not empty.
pub open spec fn names_asset(value: Option<Seq<char>>) -> bool {
    value matches Some(v) && v.len() > 0
}

/// A script's source points at the asset when it holds the marker.
pub open spec fn marks_asset(value: Option<Seq<char>>) -> bool {
    value matches Some(v) && has_substring(v, marker())
}

/// Whether `at` is the first position of `values` that names the asset.
pub open spec fn is_first_naming(values: Values, at: int) -> bool {
    &&& 0 <= at < values.len()
    &&& names_asset(values[at])
    &&& forall|j: int| 0 <= j < at ==> !names_asset(#[trigger] values[j])
}

/// Whether `at` is the first position of `values` that holds the marker.
pub open spec fn is_first_marked(values: Values, at: int) -> bool {
    &&& 0 <= at < values.len()
    &&& marks_asset(values[at])
    &&& forall|j: int| 0 <= j < at ==> !marks_asset(#[trigger] values[j])
}

/// The primary signal: the first value that names the asset, if any does.
pub open spec fn primary(values: Values) -> Option<Seq<char>> {
    if exists|at: int| is_first_naming(values, at) {
        values[choose|at: int| is_first_naming(values, at)]
    } else {
        None
    }
}

/// The fallback signal: the first source that holds the marker, if any does.
pub open spec fn fallback(values: Values) -> Option<Seq<char>> {
    if exists|at: int| is_first_marked(values, at) {
        values[choose|at: int| is_first_marked(values, at)]
    } else {
        None
    }
}

/// The reference that a page gives, from the values of the dedicated
/// attribute on its block elements and the sources of its scripts: the
/// primary signal where there is one, else the fallback.
pub open spec fn located(blocks: Values, scripts: Values) -> Option<Seq<char>> {
    match primary(blocks) {
        Some(v) => Some(v),
        None => fallback(scripts),
    }
}

/// Two first positions are one.
pub proof fn lemma_first_naming_unique(values: Values, a: int, b: int)
    requires
        is_first_naming(values, a),
        is_first_naming(values, b),
    ensures
        a == b,
{
    if a < b {
        assert(!names_asset(values[a]));
    } else if b < a {
        assert(!names_asset(values[b]));
    }
}

/// Two first positions are one.
pub proof fn lemma_first_marked_unique(values: Values, a: int, b: int)
    requires
        is_first_marked(values, a),
        is_first_marked(values, b),
    ensures
        a == b,
{
    if a < b {
        assert(!marks_asset(values[a]));
    } else if b < a {
        assert(!marks_asset(values[b]));
    }
}

/// The first value that names the asset.
pub fn first_naming(values: &Vec<Option<String>>) -> (found: Option<String>)
    ensures
        found.deep_view() == primary(values.deep_view()),
{
    let ghost all = values.deep_view();
    let mut at: usize = 0;
    while at < values.len()
        invariant
            at <= values.len(),
            all == values.deep_view(),
            forall|j: int| 0 <= j < at ==> !names_asset(#[trigger] all[j]),
        decreases values.len() - at,
    {
        assert(all[at as int] == values@[at as int].deep_view());
        if let Some(value) = &values[at] {
            if value.as_str().unicode_len() > 0 {
                proof {
                    assert(is_first_naming(all, at as int));
                    lemma_first_naming_unique(all, at as int, choose|k: int| is_first_naming(all, k));
                }
                return Some(value.clone());
            }
        }
        at += 1;
    }
    assert forall|k: int| !is_first_naming(all, k) by {}
    None
}

/// The first source that holds the marker.
pub fn first_marked(values: &Vec<Option<String>>) -> (found: Option<String>)
    ensures
        found.deep_view() == fallback(values.deep_view()),
{
    let ghost all = values.deep_view();
    let mut at: usize = 0;
    while at < values.len()
        invariant
            at <= values.len(),
            all == values.deep_view(),
            forall|j: int| 0 <= j < at ==> !marks_asset(#[trigger] all[j]),
        decreases values.len() - at,
    {
        assert(all[at as int] == values@[at as int].deep_view());
        if let Some(value) = &values[at] {
            if contains(value.as_str(), "search-index") {
                proof {
                    assert(is_first_marked(all, at as int));
                    lemma_first_marked_unique(all, at as int, choose|k: int| is_first_marked(all, k));
                }
                return Some(value.clone());
            }
        }
        at += 1;
    }
    assert forall|k: int| !is_first_marked(all, k) by {}
    None
}

/// The reference that the two lists of values give: the primary signal
/// where there is one, whatever the scripts hold; else the fallback.
pub fn pick(blocks: &Vec<Option<String>>, scripts: &Vec<Option<String>>) -> (found: Option<String>)
    ensures
        found.deep_view() == located(blocks.deep_view(), scripts.deep_view()),
{
    match first_naming(blocks) {
        Some(value) => Some(value),
        None => first_marked(scripts),
    }
}

/// The values of the dedicated attribute on the block elements of `html`.
pub open spec fn block_values(html: Seq<char>) -> Values {
    selected_attributes(html, "div"@, "data-search-index-js"@)
}

/// The sources of the scripts of `html`.
pub open spec fn script_values(html: Seq<char>) -> Values {
    selected_attributes(html, "script"@, "src"@)
}

/// The reference to the search index on the page `html`, if it gives one.
/// The scripts are looked at only where no block element names the asset.
pub fn locate(html: &str) -> (found: Option<String>)
    ensures
        found.deep_view() == located(block_values(html@), script_values(html@)),
{
    proof {
        reveal_strlit("div");
        reveal_strlit("script");
    }
    let blocks = select_attributes(html, "div", "data-search-index-js");
    match first_naming(&blocks) {
        Some(value) => Some(value),
        None => {
            let scripts = select_attributes(html, "script", "src");
            first_marked(&scripts)
        },
    }
}

/// Priority: where a block element names the asset, the first such value
/// is the reference, whatever the scripts hold.
pub proof fn lemma_primary_wins(blocks: Values, scripts: Values, at: int)
    requires
        is_first_naming(blocks, at),
    ensures
        located(blocks, scripts) == blocks[at],
{
    lemma_first_naming_unique(blocks, at, choose|k: int| is_first_naming(blocks, k));
}

/// Fallback: where no block element names the asset, the first script
/// source that holds the marker is the reference.
pub proof fn lemma_fallback_used(blocks: Values, scripts: Values, at: int)
    requires
        forall|j: int| 0 <= j < blocks.len() ==> !names_asset(#[trigger] blocks[j]),
        is_first_marked(scripts, at),
    ensures
        located(blocks, scripts) == scripts[at],
{
    assert forall|k: int| !is_first_naming(blocks, k) by {}
    lemma_first_marked_unique(scripts, at, choose|k: int| is_first_marked(scripts, k));
}

/// Miss: where no block element names the asset and no script source holds
/// the marker, the page gives no reference.
pub proof fn lemma_miss(blocks: Values, scripts: Values)
    requires
        forall|j: int| 0 <= j < blocks.len() ==> !names_asset(#[trigger] blocks[j]),
        forall|j: int| 0 <= j < scripts.len() ==> !marks_asset(#[trigger] scripts[j]),
    ensures
        located(blocks, scripts) is None,
{
    assert forall|k: int| !is_first_naming(blocks, k) by {}
    assert forall|k: int| !is_first_marked(scripts, k) by {}
}

/// Among the values up to a position that names the asset, one is the first
/// to do so.
proof fn lemma_some_first_naming(values: Values, at: int)
    requires
        0 <= at < values.len(),
        names_asset(values[at]),
    ensures
        exists|k: int| is_first_naming(values, k),
    decreases at,
{
    if exists|j: int| 0 <= j < at && names_asset(#[trigger] values[j]) {
        let j = choose|j: int| 0 <= j < at && names_asset(#[trigger] values[j]);
        lemma_some_first_naming(values, j);
    } else {
        assert(is_first_naming(values, at));
    }
}

/// Among the sources up to a position that holds the marker, one is the
/// first to do so.
proof fn lemma_some_first_marked(values: Values, at: int)
    requires
        0 <= at < values.len(),
        marks_asset(values[at]),
    ensures
        exists|k: int| is_first_marked(values, k),
    decreases at,
{
    if exists|j: int| 0 <= j < at && marks_asset(#[trigger] values[j]) {
        let j = choose|j: int| 0 <= j < at && marks_asset(#[trigger] values[j]);
        lemma_some_first_marked(values, j);
    } else {
        assert(is_first_marked(values, at));
    }
}

/// A page gives a reference exactly when a block element names the asset or
/// a script source holds the marker.
pub proof fn lemma_located_iff_signal(blocks: Values, scripts: Values)
    ensures
        located(blocks, scripts) is Some <==> {
            ||| exists|j: int| 0 <= j < blocks.len() && names_asset(#[trigger] blocks[j])
            ||| exists|j: int| 0 <= j < scripts.len() && marks_asset(#[trigger] scripts[j])
        },
{
    if exists|j: int| 0 <= j < blocks.len() && names_asset(#[trigger] blocks[j]) {
        let j = choose|j: int| 0 <= j < blocks.len() && names_asset(#[trigger] blocks[j]);
        lemma_some_first_naming(blocks, j);
        let k = choose|k: int| is_first_naming(blocks, k);
        lemma_primary_wins(blocks, scripts, k);
    } else if exists|j: int| 0 <= j < scripts.len() && marks_asset(#[trigger] scripts[j]) {
        let j = choose|j: int| 0 <= j < scripts.len() && marks_asset(#[trigger] scripts[j]);
        lemma_some_first_marked(scripts, j);
        let k = choose|k: int| is_first_marked(scripts, k);
        lemma_fallback_used(blocks, scripts, k);
    } else {
        lemma_miss(blocks, scripts);
    }
}

} // verus!
