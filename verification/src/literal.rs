//! Isolating the string literal of a script: the text strictly between its
//! first and its last single quote.

use vstd::prelude::*;

verus! {

/// Whether `open` and `close` are the first and the last single quote of
/// `text`, and not the same one.
pub open spec fn is_quote_pair(text: Seq<char>, open: int, close: int) -> bool {
    &&& 0 <= open < close < text.len()
    &&& text[open] == '\''
    &&& text[close] == '\''
    &&& forall|k: int| 0 <= k < open ==> text[k] != '\''
    &&& forall|k: int| close < k < text.len() ==> text[k] != '\''
}

/// Whether `text` holds a single quote at two places or more.
pub open spec fn has_two_quotes(text: Seq<char>) -> bool {
    exists|i: int, j: int| 0 <= i < j < text.len() && text[i] == '\'' && text[j] == '\''
}

/// The literal of `text`: what stands strictly between its outermost pair of
/// single quotes; `None` where it has no such pair.
pub open spec fn literal(text: Seq<char>) -> Option<Seq<char>> {
    if exists|open: int, close: int| is_quote_pair(text, open, close) {
        let (open, close) = choose|open: int, close: int| is_quote_pair(text, open, close);
        Some(text.subrange(open + 1, close))
    } else {
        None
    }
}

/// A text has one outermost pair at most.
pub proof fn lemma_quote_pair_unique(text: Seq<char>, a: int, b: int, c: int, d: int)
    requires
        is_quote_pair(text, a, b),
        is_quote_pair(text, c, d),
    ensures
        a == c,
        b == d,
{
}

/// The literal of a text whose outermost pair is known.
pub proof fn lemma_literal_of_pair(text: Seq<char>, open: int, close: int)
    requires
        is_quote_pair(text, open, close),
    ensures
        literal(text) == Some(text.subrange(open + 1, close)),
{
    let (a, b) = choose|a: int, b: int| is_quote_pair(text, a, b);
    lemma_quote_pair_unique(text, open, close, a, b);
}

/// The positions of the first and the last single quote of `text`, counted
/// in characters, where they are two.
pub fn quote_pair(text: &str) -> (pair: Option<(usize, usize)>)
    ensures
        match pair {
            Some((open, close)) => is_quote_pair(text@, open as int, close as int),
            None => !has_two_quotes(text@),
        },
{
    let count = text.unicode_len();
    let mut first: Option<usize> = None;
    let mut last: usize = 0;
    let mut at: usize = 0;
    for c in it: text.chars()
        invariant
            it.seq() == text@,
            count == text@.len(),
            at == it.index(),
            match first {
                Some(open) => {
                    &&& open <= last < at
                    &&& text@[open as int] == '\''
                    &&& text@[last as int] == '\''
                    &&& forall|k: int| 0 <= k < open ==> text@[k] != '\''
                    &&& forall|k: int| last < k < at ==> text@[k] != '\''
                },
                None => forall|k: int| 0 <= k < at ==> text@[k] != '\'',
            },
    {
        if c == '\'' {
            if first.is_none() {
                first = Some(at);
            }
            last = at;
        }
        at += 1;
    }
    match first {
        Some(open) if open < last => Some((open, last)),
        _ => None,
    }
}

/// The literal of `text`, where it has one.
pub fn isolate(text: &str) -> (inner: Option<&str>)
    ensures
        match inner {
            Some(found) => literal(text@) == Some(found@),
            None => literal(text@) is None,
        },
        inner is Some <==> has_two_quotes(text@),
{
    match quote_pair(text) {
        Some((open, close)) => {
            proof {
                lemma_literal_of_pair(text@, open as int, close as int);
            }
            Some(text.substring_char(open + 1, close))
        },
        None => None,
    }
}

/// Before a single quote, or at it, stands the first one of the text.
proof fn lemma_first_quote(text: Seq<char>, at: int) -> (first: int)
    requires
        0 <= at < text.len(),
        text[at] == '\'',
    ensures
        0 <= first <= at,
        text[first] == '\'',
        forall|k: int| 0 <= k < first ==> text[k] != '\'',
    decreases at,
{
    if exists|j: int| 0 <= j < at && text[j] == '\'' {
        let j = choose|j: int| 0 <= j < at && text[j] == '\'';
        lemma_first_quote(text, j)
    } else {
        at
    }
}

/// After a single quote, or at it, stands the last one of the text.
proof fn lemma_last_quote(text: Seq<char>, at: int) -> (last: int)
    requires
        0 <= at < text.len(),
        text[at] == '\'',
    ensures
        at <= last < text.len(),
        text[last] == '\'',
        forall|k: int| last < k < text.len() ==> text[k] != '\'',
    decreases text.len() - at,
{
    if exists|j: int| at < j < text.len() && text[j] == '\'' {
        let j = choose|j: int| at < j < text.len() && text[j] == '\'';
        lemma_last_quote(text, j)
    } else {
        at
    }
}

/// A text has a literal exactly when it holds two single quotes or more:
/// with none or one there is nothing to isolate.
pub proof fn lemma_literal_iff_two_quotes(text: Seq<char>)
    ensures
        literal(text) is Some <==> has_two_quotes(text),
{
    if has_two_quotes(text) {
        let (i, j) = choose|i: int, j: int|
            0 <= i < j < text.len() && text[i] == '\'' && text[j] == '\'';
        let open = lemma_first_quote(text, i);
        let close = lemma_last_quote(text, j);
        assert(is_quote_pair(text, open, close));
    }
    if literal(text) is Some {
        let (open, close) = choose|open: int, close: int| is_quote_pair(text, open, close);
        assert(0 <= open < close < text.len() && text[open] == '\'' && text[close] == '\'');
    }
}

} // verus!
