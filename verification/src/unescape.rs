//! Removal of the backslashes that embedding a JSON text in a JavaScript
//! string literal adds to it.

use vstd::prelude::*;

verus! {

/// Whether the character at position `i` of `text` reaches the output: every
/// character but a backslash does, and a backslash does only directly before
/// a double quote.
pub open spec fn survives(text: Seq<char>, i: int) -> bool {
    text[i] != '\\' || (i + 1 < text.len() && text[i + 1] == '"')
}

/// What the first `n` characters of `text` contribute to the output. The
/// fate of the character at `n - 1` may depend on the one at `n`.
pub open spec fn unescaped_prefix(text: Seq<char>, n: nat) -> Seq<char>
    decreases n,
{
    if n == 0 {
        Seq::empty()
    } else if survives(text, n - 1) {
        unescaped_prefix(text, (n - 1) as nat).push(text[n - 1])
    } else {
        unescaped_prefix(text, (n - 1) as nat)
    }
}

/// The text with one layer of escaping taken off: the characters of `text`
/// that survive, in their order.
pub open spec fn unescaped(text: Seq<char>) -> Seq<char> {
    unescaped_prefix(text, text.len())
}

/// Takes one layer of escaping off `text` in a single pass, holding back a
/// backslash until the character after it is seen.
pub fn unescape(text: &str) -> (out: String)
    ensures
        out@ == unescaped(text@),
{
    let mut out = String::new();
    let mut pending = false;
    for c in it: text.chars()
        invariant
            it.seq() == text@,
            pending ==> it.index() > 0 && text@[it.index() - 1] == '\\',
            out@ == unescaped_prefix(text@, (it.index() - if pending { 1int } else { 0int }) as nat),
    {
        let ghost i = it.index();
        assert(c == text@[i]);
        assert(unescaped_prefix(text@, (i + 1) as nat) == if survives(text@, i) {
            unescaped_prefix(text@, i as nat).push(c)
        } else {
            unescaped_prefix(text@, i as nat)
        });
        assert(pending ==> unescaped_prefix(text@, i as nat) == if c == '"' {
            unescaped_prefix(text@, (i - 1) as nat).push('\\')
        } else {
            unescaped_prefix(text@, (i - 1) as nat)
        });
        if pending && c == '"' {
            out.push('\\');
        }
        if c == '\\' {
            pending = true;
        } else {
            out.push(c);
            pending = false;
        }
    }
    out
}

/// Whether every backslash among the first `n` characters of `text` stands
/// directly before a double quote.
pub open spec fn backslashes_guard_quotes(text: Seq<char>, n: int) -> bool {
    forall|i: int| 0 <= i < n && i < text.len() ==> survives(text, i)
}

/// A prefix of the output is never longer than the prefix of the input that
/// it comes from.
pub proof fn lemma_prefix_no_longer(text: Seq<char>, n: nat)
    requires
        n <= text.len(),
    ensures
        unescaped_prefix(text, n).len() <= n,
    decreases n,
{
    if n > 0 {
        lemma_prefix_no_longer(text, (n - 1) as nat);
    }
}

/// Unescaping never makes a text longer.
pub proof fn lemma_unescaped_no_longer(text: Seq<char>)
    ensures
        unescaped(text).len() <= text.len(),
{
    lemma_prefix_no_longer(text, text.len());
}

/// Where every character of a prefix survives, the prefix comes out as it
/// went in.
pub proof fn lemma_prefix_kept(text: Seq<char>, n: nat)
    requires
        n <= text.len(),
        backslashes_guard_quotes(text, n as int),
    ensures
        unescaped_prefix(text, n) == text.take(n as int),
    decreases n,
{
    if n > 0 {
        lemma_prefix_kept(text, (n - 1) as nat);
        assert(survives(text, n - 1));
        assert(text.take(n as int) == text.take(n - 1).push(text[n - 1]));
    }
}

/// A text in which every backslash stands directly before a double quote is
/// left as it is. A text without any backslash is such a text.
pub proof fn lemma_guarded_text_unchanged(text: Seq<char>)
    requires
        backslashes_guard_quotes(text, text.len() as int),
    ensures
        unescaped(text) == text,
{
    lemma_prefix_kept(text, text.len());
}

/// In what the first `n` characters give, a backslash stands directly before
/// a double quote, or it is the last character and came from position
/// `n - 1`, where the double quote is still to come.
proof fn lemma_prefix_guarded(text: Seq<char>, n: nat)
    requires
        n <= text.len(),
    ensures
        ({
            let out = unescaped_prefix(text, n);
            forall|i: int|
                0 <= i < out.len() && #[trigger] out[i] == '\\' ==> {
                    ||| i + 1 < out.len() && out[i + 1] == '"'
                    ||| i + 1 == out.len() && n < text.len() && text[n as int] == '"'
                }
        }),
    decreases n,
{
    if n > 0 {
        lemma_prefix_guarded(text, (n - 1) as nat);
        let before = unescaped_prefix(text, (n - 1) as nat);
        let out = unescaped_prefix(text, n);
        assert forall|i: int| 0 <= i < out.len() && #[trigger] out[i] == '\\' implies {
            ||| i + 1 < out.len() && out[i + 1] == '"'
            ||| i + 1 == out.len() && n < text.len() && text[n as int] == '"'
        } by {
            if i < before.len() {
                assert(before[i] == '\\');
            }
        }
    }
}

/// In the output every backslash stands directly before a double quote.
pub proof fn lemma_output_guarded(text: Seq<char>)
    ensures
        backslashes_guard_quotes(unescaped(text), unescaped(text).len() as int),
{
    lemma_prefix_guarded(text, text.len());
}

/// Unescaping what was unescaped changes nothing more: the backslashes that
/// are left all stand before a double quote, and those stay.
pub proof fn lemma_unescaped_twice(text: Seq<char>)
    ensures
        unescaped(unescaped(text)) == unescaped(text),
{
    lemma_output_guarded(text);
    lemma_guarded_text_unchanged(unescaped(text));
}

} // verus!
