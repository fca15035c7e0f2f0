//! Turning a raw word-source response into the secret answer.
//!
//! The word source replies with a bracket-and-quote delimited payload such
//! as `["crane"]`.  Shedding the delimiter characters must leave exactly a
//! five-letter word; anything else is a malformed response and yields no
//! answer at all.

use vstd::prelude::*;

verus! {

/// Every answer and every guess is exactly this many letters long.
pub const WORD_LEN: usize = 5;

/// The delimiter characters that the word-source payload wraps the word in.
pub open spec fn is_delimiter(c: char) -> bool {
    c == '[' || c == ']' || c == ' ' || c == '"'
}

/// The raw payload with every delimiter character removed, in order.
pub open spec fn spec_strip(s: Seq<char>) -> Seq<char> {
    s.filter(|c: char| !is_delimiter(c))
}

/// Remove every `[`, `]`, space and `"` from the raw payload, keeping the
/// remaining characters in order.
pub fn strip_response(raw: &str) -> (r: String)
    ensures
        r@ == spec_strip(raw@),
{
    let n = raw.unicode_len();
    let mut r = String::new();
    let mut i: usize = 0;
    while i < n
        invariant
            n == raw@.len(),
            i <= n,
            r@ == spec_strip(raw@.take(i as int)),
        decreases n - i,
    {
        let c = raw.get_char(i);
        let keep = !(c == '[' || c == ']' || c == ' ' || c == '"');
        if keep {
            crate::text::push_char(&mut r, c);
        }
        proof {
            reveal(Seq::filter);
            assert(raw@.take(i + 1).drop_last() =~= raw@.take(i as int));
            assert(raw@.take(i + 1).last() == raw@[i as int]);
        }
        i += 1;
    }
    proof {
        assert(raw@.take(n as int) =~= raw@);
    }
    r
}

/// Extract the answer word from a raw word-source payload.
///
/// Returns the stripped word when it has exactly [`WORD_LEN`] characters,
/// and `None` — a malformed response — otherwise.  A malformed response
/// produces no answer and hence no game.
pub fn parse_answer(raw: &str) -> (r: Option<String>)
    ensures
        r is Some <==> spec_strip(raw@).len() == WORD_LEN,
        r matches Some(w) ==> w@ == spec_strip(raw@),
{
    let stripped = strip_response(raw);
    if stripped.as_str().unicode_len() == WORD_LEN {
        Some(stripped)
    } else {
        None
    }
}

} // verus!
