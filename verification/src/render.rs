//! Rendering a classification as a user-facing feedback line.
//!
//! Two modes exist.  Plain mode emits one code letter per position — `G`
//! for correct, `Y` for present, `B` for absent — independent of the
//! guessed letter itself.  Colored mode emits the guessed letters, each
//! styled according to its verdict; whether the styling actually appears
//! depends on the terminal environment, so its contract promises, for
//! every position, either the bare letter or the letter in its verdict's
//! exact ANSI style.

use vstd::prelude::*;
use crate::classify::Tag;
use crate::classify::spec_classify;
use colored::Colorize;

verus! {

/// The plain-mode code letter for one verdict.
pub open spec fn code_char(t: Tag) -> char {
    match t {
        Tag::Correct => 'G',
        Tag::Present => 'Y',
        Tag::Absent => 'B',
    }
}

/// The plain-mode feedback line: one code letter per position.
pub open spec fn spec_codes(tags: Seq<Tag>) -> Seq<char> {
    Seq::new(tags.len(), |i: int| code_char(tags[i]))
}

/// Plain-mode feedback for one guess: a line of `G`, `Y` and `B` codes,
/// one per position, following the classification of the guess against
/// the answer.
pub fn no_color_wordle_check(guess: &str, answer: &str) -> (r: String)
    requires
        guess@.len() == answer@.len(),
    ensures
        r@ == spec_codes(spec_classify(guess@, answer@)),
{
    let tags = crate::classify::classify(guess, answer);
    let mut r = String::new();
    let mut i: usize = 0;
    while i < tags.len()
        invariant
            tags@ == spec_classify(guess@, answer@),
            i <= tags@.len(),
            r@.len() == i,
            forall|j: int| 0 <= j < i ==> r@[j] == code_char(tags@[j]),
        decreases tags@.len() - i,
    {
        let c = match tags[i] {
            Tag::Correct => 'G',
            Tag::Present => 'Y',
            Tag::Absent => 'B',
        };
        crate::text::push_char(&mut r, c);
        i += 1;
    }
    proof {
        assert(r@ =~= spec_codes(spec_classify(guess@, answer@)));
    }
    r
}

/// The ANSI reset sequence that ends every styled fragment.
pub open spec fn ansi_reset() -> Seq<char> {
    seq!['\u{1b}', '[', '0', 'm']
}

/// How a verdict opens its styled fragment: bright green on `Correct`,
/// bright yellow on `Present`, bright white on `Absent`.
pub open spec fn style_prefix(t: Tag) -> Seq<char> {
    match t {
        Tag::Correct => seq!['\u{1b}', '[', '9', '2', 'm'],
        Tag::Present => seq!['\u{1b}', '[', '9', '3', 'm'],
        Tag::Absent => seq!['\u{1b}', '[', '9', '7', 'm'],
    }
}

/// One rendered fragment for the letter `c` under verdict `t`: the bare
/// letter when the environment suppresses color, and otherwise exactly the
/// verdict's style prefix, the letter, and the reset sequence.
pub open spec fn is_fragment(frag: Seq<char>, c: char, t: Tag) -> bool {
    frag == seq![c] || frag == style_prefix(t) + seq![c] + ansi_reset()
}

/// A colored feedback line for `letters` with verdicts `tags`: one
/// fragment per position, each rendering that position's letter under
/// that position's verdict, concatenated in order.
pub open spec fn is_feedback_line(line: Seq<char>, letters: Seq<char>, tags: Seq<Tag>) -> bool {
    exists|frags: Seq<Seq<char>>|
        {
            &&& frags.len() == letters.len()
            &&& (forall|i: int|
                0 <= i < letters.len() ==> is_fragment(#[trigger] frags[i], letters[i], tags[i]))
            &&& line == frags.flatten()
        }
}

/// Relies on `colored::Colorize::bright_green` and `ColoredString`'s
/// `Display` impl: with color suppressed the rendered text is the bare
/// input, and otherwise exactly the bright-green prefix `ESC[92m`, the
/// input, and the reset `ESC[0m`.  A single character cannot contain a
/// reset sequence, so no inner escaping occurs.
#[verifier::external_body]
fn bright_green_char(c: char) -> (r: String)
    ensures
        is_fragment(r@, c, Tag::Correct),
{
    format!("{}", c.to_string().as_str().bright_green())
}

/// Relies on `colored::Colorize::bright_yellow`, as for the green
/// fragment: the rendered text is the bare input character, or exactly
/// the bright-yellow prefix `ESC[93m`, the character, and the reset.
#[verifier::external_body]
fn bright_yellow_char(c: char) -> (r: String)
    ensures
        is_fragment(r@, c, Tag::Present),
{
    format!("{}", c.to_string().as_str().bright_yellow())
}

/// Relies on `colored::Colorize::bright_white`, as for the green
/// fragment: the rendered text is the bare input character, or exactly
/// the bright-white prefix `ESC[97m`, the character, and the reset.
#[verifier::external_body]
fn bright_white_char(c: char) -> (r: String)
    ensures
        is_fragment(r@, c, Tag::Absent),
{
    format!("{}", c.to_string().as_str().bright_white())
}

/// Colored feedback for one guess: every guessed letter in order, each
/// styled by its verdict — bright green for correct, bright yellow for
/// present, bright white for absent — with the styling left off where the
/// environment suppresses color.
pub fn wordle_check(guess: &str, answer: &str) -> (r: String)
    requires
        guess@.len() == answer@.len(),
    ensures
        is_feedback_line(r@, guess@, spec_classify(guess@, answer@)),
{
    let tags = crate::classify::classify(guess, answer);
    let mut r = String::new();
    let ghost mut frags: Seq<Seq<char>> = Seq::empty();
    let mut i: usize = 0;
    while i < tags.len()
        invariant
            tags@ == spec_classify(guess@, answer@),
            tags@.len() == guess@.len(),
            i <= tags@.len(),
            frags.len() == i,
            forall|j: int| 0 <= j < i ==> is_fragment(#[trigger] frags[j], guess@[j], tags@[j]),
            r@ == frags.flatten(),
        decreases tags@.len() - i,
    {
        let c = guess.get_char(i);
        let frag = match tags[i] {
            Tag::Correct => bright_green_char(c),
            Tag::Present => bright_yellow_char(c),
            Tag::Absent => bright_white_char(c),
        };
        proof {
            frags.lemma_flatten_push(frag@);
        }
        r.append(frag.as_str());
        proof {
            frags = frags.push(frag@);
            assert(r@ =~= frags.flatten());
        }
        i += 1;
    }
    r
}

} // verus!
