//! Per-letter evaluation of a guess against the answer.
//!
//! The `Present` verdict deliberately uses plain containment against the
//! whole answer, with no accounting for duplicate letters: if a letter
//! occurs once in the answer and twice in the guess, both guess positions
//! are marked `Present` (or `Correct`).  That simplification is part of the
//! game's contract, not an oversight.

use vstd::prelude::*;

verus! {

/// Verdict for one position of a guess.
#[derive(Clone, Copy, PartialEq, Eq, Structural, Debug)]
pub enum Tag {
    /// The right letter in the right position.
    Correct,
    /// A letter that occurs somewhere in the answer, but not at this position.
    Present,
    /// A letter that does not occur in the answer at all.
    Absent,
}

/// Whether `c` occurs anywhere in `answer`.
pub open spec fn answer_has(answer: Seq<char>, c: char) -> bool {
    exists|j: int| 0 <= j < answer.len() && answer[j] == c
}

/// The verdict for position `i` of `guess` against `answer`.
pub open spec fn tag_at(guess: Seq<char>, answer: Seq<char>, i: int) -> Tag {
    if guess[i] == answer[i] {
        Tag::Correct
    } else if answer_has(answer, guess[i]) {
        Tag::Present
    } else {
        Tag::Absent
    }
}

/// The verdicts for all positions of `guess` against `answer`.
pub open spec fn spec_classify(guess: Seq<char>, answer: Seq<char>) -> Seq<Tag> {
    Seq::new(guess.len(), |i: int| tag_at(guess, answer, i))
}

/// Whether the character `c` occurs anywhere in `s`.
pub fn contains_char(s: &str, c: char) -> (r: bool)
    ensures
        r == answer_has(s@, c),
{
    let n = s.unicode_len();
    let mut i: usize = 0;
    while i < n
        invariant
            n == s@.len(),
            i <= n,
            forall|j: int| 0 <= j < i ==> s@[j] != c,
        decreases n - i,
    {
        if s.get_char(i) == c {
            return true;
        }
        i += 1;
    }
    false
}

/// Classify every position of `guess` against `answer`.
///
/// Both words must have the same length; the game fixes both at five
/// letters, so a mismatch is a programming error rather than a runtime
/// path.
pub fn classify(guess: &str, answer: &str) -> (tags: Vec<Tag>)
    requires
        guess@.len() == answer@.len(),
    ensures
        tags@ == spec_classify(guess@, answer@),
{
    let n = guess.unicode_len();
    let mut tags: Vec<Tag> = Vec::new();
    let mut i: usize = 0;
    while i < n
        invariant
            n == guess@.len(),
            guess@.len() == answer@.len(),
            i <= n,
            tags@.len() == i,
            forall|j: int| 0 <= j < i ==> tags@[j] == tag_at(guess@, answer@, j),
        decreases n - i,
    {
        let g = guess.get_char(i);
        let t = if g == answer.get_char(i) {
            Tag::Correct
        } else if contains_char(answer, g) {
            Tag::Present
        } else {
            Tag::Absent
        };
        tags.push(t);
        i += 1;
    }
    proof {
        assert(tags@ =~= spec_classify(guess@, answer@));
    }
    tags
}

/// The classification is as long as the guess, and a position is `Correct`
/// exactly when guess and answer agree there.
pub proof fn lemma_classify_correct_iff_agree(guess: Seq<char>, answer: Seq<char>)
    requires
        guess.len() == answer.len(),
    ensures
        spec_classify(guess, answer).len() == guess.len(),
        forall|i: int|
            0 <= i < guess.len() ==> ((#[trigger] spec_classify(guess, answer)[i]) is Correct
                <==> guess[i] == answer[i]),
{
}

/// A guessed letter that occurs nowhere in the answer is marked `Absent`.
pub proof fn lemma_missing_letter_is_absent(guess: Seq<char>, answer: Seq<char>, i: int)
    requires
        guess.len() == answer.len(),
        0 <= i < guess.len(),
        !answer_has(answer, guess[i]),
    ensures
        spec_classify(guess, answer)[i] is Absent,
{
}

/// A guessed letter that occurs in the answer, though not at this position,
/// is marked `Present` — no matter how often it occurs in either word.
pub proof fn lemma_misplaced_letter_is_present(guess: Seq<char>, answer: Seq<char>, i: int)
    requires
        guess.len() == answer.len(),
        0 <= i < guess.len(),
        guess[i] != answer[i],
        answer_has(answer, guess[i]),
    ensures
        spec_classify(guess, answer)[i] is Present,
{
}

/// Classifying the answer against itself marks every position `Correct`.
pub proof fn lemma_self_classify_all_correct(answer: Seq<char>)
    ensures
        spec_classify(answer, answer) =~= Seq::new(answer.len(), |i: int| Tag::Correct),
{
}

} // verus!
