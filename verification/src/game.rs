//! The game loop's state machine: attempt counting, win and loss.
//!
//! One game plays up to [`ATTEMPTS_MAX`] attempts.  A guess equal to the
//! answer wins on that exact attempt — even the last one; a failed final
//! attempt loses and reveals the answer.  The surrounding binary only
//! prompts, prints and stops when told to: every decision is made here.

use vstd::prelude::*;
use crate::classify::spec_classify;
use crate::render::spec_codes;
use crate::render::is_feedback_line;
use crate::render::no_color_wordle_check;
use crate::render::wordle_check;
use crate::text::words_equal;
use crate::words::WORD_LEN;

verus! {

/// A game allows at most this many attempts.
pub const ATTEMPTS_MAX: u32 = 6;

/// Where one game stands.
#[derive(Clone, Copy, PartialEq, Eq, Structural, Debug)]
pub enum Outcome {
    /// Attempts remain and the answer has not been guessed yet.
    InProgress,
    /// A guess matched the answer.
    Won,
    /// Every attempt was spent without a match.
    Lost,
}

/// Attempt counter and outcome of one game.
#[derive(Clone, Copy, PartialEq, Eq, Structural, Debug)]
pub struct GameState {
    /// Failed attempts so far.
    pub attempts_used: u32,
    /// Where the game stands.
    pub outcome: Outcome,
}

impl GameState {
    /// The states a game can actually be in: the attempt counter never
    /// passes the limit, a running game has an attempt left, and a lost
    /// game has spent them all.
    pub open spec fn wf(self) -> bool {
        &&& self.attempts_used <= ATTEMPTS_MAX
        &&& (self.outcome is InProgress ==> self.attempts_used < ATTEMPTS_MAX)
        &&& (self.outcome is Lost ==> self.attempts_used == ATTEMPTS_MAX)
    }

    /// The state before the first attempt.
    pub open spec fn spec_initial() -> GameState {
        GameState { attempts_used: 0, outcome: Outcome::InProgress }
    }

    /// The state before the first attempt.
    pub fn initial() -> (s: GameState)
        ensures
            s == Self::spec_initial(),
    {
        GameState { attempts_used: 0, outcome: Outcome::InProgress }
    }

    /// One attempt of a running game: a match wins at once, leaving the
    /// counter untouched; a miss spends an attempt, and spending the last
    /// one loses the game.
    pub open spec fn spec_step(self, matched: bool) -> GameState {
        if matched {
            GameState { attempts_used: self.attempts_used, outcome: Outcome::Won }
        } else if self.attempts_used + 1 == ATTEMPTS_MAX {
            GameState { attempts_used: ATTEMPTS_MAX, outcome: Outcome::Lost }
        } else {
            GameState {
                attempts_used: (self.attempts_used + 1) as u32,
                outcome: Outcome::InProgress,
            }
        }
    }

    /// One attempt of a running game.
    pub fn step(self, matched: bool) -> (next: GameState)
        requires
            self.wf(),
            self.outcome is InProgress,
        ensures
            next == self.spec_step(matched),
            next.wf(),
    {
        if matched {
            GameState { attempts_used: self.attempts_used, outcome: Outcome::Won }
        } else if self.attempts_used + 1 == ATTEMPTS_MAX {
            GameState { attempts_used: ATTEMPTS_MAX, outcome: Outcome::Lost }
        } else {
            GameState { attempts_used: self.attempts_used + 1, outcome: Outcome::InProgress }
        }
    }

    /// The state after playing the match results in `results` in order,
    /// stopping at the first terminal state.
    pub open spec fn play(self, results: Seq<bool>) -> GameState
        decreases results.len(),
    {
        if results.len() == 0 || !(self.outcome is InProgress) {
            self
        } else {
            self.spec_step(results[0]).play(results.drop_first())
        }
    }

    /// Playing preserves well-formedness, and a game still in progress
    /// afterwards has spent one attempt per result played.
    pub proof fn lemma_play_spends_attempts(self, results: Seq<bool>)
        requires
            self.wf(),
        ensures
            self.play(results).wf(),
            self.play(results).outcome is InProgress ==> self.play(results).attempts_used
                == self.attempts_used + results.len(),
        decreases results.len(),
    {
        if results.len() == 0 || !(self.outcome is InProgress) {
        } else {
            self.spec_step(results[0]).lemma_play_spends_attempts(results.drop_first());
        }
    }
}

/// A game from the start is decided within the attempt limit: playing six
/// match results leaves no game in progress.
pub proof fn lemma_game_ends_within_attempt_limit(results: Seq<bool>)
    requires
        results.len() >= ATTEMPTS_MAX,
    ensures
        !(GameState::spec_initial().play(results).outcome is InProgress),
{
    GameState::spec_initial().lemma_play_spends_attempts(results);
}

/// A match wins on the exact attempt it is played — even the last one —
/// without spending the attempt counter.
pub proof fn lemma_match_wins_any_attempt(s: GameState)
    requires
        s.wf(),
        s.outcome is InProgress,
    ensures
        s.spec_step(true).outcome is Won,
        s.spec_step(true).attempts_used == s.attempts_used,
{
}

/// Six misses in a row from the start lose the game, and not earlier: the
/// game is still in progress after every shorter run of misses.
pub proof fn lemma_six_misses_lose(results: Seq<bool>)
    requires
        results.len() == ATTEMPTS_MAX,
        forall|i: int| 0 <= i < results.len() ==> !results[i],
    ensures
        GameState::spec_initial().play(results).outcome is Lost,
        forall|n: int|
            0 <= n < results.len() ==> GameState::spec_initial().play(
                #[trigger] results.take(n),
            ).outcome is InProgress,
{
    assert forall|n: int| 0 <= n <= results.len() implies GameState::spec_initial().play(
        results.take(n),
    ) == (GameState { attempts_used: n as u32, outcome: if n == ATTEMPTS_MAX {
        Outcome::Lost
    } else {
        Outcome::InProgress
    } }) by {
        lemma_misses_count(GameState::spec_initial(), results.take(n));
    }
    assert(results.take(ATTEMPTS_MAX as int) =~= results);
}

/// Playing only misses from a running state spends exactly one attempt
/// per miss, losing exactly when the limit is reached.
proof fn lemma_misses_count(s: GameState, results: Seq<bool>)
    requires
        s.wf(),
        s.outcome is InProgress,
        forall|i: int| 0 <= i < results.len() ==> !results[i],
        s.attempts_used + results.len() <= ATTEMPTS_MAX,
    ensures
        s.play(results) == (GameState {
            attempts_used: (s.attempts_used + results.len()) as u32,
            outcome: if s.attempts_used + results.len() == ATTEMPTS_MAX {
                Outcome::Lost
            } else {
                Outcome::InProgress
            },
        }),
    decreases results.len(),
{
    if results.len() == 0 {
    } else {
        let next = s.spec_step(results[0]);
        if next.outcome is InProgress {
            lemma_misses_count(next, results.drop_first());
        } else {
            assert(results.drop_first().len() == 0);
        }
    }
}

/// What one attempt hands back to the caller beyond the feedback lines.
pub enum Announcement {
    /// The game goes on: prompt for the next guess.
    Continue,
    /// The guess matched the answer: announce the win and stop.
    Win,
    /// The last attempt was spent: announce the loss, reveal the carried
    /// answer, and stop.
    Loss(String),
}

/// What one attempt produces: the feedback lines to print and the
/// announcement to act on.
pub struct Turn {
    /// The plain `G`/`Y`/`B` line; present exactly when plain output was
    /// asked for at the start of the game.
    pub plain_line: Option<String>,
    /// The colored line: every guessed letter, styled by its verdict.
    pub colored_line: String,
    /// Win, loss, or carry on.
    pub announcement: Announcement,
}

/// One game: the secret answer, the output mode, and the running state.
pub struct Game {
    /// The secret answer, fixed for the whole game.
    pub answer: String,
    /// Whether the plain code line is emitted alongside the colored line.
    pub plain_output: bool,
    /// Attempts and outcome so far.
    pub state: GameState,
}

impl Game {
    /// A game that can be played: a five-letter answer and a reachable
    /// state.
    pub open spec fn wf(self) -> bool {
        &&& self.answer@.len() == WORD_LEN
        &&& self.state.wf()
    }

    /// Start a game on a freshly obtained answer.
    pub fn new(answer: String, plain_output: bool) -> (g: Game)
        requires
            answer@.len() == WORD_LEN,
        ensures
            g.wf(),
            g.answer == answer,
            g.plain_output == plain_output,
            g.state == GameState::spec_initial(),
    {
        Game { answer, plain_output, state: GameState::initial() }
    }

    /// Play one guess of a running game: classify it against the answer,
    /// build the feedback lines, and advance the state — a match wins on
    /// this exact attempt, a miss spends one, and a spent last attempt
    /// loses and reveals the answer.
    pub fn play_turn(&mut self, guess: &str) -> (t: Turn)
        requires
            old(self).wf(),
            old(self).state.outcome is InProgress,
            guess@.len() == WORD_LEN,
        ensures
            final(self).wf(),
            final(self).answer == old(self).answer,
            final(self).plain_output == old(self).plain_output,
            final(self).state == old(self).state.spec_step(guess@ == old(self).answer@),
            t.plain_line is Some <==> old(self).plain_output,
            t.plain_line matches Some(p) ==> p@ == spec_codes(
                spec_classify(guess@, old(self).answer@),
            ),
            is_feedback_line(t.colored_line@, guess@, spec_classify(guess@, old(self).answer@)),
            t.announcement is Win <==> guess@ == old(self).answer@,
            t.announcement is Loss <==> guess@ != old(self).answer@
                && final(self).state.outcome is Lost,
            t.announcement matches Announcement::Loss(w) ==> w@ == old(self).answer@,
            t.announcement is Continue <==> final(self).state.outcome is InProgress,
    {
        let plain_line = if self.plain_output {
            Some(no_color_wordle_check(guess, self.answer.as_str()))
        } else {
            None
        };
        let colored_line = wordle_check(guess, self.answer.as_str());
        let matched = words_equal(guess, self.answer.as_str());
        let next = self.state.step(matched);
        self.state = next;
        let announcement = if matched {
            Announcement::Win
        } else if next.attempts_used == ATTEMPTS_MAX {
            Announcement::Loss(self.answer.clone())
        } else {
            Announcement::Continue
        };
        Turn { plain_line, colored_line, announcement }
    }
}

/// The input collaborator's validation rule: a guess is accepted exactly
/// when it is five characters long (in particular, not empty).
pub fn validate_guess(word: &str) -> (r: bool)
    ensures
        r == (word@.len() == WORD_LEN),
{
    word.unicode_len() == WORD_LEN
}

} // verus!
