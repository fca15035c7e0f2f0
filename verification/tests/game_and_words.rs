use wordle::game::validate_guess;
use wordle::game::Announcement;
use wordle::game::Game;
use wordle::game::GameState;
use wordle::game::Outcome;
use wordle::text::words_equal;
use wordle::words::parse_answer;
use wordle::words::strip_response;

#[test]
fn game_ends_after_at_most_six_attempts() {
    let mut game = Game::new(String::from("apple"), false);
    let mut turns = 0;
    loop {
        let turn = game.play_turn("wrong");
        turns += 1;
        if !matches!(turn.announcement, Announcement::Continue) {
            break;
        }
        assert!(turns < 6, "game still running after six attempts");
    }
    assert_eq!(turns, 6);
}

#[test]
fn win_on_the_sixth_attempt_beats_the_loss() {
    let mut game = Game::new(String::from("apple"), false);
    for _ in 0..5 {
        let turn = game.play_turn("wrong");
        assert!(matches!(turn.announcement, Announcement::Continue));
    }
    let turn = game.play_turn("apple");
    assert!(matches!(turn.announcement, Announcement::Win));
    assert_eq!(game.state.outcome, Outcome::Won);
    assert_eq!(game.state.attempts_used, 5);
}

#[test]
fn win_does_not_spend_an_attempt() {
    let mut game = Game::new(String::from("apple"), false);
    let turn = game.play_turn("apple");
    assert!(matches!(turn.announcement, Announcement::Win));
    assert_eq!(game.state.attempts_used, 0);
}

#[test]
fn six_misses_lose_and_reveal_the_answer() {
    let mut game = Game::new(String::from("apple"), false);
    for _ in 0..5 {
        let turn = game.play_turn("wrong");
        assert!(matches!(turn.announcement, Announcement::Continue));
        assert_eq!(game.state.outcome, Outcome::InProgress);
    }
    let turn = game.play_turn("wrong");
    match turn.announcement {
        Announcement::Loss(revealed) => assert_eq!(revealed, "apple"),
        _ => panic!("sixth miss must lose the game"),
    }
    assert_eq!(game.state.outcome, Outcome::Lost);
    assert_eq!(game.state.attempts_used, 6);
}

#[test]
fn plain_line_follows_the_plain_output_mode() {
    let mut with_plain = Game::new(String::from("apple"), true);
    let turn = with_plain.play_turn("alpha");
    assert_eq!(turn.plain_line.as_deref(), Some("GYGBY"));

    let mut without_plain = Game::new(String::from("apple"), false);
    let turn = without_plain.play_turn("alpha");
    assert!(turn.plain_line.is_none());
}

#[test]
fn initial_state_is_fresh() {
    let s = GameState::initial();
    assert_eq!(s.attempts_used, 0);
    assert_eq!(s.outcome, Outcome::InProgress);
}

#[test]
fn step_spends_attempts_and_decides() {
    let s = GameState::initial();
    let s1 = s.step(false);
    assert_eq!(s1.attempts_used, 1);
    assert_eq!(s1.outcome, Outcome::InProgress);
    let won = s1.step(true);
    assert_eq!(won.outcome, Outcome::Won);
    assert_eq!(won.attempts_used, 1);
    let mut s = GameState::initial();
    for _ in 0..6 {
        s = s.step(false);
    }
    assert_eq!(s.outcome, Outcome::Lost);
    assert_eq!(s.attempts_used, 6);
}

#[test]
fn strip_response_sheds_delimiters_only() {
    assert_eq!(strip_response("[\"apple\"]"), "apple");
    assert_eq!(strip_response("[ \"crane\" ]"), "crane");
    assert_eq!(strip_response("plain"), "plain");
    assert_eq!(strip_response("[]\" "), "");
    assert_eq!(strip_response(""), "");
}

#[test]
fn parse_answer_accepts_exactly_five_letters() {
    assert_eq!(parse_answer("[\"apple\"]").as_deref(), Some("apple"));
    assert_eq!(parse_answer("crane").as_deref(), Some("crane"));
    assert_eq!(parse_answer(""), None);
    assert_eq!(parse_answer("[\"\"]"), None);
    assert_eq!(parse_answer("[\"toolong\"]"), None);
    assert_eq!(parse_answer("[\"abc\"]"), None);
    assert_eq!(parse_answer("<html>service down</html>"), None);
}

#[test]
fn words_equal_is_exact_and_case_sensitive() {
    assert!(words_equal("apple", "apple"));
    assert!(!words_equal("apple", "Apple"));
    assert!(!words_equal("apple", "appl"));
    assert!(!words_equal("", "a"));
    assert!(words_equal("", ""));
}

#[test]
fn guess_validation_wants_exactly_five_characters() {
    assert!(validate_guess("apple"));
    assert!(!validate_guess(""));
    assert!(!validate_guess("appl"));
    assert!(!validate_guess("apples"));
}
