use wordle::classify::classify;
use wordle::classify::contains_char;
use wordle::classify::Tag;
use wordle::render::no_color_wordle_check;
use wordle::render::wordle_check;

#[test]
fn classification_is_guess_length_and_correct_iff_agree() {
    let tags = classify("alpha", "apple");
    assert_eq!(tags.len(), 5);
    let guess: Vec<char> = "alpha".chars().collect();
    let answer: Vec<char> = "apple".chars().collect();
    for i in 0..5 {
        assert_eq!(tags[i] == Tag::Correct, guess[i] == answer[i]);
    }
}

#[test]
fn letter_not_in_answer_is_absent() {
    // neither 'z' nor 'q' nor 'x' occur in "crane"
    let tags = classify("zqxzq", "crane");
    assert_eq!(
        tags,
        vec![Tag::Absent, Tag::Absent, Tag::Absent, Tag::Absent, Tag::Absent]
    );
}

#[test]
fn misplaced_letter_is_present_even_when_duplicated() {
    // 'e' occurs once in "crane" yet both misplaced 'e's in the guess are
    // marked Present; the final 'e' sits in the right position.
    let tags = classify("geese", "crane");
    assert_eq!(
        tags,
        vec![Tag::Absent, Tag::Present, Tag::Present, Tag::Absent, Tag::Correct]
    );
}

#[test]
fn answer_against_itself_is_all_correct() {
    let tags = classify("apple", "apple");
    assert!(tags.iter().all(|t| *t == Tag::Correct));
    assert_eq!(no_color_wordle_check("apple", "apple"), "GGGGG");
}

#[test]
fn worked_example_alpha_against_apple() {
    let tags = classify("alpha", "apple");
    assert_eq!(
        tags,
        vec![Tag::Correct, Tag::Present, Tag::Correct, Tag::Absent, Tag::Present]
    );
    assert_eq!(no_color_wordle_check("alpha", "apple"), "GYGBY");
}

#[test]
fn worked_example_angle_against_apple() {
    // a matches, n and g are absent from "apple", l and e match in place
    assert_eq!(no_color_wordle_check("angle", "apple"), "GBBGG");
}

#[test]
fn contains_char_finds_letters() {
    assert!(contains_char("apple", 'p'));
    assert!(contains_char("apple", 'e'));
    assert!(!contains_char("apple", 'g'));
    assert!(!contains_char("", 'a'));
}

#[test]
fn colored_line_keeps_guess_letters_in_order() {
    // whatever styling the environment adds, the guessed letters appear in
    // the line, in order
    let line = wordle_check("alpha", "apple");
    let mut rest: &str = line.as_str();
    for c in "alpha".chars() {
        match rest.find(c) {
            Some(pos) => rest = &rest[pos + c.len_utf8()..],
            None => panic!("letter {:?} missing from colored line {:?}", c, line),
        }
    }
}

#[test]
fn colored_line_follows_color_override() {
    // with color forced off the line is exactly the guess; forced on, each
    // letter is wrapped in styling, so the line grows
    colored::control::set_override(false);
    let plain = wordle_check("alpha", "apple");
    assert_eq!(plain, "alpha");
    colored::control::set_override(true);
    let styled = wordle_check("alpha", "apple");
    assert_eq!(
        styled,
        "\u{1b}[92ma\u{1b}[0m\u{1b}[93ml\u{1b}[0m\u{1b}[92mp\u{1b}[0m\
         \u{1b}[97mh\u{1b}[0m\u{1b}[93ma\u{1b}[0m"
    );
    colored::control::unset_override();
}
