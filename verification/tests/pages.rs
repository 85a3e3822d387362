use scale_quiz::music::circle_of_fifths;
use scale_quiz::music::ScaleType;
use scale_quiz::pages::coming_soon;
use scale_quiz::pages::handle;
use scale_quiz::pages::interval_quiz;
use scale_quiz::pages::main_page;
use scale_quiz::pages::quiz_page;
use scale_quiz::pages::Action;
use scale_quiz::pages::Key;
use scale_quiz::pages::Page;
use scale_quiz::pages::PageState;
use scale_quiz::pages::ScreenKind;

const MAIN_TEXT: &str = "=== Music Theory Quiz Game ===\n\nWhat would you like to do?\n\n[1] Scale Types\n[2] Intervals\n[3] Chords\n\n[q] Quit";

fn expect_render(a: Action) -> Page {
    match a {
        Action::Render(p) => p,
        Action::Noop => panic!("expected a new page, got a no-op"),
        Action::Destroy => panic!("expected a new page, got termination"),
    }
}

/// Checks the fixed structure of a quiz page's text and state.
fn assert_quiz_page(p: &Page) {
    assert_eq!(p.kind, ScreenKind::Quiz);
    assert!(p.state.correct_choice >= 1 && p.state.correct_choice <= 7);
    assert_eq!(
        ScaleType::all()[p.state.correct_choice - 1],
        p.state.scale.scale_type()
    );
    let expected = format!(
        "What kind of scale is this?\n\n{}\n\n[1] Major\n[2] Minor\n[3] Dorian\n[4] Phrygian\n[5] Lydian\n[6] Mixolydian\n[7] Locrian\n\n[m] Main Menu\n[q] Quit",
        p.state.scale.string()
    );
    assert_eq!(p.text, expected);
    // Exactly 7 numbered choice lines, and exactly one scale display line.
    let lines: Vec<&str> = p.text.lines().collect();
    assert_eq!(lines.len(), 14);
    let numbered = lines
        .iter()
        .filter(|l| {
            let cs: Vec<char> = l.chars().collect();
            cs.len() > 2 && cs[0] == '[' && cs[1].is_ascii_digit() && cs[2] == ']'
        })
        .count();
    assert_eq!(numbered, 7);
    assert_eq!(lines[2], p.state.scale.string());
    // The tonic comes from the circle-of-fifths pool.
    let tonic = p.state.scale.tonic();
    assert!(circle_of_fifths()
        .iter()
        .any(|n| n.spelling == tonic.spelling && n.pitch_class == tonic.pitch_class));
}

#[test]
fn empty_state_holds_c_major() {
    let s = PageState::empty();
    assert_eq!(s.correct_choice, 0);
    assert_eq!(s.scale.scale_type(), ScaleType::Major);
    assert_eq!(s.scale.string(), "C D E F G A B");
}

#[test]
fn main_menu_contents() {
    let p = main_page();
    assert_eq!(p.kind, ScreenKind::MainMenu);
    assert_eq!(p.text, MAIN_TEXT);
}

#[test]
fn main_menu_unrecognized_key_is_noop() {
    let p = main_page();
    assert!(matches!(handle(&p, Key::Char('x')), Action::Noop));
    assert!(matches!(handle(&p, Key::Char('9')), Action::Noop));
    assert!(matches!(handle(&p, Key::Char(' ')), Action::Noop));
    assert!(matches!(handle(&p, Key::Other), Action::Noop));
    // The page itself was only borrowed: it is still the main menu.
    assert_eq!(p.text, MAIN_TEXT);
    assert_eq!(p.kind, ScreenKind::MainMenu);
}

#[test]
fn main_menu_quit() {
    let p = main_page();
    assert!(matches!(handle(&p, Key::Char('q')), Action::Destroy));
    assert!(matches!(handle(&p, Key::Char('Q')), Action::Destroy));
}

#[test]
fn main_menu_placeholder_screens() {
    let p = main_page();
    for key in ['2', '3'] {
        let next = expect_render(handle(&p, Key::Char(key)));
        assert_eq!(next.kind, ScreenKind::ComingSoon);
        assert_eq!(next.text, "coming soon...\n\npress any key to continue");
    }
}

#[test]
fn main_menu_opens_quiz() {
    let p = main_page();
    let quiz = expect_render(handle(&p, Key::Char('1')));
    assert_quiz_page(&quiz);
}

#[test]
fn coming_soon_returns_to_menu() {
    let c = coming_soon();
    for key in [Key::Char('x'), Key::Char('q'), Key::Other] {
        let next = expect_render(handle(&c, key));
        assert_eq!(next.kind, ScreenKind::MainMenu);
        assert_eq!(next.text, MAIN_TEXT);
    }
}

#[test]
fn correct_choice_matches_enumeration_for_all_types() {
    for i in 0..7 {
        let p = quiz_page(0, i);
        assert_eq!(p.state.correct_choice, i + 1);
        assert_eq!(p.state.scale.scale_type(), ScaleType::all()[i]);
        assert_quiz_page(&p);
    }
}

#[test]
fn quiz_page_is_deterministic_in_its_indices() {
    // Tonic index 1 is F; type index 0 is Major.
    let p = quiz_page(1, 0);
    assert_eq!(p.state.scale.string(), "F G A B♭ C D E");
    assert_eq!(p.state.correct_choice, 1);
}

#[test]
fn quiz_correct_answer_feedback() {
    let p = quiz_page(1, 0);
    let f = expect_render(handle(&p, Key::Char('1')));
    assert_eq!(f.kind, ScreenKind::Feedback);
    let expected = format!(
        "✅ That is correct\n\n{} is a Major scale\n\nPress any key to continue",
        p.state.scale.string()
    );
    assert_eq!(f.text, expected);
    assert_eq!(f.state.correct_choice, p.state.correct_choice);
    assert_eq!(f.state.scale.string(), p.state.scale.string());
}

#[test]
fn quiz_incorrect_answer_feedback() {
    let p = quiz_page(2, 1);
    let f = expect_render(handle(&p, Key::Char('5')));
    assert_eq!(f.kind, ScreenKind::Feedback);
    let expected = format!(
        "❌ That's not correct\n\n{} is a Minor scale\n\nPress any key to continue",
        p.state.scale.string()
    );
    assert_eq!(f.text, expected);
}

#[test]
fn quiz_out_of_range_digits_are_incorrect() {
    let p = quiz_page(0, 0);
    for key in ['0', '8', '9'] {
        let f = expect_render(handle(&p, Key::Char(key)));
        assert_eq!(f.kind, ScreenKind::Feedback);
        assert!(f.text.starts_with("❌ That's not correct"));
    }
}

#[test]
fn quiz_navigation_keys() {
    let p = quiz_page(3, 4);
    for key in ['m', 'M'] {
        let menu = expect_render(handle(&p, Key::Char(key)));
        assert_eq!(menu.kind, ScreenKind::MainMenu);
        assert_eq!(menu.text, MAIN_TEXT);
    }
    assert!(matches!(handle(&p, Key::Char('q')), Action::Destroy));
    assert!(matches!(handle(&p, Key::Char('Q')), Action::Destroy));
    assert!(matches!(handle(&p, Key::Char('x')), Action::Noop));
    assert!(matches!(handle(&p, Key::Other), Action::Noop));
}

#[test]
fn feedback_any_key_starts_new_question() {
    let p = quiz_page(4, 2);
    let f = expect_render(handle(&p, Key::Char('3')));
    for key in [Key::Char('x'), Key::Char('1'), Key::Other] {
        let next = expect_render(handle(&f, key));
        assert_quiz_page(&next);
    }
}

#[test]
fn feedback_quit_terminates() {
    let p = quiz_page(5, 6);
    let f = expect_render(handle(&p, Key::Char('7')));
    assert!(matches!(handle(&f, Key::Char('q')), Action::Destroy));
    assert!(matches!(handle(&f, Key::Char('Q')), Action::Destroy));
}

#[test]
fn random_quiz_is_well_formed() {
    for _ in 0..50 {
        let p = interval_quiz();
        assert_quiz_page(&p);
    }
}
