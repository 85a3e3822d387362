//! The page state machine: each screen is a freshly built page holding
//! its display text, its screen kind, and the carried quiz state. A
//! single dispatcher turns a page plus a key press into the next action;
//! the driving loop that renders text and reads keys lives outside the
//! library.

use vstd::prelude::*;

use rand::Rng;

use crate::music::all_types;
use crate::music::char_digit;
use crate::music::circle_of_fifths;
use crate::music::digit_char;
use crate::music::digit_str;
use crate::music::fifths_pool;
use crate::music::is_digit_char;
use crate::music::lemma_fifths_pool_wf;
use crate::music::lemma_type_index;
use crate::music::scale_notes;
use crate::music::scale_string;
use crate::music::type_index;
use crate::music::type_label;
use crate::music::Note;
use crate::music::Scale;
use crate::music::ScaleType;

verus! {

/// One key press, as the library sees it: a printable character, or any
/// other key.
#[derive(Clone, Copy, Debug, PartialEq, Eq, Structural)]
pub enum Key {
    Char(char),
    Other,
}

/// The kinds of screen the quiz can show.
#[derive(Clone, Copy, Debug, PartialEq, Eq, Structural)]
pub enum ScreenKind {
    MainMenu,
    ComingSoon,
    Quiz,
    Feedback,
}

/// The state a page carries across transitions: the active scale and the
/// 1-indexed number of the correct answer choice.
pub struct PageState {
    pub correct_choice: usize,
    pub scale: Scale,
}

/// A unit of interaction: the text to display, the kind of screen (which
/// fixes how keys are handled), and the carried state.
pub struct Page {
    pub text: String,
    pub kind: ScreenKind,
    pub state: PageState,
}

/// The outcome of handling one key press: ignore it, replace the current
/// page with a new one, or end the interaction loop.
pub enum Action {
    Noop,
    Render(Page),
    Destroy,
}

// ---------------------------------------------------------------------------
// Page text
// ---------------------------------------------------------------------------

/// The main menu's display text.
pub open spec fn main_menu_text() -> Seq<char> {
    "=== Music Theory Quiz Game ===\n\nWhat would you like to do?\n\n[1] Scale Types\n[2] Intervals\n[3] Chords\n\n[q] Quit"@
}

/// The placeholder screen's display text.
pub open spec fn coming_soon_text() -> Seq<char> {
    "coming soon...\n\npress any key to continue"@
}

/// One answer-choice line of the quiz screen: the 1-indexed position of
/// a scale type within the fixed enumeration, bracketed, then its label.
/// All lines but the last end in a newline.
pub open spec fn choice_line(j: int) -> Seq<char> {
    seq!['[', digit_char(j + 1), ']', ' '] + type_label(all_types()[j]) + (if j < 6 {
        seq!['\n']
    } else {
        Seq::<char>::empty()
    })
}

/// The first `i` answer-choice lines of the quiz screen, in enumeration
/// order.
pub open spec fn choice_lines(i: int) -> Seq<char>
    decreases i,
{
    if i <= 0 {
        Seq::<char>::empty()
    } else {
        choice_lines(i - 1) + choice_line(i - 1)
    }
}

/// The quiz screen's display text: the question, the rendered scale, the
/// seven answer choices, and the navigation footer.
pub open spec fn quiz_text(scale_str: Seq<char>) -> Seq<char> {
    "What kind of scale is this?\n\n"@ + scale_str + "\n\n"@ + choice_lines(7)
        + "\n\n[m] Main Menu\n[q] Quit"@
}

/// The feedback screen's display text: the verdict, then the rendered
/// scale and its true type.
pub open spec fn feedback_text(correct: bool, scale_str: Seq<char>, label: Seq<char>) -> Seq<
    char,
> {
    (if correct {
        "✅ That is correct\n\n"@
    } else {
        "❌ That's not correct\n\n"@
    }) + scale_str + " is a "@ + label + " scale\n\nPress any key to continue"@
}

// ---------------------------------------------------------------------------
// What each page is
// ---------------------------------------------------------------------------

/// A main menu page: the fixed menu text.
pub open spec fn is_main_page(p: Page) -> bool {
    &&& p.kind == ScreenKind::MainMenu
    &&& p.text@ == main_menu_text()
}

/// A placeholder page: the fixed "coming soon" text.
pub open spec fn is_coming_soon_page(p: Page) -> bool {
    &&& p.kind == ScreenKind::ComingSoon
    &&& p.text@ == coming_soon_text()
}

/// A quiz page: its scale is built on a tonic from the circle-of-fifths
/// pool, its recorded correct choice is the 1-indexed position of the
/// scale's type within the fixed enumeration, and its text displays that
/// scale with the seven choices.
pub open spec fn is_quiz_page(p: Page) -> bool {
    &&& p.kind == ScreenKind::Quiz
    &&& exists|t: int|
        0 <= t < 13 && p.state.scale.notes_spec() == scale_notes(
            #[trigger] fifths_pool()[t],
            p.state.scale.scale_type_spec(),
        )
    &&& p.state.correct_choice == type_index(p.state.scale.scale_type_spec()) + 1
    &&& p.text@ == quiz_text(scale_string(p.state.scale.notes_spec()))
}

/// A feedback page for an answer to `prior`: it keeps the prior carried
/// state and shows the verdict together with the scale and its true type.
pub open spec fn is_feedback_page(p: Page, prior: PageState, correct: bool) -> bool {
    &&& p.kind == ScreenKind::Feedback
    &&& p.state.correct_choice == prior.correct_choice
    &&& p.state.scale.notes_spec() == prior.scale.notes_spec()
    &&& p.state.scale.scale_type_spec() == prior.scale.scale_type_spec()
    &&& p.text@ == feedback_text(
        correct,
        scale_string(prior.scale.notes_spec()),
        type_label(prior.scale.scale_type_spec()),
    )
}

// ---------------------------------------------------------------------------
// Randomness
// ---------------------------------------------------------------------------

/// Relies on rand::thread_rng and rand::Rng::gen_range: gen_range yields
/// a value of the given half-open range, and rejects an empty range,
/// which the precondition rules out. Nothing is assumed about which
/// value comes back.
#[verifier::external_body]
fn random_below(n: usize) -> (r: usize)
    requires
        n > 0,
    ensures
        r < n,
{
    rand::thread_rng().gen_range(0..n)
}

// ---------------------------------------------------------------------------
// Page constructors
// ---------------------------------------------------------------------------

impl PageState {
    /// The carried state of pages that hold no live question: no correct
    /// choice, and the default C major scale.
    pub fn empty() -> (s: PageState)
        ensures
            s.correct_choice == 0,
            s.scale.scale_type_spec() == ScaleType::Major,
            s.scale.notes_spec() == scale_notes(
                (Note { spelling: 'C', pitch_class: 0 }),
                ScaleType::Major,
            ),
    {
        proof {
            reveal_strlit("C");
            assert("C"@.subrange(1, 1) =~= Seq::<char>::empty());
        }
        let tonic = Note::parse("C").unwrap();
        PageState { correct_choice: 0, scale: Scale::new(&tonic, ScaleType::Major) }
    }
}

/// Builds the main menu page.
pub fn main_page() -> (p: Page)
    ensures
        is_main_page(p),
{
    Page {
        text: String::from_str(
            "=== Music Theory Quiz Game ===\n\nWhat would you like to do?\n\n[1] Scale Types\n[2] Intervals\n[3] Chords\n\n[q] Quit",
        ),
        kind: ScreenKind::MainMenu,
        state: PageState::empty(),
    }
}

/// Builds the placeholder page for features that are not there yet.
pub fn coming_soon() -> (p: Page)
    ensures
        is_coming_soon_page(p),
{
    Page {
        text: String::from_str("coming soon...\n\npress any key to continue"),
        kind: ScreenKind::ComingSoon,
        state: PageState::empty(),
    }
}

/// Builds the quiz page for the given tonic-pool and scale-type indices:
/// the scale is constructed, the correct choice is recovered by searching
/// the fixed enumeration for the scale's own type, and the text lays out
/// the scale with the seven choices.
pub fn quiz_page(tonic_i: usize, type_i: usize) -> (p: Page)
    requires
        tonic_i < 13,
        type_i < 7,
    ensures
        is_quiz_page(p),
        p.state.scale.scale_type_spec() == all_types()[type_i as int],
        p.state.scale.notes_spec() == scale_notes(
            fifths_pool()[tonic_i as int],
            all_types()[type_i as int],
        ),
{
    let pool = circle_of_fifths();
    let tonic = pool[tonic_i];
    proof {
        lemma_fifths_pool_wf();
    }
    let types = ScaleType::all();
    let st = types[type_i];
    let scale = Scale::new(&tonic, st);
    let target = scale.scale_type();

    let mut idx: usize = 0;
    loop
        invariant
            types@ =~= all_types(),
            target == all_types()[type_i as int],
            type_i < 7,
            idx <= type_i,
            forall|k: int| 0 <= k < idx ==> all_types()[k] != target,
        ensures
            idx == type_i,
        decreases 7 - idx,
    {
        if types[idx] == target {
            proof {
                lemma_type_index(target);
            }
            break;
        }
        idx = idx + 1;
    }
    let correct_choice = idx + 1;
    proof {
        lemma_type_index(target);
    }

    let ghost scale_str = scale_string(scale.notes_spec());
    let mut text = String::from_str("What kind of scale is this?\n\n");
    let rendered = scale.string();
    text.append(rendered.as_str());
    text.append("\n\n");
    assert(text@ =~= "What kind of scale is this?\n\n"@ + scale_str + "\n\n"@ + choice_lines(0));
    let mut i: usize = 0;
    while i < 7
        invariant
            types@ =~= all_types(),
            i <= 7,
            text@ == "What kind of scale is this?\n\n"@ + scale_str + "\n\n"@ + choice_lines(
                i as int,
            ),
        decreases 7 - i,
    {
        proof {
            reveal_strlit("[");
            reveal_strlit("] ");
            reveal_strlit("\n");
        }
        text.append("[");
        text.append(digit_str((i + 1) as u8));
        text.append("] ");
        text.append(types[i].label());
        if i < 6 {
            text.append("\n");
        }
        proof {
            assert("["@ =~= seq!['[']);
            assert("] "@ =~= seq![']', ' ']);
            assert("\n"@ =~= seq!['\n']);
            assert(choice_lines(i as int + 1) =~= choice_lines(i as int) + choice_line(i as int));
            assert(text@ =~= "What kind of scale is this?\n\n"@ + scale_str + "\n\n"@
                + choice_lines(i as int + 1));
        }
        i = i + 1;
    }
    text.append("\n\n[m] Main Menu\n[q] Quit");
    assert(text@ =~= quiz_text(scale_str));

    let page = Page {
        text,
        kind: ScreenKind::Quiz,
        state: PageState { correct_choice, scale },
    };
    assert(0 <= tonic_i < 13 && page.state.scale.notes_spec() == scale_notes(
        fifths_pool()[tonic_i as int],
        page.state.scale.scale_type_spec(),
    ));
    page
}

/// Builds a quiz page for a fresh random question: a uniformly drawn
/// tonic from the 13-note pool and a uniformly drawn scale type.
pub fn interval_quiz() -> (p: Page)
    ensures
        is_quiz_page(p),
{
    let tonic_i = random_below(13);
    let type_i = random_below(7);
    quiz_page(tonic_i, type_i)
}

/// Builds the feedback page for an answer to the question in `state`:
/// the verdict, the scale spelled out with its true type, and the prior
/// state carried forward.
pub fn feedback_page(correct: bool, state: &PageState) -> (p: Page)
    ensures
        is_feedback_page(p, *state, correct),
{
    let mut text = if correct {
        String::from_str("✅ That is correct\n\n")
    } else {
        String::from_str("❌ That's not correct\n\n")
    };
    let rendered = state.scale.string();
    text.append(rendered.as_str());
    text.append(" is a ");
    text.append(state.scale.scale_type().label());
    text.append(" scale\n\nPress any key to continue");
    assert(text@ =~= feedback_text(
        correct,
        scale_string(state.scale.notes_spec()),
        type_label(state.scale.scale_type_spec()),
    ));
    Page {
        text,
        kind: ScreenKind::Feedback,
        state: PageState {
            correct_choice: state.correct_choice,
            scale: state.scale.clone(),
        },
    }
}

// ---------------------------------------------------------------------------
// Key dispatch
// ---------------------------------------------------------------------------

/// The value of a decimal digit key; `None` for any other character.
fn digit_value(c: char) -> (r: Option<u8>)
    ensures
        is_digit_char(c) ==> r == Some(char_digit(c) as u8),
        !is_digit_char(c) ==> r is None,
{
    let u = c as u32;
    if u >= 48 && u <= 57 {
        Some((u - 48) as u8)
    } else {
        None
    }
}

/// What handling a key at the main menu must yield: '1' opens a quiz,
/// '2' and '3' open the placeholder, 'q'/'Q' terminates, anything else is
/// a no-op that keeps the current page.
pub open spec fn main_menu_action(key: Key, a: Action) -> bool {
    match key {
        Key::Char(c) => if c == '1' {
            a matches Action::Render(p) && is_quiz_page(p)
        } else if c == '2' || c == '3' {
            a matches Action::Render(p) && is_coming_soon_page(p)
        } else if c == 'q' || c == 'Q' {
            a matches Action::Destroy
        } else {
            a matches Action::Noop
        },
        Key::Other => a matches Action::Noop,
    }
}

/// What handling a key at the quiz must yield: 'm'/'M' returns to the
/// menu, 'q'/'Q' terminates, a digit is compared against the recorded
/// correct choice and answered with a feedback page (digits outside 1..=7
/// simply never match), anything else is a no-op.
pub open spec fn quiz_action(state: PageState, key: Key, a: Action) -> bool {
    match key {
        Key::Char(c) => if c == 'm' || c == 'M' {
            a matches Action::Render(p) && is_main_page(p)
        } else if c == 'q' || c == 'Q' {
            a matches Action::Destroy
        } else if is_digit_char(c) {
            a matches Action::Render(p) && is_feedback_page(
                p,
                state,
                char_digit(c) == state.correct_choice,
            )
        } else {
            a matches Action::Noop
        },
        Key::Other => a matches Action::Noop,
    }
}

/// What handling a key at the feedback screen must yield: 'q'/'Q'
/// terminates, any other key discards the feedback state and opens a
/// brand-new random question.
pub open spec fn feedback_action(key: Key, a: Action) -> bool {
    match key {
        Key::Char(c) => if c == 'q' || c == 'Q' {
            a matches Action::Destroy
        } else {
            a matches Action::Render(p) && is_quiz_page(p)
        },
        Key::Other => a matches Action::Render(p) && is_quiz_page(p),
    }
}

/// Dispatches one key press against the current page and returns the
/// resulting action. Handlers perform no I/O: rendering belongs to the
/// driving loop.
pub fn handle(page: &Page, key: Key) -> (a: Action)
    ensures
        page.kind == ScreenKind::MainMenu ==> main_menu_action(key, a),
        page.kind == ScreenKind::ComingSoon ==> (a matches Action::Render(p) && is_main_page(p)),
        page.kind == ScreenKind::Quiz ==> quiz_action(page.state, key, a),
        page.kind == ScreenKind::Feedback ==> feedback_action(key, a),
{
    match page.kind {
        ScreenKind::MainMenu => match key {
            Key::Char(c) => {
                if c == '1' {
                    Action::Render(interval_quiz())
                } else if c == '2' || c == '3' {
                    Action::Render(coming_soon())
                } else if c == 'q' || c == 'Q' {
                    Action::Destroy
                } else {
                    Action::Noop
                }
            },
            Key::Other => Action::Noop,
        },
        ScreenKind::ComingSoon => Action::Render(main_page()),
        ScreenKind::Quiz => match key {
            Key::Char(c) => {
                if c == 'm' || c == 'M' {
                    Action::Render(main_page())
                } else if c == 'q' || c == 'Q' {
                    Action::Destroy
                } else {
                    match digit_value(c) {
                        Some(d) => {
                            let correct = d as usize == page.state.correct_choice;
                            Action::Render(feedback_page(correct, &page.state))
                        },
                        None => Action::Noop,
                    }
                }
            },
            Key::Other => Action::Noop,
        },
        ScreenKind::Feedback => match key {
            Key::Char(c) => {
                if c == 'q' || c == 'Q' {
                    Action::Destroy
                } else {
                    Action::Render(interval_quiz())
                }
            },
            Key::Other => Action::Render(interval_quiz()),
        },
    }
}

// ---------------------------------------------------------------------------
// Laws of the quiz pages
// ---------------------------------------------------------------------------

/// For every quiz page, the recorded correct choice is exactly the
/// 1-indexed position of the scale's true type within the fixed
/// enumeration — for all seven types, and for no other position.
pub proof fn lemma_correct_choice_is_enumeration_position(p: Page)
    requires
        is_quiz_page(p),
    ensures
        1 <= p.state.correct_choice <= 7,
        all_types()[p.state.correct_choice - 1] == p.state.scale.scale_type_spec(),
        forall|i: int|
            0 <= i < 7 && all_types()[i] == p.state.scale.scale_type_spec() ==> i + 1
                == p.state.correct_choice,
{
    lemma_type_index(p.state.scale.scale_type_spec());
}

/// The choices block of the quiz text lists all seven scale types, each
/// labeled by its 1-indexed enumeration position, one line each.
pub proof fn lemma_quiz_choices_listing()
    ensures
        choice_lines(7)
            == "[1] Major\n[2] Minor\n[3] Dorian\n[4] Phrygian\n[5] Lydian\n[6] Mixolydian\n[7] Locrian"@,
{
    reveal_strlit("[1] Major\n[2] Minor\n[3] Dorian\n[4] Phrygian\n[5] Lydian\n[6] Mixolydian\n[7] Locrian");
    reveal_strlit("Major");
    reveal_strlit("Minor");
    reveal_strlit("Dorian");
    reveal_strlit("Phrygian");
    reveal_strlit("Lydian");
    reveal_strlit("Mixolydian");
    reveal_strlit("Locrian");
    assert(choice_lines(0) =~= Seq::<char>::empty());
    assert(choice_lines(1) =~= choice_line(0));
    assert(choice_lines(2) =~= choice_lines(1) + choice_line(1));
    assert(choice_lines(3) =~= choice_lines(2) + choice_line(2));
    assert(choice_lines(4) =~= choice_lines(3) + choice_line(3));
    assert(choice_lines(5) =~= choice_lines(4) + choice_line(4));
    assert(choice_lines(6) =~= choice_lines(5) + choice_line(5));
    assert(choice_lines(7) =~= choice_lines(6) + choice_line(6));
    assert(choice_lines(7)
        =~= "[1] Major\n[2] Minor\n[3] Dorian\n[4] Phrygian\n[5] Lydian\n[6] Mixolydian\n[7] Locrian"@);
}

} // verus!
