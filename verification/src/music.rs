//! The music-theory engine: natural letters, pitch classes, accidental
//! parsing, notes, pitches, and diatonic scale construction.

use vstd::prelude::*;

verus! {

// ---------------------------------------------------------------------------
// Natural letters and pitch classes
// ---------------------------------------------------------------------------

/// The natural letter of the alphabet A..G at position `i` (0-based).
pub open spec fn letter_at(i: int) -> char {
    if i == 0 {
        'A'
    } else if i == 1 {
        'B'
    } else if i == 2 {
        'C'
    } else if i == 3 {
        'D'
    } else if i == 4 {
        'E'
    } else if i == 5 {
        'F'
    } else {
        'G'
    }
}

/// The position of a natural letter within the alphabet A..G; 7 for
/// anything that is not a natural letter.
pub open spec fn letter_index(c: char) -> int {
    match c {
        'A' => 0,
        'B' => 1,
        'C' => 2,
        'D' => 3,
        'E' => 4,
        'F' => 5,
        'G' => 6,
        _ => 7,
    }
}

/// Whether `c` is one of the seven natural note letters.
pub open spec fn is_natural_letter(c: char) -> bool {
    letter_index(c) < 7
}

/// The semitone offset of a natural letter from C; 127 for anything that
/// is not a natural letter.
pub open spec fn natural_pitch_class(c: char) -> int {
    match c {
        'C' => 0,
        'D' => 2,
        'E' => 4,
        'F' => 5,
        'G' => 7,
        'A' => 9,
        'B' => 11,
        _ => 127,
    }
}

/// Looks up the semitone offset from C of a natural letter.
/// Any other character is an invalid note letter.
pub fn pitch_class(letter: char) -> (r: Option<u8>)
    ensures
        is_natural_letter(letter) ==> r == Some(natural_pitch_class(letter) as u8),
        !is_natural_letter(letter) ==> r is None,
{
    match letter {
        'C' => Some(0),
        'D' => Some(2),
        'E' => Some(4),
        'F' => Some(5),
        'G' => Some(7),
        'A' => Some(9),
        'B' => Some(11),
        _ => None,
    }
}

// ---------------------------------------------------------------------------
// Accidental suffixes
// ---------------------------------------------------------------------------

/// An error reported while parsing a note or pitch string.
#[derive(Clone, Copy, Debug, PartialEq, Eq, Structural)]
pub enum ParseError {
    /// The string does not start with one of the letters A..G.
    InvalidLetter,
    /// The accidental suffix is not one of the recognized spellings.
    InvalidAccidental,
    /// The octave part is missing, holds a non-digit, or is out of range.
    InvalidOctave,
}

/// The semitone adjustment spelled by an accidental suffix: empty means
/// natural, one or two sharp glyphs raise, one or two flat glyphs lower.
/// `None` for any other suffix.
pub open spec fn suffix_adjustment(s: Seq<char>) -> Option<int> {
    if s.len() == 0 {
        Some(0)
    } else if s.len() == 1 {
        if s[0] == '#' || s[0] == '♯' {
            Some(1)
        } else if s[0] == 'b' || s[0] == '♭' {
            Some(-1)
        } else if s[0] == '𝄪' {
            Some(2)
        } else if s[0] == '𝄫' {
            Some(-2)
        } else {
            None
        }
    } else if s.len() == 2 {
        if (s[0] == '#' && s[1] == '#') || (s[0] == '♯' && s[1] == '♯') {
            Some(2)
        } else if (s[0] == 'b' && s[1] == 'b') || (s[0] == '♭' && s[1] == '♭') {
            Some(-2)
        } else {
            None
        }
    } else {
        None
    }
}

/// Parses an accidental suffix ("", "#", "##", "b", "bb", or the Unicode
/// musical glyphs) into a semitone adjustment in -2..=2. An unrecognized
/// suffix is reported as an invalid accidental.
pub fn parse_adjustment(suffix: &str) -> (r: Result<i8, ParseError>)
    ensures
        match suffix_adjustment(suffix@) {
            Some(adj) => r == Ok::<i8, ParseError>(adj as i8),
            None => r == Err::<i8, ParseError>(ParseError::InvalidAccidental),
        },
{
    let n = suffix.unicode_len();
    if n == 0 {
        Ok(0)
    } else if n == 1 {
        let c = suffix.get_char(0);
        if c == '#' || c == '♯' {
            Ok(1)
        } else if c == 'b' || c == '♭' {
            Ok(-1)
        } else if c == '𝄪' {
            Ok(2)
        } else if c == '𝄫' {
            Ok(-2)
        } else {
            Err(ParseError::InvalidAccidental)
        }
    } else if n == 2 {
        let c0 = suffix.get_char(0);
        let c1 = suffix.get_char(1);
        if (c0 == '#' && c1 == '#') || (c0 == '♯' && c1 == '♯') {
            Ok(2)
        } else if (c0 == 'b' && c1 == 'b') || (c0 == '♭' && c1 == '♭') {
            Ok(-2)
        } else {
            Err(ParseError::InvalidAccidental)
        }
    } else {
        Err(ParseError::InvalidAccidental)
    }
}

// ---------------------------------------------------------------------------
// Notes
// ---------------------------------------------------------------------------

/// A note: a natural-letter spelling plus a pitch class, the semitone
/// distance from C reduced modulo 12. The accidental is not stored: it is
/// derived from the mismatch between the letter's natural pitch class and
/// the stored one.
#[derive(Clone, Copy, Debug, PartialEq, Eq, Structural)]
pub struct Note {
    pub spelling: char,
    pub pitch_class: u8,
}

/// The derived accidental of a note: the signed semitone difference
/// between its pitch class and its letter's natural pitch class, with the
/// enharmonic wraparound for pitch class 11 spelled as C (C flat).
pub open spec fn note_adjustment(n: Note) -> int {
    if n.pitch_class == 11 && n.spelling == 'C' {
        -1
    } else {
        n.pitch_class - natural_pitch_class(n.spelling)
    }
}

/// What parsing a note string yields: the first character must be a
/// natural letter, the rest an accidental suffix; the pitch class is the
/// letter's natural class shifted by the accidental, reduced modulo 12.
pub open spec fn parse_note_spec(s: Seq<char>) -> Result<Note, ParseError> {
    if s.len() == 0 || !is_natural_letter(s[0]) {
        Err(ParseError::InvalidLetter)
    } else {
        match suffix_adjustment(s.subrange(1, s.len() as int)) {
            Some(adj) => Ok(
                Note {
                    spelling: s[0],
                    pitch_class: ((natural_pitch_class(s[0]) + adj) % 12) as u8,
                },
            ),
            None => Err(ParseError::InvalidAccidental),
        }
    }
}

impl Note {
    /// A note is well formed when its spelling is a natural letter and its
    /// pitch class is reduced modulo 12.
    pub open spec fn wf(self) -> bool {
        is_natural_letter(self.spelling) && self.pitch_class < 12
    }

    /// Builds a note from a spelling and a pitch class, reducing the pitch
    /// class modulo 12.
    pub fn new(spelling: char, pitch_class: u8) -> (r: Note)
        ensures
            r.spelling == spelling,
            r.pitch_class == pitch_class % 12,
    {
        Note { spelling, pitch_class: pitch_class % 12 }
    }

    /// Parses a note from a letter plus an optional accidental suffix.
    pub fn parse(s: &str) -> (r: Result<Note, ParseError>)
        ensures
            r == parse_note_spec(s@),
            r matches Ok(n) ==> n.wf(),
    {
        let n = s.unicode_len();
        if n == 0 {
            return Err(ParseError::InvalidLetter);
        }
        let letter = s.get_char(0);
        let natural = match pitch_class(letter) {
            Some(p) => p,
            None => {
                return Err(ParseError::InvalidLetter);
            },
        };
        let suffix = s.substring_char(1, n);
        let adj = match parse_adjustment(suffix) {
            Ok(a) => a,
            Err(e) => {
                return Err(e);
            },
        };
        let shifted: i8 = natural as i8 + adj;
        let reduced: i8 = if shifted < 0 {
            shifted + 12
        } else {
            shifted % 12
        };
        assert(reduced as int == (natural_pitch_class(letter) + adj) % 12);
        Ok(Note { spelling: letter, pitch_class: reduced as u8 })
    }

    /// The derived accidental of this note, in semitones.
    pub fn adjustment(&self) -> (r: i8)
        requires
            self.wf(),
        ensures
            r as int == note_adjustment(*self),
    {
        if self.pitch_class == 11 && self.spelling == 'C' {
            -1
        } else {
            let natural = match pitch_class(self.spelling) {
                Some(p) => p,
                None => 0,
            };
            self.pitch_class as i8 - natural as i8
        }
    }

    /// Transposes this note up by `half_steps` semitones and respells it
    /// with the given letter; the pitch class stays reduced modulo 12.
    pub fn add(&self, half_steps: u8, spelling: char) -> (r: Note)
        requires
            self.pitch_class + half_steps <= u8::MAX,
        ensures
            r.spelling == spelling,
            r.pitch_class as int == (self.pitch_class + half_steps) % 12,
    {
        Note { spelling, pitch_class: (self.pitch_class + half_steps) % 12 }
    }

    /// How this note renders: its letter followed by the accidental glyph
    /// chosen by the derived adjustment; an adjustment beyond two
    /// semitones has no spelling and renders as "invalid".
    pub fn string(&self) -> (r: String)
        requires
            self.wf(),
        ensures
            r@ == note_string(*self),
    {
        let adj = self.adjustment();
        let letter = letter_str(self.spelling);
        let mut out = String::from_str(letter);
        if adj == 2 {
            proof {
                reveal_strlit("𝄪");
            }
            out.append("𝄪");
            assert(out@ =~= note_string(*self));
        } else if adj == 1 {
            proof {
                reveal_strlit("♯");
            }
            out.append("♯");
            assert(out@ =~= note_string(*self));
        } else if adj == 0 {
            assert(out@ =~= note_string(*self));
        } else if adj == -1 {
            proof {
                reveal_strlit("♭");
            }
            out.append("♭");
            assert(out@ =~= note_string(*self));
        } else if adj == -2 {
            proof {
                reveal_strlit("𝄫");
            }
            out.append("𝄫");
            assert(out@ =~= note_string(*self));
        } else {
            proof {
                reveal_strlit("invalid");
            }
            out = String::from_str("invalid");
        }
        out
    }
}

/// How a note renders: letter plus accidental glyphs, or "invalid" when
/// the derived adjustment lies outside -2..=2.
pub open spec fn note_string(n: Note) -> Seq<char> {
    let adj = note_adjustment(n);
    if adj == 2 {
        seq![n.spelling, '𝄪']
    } else if adj == 1 {
        seq![n.spelling, '♯']
    } else if adj == 0 {
        seq![n.spelling]
    } else if adj == -1 {
        seq![n.spelling, '♭']
    } else if adj == -2 {
        seq![n.spelling, '𝄫']
    } else {
        "invalid"@
    }
}

/// Returns a one-character string slice holding the given natural letter.
fn letter_str(c: char) -> (r: &'static str)
    requires
        is_natural_letter(c),
    ensures
        r@ =~= seq![c],
{
    match c {
        'A' => {
            proof {
                reveal_strlit("A");
            }
            "A"
        },
        'B' => {
            proof {
                reveal_strlit("B");
            }
            "B"
        },
        'C' => {
            proof {
                reveal_strlit("C");
            }
            "C"
        },
        'D' => {
            proof {
                reveal_strlit("D");
            }
            "D"
        },
        'E' => {
            proof {
                reveal_strlit("E");
            }
            "E"
        },
        'F' => {
            proof {
                reveal_strlit("F");
            }
            "F"
        },
        _ => {
            proof {
                reveal_strlit("G");
            }
            "G"
        },
    }
}

/// Returns the natural letter at the given alphabet position.
fn letter_of_index(i: usize) -> (r: char)
    requires
        i < 7,
    ensures
        r == letter_at(i as int),
{
    match i {
        0 => 'A',
        1 => 'B',
        2 => 'C',
        3 => 'D',
        4 => 'E',
        5 => 'F',
        _ => 'G',
    }
}

/// The 7-letter cyclic rotation of the natural alphabet beginning at the
/// given letter; empty when the letter is not natural.
pub fn base(letter: char) -> (r: Vec<char>)
    ensures
        is_natural_letter(letter) ==> {
            &&& r@.len() == 7
            &&& forall|j: int|
                0 <= j < 7 ==> r@[j] == letter_at((letter_index(letter) + j) % 7)
            &&& r@[0] == letter
        },
        !is_natural_letter(letter) ==> r@.len() == 0,
{
    let start: usize = match letter {
        'A' => 0,
        'B' => 1,
        'C' => 2,
        'D' => 3,
        'E' => 4,
        'F' => 5,
        'G' => 6,
        _ => {
            return Vec::new();
        },
    };
    let mut scale: Vec<char> = Vec::new();
    let mut j: usize = 0;
    while j < 7
        invariant
            start == letter_index(letter),
            is_natural_letter(letter),
            j <= 7,
            scale@.len() == j,
            forall|k: int| 0 <= k < j ==> scale@[k] == letter_at((letter_index(letter) + k) % 7),
        decreases 7 - j,
    {
        scale.push(letter_of_index((start + j) % 7));
        j = j + 1;
    }
    assert(letter_at(letter_index(letter) % 7) == letter);
    scale
}

// ---------------------------------------------------------------------------
// Scale types
// ---------------------------------------------------------------------------

/// The seven modal scale types, in their fixed enumeration order. That
/// order defines both the quiz's display numbering and its correctness
/// check, so the two can never drift apart.
#[derive(Clone, Copy, Debug, PartialEq, Eq, Structural)]
pub enum ScaleType {
    Major,
    Minor,
    Dorian,
    Phrygian,
    Lydian,
    Mixolydian,
    Locrian,
}

/// The 8-entry interval-step pattern of a scale type: semitone deltas for
/// the scale degrees, the first entry always 0.
pub open spec fn interval_pattern_spec(s: ScaleType) -> Seq<int> {
    match s {
        ScaleType::Major => seq![0, 2, 2, 1, 2, 2, 2, 1],
        ScaleType::Minor => seq![0, 2, 1, 2, 2, 1, 2, 2],
        ScaleType::Dorian => seq![0, 2, 1, 2, 2, 2, 1, 2],
        ScaleType::Phrygian => seq![0, 1, 2, 2, 2, 1, 2, 2],
        ScaleType::Lydian => seq![0, 2, 2, 2, 1, 2, 2, 1],
        ScaleType::Mixolydian => seq![0, 2, 2, 1, 2, 2, 1, 2],
        ScaleType::Locrian => seq![0, 1, 2, 2, 1, 2, 2, 2],
    }
}

/// The sum of the first `n` entries of a scale type's interval pattern:
/// the semitone distance of scale degree `n - 1` from the tonic.
pub open spec fn cumulative_steps(s: ScaleType, n: int) -> int
    decreases n,
{
    if n <= 0 {
        0
    } else {
        cumulative_steps(s, n - 1) + interval_pattern_spec(s)[n - 1]
    }
}

/// Every entry of every interval pattern is a step of 0, 1 or 2 semitones.
pub proof fn lemma_pattern_entry_bounds(s: ScaleType, i: int)
    requires
        0 <= i < 8,
    ensures
        0 <= interval_pattern_spec(s)[i] <= 2,
{
}

/// Cumulative interval sums stay within twice the number of entries taken.
pub proof fn lemma_cumulative_bounds(s: ScaleType, n: int)
    requires
        0 <= n <= 8,
    ensures
        0 <= cumulative_steps(s, n) <= 2 * n,
    decreases n,
{
    if n > 0 {
        lemma_cumulative_bounds(s, n - 1);
        lemma_pattern_entry_bounds(s, n - 1);
    }
}

/// The first entry of every interval pattern is 0, so degree 0 of any
/// scale sits on the tonic itself.
pub proof fn lemma_first_step_zero(s: ScaleType)
    ensures
        cumulative_steps(s, 1) == 0,
{
    assert(cumulative_steps(s, 0) == 0);
    assert(interval_pattern_spec(s)[0] == 0);
}

/// The seven scale types in their fixed enumeration order.
pub open spec fn all_types() -> Seq<ScaleType> {
    seq![
        ScaleType::Major,
        ScaleType::Minor,
        ScaleType::Dorian,
        ScaleType::Phrygian,
        ScaleType::Lydian,
        ScaleType::Mixolydian,
        ScaleType::Locrian,
    ]
}

/// The 0-based position of a scale type within the fixed enumeration.
pub open spec fn type_index(s: ScaleType) -> int {
    match s {
        ScaleType::Major => 0,
        ScaleType::Minor => 1,
        ScaleType::Dorian => 2,
        ScaleType::Phrygian => 3,
        ScaleType::Lydian => 4,
        ScaleType::Mixolydian => 5,
        ScaleType::Locrian => 6,
    }
}

/// `type_index` is exactly the position within `all_types`: the
/// enumeration holds each type once, at that index and nowhere else.
pub proof fn lemma_type_index(s: ScaleType)
    ensures
        0 <= type_index(s) < 7,
        all_types()[type_index(s)] == s,
        forall|i: int| 0 <= i < 7 && all_types()[i] == s ==> i == type_index(s),
{
}

/// The display label of a scale type.
pub open spec fn type_label(s: ScaleType) -> Seq<char> {
    match s {
        ScaleType::Major => "Major"@,
        ScaleType::Minor => "Minor"@,
        ScaleType::Dorian => "Dorian"@,
        ScaleType::Phrygian => "Phrygian"@,
        ScaleType::Lydian => "Lydian"@,
        ScaleType::Mixolydian => "Mixolydian"@,
        ScaleType::Locrian => "Locrian"@,
    }
}

impl ScaleType {
    /// The 8-element interval-step pattern of this scale type.
    pub fn interval_pattern(&self) -> (r: [u8; 8])
        ensures
            r@.len() == 8,
            forall|i: int| 0 <= i < 8 ==> r@[i] as int == interval_pattern_spec(*self)[i],
    {
        match self {
            ScaleType::Major => [0, 2, 2, 1, 2, 2, 2, 1],
            ScaleType::Minor => [0, 2, 1, 2, 2, 1, 2, 2],
            ScaleType::Dorian => [0, 2, 1, 2, 2, 2, 1, 2],
            ScaleType::Phrygian => [0, 1, 2, 2, 2, 1, 2, 2],
            ScaleType::Lydian => [0, 2, 2, 2, 1, 2, 2, 1],
            ScaleType::Mixolydian => [0, 2, 2, 1, 2, 2, 1, 2],
            ScaleType::Locrian => [0, 1, 2, 2, 1, 2, 2, 2],
        }
    }

    /// All seven scale types, in the fixed enumeration order.
    pub fn all() -> (r: [ScaleType; 7])
        ensures
            r@ =~= all_types(),
    {
        [
            ScaleType::Major,
            ScaleType::Minor,
            ScaleType::Dorian,
            ScaleType::Phrygian,
            ScaleType::Lydian,
            ScaleType::Mixolydian,
            ScaleType::Locrian,
        ]
    }

    /// The scale type at the given position of the fixed enumeration.
    pub fn from_index(i: usize) -> (r: ScaleType)
        requires
            i < 7,
        ensures
            r == all_types()[i as int],
    {
        match i {
            0 => ScaleType::Major,
            1 => ScaleType::Minor,
            2 => ScaleType::Dorian,
            3 => ScaleType::Phrygian,
            4 => ScaleType::Lydian,
            5 => ScaleType::Mixolydian,
            _ => ScaleType::Locrian,
        }
    }

    /// The display label of this scale type.
    pub fn label(&self) -> (r: &'static str)
        ensures
            r@ == type_label(*self),
    {
        match self {
            ScaleType::Major => "Major",
            ScaleType::Minor => "Minor",
            ScaleType::Dorian => "Dorian",
            ScaleType::Phrygian => "Phrygian",
            ScaleType::Lydian => "Lydian",
            ScaleType::Mixolydian => "Mixolydian",
            ScaleType::Locrian => "Locrian",
        }
    }
}

// ---------------------------------------------------------------------------
// Scales
// ---------------------------------------------------------------------------

/// Scale degree `j` (0-based) of the scale on the given tonic: the letter
/// is the `j`-th of the cyclic rotation starting at the tonic's letter,
/// and the pitch class is the tonic's shifted by the cumulative interval
/// sum up to that degree, reduced modulo 12.
pub open spec fn scale_note(tonic: Note, s: ScaleType, j: int) -> Note {
    Note {
        spelling: letter_at((letter_index(tonic.spelling) + j) % 7),
        pitch_class: ((tonic.pitch_class + cumulative_steps(s, j + 1)) % 12) as u8,
    }
}

/// The seven scale degrees of the scale on the given tonic.
pub open spec fn scale_notes(tonic: Note, s: ScaleType) -> Seq<Note> {
    Seq::new(7, |j: int| scale_note(tonic, s, j))
}

/// Every derived scale degree is a well-formed note.
pub proof fn lemma_scale_notes_wf(tonic: Note, s: ScaleType)
    requires
        tonic.wf(),
    ensures
        forall|j: int| 0 <= j < 7 ==> (#[trigger] scale_notes(tonic, s)[j]).wf(),
{
    assert forall|j: int| 0 <= j < 7 implies (#[trigger] scale_notes(tonic, s)[j]).wf() by {
        lemma_cumulative_bounds(s, j + 1);
    }
}

/// Degree 0 of any scale is the tonic itself: same letter, same pitch
/// class.
pub proof fn lemma_scale_starts_at_tonic(tonic: Note, s: ScaleType)
    requires
        tonic.wf(),
    ensures
        scale_notes(tonic, s)[0] == tonic,
{
    lemma_first_step_zero(s);
    assert(letter_at(letter_index(tonic.spelling) % 7) == tonic.spelling);
    assert((tonic.pitch_class + cumulative_steps(s, 1)) % 12 == tonic.pitch_class);
}

/// A scale: a scale type together with the seven derived degree notes.
/// Once constructed it never changes; `notes[0]` is always the tonic.
pub struct Scale {
    notes: Vec<Note>,
    scale_type: ScaleType,
}

impl Scale {
    /// The seven degree notes of this scale.
    pub closed spec fn notes_spec(self) -> Seq<Note> {
        self.notes@
    }

    /// The scale type this scale was built from.
    pub closed spec fn scale_type_spec(self) -> ScaleType {
        self.scale_type
    }

    /// Every scale holds exactly the seven degrees derived from a
    /// well-formed tonic and its scale type.
    #[verifier::type_invariant]
    pub closed spec fn inv(self) -> bool {
        &&& self.notes@.len() == 7
        &&& self.notes@[0].wf()
        &&& self.notes@ == scale_notes(self.notes@[0], self.scale_type)
    }

    /// Constructs the scale on the given tonic: for each degree, the
    /// cumulative interval sum fixes the pitch class and the letter
    /// rotation fixes the spelling, so degree 0 is the tonic itself.
    pub fn new(tonic: &Note, scale_type: ScaleType) -> (r: Scale)
        requires
            tonic.wf(),
        ensures
            r.notes_spec() == scale_notes(*tonic, scale_type),
            r.scale_type_spec() == scale_type,
    {
        let letters = base(tonic.spelling);
        let pattern = scale_type.interval_pattern();
        let mut notes: Vec<Note> = Vec::new();
        let mut half_steps: u8 = 0;
        let mut j: usize = 0;
        while j < 7
            invariant
                tonic.wf(),
                letters@.len() == 7,
                forall|k: int|
                    0 <= k < 7 ==> letters@[k] == letter_at(
                        (letter_index(tonic.spelling) + k) % 7,
                    ),
                pattern@.len() == 8,
                forall|i: int|
                    0 <= i < 8 ==> pattern@[i] as int == interval_pattern_spec(scale_type)[i],
                j <= 7,
                half_steps as int == cumulative_steps(scale_type, j as int),
                notes@ =~= scale_notes(*tonic, scale_type).take(j as int),
            decreases 7 - j,
        {
            proof {
                lemma_cumulative_bounds(scale_type, j as int);
                lemma_pattern_entry_bounds(scale_type, j as int);
            }
            half_steps = half_steps + pattern[j];
            let degree = tonic.add(half_steps, letters[j]);
            notes.push(degree);
            assert(degree == scale_note(*tonic, scale_type, j as int));
            assert(notes@ =~= scale_notes(*tonic, scale_type).take(j as int + 1));
            j = j + 1;
        }
        assert(notes@ =~= scale_notes(*tonic, scale_type));
        proof {
            lemma_scale_starts_at_tonic(*tonic, scale_type);
        }
        Scale { notes, scale_type }
    }

    /// The rendered note sequence of this scale: the seven degree notes'
    /// strings joined by single spaces.
    pub fn string(&self) -> (r: String)
        ensures
            r@ == scale_string(self.notes_spec()),
    {
        proof {
            use_type_invariant(self);
            lemma_scale_notes_wf(self.notes@[0], self.scale_type);
        }
        let mut out = String::new();
        let mut i: usize = 0;
        while i < self.notes.len()
            invariant
                self.inv(),
                i <= self.notes@.len(),
                forall|j: int| 0 <= j < 7 ==> (#[trigger] self.notes@[j]).wf(),
                out@ == scale_string(self.notes@.take(i as int)),
            decreases self.notes@.len() - i,
        {
            if i > 0 {
                proof {
                    reveal_strlit(" ");
                }
                out.append(" ");
            }
            let ns = self.notes[i].string();
            out.append(ns.as_str());
            proof {
                let taken = self.notes@.take(i as int + 1);
                assert(taken.drop_last() =~= self.notes@.take(i as int));
                assert(taken.last() == self.notes@[i as int]);
                if i == 0 {
                    assert(out@ =~= scale_string(taken));
                } else {
                    assert(out@ =~= scale_string(taken.drop_last()) + seq![' '] + note_string(
                        taken.last(),
                    ));
                }
            }
            i = i + 1;
        }
        assert(self.notes@.take(7) =~= self.notes@);
        out
    }

    /// The scale type this scale was built from.
    pub fn scale_type(&self) -> (r: ScaleType)
        ensures
            r == self.scale_type_spec(),
    {
        self.scale_type
    }

    /// The tonic: degree 0 of the scale.
    pub fn tonic(&self) -> (r: Note)
        ensures
            r == self.notes_spec()[0],
            r.wf(),
    {
        proof {
            use_type_invariant(self);
        }
        self.notes[0]
    }

    /// A copy of the seven degree notes.
    pub fn notes(&self) -> (r: Vec<Note>)
        ensures
            r@ == self.notes_spec(),
    {
        proof {
            use_type_invariant(self);
        }
        let mut copy: Vec<Note> = Vec::new();
        let mut i: usize = 0;
        while i < self.notes.len()
            invariant
                self.notes@.len() == 7,
                i <= 7,
                copy@ =~= self.notes@.take(i as int),
            decreases 7 - i,
        {
            copy.push(self.notes[i]);
            assert(copy@ =~= self.notes@.take(i as int + 1));
            i = i + 1;
        }
        assert(copy@ =~= self.notes@);
        copy
    }
}

impl Clone for Scale {
    /// A cloned scale carries the same degree notes and scale type.
    fn clone(&self) -> (r: Scale)
        ensures
            r.notes_spec() == self.notes_spec(),
            r.scale_type_spec() == self.scale_type_spec(),
    {
        proof {
            use_type_invariant(self);
        }
        let notes = self.notes();
        Scale { notes, scale_type: self.scale_type }
    }
}

// ---------------------------------------------------------------------------
// Spelling bias and intervals
// ---------------------------------------------------------------------------

/// A tie-breaking preference when a pitch class is respelled as a letter
/// with no diatonic context: lean toward flats or toward sharps.
#[derive(Clone, Copy, Debug, PartialEq, Eq, Structural)]
pub enum Bias {
    Flat,
    Sharp,
}

/// The natural letter nearest to a pitch class on the side the bias
/// chooses: under a sharp bias the letter sits at or below the class,
/// under a flat bias at or above it.
pub open spec fn pc_letter(pc: int, bias: Bias) -> char {
    let m = pc % 12;
    match bias {
        Bias::Sharp => if m == 0 || m == 1 {
            'C'
        } else if m == 2 || m == 3 {
            'D'
        } else if m == 4 {
            'E'
        } else if m == 5 || m == 6 {
            'F'
        } else if m == 7 || m == 8 {
            'G'
        } else if m == 9 || m == 10 {
            'A'
        } else {
            'B'
        },
        Bias::Flat => if m == 0 {
            'C'
        } else if m == 1 || m == 2 {
            'D'
        } else if m == 3 || m == 4 {
            'E'
        } else if m == 5 {
            'F'
        } else if m == 6 || m == 7 {
            'G'
        } else if m == 8 || m == 9 {
            'A'
        } else {
            'B'
        },
    }
}

/// Respells a pitch class (reduced modulo 12) as a natural letter,
/// leaning to the side the bias chooses.
pub fn pitch_class_to_letter(pc: u8, bias: Bias) -> (r: char)
    ensures
        r == pc_letter(pc as int, bias),
        is_natural_letter(r),
{
    let m = pc % 12;
    match bias {
        Bias::Sharp => match m {
            0 | 1 => 'C',
            2 | 3 => 'D',
            4 => 'E',
            5 | 6 => 'F',
            7 | 8 => 'G',
            9 | 10 => 'A',
            _ => 'B',
        },
        Bias::Flat => match m {
            0 => 'C',
            1 | 2 => 'D',
            3 | 4 => 'E',
            5 => 'F',
            6 | 7 => 'G',
            8 | 9 => 'A',
            _ => 'B',
        },
    }
}

/// The twelve interval qualities within one octave.
#[derive(Clone, Copy, Debug, PartialEq, Eq, Structural)]
pub enum Interval {
    Unison,
    MinorSecond,
    MajorSecond,
    MinorThird,
    MajorThird,
    PerfectFourth,
    Tritone,
    PerfectFifth,
    MinorSixth,
    MajorSixth,
    MinorSeventh,
    MajorSeventh,
}

/// The width of an interval in semitones.
pub open spec fn interval_semitones(i: Interval) -> int {
    match i {
        Interval::Unison => 0,
        Interval::MinorSecond => 1,
        Interval::MajorSecond => 2,
        Interval::MinorThird => 3,
        Interval::MajorThird => 4,
        Interval::PerfectFourth => 5,
        Interval::Tritone => 6,
        Interval::PerfectFifth => 7,
        Interval::MinorSixth => 8,
        Interval::MajorSixth => 9,
        Interval::MinorSeventh => 10,
        Interval::MajorSeventh => 11,
    }
}

impl Interval {
    /// The width of this interval in semitones.
    pub fn semitones(&self) -> (r: u8)
        ensures
            r as int == interval_semitones(*self),
    {
        match self {
            Interval::Unison => 0,
            Interval::MinorSecond => 1,
            Interval::MajorSecond => 2,
            Interval::MinorThird => 3,
            Interval::MajorThird => 4,
            Interval::PerfectFourth => 5,
            Interval::Tritone => 6,
            Interval::PerfectFifth => 7,
            Interval::MinorSixth => 8,
            Interval::MajorSixth => 9,
            Interval::MinorSeventh => 10,
            Interval::MajorSeventh => 11,
        }
    }
}

impl Note {
    /// Raises this note by an interval, respelling the result from its new
    /// pitch class with the given bias.
    pub fn incr(&self, interval: Interval, bias: Bias) -> (r: Note)
        ensures
            r.pitch_class as int == (self.pitch_class + interval_semitones(interval)) % 12,
            r.spelling == pc_letter(self.pitch_class + interval_semitones(interval), bias),
            r.wf(),
    {
        let sum: u16 = self.pitch_class as u16 + interval.semitones() as u16;
        let pc: u8 = (sum % 12) as u8;
        Note { spelling: pitch_class_to_letter(pc, bias), pitch_class: pc }
    }
}

// ---------------------------------------------------------------------------
// Scale type labels parsed back, ignoring letter case
// ---------------------------------------------------------------------------

/// Whether `a` reads as `b` ignoring case, `b` being a lowercase ASCII
/// letter: either the same character, or its uppercase form.
pub open spec fn chars_eq_ci(a: char, b: char) -> bool {
    a == b || (('A' as int) <= a as int && a as int <= ('Z' as int) && a as int + 32 == b as int)
}

/// Whether `s` spells `label` ignoring ASCII letter case, `label` being
/// all lowercase.
pub open spec fn matches_label_ci(s: Seq<char>, label: Seq<char>) -> bool {
    s.len() == label.len() && forall|i: int| 0 <= i < s.len() ==> chars_eq_ci(s[i], #[trigger] label[i])
}

/// Compares a string to an all-lowercase label, ignoring ASCII case.
fn eq_ignore_case(s: &str, label: &str) -> (r: bool)
    ensures
        r == matches_label_ci(s@, label@),
{
    let n = s.unicode_len();
    if n != label.unicode_len() {
        return false;
    }
    let mut i: usize = 0;
    while i < n
        invariant
            n == s@.len(),
            n == label@.len(),
            i <= n,
            forall|k: int| 0 <= k < i ==> chars_eq_ci(s@[k], #[trigger] label@[k]),
        decreases n - i,
    {
        let a = s.get_char(i) as u32;
        let b = label.get_char(i) as u32;
        if !(a == b || (a >= 65 && a <= 90 && a + 32 == b)) {
            return false;
        }
        i = i + 1;
    }
    true
}

/// The scale type named by a label, compared ignoring ASCII case; an
/// unrecognized label falls back to Major.
pub open spec fn scale_type_from_spec(s: Seq<char>) -> ScaleType {
    if matches_label_ci(s, "major"@) {
        ScaleType::Major
    } else if matches_label_ci(s, "minor"@) {
        ScaleType::Minor
    } else if matches_label_ci(s, "dorian"@) {
        ScaleType::Dorian
    } else if matches_label_ci(s, "phrygian"@) {
        ScaleType::Phrygian
    } else if matches_label_ci(s, "lydian"@) {
        ScaleType::Lydian
    } else if matches_label_ci(s, "mixolydian"@) {
        ScaleType::Mixolydian
    } else if matches_label_ci(s, "locrian"@) {
        ScaleType::Locrian
    } else {
        ScaleType::Major
    }
}

impl ScaleType {
    /// Parses a scale type from its label, ignoring letter case; an
    /// unrecognized label falls back to Major.
    pub fn from(s: &str) -> (r: ScaleType)
        ensures
            r == scale_type_from_spec(s@),
    {
        if eq_ignore_case(s, "major") {
            ScaleType::Major
        } else if eq_ignore_case(s, "minor") {
            ScaleType::Minor
        } else if eq_ignore_case(s, "dorian") {
            ScaleType::Dorian
        } else if eq_ignore_case(s, "phrygian") {
            ScaleType::Phrygian
        } else if eq_ignore_case(s, "lydian") {
            ScaleType::Lydian
        } else if eq_ignore_case(s, "mixolydian") {
            ScaleType::Mixolydian
        } else if eq_ignore_case(s, "locrian") {
            ScaleType::Locrian
        } else {
            ScaleType::Major
        }
    }
}

// ---------------------------------------------------------------------------
// The tonic pool
// ---------------------------------------------------------------------------

/// The 13 notes of the circle-of-fifths pool, flatward from C and then
/// sharpward from F sharp, as parsed from their spellings.
pub open spec fn fifths_pool() -> Seq<Note> {
    seq![
        Note { spelling: 'C', pitch_class: 0 },
        Note { spelling: 'F', pitch_class: 5 },
        Note { spelling: 'B', pitch_class: 10 },
        Note { spelling: 'E', pitch_class: 3 },
        Note { spelling: 'A', pitch_class: 8 },
        Note { spelling: 'D', pitch_class: 1 },
        Note { spelling: 'G', pitch_class: 6 },
        Note { spelling: 'F', pitch_class: 6 },
        Note { spelling: 'B', pitch_class: 11 },
        Note { spelling: 'E', pitch_class: 4 },
        Note { spelling: 'A', pitch_class: 9 },
        Note { spelling: 'D', pitch_class: 2 },
        Note { spelling: 'G', pitch_class: 7 },
    ]
}

/// Every note of the tonic pool is well formed.
pub proof fn lemma_fifths_pool_wf()
    ensures
        fifths_pool().len() == 13,
        forall|i: int| 0 <= i < 13 ==> (#[trigger] fifths_pool()[i]).wf(),
{
    assert forall|i: int| 0 <= i < 13 implies (#[trigger] fifths_pool()[i]).wf() by {
        if i == 0 {
            assert(fifths_pool()[0].wf());
        }
    }
}

/// The circle-of-fifths-ordered pool of possible quiz tonics, parsed from
/// the fixed 13 spellings.
pub fn circle_of_fifths() -> (r: Vec<Note>)
    ensures
        r@ =~= fifths_pool(),
{
    let names = ["C", "F", "Bb", "Eb", "Ab", "Db", "Gb", "F#", "B", "E", "A", "D", "G"];
    proof {
        reveal_strlit("C");
        reveal_strlit("F");
        reveal_strlit("Bb");
        reveal_strlit("Eb");
        reveal_strlit("Ab");
        reveal_strlit("Db");
        reveal_strlit("Gb");
        reveal_strlit("F#");
        reveal_strlit("B");
        reveal_strlit("E");
        reveal_strlit("A");
        reveal_strlit("D");
        reveal_strlit("G");
        assert forall|i: int| 0 <= i < 13 implies parse_note_spec(
            #[trigger] names@[i]@,
        ) == Ok::<Note, ParseError>(fifths_pool()[i]) by {
            assert(names@[i]@.subrange(1, names@[i]@.len() as int) =~= if names@[i]@.len() == 2 {
                seq![names@[i]@[1]]
            } else {
                Seq::<char>::empty()
            });
        }
    }
    let mut pool: Vec<Note> = Vec::new();
    let mut i: usize = 0;
    while i < 13
        invariant
            names@.len() == 13,
            forall|k: int|
                0 <= k < 13 ==> parse_note_spec(#[trigger] names@[k]@) == Ok::<Note, ParseError>(
                    fifths_pool()[k],
                ),
            i <= 13,
            pool@ =~= fifths_pool().take(i as int),
        decreases 13 - i,
    {
        let note = Note::parse(names[i]).unwrap();
        pool.push(note);
        assert(pool@ =~= fifths_pool().take(i as int + 1));
        i = i + 1;
    }
    assert(pool@ =~= fifths_pool());
    pool
}

// ---------------------------------------------------------------------------
// Laws of scale construction
// ---------------------------------------------------------------------------

/// For every well-formed tonic and every scale type, the scale holds
/// exactly seven notes whose letters are the seven natural letters, each
/// used once, in cyclic alphabet order starting at the tonic's letter.
pub proof fn lemma_scale_spans_all_letters(tonic: Note, s: ScaleType)
    requires
        tonic.wf(),
    ensures
        scale_notes(tonic, s).len() == 7,
        scale_notes(tonic, s)[0].spelling == tonic.spelling,
        forall|j: int|
            0 <= j < 7 ==> (#[trigger] scale_notes(tonic, s)[j]).spelling == letter_at(
                (letter_index(tonic.spelling) + j) % 7,
            ),
        forall|i: int, j: int|
            0 <= i < j < 7 ==> scale_notes(tonic, s)[i].spelling != scale_notes(
                tonic,
                s,
            )[j].spelling,
{
    lemma_scale_starts_at_tonic(tonic, s);
    assert forall|i: int, j: int|
        0 <= i < j < 7 implies scale_notes(tonic, s)[i].spelling != scale_notes(
        tonic,
        s,
    )[j].spelling by {
        let a = letter_index(tonic.spelling);
        assert((a + i) % 7 != (a + j) % 7);
        assert(letter_at((a + i) % 7) != letter_at((a + j) % 7));
    }
}

/// Round trip: a tonic parsed from a plain letter with no accidental is
/// exactly degree 0 of any scale built on it.
pub proof fn lemma_parsed_tonic_roundtrip(c: char, s: ScaleType)
    requires
        is_natural_letter(c),
    ensures
        parse_note_spec(seq![c]) matches Ok(tonic) && scale_notes(tonic, s)[0] == tonic,
{
    let str = seq![c];
    assert(str.subrange(1, 1) =~= Seq::<char>::empty());
    let tonic = parse_note_spec(str)->Ok_0;
    assert(tonic.pitch_class == natural_pitch_class(c) % 12);
    lemma_scale_starts_at_tonic(tonic, s);
}

// ---------------------------------------------------------------------------
// Pitches
// ---------------------------------------------------------------------------

/// Whether `c` is a decimal digit.
pub open spec fn is_digit_char(c: char) -> bool {
    ('0' as int) <= c as int && c as int <= ('9' as int)
}

/// The value of a decimal digit character.
pub open spec fn char_digit(c: char) -> int {
    c as int - ('0' as int)
}

/// Whether every character of `s` is a decimal digit.
pub open spec fn all_digits(s: Seq<char>) -> bool {
    forall|i: int| 0 <= i < s.len() ==> is_digit_char(#[trigger] s[i])
}

/// The number spelled by a digit string, most significant digit first.
pub open spec fn digits_value(s: Seq<char>) -> int
    decreases s.len(),
{
    if s.len() == 0 {
        0
    } else {
        digits_value(s.drop_last()) * 10 + char_digit(s.last())
    }
}

/// The index of the first digit of `s` at or after `i`; the length of `s`
/// when there is none.
pub open spec fn first_digit_from(s: Seq<char>, i: int) -> int
    decreases s.len() - i,
{
    if i < 0 || i >= s.len() {
        s.len() as int
    } else if is_digit_char(s[i]) {
        i
    } else {
        first_digit_from(s, i + 1)
    }
}

/// A digit string spells a nonnegative number.
proof fn lemma_digits_value_nonneg(s: Seq<char>)
    requires
        all_digits(s),
    ensures
        digits_value(s) >= 0,
    decreases s.len(),
{
    if s.len() > 0 {
        assert(all_digits(s.drop_last()));
        lemma_digits_value_nonneg(s.drop_last());
    }
}

/// Extending a digit string never shrinks its value.
proof fn lemma_digits_value_prefix(s: Seq<char>, m: int)
    requires
        all_digits(s),
        0 <= m <= s.len(),
    ensures
        digits_value(s) >= digits_value(s.take(m)),
    decreases s.len() - m,
{
    if m == s.len() {
        assert(s.take(m) =~= s);
    } else {
        let t = s.take(m + 1);
        assert(t.drop_last() =~= s.take(m));
        assert(all_digits(s.take(m)));
        lemma_digits_value_nonneg(s.take(m));
        assert(digits_value(t) == digits_value(s.take(m)) * 10 + char_digit(s[m]));
        lemma_digits_value_prefix(s, m + 1);
    }
}

/// Scanning forward over non-digits lands the first-digit search exactly
/// where the scan stopped.
proof fn lemma_first_digit_at(s: Seq<char>, i: int, k: int)
    requires
        0 <= i <= k <= s.len(),
        forall|j: int| i <= j < k ==> !is_digit_char(#[trigger] s[j]),
        k == s.len() || is_digit_char(s[k]),
    ensures
        first_digit_from(s, i) == k,
    decreases k - i,
{
    if i < k {
        lemma_first_digit_at(s, i + 1, k);
    }
}

/// A pitch: a pitch class (reduced modulo 12) plus an octave number.
#[derive(Clone, Copy, Debug, PartialEq, Eq, Structural)]
pub struct Pitch {
    pub pitch_class: u8,
    pub octave: u8,
}

/// What parsing a pitch string yields: a natural letter, then an
/// accidental suffix running up to the first digit, then the octave in
/// decimal digits. The octave must be present, all digits, and fit the
/// octave field.
pub open spec fn parse_pitch_spec(s: Seq<char>) -> Result<Pitch, ParseError> {
    if s.len() == 0 || !is_natural_letter(s[0]) {
        Err(ParseError::InvalidLetter)
    } else {
        let k = first_digit_from(s, 1);
        match suffix_adjustment(s.subrange(1, k)) {
            None => Err(ParseError::InvalidAccidental),
            Some(adj) => {
                let digits = s.subrange(k, s.len() as int);
                if digits.len() == 0 || !all_digits(digits) || digits_value(digits) > u8::MAX {
                    Err(ParseError::InvalidOctave)
                } else {
                    Ok(
                        Pitch {
                            pitch_class: ((natural_pitch_class(s[0]) + adj) % 12) as u8,
                            octave: digits_value(digits) as u8,
                        },
                    )
                }
            },
        }
    }
}

/// How a pitch renders under a bias: its respelled note followed by the
/// octave in decimal.
pub open spec fn pitch_string(p: Pitch, bias: Bias) -> Seq<char> {
    note_string(pitch_note_spec(p, bias)) + dec_digits(p.octave as int)
}

/// The note a pitch respells to under a bias: the biased letter for its
/// pitch class, keeping the class itself.
pub open spec fn pitch_note_spec(p: Pitch, bias: Bias) -> Note {
    Note { spelling: pc_letter(p.pitch_class as int, bias), pitch_class: p.pitch_class }
}

/// The decimal digit character for `d` in 0..=9.
pub open spec fn digit_char(d: int) -> char {
    if d == 0 {
        '0'
    } else if d == 1 {
        '1'
    } else if d == 2 {
        '2'
    } else if d == 3 {
        '3'
    } else if d == 4 {
        '4'
    } else if d == 5 {
        '5'
    } else if d == 6 {
        '6'
    } else if d == 7 {
        '7'
    } else if d == 8 {
        '8'
    } else {
        '9'
    }
}

/// The decimal rendering of a nonnegative number, most significant digit
/// first.
pub open spec fn dec_digits(n: int) -> Seq<char>
    decreases n,
{
    if n < 10 {
        seq![digit_char(n)]
    } else {
        dec_digits(n / 10).push(digit_char(n % 10))
    }
}

/// Returns a one-character string slice holding the given decimal digit.
pub(crate) fn digit_str(d: u8) -> (r: &'static str)
    requires
        d < 10,
    ensures
        r@ =~= seq![digit_char(d as int)],
{
    match d {
        0 => {
            proof {
                reveal_strlit("0");
            }
            "0"
        },
        1 => {
            proof {
                reveal_strlit("1");
            }
            "1"
        },
        2 => {
            proof {
                reveal_strlit("2");
            }
            "2"
        },
        3 => {
            proof {
                reveal_strlit("3");
            }
            "3"
        },
        4 => {
            proof {
                reveal_strlit("4");
            }
            "4"
        },
        5 => {
            proof {
                reveal_strlit("5");
            }
            "5"
        },
        6 => {
            proof {
                reveal_strlit("6");
            }
            "6"
        },
        7 => {
            proof {
                reveal_strlit("7");
            }
            "7"
        },
        8 => {
            proof {
                reveal_strlit("8");
            }
            "8"
        },
        _ => {
            proof {
                reveal_strlit("9");
            }
            "9"
        },
    }
}

impl Pitch {
    /// A pitch is well formed when its pitch class is reduced modulo 12.
    pub open spec fn wf(self) -> bool {
        self.pitch_class < 12
    }

    /// Parses a pitch from a letter, an optional accidental suffix, and a
    /// decimal octave.
    pub fn parse(s: &str) -> (r: Result<Pitch, ParseError>)
        ensures
            r == parse_pitch_spec(s@),
            r matches Ok(p) ==> p.wf(),
    {
        let n = s.unicode_len();
        if n == 0 {
            return Err(ParseError::InvalidLetter);
        }
        let letter = s.get_char(0);
        let natural = match pitch_class(letter) {
            Some(p) => p,
            None => {
                return Err(ParseError::InvalidLetter);
            },
        };
        let mut k: usize = 1;
        loop
            invariant
                n == s@.len(),
                1 <= k <= n,
                forall|j: int| 1 <= j < k ==> !is_digit_char(#[trigger] s@[j]),
            ensures
                1 <= k <= n,
                k as int == first_digit_from(s@, 1),
            decreases n - k,
        {
            if k == n {
                proof {
                    lemma_first_digit_at(s@, 1, k as int);
                }
                break;
            }
            let c = s.get_char(k) as u32;
            if c >= 48 && c <= 57 {
                proof {
                    lemma_first_digit_at(s@, 1, k as int);
                }
                break;
            }
            k = k + 1;
        }
        let suffix = s.substring_char(1, k);
        let adj = match parse_adjustment(suffix) {
            Ok(a) => a,
            Err(e) => {
                return Err(e);
            },
        };
        if k == n {
            assert(s@.subrange(k as int, n as int).len() == 0);
            return Err(ParseError::InvalidOctave);
        }
        let ghost digits = s@.subrange(k as int, n as int);
        let mut val: u32 = 0;
        let mut i: usize = k;
        while i < n
            invariant
                n == s@.len(),
                k <= i <= n,
                1 <= k < n,
                letter == s@[0],
                is_natural_letter(letter),
                natural as int == natural_pitch_class(letter),
                k as int == first_digit_from(s@, 1),
                suffix_adjustment(s@.subrange(1, k as int)) == Some(adj as int),
                digits == s@.subrange(k as int, n as int),
                all_digits(s@.subrange(k as int, i as int)),
                val <= u8::MAX,
                val as int == digits_value(s@.subrange(k as int, i as int)),
            decreases n - i,
        {
            let c = s.get_char(i) as u32;
            if !(c >= 48 && c <= 57) {
                assert(!is_digit_char(digits[i - k]));
                return Err(ParseError::InvalidOctave);
            }
            let d: u32 = c - 48;
            proof {
                let part = s@.subrange(k as int, i as int + 1);
                assert(part.drop_last() =~= s@.subrange(k as int, i as int));
                assert(part.last() == s@[i as int]);
            }
            val = val * 10 + d;
            if val > u8::MAX as u32 {
                proof {
                    let part = s@.subrange(k as int, i as int + 1);
                    if all_digits(digits) {
                        assert(part =~= digits.take(i as int + 1 - k));
                        lemma_digits_value_prefix(digits, i as int + 1 - k);
                    }
                }
                return Err(ParseError::InvalidOctave);
            }
            i = i + 1;
        }
        assert(s@.subrange(k as int, n as int) =~= digits);
        let shifted: i8 = natural as i8 + adj;
        let reduced: i8 = if shifted < 0 {
            shifted + 12
        } else {
            shifted % 12
        };
        assert(reduced as int == (natural_pitch_class(letter) + adj) % 12);
        Ok(Pitch { pitch_class: reduced as u8, octave: val as u8 })
    }

    /// Respells this pitch as a note, leaning to the side the bias
    /// chooses.
    pub fn note(&self, bias: Bias) -> (r: Note)
        ensures
            r == pitch_note_spec(*self, bias),
            self.wf() ==> r.wf(),
    {
        Note {
            spelling: pitch_class_to_letter(self.pitch_class, bias),
            pitch_class: self.pitch_class,
        }
    }

    /// How this pitch renders: its respelled note followed by the octave
    /// in decimal.
    pub fn string(&self, bias: Bias) -> (r: String)
        requires
            self.wf(),
        ensures
            r@ == pitch_string(*self, bias),
    {
        let note = self.note(bias);
        let mut out = note.string();
        let o = self.octave;
        if o >= 100 {
            out.append(digit_str(o / 100));
            out.append(digit_str((o / 10) % 10));
            out.append(digit_str(o % 10));
            proof {
                assert((o as int / 10) / 10 == o as int / 100) by (nonlinear_arith);
                assert(o as int / 10 >= 10);
                assert(o as int / 100 < 10);
                assert(dec_digits(o as int / 100) =~= seq![digit_char(o as int / 100)]);
                assert(dec_digits(o as int / 10) =~= dec_digits(o as int / 100).push(
                    digit_char((o as int / 10) % 10),
                ));
                assert(dec_digits(o as int / 10) =~= seq![
                    digit_char(o as int / 100),
                    digit_char((o as int / 10) % 10),
                ]);
                assert(dec_digits(o as int) =~= dec_digits(o as int / 10).push(
                    digit_char(o as int % 10),
                ));
                assert(out@ =~= note_string(pitch_note_spec(*self, bias)) + dec_digits(o as int));
                assert(out@ == pitch_string(*self, bias));
            }
        } else if o >= 10 {
            out.append(digit_str(o / 10));
            out.append(digit_str(o % 10));
            proof {
                assert(o as int / 10 < 10);
                assert(dec_digits(o as int / 10) =~= seq![digit_char(o as int / 10)]);
                assert(dec_digits(o as int) =~= dec_digits(o as int / 10).push(
                    digit_char(o as int % 10),
                ));
                assert(out@ =~= note_string(pitch_note_spec(*self, bias)) + dec_digits(o as int));
                assert(out@ == pitch_string(*self, bias));
            }
        } else {
            out.append(digit_str(o));
            proof {
                assert(out@ =~= pitch_string(*self, bias));
            }
        }
        out
    }
}

/// The `n` pitches climbing by semitones from the pitch class of `p`:
/// classes reduced modulo 12, octaves counting how often the climb passed
/// twelve.
pub fn chromatic(p: Pitch, n: u8) -> (r: Vec<Pitch>)
    requires
        p.wf(),
    ensures
        r@.len() == n,
        forall|i: int|
            0 <= i < n ==> #[trigger] r@[i] == (Pitch {
                pitch_class: ((p.pitch_class + i) % 12) as u8,
                octave: ((p.pitch_class + i) / 12) as u8,
            }),
{
    let mut v: Vec<Pitch> = Vec::new();
    let mut i: u8 = 0;
    while i < n
        invariant
            p.wf(),
            i <= n,
            v@.len() == i,
            forall|j: int|
                0 <= j < i ==> #[trigger] v@[j] == (Pitch {
                    pitch_class: ((p.pitch_class + j) % 12) as u8,
                    octave: ((p.pitch_class + j) / 12) as u8,
                }),
        decreases n - i,
    {
        let sum: u16 = p.pitch_class as u16 + i as u16;
        v.push(Pitch { pitch_class: (sum % 12) as u8, octave: (sum / 12) as u8 });
        i = i + 1;
    }
    v
}

/// The rendered form of a note sequence: the note strings joined by
/// single spaces.
pub open spec fn scale_string(notes: Seq<Note>) -> Seq<char>
    decreases notes.len(),
{
    if notes.len() == 0 {
        Seq::empty()
    } else if notes.len() == 1 {
        note_string(notes[0])
    } else {
        scale_string(notes.drop_last()) + seq![' '] + note_string(notes.last())
    }
}

} // verus!
