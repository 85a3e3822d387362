use scale_quiz::music::base;
use scale_quiz::music::chromatic;
use scale_quiz::music::circle_of_fifths;
use scale_quiz::music::pitch_class;
use scale_quiz::music::pitch_class_to_letter;
use scale_quiz::music::parse_adjustment;
use scale_quiz::music::Bias;
use scale_quiz::music::Interval;
use scale_quiz::music::Note;
use scale_quiz::music::ParseError;
use scale_quiz::music::Pitch;
use scale_quiz::music::Scale;
use scale_quiz::music::ScaleType;

const LETTERS: [char; 7] = ['A', 'B', 'C', 'D', 'E', 'F', 'G'];

#[test]
fn natural_letter_pitch_classes() {
    assert_eq!(pitch_class('C'), Some(0));
    assert_eq!(pitch_class('D'), Some(2));
    assert_eq!(pitch_class('E'), Some(4));
    assert_eq!(pitch_class('F'), Some(5));
    assert_eq!(pitch_class('G'), Some(7));
    assert_eq!(pitch_class('A'), Some(9));
    assert_eq!(pitch_class('B'), Some(11));
    assert_eq!(pitch_class('H'), None);
    assert_eq!(pitch_class('c'), None);
}

#[test]
fn accidental_suffixes() {
    assert_eq!(parse_adjustment(""), Ok(0));
    assert_eq!(parse_adjustment("#"), Ok(1));
    assert_eq!(parse_adjustment("##"), Ok(2));
    assert_eq!(parse_adjustment("♯"), Ok(1));
    assert_eq!(parse_adjustment("♯♯"), Ok(2));
    assert_eq!(parse_adjustment("𝄪"), Ok(2));
    assert_eq!(parse_adjustment("b"), Ok(-1));
    assert_eq!(parse_adjustment("bb"), Ok(-2));
    assert_eq!(parse_adjustment("♭"), Ok(-1));
    assert_eq!(parse_adjustment("♭♭"), Ok(-2));
    assert_eq!(parse_adjustment("𝄫"), Ok(-2));
    assert_eq!(parse_adjustment("x"), Err(ParseError::InvalidAccidental));
    assert_eq!(parse_adjustment("###"), Err(ParseError::InvalidAccidental));
    assert_eq!(parse_adjustment("#b"), Err(ParseError::InvalidAccidental));
}

#[test]
fn note_parse_letters_and_accidentals() {
    let c = Note::parse("C").unwrap();
    assert_eq!(c.spelling, 'C');
    assert_eq!(c.pitch_class, 0);
    let fs = Note::parse("F#").unwrap();
    assert_eq!(fs.spelling, 'F');
    assert_eq!(fs.pitch_class, 6);
    let bf = Note::parse("Bb").unwrap();
    assert_eq!(bf.spelling, 'B');
    assert_eq!(bf.pitch_class, 10);
    let cf = Note::parse("Cb").unwrap();
    assert_eq!(cf.spelling, 'C');
    assert_eq!(cf.pitch_class, 11);
    let bs = Note::parse("B#").unwrap();
    assert_eq!(bs.spelling, 'B');
    assert_eq!(bs.pitch_class, 0);
    assert_eq!(Note::parse("H"), Err(ParseError::InvalidLetter));
    assert_eq!(Note::parse(""), Err(ParseError::InvalidLetter));
    assert_eq!(Note::parse("Cx"), Err(ParseError::InvalidAccidental));
}

#[test]
fn note_adjustment_values() {
    assert_eq!(Note::parse("C").unwrap().adjustment(), 0);
    assert_eq!(Note::parse("C#").unwrap().adjustment(), 1);
    assert_eq!(Note::parse("Cb").unwrap().adjustment(), -1);
    assert_eq!(Note::parse("F##").unwrap().adjustment(), 2);
    assert_eq!(Note::parse("Bbb").unwrap().adjustment(), -2);
}

#[test]
fn note_rendering() {
    assert_eq!(Note::parse("C").unwrap().string(), "C");
    assert_eq!(Note::parse("Bb").unwrap().string(), "B♭");
    assert_eq!(Note::parse("F##").unwrap().string(), "F𝄪");
    assert_eq!(Note::parse("Cb").unwrap().string(), "C♭");
    assert_eq!(Note::parse("Ebb").unwrap().string(), "E𝄫");
    assert_eq!(Note::parse("G#").unwrap().string(), "G♯");
    // B sharp spelled as the letter B with class 0 has no spelling within
    // two accidentals, so it renders as the error text.
    assert_eq!(Note::parse("B#").unwrap().string(), "invalid");
}

#[test]
fn note_new_reduces() {
    let n = Note::new('D', 14);
    assert_eq!(n.spelling, 'D');
    assert_eq!(n.pitch_class, 2);
}

#[test]
fn note_add_transposes() {
    let c = Note::parse("C").unwrap();
    let g = c.add(7, 'G');
    assert_eq!(g.spelling, 'G');
    assert_eq!(g.pitch_class, 7);
    let a = Note::parse("A").unwrap();
    let d = a.add(5, 'D');
    assert_eq!(d.pitch_class, 2);
}

#[test]
fn note_incr_respells() {
    let c = Note::parse("C").unwrap();
    let fifth = c.incr(Interval::PerfectFifth, Bias::Sharp);
    assert_eq!(fifth.spelling, 'G');
    assert_eq!(fifth.pitch_class, 7);
    let b = Note::parse("B").unwrap();
    let up = b.incr(Interval::MinorSecond, Bias::Flat);
    assert_eq!(up.pitch_class, 0);
    assert_eq!(up.spelling, 'C');
}

#[test]
fn base_rotation() {
    assert_eq!(base('D'), vec!['D', 'E', 'F', 'G', 'A', 'B', 'C']);
    assert_eq!(base('A'), vec!['A', 'B', 'C', 'D', 'E', 'F', 'G']);
    assert_eq!(base('G'), vec!['G', 'A', 'B', 'C', 'D', 'E', 'F']);
    assert_eq!(base('x'), Vec::<char>::new());
}

#[test]
fn c_major_scale() {
    let tonic = Note::parse("C").unwrap();
    let scale = Scale::new(&tonic, ScaleType::Major);
    let notes = scale.notes();
    let classes: Vec<u8> = notes.iter().map(|n| n.pitch_class).collect();
    assert_eq!(classes, vec![0, 2, 4, 5, 7, 9, 11]);
    let letters: Vec<char> = notes.iter().map(|n| n.spelling).collect();
    assert_eq!(letters, vec!['C', 'D', 'E', 'F', 'G', 'A', 'B']);
    for n in notes.iter() {
        assert_eq!(n.adjustment(), 0);
    }
    assert_eq!(scale.string(), "C D E F G A B");
    assert_eq!(scale.scale_type(), ScaleType::Major);
}

#[test]
fn a_minor_scale() {
    let tonic = Note::parse("A").unwrap();
    let scale = Scale::new(&tonic, ScaleType::Minor);
    let notes = scale.notes();
    let classes: Vec<u8> = notes.iter().map(|n| n.pitch_class).collect();
    assert_eq!(classes, vec![9, 11, 0, 2, 4, 5, 7]);
    let letters: Vec<char> = notes.iter().map(|n| n.spelling).collect();
    assert_eq!(letters, vec!['A', 'B', 'C', 'D', 'E', 'F', 'G']);
    for n in notes.iter() {
        assert_eq!(n.adjustment(), 0);
    }
    assert_eq!(scale.string(), "A B C D E F G");
}

#[test]
fn every_scale_spans_all_letters() {
    for &letter in LETTERS.iter() {
        let tonic = Note::parse(&letter.to_string()).unwrap();
        let start = LETTERS.iter().position(|&l| l == letter).unwrap();
        for &st in ScaleType::all().iter() {
            let scale = Scale::new(&tonic, st);
            let notes = scale.notes();
            assert_eq!(notes.len(), 7);
            assert_eq!(notes[0].spelling, letter);
            for (j, n) in notes.iter().enumerate() {
                assert_eq!(n.spelling, LETTERS[(start + j) % 7]);
            }
            for i in 0..7 {
                for j in (i + 1)..7 {
                    assert_ne!(notes[i].spelling, notes[j].spelling);
                }
            }
        }
    }
}

#[test]
fn tonic_roundtrip() {
    for &letter in LETTERS.iter() {
        let parsed = Note::parse(&letter.to_string()).unwrap();
        for &st in ScaleType::all().iter() {
            let scale = Scale::new(&parsed, st);
            let tonic = scale.tonic();
            assert_eq!(tonic.spelling, parsed.spelling);
            assert_eq!(tonic.pitch_class, parsed.pitch_class);
        }
    }
}

#[test]
fn g_flat_major_spelling() {
    let tonic = Note::parse("Gb").unwrap();
    let scale = Scale::new(&tonic, ScaleType::Major);
    assert_eq!(scale.string(), "G♭ A♭ B♭ C♭ D♭ E♭ F");
}

#[test]
fn scale_clone_keeps_notes() {
    let tonic = Note::parse("F#").unwrap();
    let scale = Scale::new(&tonic, ScaleType::Dorian);
    let copy = scale.clone();
    assert_eq!(copy.string(), scale.string());
    assert_eq!(copy.scale_type(), scale.scale_type());
    assert_eq!(copy.notes(), scale.notes());
}

#[test]
fn circle_of_fifths_pool() {
    let pool = circle_of_fifths();
    assert_eq!(pool.len(), 13);
    let strings: Vec<String> = pool.iter().map(|n| n.string()).collect();
    assert_eq!(
        strings,
        vec![
            "C", "F", "B♭", "E♭", "A♭", "D♭", "G♭", "F♯", "B", "E", "A", "D", "G"
        ]
    );
    for n in pool.iter() {
        assert!(n.pitch_class < 12);
    }
    assert_eq!(pool[7].spelling, 'F');
    assert_eq!(pool[7].pitch_class, 6);
}

#[test]
fn interval_patterns() {
    for &st in ScaleType::all().iter() {
        let pattern = st.interval_pattern();
        assert_eq!(pattern.len(), 8);
        assert_eq!(pattern[0], 0);
        assert_eq!(pattern.iter().map(|&x| x as u32).sum::<u32>(), 12);
        for &step in pattern.iter() {
            assert!(step <= 2);
        }
    }
    assert_eq!(ScaleType::Major.interval_pattern(), [0, 2, 2, 1, 2, 2, 2, 1]);
    assert_eq!(ScaleType::Locrian.interval_pattern(), [0, 1, 2, 2, 1, 2, 2, 2]);
}

#[test]
fn scale_type_enumeration() {
    let all = ScaleType::all();
    assert_eq!(all.len(), 7);
    assert_eq!(all[0], ScaleType::Major);
    assert_eq!(all[1], ScaleType::Minor);
    assert_eq!(all[2], ScaleType::Dorian);
    assert_eq!(all[3], ScaleType::Phrygian);
    assert_eq!(all[4], ScaleType::Lydian);
    assert_eq!(all[5], ScaleType::Mixolydian);
    assert_eq!(all[6], ScaleType::Locrian);
    for (i, &st) in all.iter().enumerate() {
        assert_eq!(ScaleType::from_index(i), st);
    }
}

#[test]
fn scale_type_labels() {
    let labels: Vec<&str> = ScaleType::all().iter().map(|st| st.label()).collect();
    assert_eq!(
        labels,
        vec!["Major", "Minor", "Dorian", "Phrygian", "Lydian", "Mixolydian", "Locrian"]
    );
}

#[test]
fn scale_type_from_label() {
    assert_eq!(ScaleType::from("major"), ScaleType::Major);
    assert_eq!(ScaleType::from("MINOR"), ScaleType::Minor);
    assert_eq!(ScaleType::from("Dorian"), ScaleType::Dorian);
    assert_eq!(ScaleType::from("phrygian"), ScaleType::Phrygian);
    assert_eq!(ScaleType::from("Lydian"), ScaleType::Lydian);
    assert_eq!(ScaleType::from("mIxOlYdIaN"), ScaleType::Mixolydian);
    assert_eq!(ScaleType::from("locrian"), ScaleType::Locrian);
    assert_eq!(ScaleType::from("nonsense"), ScaleType::Major);
    assert_eq!(ScaleType::from(""), ScaleType::Major);
}

#[test]
fn pitch_class_letters_by_bias() {
    assert_eq!(pitch_class_to_letter(6, Bias::Sharp), 'F');
    assert_eq!(pitch_class_to_letter(6, Bias::Flat), 'G');
    assert_eq!(pitch_class_to_letter(0, Bias::Sharp), 'C');
    assert_eq!(pitch_class_to_letter(0, Bias::Flat), 'C');
    assert_eq!(pitch_class_to_letter(1, Bias::Sharp), 'C');
    assert_eq!(pitch_class_to_letter(1, Bias::Flat), 'D');
    assert_eq!(pitch_class_to_letter(13, Bias::Sharp), 'C');
}

#[test]
fn pitch_parsing() {
    let c4 = Pitch::parse("C4").unwrap();
    assert_eq!(c4.pitch_class, 0);
    assert_eq!(c4.octave, 4);
    let fs3 = Pitch::parse("F#3").unwrap();
    assert_eq!(fs3.pitch_class, 6);
    assert_eq!(fs3.octave, 3);
    let bb10 = Pitch::parse("Bb10").unwrap();
    assert_eq!(bb10.pitch_class, 10);
    assert_eq!(bb10.octave, 10);
    let padded = Pitch::parse("C0007").unwrap();
    assert_eq!(padded.octave, 7);
    let top = Pitch::parse("C255").unwrap();
    assert_eq!(top.octave, 255);
}

#[test]
fn pitch_parsing_errors() {
    assert_eq!(Pitch::parse("H4"), Err(ParseError::InvalidLetter));
    assert_eq!(Pitch::parse(""), Err(ParseError::InvalidLetter));
    assert_eq!(Pitch::parse("Cx4"), Err(ParseError::InvalidAccidental));
    assert_eq!(Pitch::parse("C"), Err(ParseError::InvalidOctave));
    assert_eq!(Pitch::parse("C#"), Err(ParseError::InvalidOctave));
    assert_eq!(Pitch::parse("C4x"), Err(ParseError::InvalidOctave));
    assert_eq!(Pitch::parse("C999"), Err(ParseError::InvalidOctave));
}

#[test]
fn pitch_respelling_and_rendering() {
    let p = Pitch::parse("F#4").unwrap();
    let sharp = p.note(Bias::Sharp);
    assert_eq!(sharp.spelling, 'F');
    assert_eq!(sharp.pitch_class, 6);
    let flat = p.note(Bias::Flat);
    assert_eq!(flat.spelling, 'G');
    assert_eq!(flat.pitch_class, 6);
    assert_eq!(p.string(Bias::Sharp), "F♯4");
    assert_eq!(p.string(Bias::Flat), "G♭4");
    let low = Pitch::parse("C0").unwrap();
    assert_eq!(low.string(Bias::Sharp), "C0");
    let mid = Pitch { pitch_class: 0, octave: 42 };
    assert_eq!(mid.string(Bias::Sharp), "C42");
    let high = Pitch { pitch_class: 0, octave: 255 };
    assert_eq!(high.string(Bias::Sharp), "C255");
}

#[test]
fn chromatic_climb() {
    let start = Pitch { pitch_class: 0, octave: 4 };
    let run = chromatic(start, 13);
    assert_eq!(run.len(), 13);
    let classes: Vec<u8> = run.iter().map(|p| p.pitch_class).collect();
    assert_eq!(classes, vec![0, 1, 2, 3, 4, 5, 6, 7, 8, 9, 10, 11, 0]);
    assert_eq!(run[12].octave, 1);
    assert_eq!(run[0].octave, 0);
}
