use apple_password_gen::alphabet::{capitalize, CONSONANTS, DIGITS, VOWELS};
use apple_password_gen::draws::table_len;
use apple_password_gen::fill::entry;
use apple_password_gen::template::{letter_position, Slot, DIGIT_SLOTS, LENGTH, LETTERS, TEMPLATE};

#[test]
fn alphabet_sizes() {
    assert_eq!(VOWELS.len(), 6);
    assert_eq!(CONSONANTS.len(), 19);
    assert_eq!(DIGITS.len(), 10);
}

#[test]
fn alphabet_contents() {
    assert_eq!(VOWELS.iter().collect::<String>(), "aeiouy");
    assert_eq!(CONSONANTS.iter().collect::<String>(), "bcdfghjkmnpqrstvwxz");
    assert_eq!(DIGITS.iter().collect::<String>(), "0123456789");
}

#[test]
fn alphabets_hold_no_ell() {
    assert!(!VOWELS.contains(&'l'));
    assert!(!CONSONANTS.contains(&'l'));
    assert!(VOWELS.iter().chain(CONSONANTS.iter()).all(|c| c.is_ascii_lowercase()));
}

#[test]
fn capitalize_gives_the_capital() {
    assert_eq!(capitalize('a'), 'A');
    assert_eq!(capitalize('k'), 'K');
    assert_eq!(capitalize('z'), 'Z');
    assert_eq!(capitalize('Z'), 'Z');
    assert_eq!(capitalize('7'), '7');
    assert_eq!(capitalize('-'), '-');
    assert_eq!(capitalize('`'), '`');
    assert_eq!(capitalize('{'), '{');
    assert_eq!(capitalize('\u{e9}'), '\u{e9}');
    for c in VOWELS.iter().chain(CONSONANTS.iter()) {
        assert_eq!(capitalize(*c), c.to_ascii_uppercase());
    }
}

#[test]
fn template_is_three_groups() {
    let text: String = TEMPLATE
        .iter()
        .map(|slot| match slot {
            Slot::Consonant => 'c',
            Slot::Vowel => 'v',
            Slot::Hyphen => '-',
        })
        .collect();
    assert_eq!(text, "cvccvc-cvccvc-cvccvc");
    assert_eq!(TEMPLATE.len(), LENGTH);
    assert_eq!(LENGTH, 20);
}

#[test]
fn template_has_eighteen_letters() {
    let letters = TEMPLATE.iter().filter(|slot| **slot != Slot::Hyphen).count();
    assert_eq!(letters, LETTERS);
    assert_eq!(LETTERS, 18);
    assert_eq!(letter_position(LENGTH), LETTERS);
}

#[test]
fn digit_slots_end_the_groups() {
    assert_eq!(DIGIT_SLOTS, [5, 12, 19]);
    for slot in DIGIT_SLOTS {
        assert_eq!(TEMPLATE[slot], Slot::Consonant);
        assert!(slot + 1 == LENGTH || TEMPLATE[slot + 1] == Slot::Hyphen);
    }
}

#[test]
fn letter_positions() {
    let expected = [0, 1, 2, 3, 4, 5, 6, 6, 7, 8, 9, 10, 11, 12, 12, 13, 14, 15, 16, 17, 18];
    for (slot, position) in expected.iter().enumerate() {
        assert_eq!(letter_position(slot), *position);
    }
}

#[test]
fn table_lengths() {
    for digit_at in DIGIT_SLOTS {
        for slot in 0..LENGTH {
            let expected = if slot == digit_at {
                10
            } else {
                match TEMPLATE[slot] {
                    Slot::Consonant => 19,
                    Slot::Vowel => 6,
                    Slot::Hyphen => 0,
                }
            };
            assert_eq!(table_len(digit_at, slot), expected);
        }
    }
    assert_eq!(table_len(5, 5), 10);
    assert_eq!(table_len(12, 5), 19);
    assert_eq!(table_len(12, 4), 6);
    assert_eq!(table_len(12, 6), 0);
}

#[test]
fn table_entries() {
    assert_eq!(entry(19, 0, 0), 'b');
    assert_eq!(entry(19, 0, 18), 'z');
    assert_eq!(entry(19, 1, 0), 'a');
    assert_eq!(entry(19, 1, 5), 'y');
    assert_eq!(entry(19, 19, 0), '0');
    assert_eq!(entry(19, 19, 9), '9');
    assert_eq!(entry(5, 19, 9), 'n');
    assert_eq!(entry(5, 5, 7), '7');
    assert_eq!(entry(12, 5, 7), 'k');
}
