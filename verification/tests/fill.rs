use apple_password_gen::draws::Draws;
use apple_password_gen::fill::fill;

fn password_of(digit: usize, upper: usize, picks: Vec<usize>) -> String {
    match Draws::new(digit, upper, picks) {
        Some(draws) => fill(&draws),
        None => panic!("the choices are not admissible"),
    }
}

#[test]
fn golden_digit_in_last_group() {
    let picks = vec![15, 1, 13, 13, 2, 7, 2, 3, 16, 0, 1, 1, 3, 1, 12, 18, 2, 6];
    assert_eq!(password_of(2, 5, picks), "vessiK-dowbec-ferzi6");
}

#[test]
fn golden_capital_after_digit_of_first_group() {
    let picks = vec![7, 2, 6, 18, 5, 4, 1, 2, 6, 5, 2, 18, 10, 1, 1, 4, 4, 4];
    assert_eq!(password_of(0, 16, picks), "kijzy4-cijhiz-pecguG");
}

#[test]
fn golden_capital_before_digit_of_first_group() {
    let picks = vec![4, 5, 1, 8, 2, 4, 8, 2, 13, 0, 5, 5, 18, 3, 0, 10, 2, 9];
    assert_eq!(password_of(0, 1, picks), "gYcmi4-misbyh-zobpin");
}

#[test]
fn golden_digit_in_middle_group() {
    let picks = vec![18, 1, 12, 14, 4, 9, 14, 3, 4, 0, 0, 2, 7, 2, 6, 12, 4, 5];
    assert_eq!(password_of(1, 16, picks), "zertun-togba2-kijruH");
}

#[test]
fn all_zero_choices() {
    assert_eq!(password_of(0, 0, vec![0; 18]), "Babba0-babbab-babbab");
}

#[test]
fn all_largest_choices() {
    let picks = vec![18, 5, 18, 18, 5, 18, 18, 5, 18, 18, 5, 18, 18, 5, 18, 18, 5, 9];
    assert_eq!(password_of(2, 16, picks), "zyzzyz-zyzzyz-zyzzY9");
}

#[test]
fn capital_just_before_the_digit() {
    assert_eq!(password_of(0, 4, vec![0; 18]), "babbA0-babbab-babbab");
    assert_eq!(password_of(1, 10, vec![0; 18]), "babbab-babbA0-babbab");
    assert_eq!(password_of(2, 16, vec![0; 18]), "babbab-babbab-babbA0");
}

#[test]
fn capital_passes_over_the_digit() {
    assert_eq!(password_of(0, 5, vec![0; 18]), "babba0-Babbab-babbab");
    assert_eq!(password_of(1, 11, vec![0; 18]), "babbab-babba0-Babbab");
    assert_eq!(password_of(0, 16, vec![0; 18]), "babba0-babbab-babbaB");
    assert_eq!(password_of(1, 16, vec![0; 18]), "babbab-babba0-babbaB");
}

#[test]
fn every_capital_choice_gives_one_capital() {
    for digit in 0..3 {
        let digit_at = [5, 12, 19][digit];
        let mut seen = Vec::new();
        for upper in 0..17 {
            let text = password_of(digit, upper, vec![0; 18]);
            let capitals: Vec<usize> = text
                .char_indices()
                .filter(|(_, c)| c.is_ascii_uppercase())
                .map(|(i, _)| i)
                .collect();
            assert_eq!(capitals.len(), 1, "{text}");
            assert_ne!(capitals[0], digit_at);
            assert!(!seen.contains(&capitals[0]));
            seen.push(capitals[0]);
        }
        assert_eq!(seen.len(), 17);
        let mut sorted = seen.clone();
        sorted.sort();
        assert_eq!(seen, sorted);
    }
}

#[test]
fn every_digit_and_letter_can_be_picked() {
    let vowels = ['a', 'e', 'i', 'o', 'u', 'y'];
    let consonants = [
        'b', 'c', 'd', 'f', 'g', 'h', 'j', 'k', 'm', 'n', 'p', 'q', 'r', 's', 't', 'v', 'w', 'x',
        'z',
    ];
    for (k, vowel) in vowels.iter().enumerate() {
        let mut picks = vec![0; 18];
        picks[7] = k;
        let text = password_of(2, 0, picks);
        assert_eq!(text.chars().nth(8), Some(*vowel));
    }
    for (k, consonant) in consonants.iter().enumerate() {
        let mut picks = vec![0; 18];
        picks[11] = k;
        let text = password_of(2, 0, picks);
        assert_eq!(text.chars().nth(12), Some(*consonant));
    }
    for k in 0..10 {
        let mut picks = vec![0; 18];
        picks[11] = k;
        let text = password_of(1, 0, picks);
        assert_eq!(text.chars().nth(12), char::from_digit(k as u32, 10));
    }
}

#[test]
fn same_choices_same_password() {
    let picks = vec![15, 1, 13, 13, 2, 7, 2, 3, 16, 0, 1, 1, 3, 1, 12, 18, 2, 6];
    let first = password_of(2, 5, picks.clone());
    let other = password_of(0, 16, vec![7, 2, 6, 18, 5, 4, 1, 2, 6, 5, 2, 18, 10, 1, 1, 4, 4, 4]);
    let again = password_of(2, 5, picks);
    assert_eq!(first, again);
    assert_ne!(first, other);
}

#[test]
fn getters_give_back_what_was_kept() {
    let picks = vec![15, 1, 13, 13, 2, 7, 2, 3, 16, 0, 1, 1, 3, 1, 12, 18, 2, 6];
    let draws = Draws::new(2, 5, picks.clone()).unwrap();
    assert_eq!(draws.digit(), 2);
    assert_eq!(draws.upper(), 5);
    for k in 0..18 {
        assert_eq!(draws.pick(k), picks[k]);
    }
}

#[test]
fn new_rejects_digit_choice_out_of_range() {
    assert!(Draws::new(2, 0, vec![0; 18]).is_some());
    assert!(Draws::new(3, 0, vec![0; 18]).is_none());
    assert!(Draws::new(usize::MAX, 0, vec![0; 18]).is_none());
}

#[test]
fn new_rejects_capital_choice_out_of_range() {
    assert!(Draws::new(0, 16, vec![0; 18]).is_some());
    assert!(Draws::new(0, 17, vec![0; 18]).is_none());
    assert!(Draws::new(0, usize::MAX, vec![0; 18]).is_none());
}

#[test]
fn new_rejects_wrong_number_of_picks() {
    assert!(Draws::new(0, 0, vec![]).is_none());
    assert!(Draws::new(0, 0, vec![0; 17]).is_none());
    assert!(Draws::new(0, 0, vec![0; 19]).is_none());
    assert!(Draws::new(0, 0, vec![0; 20]).is_none());
}

#[test]
fn new_rejects_pick_beyond_its_table() {
    // letter position 1 is a vowel slot: six entries
    let mut picks = vec![0; 18];
    picks[1] = 5;
    assert!(Draws::new(0, 0, picks.clone()).is_some());
    picks[1] = 6;
    assert!(Draws::new(0, 0, picks).is_none());
    // letter position 0 is a consonant slot: nineteen entries
    let mut picks = vec![0; 18];
    picks[0] = 18;
    assert!(Draws::new(0, 0, picks.clone()).is_some());
    picks[0] = 19;
    assert!(Draws::new(0, 0, picks).is_none());
    // the last pick is checked too
    let mut picks = vec![0; 18];
    picks[17] = 19;
    assert!(Draws::new(0, 0, picks).is_none());
}

#[test]
fn new_holds_the_digit_slot_to_ten_entries() {
    // letter position 5 is slot 5: a consonant, unless the digit stands there
    let mut picks = vec![0; 18];
    picks[5] = 9;
    assert!(Draws::new(0, 0, picks.clone()).is_some());
    picks[5] = 10;
    assert!(Draws::new(0, 0, picks.clone()).is_none());
    assert!(Draws::new(1, 0, picks.clone()).is_some());
    assert!(Draws::new(2, 0, picks).is_some());
    // letter position 11 is slot 12, position 17 is slot 19
    let mut picks = vec![0; 18];
    picks[11] = 10;
    assert!(Draws::new(1, 0, picks.clone()).is_none());
    assert!(Draws::new(0, 0, picks).is_some());
    let mut picks = vec![0; 18];
    picks[17] = 10;
    assert!(Draws::new(2, 0, picks.clone()).is_none());
    assert!(Draws::new(1, 0, picks).is_some());
}
