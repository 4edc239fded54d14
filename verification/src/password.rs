//! What a password is: the text that a set of choices stands for.

use crate::alphabet::{capital, CONSONANTS, DIGITS, VOWELS};
use crate::template::{letters_before, slot_at, Slot, DIGIT_SLOTS, LENGTH, LETTERS, TEMPLATE};
use vstd::prelude::*;

verus! {

/// The choices behind one password, as numbers.
pub struct Choices {
    /// Which of the [`DIGIT_SLOTS`] holds the digit.
    pub digit: int,
    /// Which letter is the capital, counted among the letter slots that the
    /// digit has left.
    pub upper: int,
    /// For each slot that is no hyphen, by letter position: which entry of the
    /// slot's table stands there.
    pub picks: Seq<int>,
}

/// The slot that holds the digit.
pub open spec fn digit_slot(c: Choices) -> int {
    DIGIT_SLOTS@[c.digit] as int
}

/// The table that the character of slot `i` comes from when the digit stands
/// at slot `digit_at`: the digits at that slot, else the vowels or the
/// consonants, as the pattern says. A hyphen comes from no table.
pub open spec fn table(digit_at: int, i: int) -> Seq<char> {
    if i == digit_at {
        DIGITS@
    } else {
        match TEMPLATE@[i] {
            Slot::Vowel => VOWELS@,
            Slot::Consonant => CONSONANTS@,
            Slot::Hyphen => Seq::empty(),
        }
    }
}

/// Choices that a password can be made of: one of the digit slots, one of the
/// letters that are left, of which there is one less than letter slots, and
/// for each slot that is no hyphen an entry of its table.
pub open spec fn admissible(c: Choices) -> bool {
    &&& 0 <= c.digit < DIGIT_SLOTS@.len()
    &&& 0 <= c.upper < LETTERS - 1
    &&& c.picks.len() == LETTERS
    &&& forall|k: int|
        0 <= k < LETTERS ==> 0 <= #[trigger] c.picks[k] < table(digit_slot(c), slot_at(k)).len()
}

/// The letter position of the capital: of the positions that the digit has
/// not taken, in rising order, the one that `upper` counts to. The digit keeps
/// its own position, so the positions after it are one further on.
pub open spec fn capital_position(c: Choices) -> int {
    if c.upper < letters_before(digit_slot(c)) {
        c.upper
    } else {
        c.upper + 1
    }
}

/// The slot that holds the capital.
pub open spec fn capital_slot(c: Choices) -> int {
    slot_at(capital_position(c))
}

/// The character at place `i` of the password: a hyphen where the pattern has
/// one, else the entry of the slot's table that was picked for it, as a capital
/// at the capital's position.
pub open spec fn symbol(c: Choices, i: int) -> char {
    if TEMPLATE@[i] == Slot::Hyphen {
        '-'
    } else {
        let entry = table(digit_slot(c), i)[c.picks[letters_before(i)]];
        if letters_before(i) == capital_position(c) {
            capital(entry)
        } else {
            entry
        }
    }
}

/// The password that the choices `c` stand for.
pub open spec fn password(c: Choices) -> Seq<char> {
    Seq::new(LENGTH as nat, |i: int| symbol(c, i))
}

/// `s` is the password of some admissible choices.
pub open spec fn is_password(s: Seq<char>) -> bool {
    exists|c: Choices| admissible(c) && s == #[trigger] password(c)
}

} // verus!
