//! The random choices behind one password.

use crate::alphabet::{CONSONANTS, DIGITS, VOWELS};
use crate::password::{admissible, digit_slot, table, Choices};
use crate::template::{
    lemma_letters_before, lemma_slot_at, letters_before, slot_at, Slot, DIGIT_SLOTS, LENGTH,
    LETTERS, TEMPLATE,
};
use vstd::prelude::*;

verus! {

/// The choices that three drawn values stand for.
pub open spec fn choices_of(digit: usize, upper: usize, picks: Seq<usize>) -> Choices {
    Choices {
        digit: digit as int,
        upper: upper as int,
        picks: picks.map_values(|p: usize| p as int),
    }
}

/// The number of entries of the table that slot `i` draws from when the digit
/// stands at slot `digit_at`. A hyphen slot draws from none.
pub fn table_len(digit_at: usize, i: usize) -> (n: usize)
    requires
        i < LENGTH,
    ensures
        n == table(digit_at as int, i as int).len(),
        TEMPLATE@[i as int] != Slot::Hyphen ==> n > 0,
{
    if i == digit_at {
        DIGITS.len()
    } else {
        match TEMPLATE[i] {
            Slot::Vowel => VOWELS.len(),
            Slot::Consonant => CONSONANTS.len(),
            Slot::Hyphen => 0,
        }
    }
}

/// The numbers that were drawn for one password. A value of this type always
/// holds admissible choices.
pub struct Draws {
    digit: usize,
    upper: usize,
    picks: Vec<usize>,
}

impl View for Draws {
    type V = Choices;

    closed spec fn view(&self) -> Choices {
        choices_of(self.digit, self.upper, self.picks@)
    }
}

impl Draws {
    /// What holds of every value of the type.
    #[verifier::type_invariant]
    pub open spec fn holds_admissible(&self) -> bool {
        admissible(self@)
    }

    /// Keeps three drawn values that are known to be admissible.
    pub(crate) fn assemble(digit: usize, upper: usize, picks: Vec<usize>) -> (draws: Draws)
        requires
            admissible(choices_of(digit, upper, picks@)),
        ensures
            draws@ == choices_of(digit, upper, picks@),
    {
        Draws { digit, upper, picks }
    }

    /// Keeps three drawn values if they are admissible: `digit` below 3,
    /// `upper` below 17, and eighteen `picks`, each below the length of the
    /// table of its slot.
    pub fn new(digit: usize, upper: usize, picks: Vec<usize>) -> (r: Option<Draws>)
        ensures
            r is Some <==> admissible(choices_of(digit, upper, picks@)),
            r is Some ==> r->0@ == choices_of(digit, upper, picks@),
    {
        if digit >= DIGIT_SLOTS.len() || upper >= LETTERS - 1 || picks.len() != LETTERS {
            return None;
        }
        let ghost c = choices_of(digit, upper, picks@);
        let digit_at: usize = DIGIT_SLOTS[digit];
        let mut position: usize = 0;
        let mut i: usize = 0;
        while i < LENGTH
            invariant
                i <= 20,
                picks@.len() == 18,
                c == choices_of(digit, upper, picks@),
                digit_at == digit_slot(c),
                position == letters_before(i as int),
                position <= 18,
                forall|k: int|
                    0 <= k < position ==> 0 <= #[trigger] c.picks[k] < table(
                        digit_at as int,
                        slot_at(k),
                    ).len(),
            decreases 20 - i,
        {
            let slot = TEMPLATE[i];
            proof {
                lemma_letters_before(i as int);
            }
            if slot != Slot::Hyphen {
                proof {
                    lemma_slot_at(position as int);
                }
                if picks[position] >= table_len(digit_at, i) {
                    assert(c.picks[position as int] >= table(
                        digit_slot(c),
                        slot_at(position as int),
                    ).len());
                    return None;
                }
                position = position + 1;
            }
            i = i + 1;
        }
        proof {
            lemma_letters_before(20);
        }
        Some(Draws::assemble(digit, upper, picks))
    }

    /// Which of the digit slots holds the digit.
    pub fn digit(&self) -> (digit: usize)
        ensures
            digit == self@.digit,
            digit < 3,
    {
        proof {
            use_type_invariant(self);
        }
        self.digit
    }

    /// Which of the letters that the digit has left is the capital.
    pub fn upper(&self) -> (upper: usize)
        ensures
            upper == self@.upper,
            upper < 17,
    {
        proof {
            use_type_invariant(self);
        }
        self.upper
    }

    /// The entry that was drawn for the slot at letter position `k`.
    pub fn pick(&self, k: usize) -> (pick: usize)
        requires
            k < LETTERS,
        ensures
            pick == self@.picks[k as int],
    {
        proof {
            use_type_invariant(self);
        }
        self.picks[k]
    }
}

} // verus!
