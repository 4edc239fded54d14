//! From choices to text.

use crate::alphabet::{capitalize, lemma_tables, CONSONANTS, DIGITS, VOWELS};
use crate::draws::Draws;
use crate::password::{admissible, capital_position, digit_slot, password, symbol, table};
use crate::shape::{lemma_well_formed, well_formed};
use crate::template::{
    lemma_letters_before, lemma_slot_at, lemma_template, letter_position, letters_before, Slot,
    DIGIT_SLOTS, LENGTH, TEMPLATE,
};
use vstd::prelude::*;

verus! {

/// The entry at place `pick` of the table that slot `i` draws from when the
/// digit stands at slot `digit_at`.
pub fn entry(digit_at: usize, i: usize, pick: usize) -> (entry: char)
    requires
        i < LENGTH,
        pick < table(digit_at as int, i as int).len(),
    ensures
        entry == table(digit_at as int, i as int)[pick as int],
{
    if i == digit_at {
        DIGITS[pick]
    } else {
        match TEMPLATE[i] {
            Slot::Vowel => VOWELS[pick],
            _ => CONSONANTS[pick],
        }
    }
}

/// Writes out the password that `draws` stands for.
pub fn fill(draws: &Draws) -> (out: String)
    ensures
        out@ == password(draws@),
        admissible(draws@),
        well_formed(out@),
{
    proof {
        use_type_invariant(draws);
        lemma_template();
        lemma_tables();
    }
    let digit_at: usize = DIGIT_SLOTS[draws.digit()];
    let digit_position: usize = letter_position(digit_at);
    let capital_at: usize = if draws.upper() < digit_position {
        draws.upper()
    } else {
        draws.upper() + 1
    };
    let mut out = String::new();
    let mut position: usize = 0;
    let mut i: usize = 0;
    while i < LENGTH
        invariant
            i <= 20,
            admissible(draws@),
            digit_at == digit_slot(draws@),
            capital_at == capital_position(draws@),
            position == letters_before(i as int),
            out@ == password(draws@).take(i as int),
        decreases 20 - i,
    {
        let slot = TEMPLATE[i];
        proof {
            lemma_letters_before(i as int);
            if slot != Slot::Hyphen {
                lemma_slot_at(position as int);
            }
        }
        if slot == Slot::Hyphen {
            out.push('-');
        } else {
            let letter: char = entry(digit_at, i, draws.pick(position));
            if position == capital_at {
                out.push(capitalize(letter));
            } else {
                out.push(letter);
            }
            position = position + 1;
        }
        proof {
            assert(password(draws@).take(i + 1) =~= password(draws@).take(i as int).push(
                symbol(draws@, i as int),
            ));
        }
        i = i + 1;
    }
    proof {
        assert(password(draws@).take(20) =~= password(draws@));
        lemma_well_formed(out@);
    }
    out
}

} // verus!
