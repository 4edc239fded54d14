//! Passwords that are easy to type and hard to guess: three groups of six
//! characters joined by hyphens, such as `vessiK-dowbec-ferzi6`. Each group
//! alternates consonants and vowels; one letter slot holds a digit, one of the
//! remaining letters is a capital, and the letter `l` never occurs.
//!
//! What a password is, is stated once, by [`password::password`]: the text
//! that a set of choices stands for. What every password looks like is proved
//! from that in [`shape`], and that a password shows its choices in
//! [`reading`]. The choices are drawn by [`generate_with_rng`], kept as plain
//! numbers in [`draws::Draws`], and written out by [`fill::fill`].

use crate::draws::{table_len, Draws};
use crate::fill::fill;
use crate::password::{is_password, table};
use crate::shape::well_formed;
use crate::template::{
    lemma_letters_before, lemma_slot_at, letters_before, slot_at, Slot, DIGIT_SLOTS, LENGTH,
    LETTERS, TEMPLATE,
};
use crate::trusted::{draw_below, os_rng};
use vstd::prelude::*;

pub mod alphabet;
pub mod draws;
pub mod fill;
pub mod password;
pub mod reading;
pub mod shape;
pub mod template;
pub mod trusted;

verus! {

/// Makes a password from the random numbers of the operating system.
///
/// The operating system may keep the caller waiting until it has random
/// data. If it fails to deliver any, the call panics: no weaker source takes
/// its place.
#[must_use]
pub fn generate() -> (out: String)
    ensures
        is_password(out@),
        well_formed(out@),
{
    generate_with_rng(os_rng())
}

/// Makes a password from the random numbers of `rng`, which should be a
/// generator that nobody can predict.
///
/// Twenty numbers are drawn, each from `0` up to a bound: first the digit
/// slot, below 3; then the capital, below 17; then, slot by slot from first to
/// last and passing over the hyphens, the entry of the slot's table, below 10
/// at the digit slot, below 6 at a vowel and below 19 at a consonant. The
/// password is the one that these choices stand for. Where the numbers of
/// `rng` are even over their ranges, every password is as likely as any other.
///
/// If `rng` panics for want of random data, so does the call.
#[must_use]
pub fn generate_with_rng<T: rand::CryptoRng + rand::Rng>(mut rng: T) -> (out: String)
    ensures
        is_password(out@),
        well_formed(out@),
{
    let digit: usize = draw_below(&mut rng, DIGIT_SLOTS.len());
    let upper: usize = draw_below(&mut rng, LETTERS - 1);
    let digit_at: usize = DIGIT_SLOTS[digit];
    let mut picks: Vec<usize> = Vec::new();
    let mut i: usize = 0;
    while i < LENGTH
        invariant
            i <= 20,
            digit < 3,
            digit_at == DIGIT_SLOTS@[digit as int],
            picks@.len() == letters_before(i as int),
            forall|k: int|
                0 <= k < picks@.len() ==> #[trigger] picks@[k] < table(
                    digit_at as int,
                    slot_at(k),
                ).len(),
        decreases 20 - i,
    {
        let slot = TEMPLATE[i];
        proof {
            lemma_letters_before(i as int);
        }
        if slot != Slot::Hyphen {
            proof {
                lemma_slot_at(picks@.len() as int);
            }
            let pick: usize = draw_below(&mut rng, table_len(digit_at, i));
            picks.push(pick);
        }
        i = i + 1;
    }
    proof {
        lemma_letters_before(20);
    }
    let draws = Draws::assemble(digit, upper, picks);
    fill(&draws)
}

} // verus!
