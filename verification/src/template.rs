//! The pattern that every password follows.

use vstd::prelude::*;

verus! {

/// What stands at one place of the pattern.
#[derive(Clone, Copy, Debug, PartialEq, Eq, Structural)]
pub enum Slot {
    /// A consonant, or the digit.
    Consonant,
    /// A vowel.
    Vowel,
    /// The hyphen between two groups.
    Hyphen,
}

/// The number of characters in a password.
pub const LENGTH: usize = 20;

/// The number of slots of the pattern that are no hyphens.
pub const LETTERS: usize = 18;

/// The pattern: three groups of consonant, vowel, consonant, consonant, vowel,
/// consonant, with a hyphen between one group and the next.
pub const TEMPLATE: [Slot; 20] = [
    Slot::Consonant,
    Slot::Vowel,
    Slot::Consonant,
    Slot::Consonant,
    Slot::Vowel,
    Slot::Consonant,
    Slot::Hyphen,
    Slot::Consonant,
    Slot::Vowel,
    Slot::Consonant,
    Slot::Consonant,
    Slot::Vowel,
    Slot::Consonant,
    Slot::Hyphen,
    Slot::Consonant,
    Slot::Vowel,
    Slot::Consonant,
    Slot::Consonant,
    Slot::Vowel,
    Slot::Consonant,
];

/// The slots that may hold the digit: the last one of each group.
pub const DIGIT_SLOTS: [usize; 3] = [5, 12, 19];

/// The number of slots before slot `i` that are no hyphens. For a slot that is
/// no hyphen itself this is its letter position, counted from 0.
pub open spec fn letters_before(i: int) -> int
    decreases i,
{
    if i <= 0 {
        0
    } else if TEMPLATE@[i - 1] == Slot::Hyphen {
        letters_before(i - 1)
    } else {
        letters_before(i - 1) + 1
    }
}

/// The slot at letter position `k`: the hyphens before it are counted in.
pub open spec fn slot_at(k: int) -> int {
    if k < 6 {
        k
    } else if k < 12 {
        k + 1
    } else {
        k + 2
    }
}

/// Where the hyphens of the pattern stand, and that the digit slots are
/// consonant slots, each the sixth of its group.
pub proof fn lemma_template()
    ensures
        forall|i: int|
            0 <= i < 20 ==> (#[trigger] TEMPLATE@[i] == Slot::Hyphen <==> i == 6 || i == 13),
        forall|k: int|
            0 <= k < 3 ==> TEMPLATE@[#[trigger] DIGIT_SLOTS@[k] as int] == Slot::Consonant,
        forall|k: int| 0 <= k < 3 ==> #[trigger] DIGIT_SLOTS@[k] == 5 + 7 * k,
{
}

/// The letter positions in closed form: a hyphen takes no position, so each
/// group starts one position earlier than its slot says.
pub proof fn lemma_letters_before(i: int)
    requires
        0 <= i <= 20,
    ensures
        letters_before(i) == if i <= 6 {
            i
        } else if i <= 13 {
            i - 1
        } else {
            i - 2
        },
    decreases i,
{
    if i > 0 {
        lemma_letters_before(i - 1);
        lemma_template();
    }
}

/// Letter positions and slots answer each other: the slot at position `k` is
/// no hyphen and has `k` letter slots before it, and no other slot has.
pub proof fn lemma_slot_at(k: int)
    requires
        0 <= k < 18,
    ensures
        0 <= slot_at(k) < 20,
        TEMPLATE@[slot_at(k)] != Slot::Hyphen,
        letters_before(slot_at(k)) == k,
        forall|i: int|
            0 <= i < 20 && TEMPLATE@[i] != Slot::Hyphen && i != slot_at(k)
                ==> #[trigger] letters_before(i) != k,
{
    lemma_template();
    lemma_letters_before(slot_at(k));
    assert forall|i: int|
        0 <= i < 20 && TEMPLATE@[i] != Slot::Hyphen && i != slot_at(k)
        implies #[trigger] letters_before(i) != k by {
        lemma_letters_before(i);
    }
}

/// The pattern has as many letter slots as [`LETTERS`] says.
pub proof fn lemma_letter_count()
    ensures
        letters_before(LENGTH as int) == LETTERS,
{
    lemma_letters_before(20);
}

/// Counts the slots before slot `i` that are no hyphens.
pub fn letter_position(i: usize) -> (k: usize)
    requires
        i <= LENGTH,
    ensures
        k == letters_before(i as int),
{
    let mut k: usize = 0;
    let mut j: usize = 0;
    while j < i
        invariant
            j <= i <= 20,
            k == letters_before(j as int),
            k <= j,
        decreases i - j,
    {
        if TEMPLATE[j] != Slot::Hyphen {
            k = k + 1;
        }
        j = j + 1;
    }
    k
}

} // verus!
