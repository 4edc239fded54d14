//! What every password looks like, proved from what a password is.

use crate::alphabet::{
    is_digit, is_letter, is_lower, is_upper, lemma_tables, small, CONSONANTS, VOWELS,
};
use crate::password::{
    admissible, capital_slot, digit_slot, is_password, password, symbol, Choices,
};
use crate::template::{lemma_letters_before, lemma_template, letters_before, Slot, TEMPLATE};
use vstd::prelude::*;

verus! {

/// `s` has twenty characters, with a hyphen after the sixth and after the
/// thirteenth and nowhere else.
pub open spec fn hyphens_in_place(s: Seq<char>) -> bool {
    &&& s.len() == 20
    &&& forall|i: int| 0 <= i < 20 ==> (#[trigger] s[i] == '-' <==> i == 6 || i == 13)
}

/// Place `d` of `s` holds a digit, and every other place a hyphen or a letter.
pub open spec fn digit_only_at(s: Seq<char>, d: int) -> bool {
    &&& 0 <= d < s.len()
    &&& is_digit(s[d])
    &&& forall|i: int| 0 <= i < s.len() && i != d ==> #[trigger] s[i] == '-' || is_letter(s[i])
}

/// `s` holds one digit, at the last place of one of its three groups, and
/// besides it only hyphens and letters.
pub open spec fn one_digit(s: Seq<char>) -> bool {
    digit_only_at(s, 5) || digit_only_at(s, 12) || digit_only_at(s, 19)
}

/// `s` holds no `l`, small or capital.
pub open spec fn no_ell(s: Seq<char>) -> bool {
    forall|i: int| 0 <= i < s.len() ==> #[trigger] s[i] != 'l' && s[i] != 'L'
}

/// Place `u` of `s` holds a capital, and every other letter of `s` is small.
pub open spec fn capital_only_at(s: Seq<char>, u: int) -> bool {
    &&& 0 <= u < s.len()
    &&& is_upper(s[u])
    &&& forall|i: int| 0 <= i < s.len() && i != u && is_letter(#[trigger] s[i]) ==> is_lower(s[i])
}

/// `s` holds one capital; its other letters are small.
pub open spec fn one_capital(s: Seq<char>) -> bool {
    exists|u: int| #[trigger] capital_only_at(s, u)
}

/// `ch` may stand at a slot of this kind: a hyphen at a hyphen slot, a vowel
/// of either case at a vowel slot, a consonant of either case or a digit at a
/// consonant slot.
pub open spec fn fits(slot: Slot, ch: char) -> bool {
    match slot {
        Slot::Hyphen => ch == '-',
        Slot::Vowel => VOWELS@.contains(small(ch)),
        Slot::Consonant => CONSONANTS@.contains(small(ch)) || is_digit(ch),
    }
}

/// Each place of `s` holds what the pattern has a slot for.
pub open spec fn follows_template(s: Seq<char>) -> bool {
    &&& s.len() == 20
    &&& forall|i: int| 0 <= i < 20 ==> fits(TEMPLATE@[i], #[trigger] s[i])
}

/// `s` looks as a password must.
pub open spec fn well_formed(s: Seq<char>) -> bool {
    &&& hyphens_in_place(s)
    &&& one_digit(s)
    &&& no_ell(s)
    &&& one_capital(s)
    &&& follows_template(s)
}

/// What stands at one place of a password: a hyphen at a hyphen slot, a digit
/// at the digit slot, a capital other than `L` at the capital's slot, and a
/// small letter other than `l` at every other slot.
pub proof fn lemma_symbol(c: Choices, i: int)
    requires
        admissible(c),
        0 <= i < 20,
    ensures
        TEMPLATE@[i] == Slot::Hyphen ==> symbol(c, i) == '-',
        i == digit_slot(c) ==> is_digit(symbol(c, i)),
        i == capital_slot(c) ==> is_upper(symbol(c, i)) && symbol(c, i) != 'L',
        TEMPLATE@[i] != Slot::Hyphen && i != digit_slot(c) && i != capital_slot(c)
            ==> is_lower(symbol(c, i)) && symbol(c, i) != 'l',
        capital_slot(c) != digit_slot(c),
        0 <= capital_slot(c) < 20,
        TEMPLATE@[capital_slot(c)] != Slot::Hyphen,
        digit_slot(c) == 5 || digit_slot(c) == 12 || digit_slot(c) == 19,
{
    lemma_template();
    lemma_tables();
    lemma_letters_before(i);
    lemma_letters_before(digit_slot(c));
    lemma_letters_before(capital_slot(c));
}

/// Every password has twenty characters, with its two hyphens in their
/// places and no third one.
pub proof fn lemma_hyphens(c: Choices)
    requires
        admissible(c),
    ensures
        hyphens_in_place(password(c)),
{
    lemma_template();
    assert forall|i: int| 0 <= i < 20 implies (#[trigger] password(c)[i] == '-' <==> i == 6 || i
        == 13) by {
        lemma_symbol(c, i);
    }
}

/// Every password holds one digit, at the digit slot that was chosen, which
/// is the last slot of a group; every other character that is no hyphen is a
/// letter.
pub proof fn lemma_digit(c: Choices)
    requires
        admissible(c),
    ensures
        digit_only_at(password(c), digit_slot(c)),
        one_digit(password(c)),
{
    lemma_symbol(c, digit_slot(c));
    assert forall|i: int| 0 <= i < 20 && i != digit_slot(c) implies #[trigger] password(c)[i]
        == '-' || is_letter(password(c)[i]) by {
        lemma_symbol(c, i);
    }
}

/// No password holds the letter `l`, small or capital.
pub proof fn lemma_no_ell(c: Choices)
    requires
        admissible(c),
    ensures
        no_ell(password(c)),
{
    assert forall|i: int| 0 <= i < 20 implies #[trigger] password(c)[i] != 'l' && password(c)[i]
        != 'L' by {
        lemma_symbol(c, i);
    }
}

/// Every password holds one capital, at the slot that was chosen for it; its
/// other letters are small.
pub proof fn lemma_capital(c: Choices)
    requires
        admissible(c),
    ensures
        capital_only_at(password(c), capital_slot(c)),
        one_capital(password(c)),
{
    lemma_symbol(c, capital_slot(c));
    assert forall|i: int|
        0 <= i < 20 && i != capital_slot(c) && is_letter(#[trigger] password(c)[i])
        implies is_lower(password(c)[i]) by {
        lemma_symbol(c, i);
    }
    assert(capital_only_at(password(c), capital_slot(c)));
}

/// Every password follows the pattern: vowels at the vowel slots, consonants
/// or the digit at the consonant slots.
pub proof fn lemma_follows_template(c: Choices)
    requires
        admissible(c),
    ensures
        follows_template(password(c)),
{
    lemma_template();
    lemma_tables();
    assert forall|i: int| 0 <= i < 20 implies fits(TEMPLATE@[i], #[trigger] password(c)[i]) by {
        lemma_symbol(c, i);
        lemma_letters_before(i);
        let k = c.picks[letters_before(i)];
        if TEMPLATE@[i] == Slot::Vowel {
            assert(VOWELS@[k] == small(symbol(c, i)));
        } else if TEMPLATE@[i] == Slot::Consonant && i != digit_slot(c) {
            assert(CONSONANTS@[k] == small(symbol(c, i)));
        }
    }
}

/// Whatever is a password looks as a password must.
pub proof fn lemma_well_formed(s: Seq<char>)
    requires
        is_password(s),
    ensures
        well_formed(s),
{
    let c = choose|c: Choices| admissible(c) && s == #[trigger] password(c);
    lemma_hyphens(c);
    lemma_digit(c);
    lemma_no_ell(c);
    lemma_capital(c);
    lemma_follows_template(c);
}

} // verus!
