//! From text back to choices: a password shows what it was made of.

use crate::alphabet::{is_digit, is_upper, lemma_tables, small, CONSONANTS, DIGITS, VOWELS};
use crate::password::{
    admissible, capital_position, capital_slot, digit_slot, is_password, password, symbol, table,
    Choices,
};
use crate::shape::{
    capital_only_at, digit_only_at, fits, lemma_symbol, lemma_well_formed, well_formed,
};
use crate::template::{
    lemma_letters_before, lemma_slot_at, lemma_template, letters_before, slot_at, Slot, TEMPLATE,
};
use vstd::prelude::*;

verus! {

/// The choices that the well-formed text `s` was made of: the digit slot is
/// the one that holds the digit, the capital is counted among the letters
/// that the digit has left, and each pick is the place of the character, as
/// a small letter, in the table of its slot.
pub open spec fn choices_behind(s: Seq<char>) -> Choices {
    let digit: int = if is_digit(s[5]) {
        0
    } else if is_digit(s[12]) {
        1
    } else {
        2
    };
    let digit_at = 5 + 7 * digit;
    let position = letters_before(choose|u: int| capital_only_at(s, u));
    Choices {
        digit,
        upper: if position < letters_before(digit_at) {
            position
        } else {
            position - 1
        },
        picks: Seq::new(
            18,
            |k: int| table(digit_at, slot_at(k)).index_of(small(s[slot_at(k)])),
        ),
    }
}

/// Whatever looks as a password must is one: the password of the choices
/// that can be read off it.
pub proof fn lemma_choices_behind(s: Seq<char>)
    requires
        well_formed(s),
    ensures
        admissible(choices_behind(s)),
        password(choices_behind(s)) == s,
{
    let c = choices_behind(s);
    let d = digit_slot(c);
    let u = choose|u: int| capital_only_at(s, u);
    lemma_template();
    lemma_tables();
    lemma_letters_before(d);
    lemma_letters_before(u);
    // the digit and the capital stand where the choices say
    assert(digit_only_at(s, d));
    assert(TEMPLATE@[u] != Slot::Hyphen && u != d) by {
        assert(fits(TEMPLATE@[u], s[u]));
    }
    assert(capital_position(c) == letters_before(u));
    // each pick finds the character of its slot, as a small letter
    assert forall|k: int| 0 <= k < 18 implies 0 <= #[trigger] c.picks[k] < table(
        d,
        slot_at(k),
    ).len() && table(d, slot_at(k))[c.picks[k]] == small(s[slot_at(k)]) by {
        let i = slot_at(k);
        lemma_slot_at(k);
        assert(fits(TEMPLATE@[i], s[i]));
        if i == d {
            assert(DIGITS@[s[i] as int - '0' as int] == s[i]);
        } else if TEMPLATE@[i] == Slot::Vowel {
            assert(VOWELS@.contains(small(s[i])));
        } else {
            assert(CONSONANTS@.contains(small(s[i])));
        }
    }
    // so the choices give back every character
    assert forall|i: int| 0 <= i < 20 implies #[trigger] password(c)[i] == s[i] by {
        lemma_letters_before(i);
        if TEMPLATE@[i] != Slot::Hyphen {
            let k = letters_before(i);
            lemma_slot_at(k);
            lemma_slot_at(letters_before(u));
            assert(table(d, i)[c.picks[k]] == small(s[i]));
            assert(is_upper(s[i]) <==> k == capital_position(c));
        }
    }
    assert(password(c) =~= s);
}

/// A text is a password if and only if it looks as a password must.
pub proof fn lemma_password_iff_well_formed(s: Seq<char>)
    ensures
        is_password(s) <==> well_formed(s),
{
    if is_password(s) {
        lemma_well_formed(s);
    }
    if well_formed(s) {
        lemma_choices_behind(s);
    }
}

/// Different choices give different passwords. So where the choices are drawn
/// evenly, no password is more likely than another.
pub proof fn lemma_password_injective(a: Choices, b: Choices)
    requires
        admissible(a),
        admissible(b),
        password(a) == password(b),
    ensures
        a == b,
{
    let s = password(a);
    lemma_tables();
    // one digit: where `b` has it, `a` has it
    lemma_symbol(a, digit_slot(b));
    lemma_symbol(b, digit_slot(b));
    assert(s[digit_slot(b)] == symbol(b, digit_slot(b)));
    assert(digit_slot(a) == digit_slot(b));
    lemma_template();
    assert(a.digit == b.digit);
    // one capital: likewise
    lemma_symbol(a, capital_slot(b));
    lemma_symbol(b, capital_slot(b));
    assert(s[capital_slot(b)] == symbol(b, capital_slot(b)));
    assert(capital_slot(a) == capital_slot(b));
    lemma_letters_before(digit_slot(a));
    assert(a.upper == b.upper);
    // the same character of the same rising table: the same pick
    assert forall|k: int| 0 <= k < 18 implies a.picks[k] == b.picks[k] by {
        let i = slot_at(k);
        let t = table(digit_slot(a), i);
        lemma_slot_at(k);
        assert(s[i] == symbol(b, i));
        assert(t[a.picks[k]] == t[b.picks[k]]);
    }
    assert(a.picks =~= b.picks);
}

} // verus!
