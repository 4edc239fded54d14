//! The characters a password is made of.

use vstd::prelude::*;

verus! {

/// The vowels, in the order in which a draw selects them.
pub const VOWELS: [char; 6] = ['a', 'e', 'i', 'o', 'u', 'y'];

/// The consonants, in the order in which a draw selects them. `l` is left
/// out: it is too easily taken for `1` or `I`.
pub const CONSONANTS: [char; 19] = [
    'b', 'c', 'd', 'f', 'g', 'h', 'j', 'k', 'm', 'n', 'p', 'q', 'r', 's', 't', 'v', 'w', 'x', 'z',
];

/// The decimal digits, in order of value.
pub const DIGITS: [char; 10] = ['0', '1', '2', '3', '4', '5', '6', '7', '8', '9'];

/// `c` is one of `0` to `9`.
pub open spec fn is_digit(c: char) -> bool {
    '0' <= c <= '9'
}

/// `c` is one of `a` to `z`.
pub open spec fn is_lower(c: char) -> bool {
    'a' <= c <= 'z'
}

/// `c` is one of `A` to `Z`.
pub open spec fn is_upper(c: char) -> bool {
    'A' <= c <= 'Z'
}

/// `c` is a letter of either case.
pub open spec fn is_letter(c: char) -> bool {
    is_lower(c) || is_upper(c)
}

/// The capital of a small letter: `a` gives `A`, `z` gives `Z`.
pub open spec fn capital(c: char) -> char
    recommends
        is_lower(c),
{
    (c as int - 32) as char
}

/// The small letter of a capital; any other character as it is.
pub open spec fn small(c: char) -> char {
    if is_upper(c) {
        (c as int + 32) as char
    } else {
        c
    }
}

/// What holds of the three tables: there are six vowels and nineteen
/// consonants, all of them small letters other than `l`; the digit at place
/// `k` is the digit of value `k`; and each table of letters rises from entry
/// to entry, so that none holds a letter twice.
pub proof fn lemma_tables()
    ensures
        VOWELS@.len() == 6,
        CONSONANTS@.len() == 19,
        DIGITS@.len() == 10,
        forall|k: int| 0 <= k < 6 ==> is_lower(#[trigger] VOWELS@[k]) && VOWELS@[k] != 'l',
        forall|k: int| 0 <= k < 19 ==> is_lower(#[trigger] CONSONANTS@[k]) && CONSONANTS@[k] != 'l',
        forall|k: int| 0 <= k < 10 ==> #[trigger] DIGITS@[k] as int == '0' as int + k,
        forall|j: int, k: int|
            0 <= j < k < 6 ==> (#[trigger] VOWELS@[j] as int) < (#[trigger] VOWELS@[k] as int),
        forall|j: int, k: int|
            0 <= j < k < 19 ==> (#[trigger] CONSONANTS@[j] as int) < (
            #[trigger] CONSONANTS@[k] as int),
{
}

/// Turns a small letter into its capital and leaves any other character as
/// it is.
pub fn capitalize(c: char) -> (r: char)
    ensures
        r == if is_lower(c) {
            capital(c)
        } else {
            c
        },
        is_lower(c) ==> is_upper(r) && small(r) == c,
{
    if 'a' <= c && c <= 'z' {
        ((c as u8) - 32) as char
    } else {
        c
    }
}

} // verus!
