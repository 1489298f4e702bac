//! Sign indices: a longitude's sign is its 30-degree slot counted from Aries.

use vstd::prelude::*;

use crate::kundli::model::{sign_ordinal, Sign};

verus! {

/// Converts a sign index (0 is Aries, ..., 11 is Pisces) to its sign.
pub fn sign_from_index(index: usize) -> (sign: Sign)
    requires
        index < 12,
    ensures
        sign_ordinal(sign) == index,
{
    match index {
        0 => Sign::Aries,
        1 => Sign::Taurus,
        2 => Sign::Gemini,
        3 => Sign::Cancer,
        4 => Sign::Leo,
        5 => Sign::Virgo,
        6 => Sign::Libra,
        7 => Sign::Scorpio,
        8 => Sign::Sagittarius,
        9 => Sign::Capricorn,
        10 => Sign::Aquarius,
        _ => Sign::Pisces,
    }
}

/// Converts a sign to its index (0 is Aries, ..., 11 is Pisces).
pub fn sign_to_index(sign: Sign) -> (index: usize)
    ensures
        index == sign_ordinal(sign),
        index < 12,
{
    match sign {
        Sign::Aries => 0,
        Sign::Taurus => 1,
        Sign::Gemini => 2,
        Sign::Cancer => 3,
        Sign::Leo => 4,
        Sign::Virgo => 5,
        Sign::Libra => 6,
        Sign::Scorpio => 7,
        Sign::Sagittarius => 8,
        Sign::Capricorn => 9,
        Sign::Aquarius => 10,
        Sign::Pisces => 11,
    }
}

/// Sign indices and signs are in one-to-one correspondence: every sign has
/// an index below 12, and two signs with the same index are the same sign.
pub proof fn lemma_sign_index_bijective(a: Sign, b: Sign)
    ensures
        0 <= sign_ordinal(a) < 12,
        sign_ordinal(a) == sign_ordinal(b) ==> a == b,
{
}

} // verus!
