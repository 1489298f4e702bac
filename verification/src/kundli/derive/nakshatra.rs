//! Nakshatra indices, padas and the Vimshottari lord of each nakshatra.

use vstd::prelude::*;

use crate::kundli::error::DeriveError;
use crate::kundli::model::{
    dasha_lord_ordinal, dasha_sequence_at, nakshatra_ordinal, DashaLord, Nakshatra, Pada,
};

verus! {

/// Converts a nakshatra index (0 is Ashwini, ..., 26 is Revati) to its nakshatra.
pub fn nakshatra_from_index(index: usize) -> (n: Nakshatra)
    requires
        index < 27,
    ensures
        nakshatra_ordinal(n) == index,
{
    match index {
        0 => Nakshatra::Ashwini,
        1 => Nakshatra::Bharani,
        2 => Nakshatra::Krittika,
        3 => Nakshatra::Rohini,
        4 => Nakshatra::Mrigashira,
        5 => Nakshatra::Ardra,
        6 => Nakshatra::Punarvasu,
        7 => Nakshatra::Pushya,
        8 => Nakshatra::Ashlesha,
        9 => Nakshatra::Magha,
        10 => Nakshatra::PurvaPhalguni,
        11 => Nakshatra::UttaraPhalguni,
        12 => Nakshatra::Hasta,
        13 => Nakshatra::Chitra,
        14 => Nakshatra::Swati,
        15 => Nakshatra::Vishakha,
        16 => Nakshatra::Anuradha,
        17 => Nakshatra::Jyeshtha,
        18 => Nakshatra::Mula,
        19 => Nakshatra::PurvaAshadha,
        20 => Nakshatra::UttaraAshadha,
        21 => Nakshatra::Shravana,
        22 => Nakshatra::Dhanishta,
        23 => Nakshatra::Shatabhisha,
        24 => Nakshatra::PurvaBhadrapada,
        25 => Nakshatra::UttaraBhadrapada,
        _ => Nakshatra::Revati,
    }
}

/// Converts a nakshatra to its index (0 is Ashwini, ..., 26 is Revati).
pub fn nakshatra_to_index(nakshatra: Nakshatra) -> (index: usize)
    ensures
        index == nakshatra_ordinal(nakshatra),
        index < 27,
{
    match nakshatra {
        Nakshatra::Ashwini => 0,
        Nakshatra::Bharani => 1,
        Nakshatra::Krittika => 2,
        Nakshatra::Rohini => 3,
        Nakshatra::Mrigashira => 4,
        Nakshatra::Ardra => 5,
        Nakshatra::Punarvasu => 6,
        Nakshatra::Pushya => 7,
        Nakshatra::Ashlesha => 8,
        Nakshatra::Magha => 9,
        Nakshatra::PurvaPhalguni => 10,
        Nakshatra::UttaraPhalguni => 11,
        Nakshatra::Hasta => 12,
        Nakshatra::Chitra => 13,
        Nakshatra::Swati => 14,
        Nakshatra::Vishakha => 15,
        Nakshatra::Anuradha => 16,
        Nakshatra::Jyeshtha => 17,
        Nakshatra::Mula => 18,
        Nakshatra::PurvaAshadha => 19,
        Nakshatra::UttaraAshadha => 20,
        Nakshatra::Shravana => 21,
        Nakshatra::Dhanishta => 22,
        Nakshatra::Shatabhisha => 23,
        Nakshatra::PurvaBhadrapada => 24,
        Nakshatra::UttaraBhadrapada => 25,
        Nakshatra::Revati => 26,
    }
}

/// Nakshatra indices and nakshatras are in one-to-one correspondence.
pub proof fn lemma_nakshatra_index_bijective(a: Nakshatra, b: Nakshatra)
    ensures
        0 <= nakshatra_ordinal(a) < 27,
        nakshatra_ordinal(a) == nakshatra_ordinal(b) ==> a == b,
{
}

/// The Vimshottari lord of a nakshatra: the sequence starts with Ketu at
/// Ashwini and repeats every nine nakshatras.
pub open spec fn spec_dasha_lord_for_nakshatra(nakshatra: Nakshatra) -> DashaLord {
    dasha_sequence_at(nakshatra_ordinal(nakshatra) % 9)
}

/// Returns the ruling dasha lord for a nakshatra.
pub fn dasha_lord_for_nakshatra(nakshatra: Nakshatra) -> (lord: DashaLord)
    ensures
        lord == spec_dasha_lord_for_nakshatra(nakshatra),
        dasha_lord_ordinal(lord) == nakshatra_ordinal(nakshatra) % 9,
{
    let nakshatra_index = nakshatra_to_index(nakshatra);
    let lord_index = nakshatra_index % 9;
    DashaLord::sequence_lord(lord_index)
}

/// Nakshatras nine apart share their Vimshottari lord.
pub proof fn lemma_dasha_lord_period(a: Nakshatra, b: Nakshatra)
    requires
        nakshatra_ordinal(b) == nakshatra_ordinal(a) + 9,
    ensures
        spec_dasha_lord_for_nakshatra(a) == spec_dasha_lord_for_nakshatra(b),
{
}

/// The pada with the given number, or `InvalidPada(number)` when the number
/// is outside `1..=4`.
pub fn pada_from_number(number: u8) -> (r: Result<Pada, DeriveError>)
    ensures
        r is Ok <==> 1 <= number <= 4,
        r matches Ok(p) ==> p.value() == number,
        r is Err ==> r == Err::<Pada, DeriveError>(DeriveError::InvalidPada(number)),
{
    match Pada::new(number) {
        Some(pada) => Ok(pada),
        None => Err(DeriveError::InvalidPada(number)),
    }
}

} // verus!
