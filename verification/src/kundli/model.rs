//! Plain-valued chart vocabulary: signs, nakshatras, padas, house numbers
//! and dasha lords.

use vstd::prelude::*;

verus! {

/// The twelve zodiac signs.
#[derive(Debug, Clone, Copy, PartialEq, Eq, Hash, Structural)]
pub enum Sign {
    Aries,
    Taurus,
    Gemini,
    Cancer,
    Leo,
    Virgo,
    Libra,
    Scorpio,
    Sagittarius,
    Capricorn,
    Aquarius,
    Pisces,
}

/// Zero-based position of a sign in zodiac order (Aries is 0, Pisces is 11).
pub open spec fn sign_ordinal(sign: Sign) -> int {
    match sign {
        Sign::Aries => 0,
        Sign::Taurus => 1,
        Sign::Gemini => 2,
        Sign::Cancer => 3,
        Sign::Leo => 4,
        Sign::Virgo => 5,
        Sign::Libra => 6,
        Sign::Scorpio => 7,
        Sign::Sagittarius => 8,
        Sign::Capricorn => 9,
        Sign::Aquarius => 10,
        Sign::Pisces => 11,
    }
}

/// The twenty-seven nakshatras used in Vedic astrology.
#[derive(Debug, Clone, Copy, PartialEq, Eq, Hash, Structural)]
pub enum Nakshatra {
    Ashwini,
    Bharani,
    Krittika,
    Rohini,
    Mrigashira,
    Ardra,
    Punarvasu,
    Pushya,
    Ashlesha,
    Magha,
    PurvaPhalguni,
    UttaraPhalguni,
    Hasta,
    Chitra,
    Swati,
    Vishakha,
    Anuradha,
    Jyeshtha,
    Mula,
    PurvaAshadha,
    UttaraAshadha,
    Shravana,
    Dhanishta,
    Shatabhisha,
    PurvaBhadrapada,
    UttaraBhadrapada,
    Revati,
}

/// Zero-based position of a nakshatra (Ashwini is 0, Revati is 26).
pub open spec fn nakshatra_ordinal(nakshatra: Nakshatra) -> int {
    match nakshatra {
        Nakshatra::Ashwini => 0,
        Nakshatra::Bharani => 1,
        Nakshatra::Krittika => 2,
        Nakshatra::Rohini => 3,
        Nakshatra::Mrigashira => 4,
        Nakshatra::Ardra => 5,
        Nakshatra::Punarvasu => 6,
        Nakshatra::Pushya => 7,
        Nakshatra::Ashlesha => 8,
        Nakshatra::Magha => 9,
        Nakshatra::PurvaPhalguni => 10,
        Nakshatra::UttaraPhalguni => 11,
        Nakshatra::Hasta => 12,
        Nakshatra::Chitra => 13,
        Nakshatra::Swati => 14,
        Nakshatra::Vishakha => 15,
        Nakshatra::Anuradha => 16,
        Nakshatra::Jyeshtha => 17,
        Nakshatra::Mula => 18,
        Nakshatra::PurvaAshadha => 19,
        Nakshatra::UttaraAshadha => 20,
        Nakshatra::Shravana => 21,
        Nakshatra::Dhanishta => 22,
        Nakshatra::Shatabhisha => 23,
        Nakshatra::PurvaBhadrapada => 24,
        Nakshatra::UttaraBhadrapada => 25,
        Nakshatra::Revati => 26,
    }
}

/// Nakshatra quarter number. Valid values are in the range `1..=4`.
#[derive(Debug, Clone, Copy, PartialEq, Eq, Hash, Structural)]
pub struct Pada(u8);

impl Pada {
    /// Smallest valid pada value.
    pub const MIN: u8 = 1;
    /// Largest valid pada value.
    pub const MAX: u8 = 4;

    #[verifier::type_invariant]
    closed spec fn in_range(self) -> bool {
        1 <= self.0 <= 4
    }

    /// The raw one-based pada value.
    pub closed spec fn value(self) -> u8 {
        self.0
    }

    /// Two padas with the same value are the same pada.
    pub proof fn lemma_value_injective(self, other: Pada)
        ensures
            self.value() == other.value() ==> self == other,
    {
    }

    /// Creates a checked pada value: `Some` exactly when `value` is in `1..=4`.
    pub fn new(value: u8) -> (r: Option<Pada>)
        ensures
            r is Some <==> 1 <= value <= 4,
            r matches Some(p) ==> p.value() == value,
    {
        if Self::MIN <= value && value <= Self::MAX {
            Some(Pada(value))
        } else {
            None
        }
    }

    /// Returns the raw one-based pada value.
    pub fn get(self) -> (r: u8)
        ensures
            r == self.value(),
            1 <= r <= 4,
    {
        proof {
            use_type_invariant(self);
        }
        self.0
    }
}

/// One-based house number. Valid values are in the range `1..=12`.
#[derive(Debug, Clone, Copy, PartialEq, Eq, Hash, Structural)]
pub struct HouseNumber(u8);

impl HouseNumber {
    /// Smallest valid house number.
    pub const MIN: u8 = 1;
    /// Largest valid house number.
    pub const MAX: u8 = 12;

    #[verifier::type_invariant]
    closed spec fn in_range(self) -> bool {
        1 <= self.0 <= 12
    }

    /// The raw one-based house number.
    pub closed spec fn value(self) -> u8 {
        self.0
    }

    /// Two house numbers with the same value are the same house.
    pub proof fn lemma_value_injective(self, other: HouseNumber)
        ensures
            self.value() == other.value() ==> self == other,
    {
    }

    /// Creates a checked house number: `Some` exactly when `value` is in `1..=12`.
    pub fn new(value: u8) -> (r: Option<HouseNumber>)
        ensures
            r is Some <==> 1 <= value <= 12,
            r matches Some(h) ==> h.value() == value,
    {
        if Self::MIN <= value && value <= Self::MAX {
            Some(HouseNumber(value))
        } else {
            None
        }
    }

    /// Returns the raw one-based house number.
    pub fn get(self) -> (r: u8)
        ensures
            r == self.value(),
            1 <= r <= 12,
    {
        proof {
            use_type_invariant(self);
        }
        self.0
    }
}

/// Lords used in the Vimshottari mahadasha cycle.
#[derive(Debug, Clone, Copy, PartialEq, Eq, Hash, Structural)]
pub enum DashaLord {
    Ketu,
    Venus,
    Sun,
    Moon,
    Mars,
    Rahu,
    Jupiter,
    Saturn,
    Mercury,
}

/// Position of a lord in the canonical Vimshottari sequence
/// (Ketu, Venus, Sun, Moon, Mars, Rahu, Jupiter, Saturn, Mercury).
pub open spec fn dasha_lord_ordinal(lord: DashaLord) -> int {
    match lord {
        DashaLord::Ketu => 0,
        DashaLord::Venus => 1,
        DashaLord::Sun => 2,
        DashaLord::Moon => 3,
        DashaLord::Mars => 4,
        DashaLord::Rahu => 5,
        DashaLord::Jupiter => 6,
        DashaLord::Saturn => 7,
        DashaLord::Mercury => 8,
    }
}

/// The lord at position `i` of the canonical Vimshottari sequence.
pub open spec fn dasha_sequence_at(i: int) -> DashaLord {
    if i == 0 {
        DashaLord::Ketu
    } else if i == 1 {
        DashaLord::Venus
    } else if i == 2 {
        DashaLord::Sun
    } else if i == 3 {
        DashaLord::Moon
    } else if i == 4 {
        DashaLord::Mars
    } else if i == 5 {
        DashaLord::Rahu
    } else if i == 6 {
        DashaLord::Jupiter
    } else if i == 7 {
        DashaLord::Saturn
    } else {
        DashaLord::Mercury
    }
}

impl DashaLord {
    /// Canonical Vimshottari mahadasha sequence.
    pub const SEQUENCE: [DashaLord; 9] = [
        DashaLord::Ketu,
        DashaLord::Venus,
        DashaLord::Sun,
        DashaLord::Moon,
        DashaLord::Mars,
        DashaLord::Rahu,
        DashaLord::Jupiter,
        DashaLord::Saturn,
        DashaLord::Mercury,
    ];

    /// The lord at position `index` of the canonical sequence.
    pub fn sequence_lord(index: usize) -> (lord: DashaLord)
        requires
            index < 9,
        ensures
            lord == dasha_sequence_at(index as int),
            dasha_lord_ordinal(lord) == index,
    {
        match index {
            0 => DashaLord::Ketu,
            1 => DashaLord::Venus,
            2 => DashaLord::Sun,
            3 => DashaLord::Moon,
            4 => DashaLord::Mars,
            5 => DashaLord::Rahu,
            6 => DashaLord::Jupiter,
            7 => DashaLord::Saturn,
            _ => DashaLord::Mercury,
        }
    }
}

/// Non-fatal warning emitted during calculation.
#[derive(Debug, Clone, PartialEq, Eq)]
pub struct CalculationWarning {
    /// Stable warning code.
    pub code: &'static str,
    /// Human-readable warning message.
    pub message: &'static str,
}

} // verus!
