//! The Vimshottari mahadasha cycle anchored at the Moon's nakshatra.
//!
//! The cycle runs through the nine lords in canonical order, starting with
//! the lord of the Moon's nakshatra; each period lasts a fixed number of
//! years.

use vstd::prelude::*;

use crate::kundli::astro::ZodiacType;
use crate::kundli::derive::input::PreparedPoint;
use crate::kundli::derive::nakshatra::{
    dasha_lord_for_nakshatra, nakshatra_from_index, pada_from_number,
    spec_dasha_lord_for_nakshatra,
};
use crate::kundli::error::DeriveError;
use crate::kundli::model::{
    dasha_lord_ordinal, dasha_sequence_at, nakshatra_ordinal, DashaLord, Nakshatra,
};

verus! {

/// Length in years of a lord's mahadasha.
pub open spec fn spec_mahadasha_years(lord: DashaLord) -> int {
    match lord {
        DashaLord::Ketu => 7,
        DashaLord::Venus => 20,
        DashaLord::Sun => 6,
        DashaLord::Moon => 10,
        DashaLord::Mars => 7,
        DashaLord::Rahu => 18,
        DashaLord::Jupiter => 16,
        DashaLord::Saturn => 19,
        DashaLord::Mercury => 17,
    }
}

/// Length in years of a lord's mahadasha.
pub fn mahadasha_years(lord: DashaLord) -> (years: u32)
    ensures
        years == spec_mahadasha_years(lord),
{
    match lord {
        DashaLord::Ketu => 7,
        DashaLord::Venus => 20,
        DashaLord::Sun => 6,
        DashaLord::Moon => 10,
        DashaLord::Mars => 7,
        DashaLord::Rahu => 18,
        DashaLord::Jupiter => 16,
        DashaLord::Saturn => 19,
        DashaLord::Mercury => 17,
    }
}

/// One mahadasha: its lord and its length in years.
#[derive(Debug, Clone, Copy, PartialEq, Eq, Structural)]
pub struct DashaPeriodCore {
    pub lord: DashaLord,
    pub years: u32,
}

/// The mahadasha cycle of a chart: the Moon's nakshatra and the nine periods
/// in order, the first being the one running at birth.
#[derive(Debug, Clone, PartialEq, Eq)]
pub struct DashaCore {
    pub moon_nakshatra: Nakshatra,
    pub periods: Vec<DashaPeriodCore>,
}

/// The cycle starting at sequence position `start`: period `i` belongs to the
/// lord `i` places further round the sequence.
pub open spec fn cycle_period(start: int, i: int) -> DashaPeriodCore {
    let lord = dasha_sequence_at((start + i) % 9);
    DashaPeriodCore { lord, years: spec_mahadasha_years(lord) as u32 }
}

/// Whether the cycle starting at `start` has a period of `lord`.
pub open spec fn cycle_visits(start: int, lord: DashaLord) -> bool {
    exists|i: int| 0 <= i < 9 && #[trigger] cycle_period(start, i).lord == lord
}

/// Total length in years of a run of periods.
pub open spec fn total_years(periods: Seq<DashaPeriodCore>) -> int
    decreases periods.len(),
{
    if periods.len() == 0 {
        0
    } else {
        total_years(periods.drop_last()) + periods.last().years
    }
}

/// Position of a lord in the canonical sequence, found by walking it.
fn sequence_position(lord: DashaLord) -> (r: Option<usize>)
    ensures
        r == Some(dasha_lord_ordinal(lord) as usize),
{
    let mut i: usize = 0;
    while i < 9
        invariant
            i <= 9,
            forall|k: int| 0 <= k < i ==> dasha_sequence_at(k) != lord,
        decreases 9 - i,
    {
        if DashaLord::sequence_lord(i) == lord {
            return Some(i);
        }
        i = i + 1;
    }
    assert(dasha_sequence_at(dasha_lord_ordinal(lord)) == lord);
    None
}

/// The error the dasha cycle raises before the Moon is read:
/// `UnsupportedZodiac` for non-sidereal data.
pub fn dasha_refusal(zodiac: ZodiacType) -> (r: Option<DeriveError>)
    ensures
        r == (if zodiac != ZodiacType::Sidereal {
            Some(DeriveError::UnsupportedZodiac(zodiac))
        } else {
            None::<DeriveError>
        }),
{
    if zodiac != ZodiacType::Sidereal {
        Some(DeriveError::UnsupportedZodiac(zodiac))
    } else {
        None
    }
}

/// Derives the mahadasha cycle from the zodiac of the astronomical result
/// and the prepared Moon (or the error its preparation raised).
///
/// Non-sidereal data is refused first with `UnsupportedZodiac`; then an
/// error in preparing the Moon is passed on; then a Moon pada outside
/// `1..=4` is refused with `InvalidPada`. Otherwise the cycle starts with
/// the lord of the Moon's nakshatra and runs once through the sequence.
pub fn vimshottari_from_moon(zodiac: ZodiacType, moon: Result<PreparedPoint, DeriveError>) -> (r:
    Result<DashaCore, DeriveError>)
    requires
        moon matches Ok(p) ==> p.wf(),
    ensures
        zodiac != ZodiacType::Sidereal ==> r == Err::<DashaCore, DeriveError>(
            DeriveError::UnsupportedZodiac(zodiac),
        ),
        zodiac == ZodiacType::Sidereal ==> match moon {
            Err(e) => r == Err::<DashaCore, DeriveError>(e),
            Ok(p) => if !(1 <= p.pada_number <= 4) {
                r == Err::<DashaCore, DeriveError>(DeriveError::InvalidPada(p.pada_number))
            } else {
                r matches Ok(core) && {
                    &&& nakshatra_ordinal(core.moon_nakshatra) == p.nakshatra_index
                    &&& core.periods@.len() == 9
                    &&& forall|i: int|
                        0 <= i < 9 ==> #[trigger] core.periods@[i] == cycle_period(
                            (p.nakshatra_index % 9) as int,
                            i,
                        )
                }
            },
        },
{
    if let Some(error) = dasha_refusal(zodiac) {
        return Err(error);
    }
    let moon = moon?;
    let moon_nakshatra = nakshatra_from_index(moon.nakshatra_index as usize);
    let _pada = pada_from_number(moon.pada_number)?;
    let current_lord = dasha_lord_for_nakshatra(moon_nakshatra);
    let sequence_start = match sequence_position(current_lord) {
        Some(position) => position,
        None => return Err(DeriveError::InvalidDashaSequenceLord(current_lord)),
    };
    let mut periods: Vec<DashaPeriodCore> = Vec::new();
    let mut offset: usize = 0;
    while offset < 9
        invariant
            offset <= 9,
            sequence_start == moon.nakshatra_index % 9,
            periods@.len() == offset,
            forall|i: int| 0 <= i < offset ==> #[trigger] periods@[i] == cycle_period(
                sequence_start as int,
                i,
            ),
        decreases 9 - offset,
    {
        let lord = DashaLord::sequence_lord((sequence_start + offset) % 9);
        periods.push(DashaPeriodCore { lord, years: mahadasha_years(lord) });
        offset = offset + 1;
    }
    Ok(DashaCore { moon_nakshatra, periods })
}

/// The cycle opens with the lord of the Moon's nakshatra and passes through
/// every lord exactly once.
pub proof fn lemma_cycle_visits_each_lord_once(nakshatra: Nakshatra)
    ensures
        cycle_period(nakshatra_ordinal(nakshatra) % 9, 0).lord == spec_dasha_lord_for_nakshatra(
            nakshatra,
        ),
        forall|i: int, j: int|
            0 <= i < j < 9 ==> #[trigger] cycle_period(nakshatra_ordinal(nakshatra) % 9, i).lord
                != #[trigger] cycle_period(nakshatra_ordinal(nakshatra) % 9, j).lord,
        forall|lord: DashaLord| #[trigger] cycle_visits(nakshatra_ordinal(nakshatra) % 9, lord),
{
    let s = nakshatra_ordinal(nakshatra) % 9;
    assert forall|lord: DashaLord| #[trigger] cycle_visits(s, lord) by {
        let k = dasha_lord_ordinal(lord);
        let i = (k + 9 - s) % 9;
        assert((s + i) % 9 == k);
        assert(cycle_period(s, i).lord == lord);
    }
}

/// Whatever lord the cycle starts with, its nine periods last 120 years.
pub proof fn lemma_cycle_lasts_120_years(start: int)
    requires
        0 <= start < 9,
    ensures
        total_years(Seq::new(9, |i: int| cycle_period(start, i))) == 120,
{
    let s = Seq::new(9, |i: int| cycle_period(start, i));
    reveal_with_fuel(total_years, 10);
    assert(s.drop_last().drop_last().drop_last().drop_last().drop_last().drop_last().drop_last().drop_last().drop_last() =~= Seq::<DashaPeriodCore>::empty());
}

} // verus!
