//! The Navamsa (D9) chart: lagna-anchored, navamsa-transformed signs and
//! whole-sign houses; only for sidereal data and the whole-sign system.

use vstd::prelude::*;

use crate::kundli::astro::{HouseSystem, ZodiacType};
use crate::kundli::config::{KundliConfig, ReferenceKey};
use crate::kundli::derive::input::ChartInput;
use crate::kundli::derive::pipeline::{
    chart_core_matches, derive_chart_core, spec_chart_error, ChartCore, HouseTransform,
};
use crate::kundli::error::DeriveError;

verus! {

/// The error the D9 chart raises before its input is read:
/// `UnsupportedZodiac` for non-sidereal data, else
/// `UnsupportedD9HouseSystem` for a house system other than whole-sign.
pub open spec fn spec_d9_refusal(zodiac: ZodiacType, config: KundliConfig) -> Option<DeriveError> {
    if zodiac != ZodiacType::Sidereal {
        Some(DeriveError::UnsupportedZodiac(zodiac))
    } else if config.house_system != HouseSystem::WholeSign {
        Some(DeriveError::UnsupportedD9HouseSystem(config.house_system))
    } else {
        None
    }
}

/// The error the D9 chart raises before its input is read, if any.
pub fn d9_refusal(zodiac: ZodiacType, config: &KundliConfig) -> (r: Option<DeriveError>)
    ensures
        r == spec_d9_refusal(zodiac, *config),
{
    if zodiac != ZodiacType::Sidereal {
        Some(DeriveError::UnsupportedZodiac(zodiac))
    } else if config.house_system != HouseSystem::WholeSign {
        Some(DeriveError::UnsupportedD9HouseSystem(config.house_system))
    } else {
        None
    }
}

/// Derives the D9 chart from the zodiac of the astronomical result, the
/// config, and the navamsa-transformed prepared input (or the error its
/// preparation raised).
///
/// Non-sidereal data is refused with `UnsupportedZodiac`, then a house
/// system other than whole-sign with `UnsupportedD9HouseSystem`; then an
/// input error is passed on; then the pipeline runs with whole-sign houses.
pub fn derive_d9_core(
    zodiac: ZodiacType,
    config: &KundliConfig,
    input: Result<ChartInput, DeriveError>,
) -> (r: Result<ChartCore, DeriveError>)
    requires
        input matches Ok(i) ==> i.wf(),
    ensures
        zodiac != ZodiacType::Sidereal ==> r == Err::<ChartCore, DeriveError>(
            DeriveError::UnsupportedZodiac(zodiac),
        ),
        zodiac == ZodiacType::Sidereal && config.house_system != HouseSystem::WholeSign ==> r
            == Err::<ChartCore, DeriveError>(
            DeriveError::UnsupportedD9HouseSystem(config.house_system),
        ),
        zodiac == ZodiacType::Sidereal && config.house_system == HouseSystem::WholeSign ==> match input {
            Err(e) => r == Err::<ChartCore, DeriveError>(e),
            Ok(i) => match spec_chart_error(i, ReferenceKey::Lagna, HouseTransform::WholeSign) {
                Some(e) => r == Err::<ChartCore, DeriveError>(e),
                None => r matches Ok(core) && chart_core_matches(
                    core,
                    i,
                    ReferenceKey::Lagna,
                    HouseTransform::WholeSign,
                ),
            },
        },
{
    if let Some(error) = d9_refusal(zodiac, config) {
        return Err(error);
    }
    let input = input?;
    derive_chart_core(&input, ReferenceKey::Lagna, HouseTransform::WholeSign)
}

} // verus!
