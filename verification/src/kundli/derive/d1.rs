//! The D1 (Rasi) chart: lagna-anchored, untransformed signs, houses by the
//! configured house system.

use vstd::prelude::*;

use crate::kundli::astro::HouseSystem;
use crate::kundli::config::{KundliConfig, ReferenceKey};
use crate::kundli::derive::input::ChartInput;
use crate::kundli::derive::pipeline::{
    chart_core_matches, cusp_houses_layout, derive_chart_core, lemma_chart_layout,
    spec_chart_error, whole_sign_layout, ChartCore, HouseTransform,
};
use crate::kundli::error::DeriveError;

verus! {

/// House assignment for a configured house system: whole signs for the
/// whole-sign system, cusps otherwise.
pub open spec fn spec_configured_transform(house_system: HouseSystem) -> HouseTransform {
    match house_system {
        HouseSystem::WholeSign => HouseTransform::WholeSign,
        other => HouseTransform::CuspBased(other),
    }
}

/// House assignment for a configured house system.
pub fn configured_transform(house_system: HouseSystem) -> (t: HouseTransform)
    ensures
        t == spec_configured_transform(house_system),
{
    match house_system {
        HouseSystem::WholeSign => HouseTransform::WholeSign,
        other => HouseTransform::CuspBased(other),
    }
}

/// The D1 chart's houses follow the configured house system: whole-sign
/// houses for the whole-sign system, and cusp-based houses (every house
/// starting at its reported cusp) for every other system.
pub proof fn lemma_d1_houses_follow_house_system(
    input: ChartInput,
    config: KundliConfig,
    r: Result<ChartCore, DeriveError>,
)
    requires
        match spec_chart_error(
            input,
            ReferenceKey::Lagna,
            spec_configured_transform(config.house_system),
        ) {
            Some(e) => r == Err::<ChartCore, DeriveError>(e),
            None => r matches Ok(core) && chart_core_matches(
                core,
                input,
                ReferenceKey::Lagna,
                spec_configured_transform(config.house_system),
            ),
        },
    ensures
        r matches Ok(core) ==> (config.house_system == HouseSystem::WholeSign ==> whole_sign_layout(
            core,
            input,
            ReferenceKey::Lagna,
        )),
        r matches Ok(core) ==> (config.house_system != HouseSystem::WholeSign
            ==> cusp_houses_layout(core, input, ReferenceKey::Lagna)),
{
    if let Ok(core) = r {
        lemma_chart_layout(core, input, ReferenceKey::Lagna, spec_configured_transform(config.house_system));
    }
}

/// Derives the D1 chart from prepared (untransformed) input.
pub fn derive_d1_core(input: &ChartInput, config: &KundliConfig) -> (r: Result<ChartCore, DeriveError>)
    requires
        input.wf(),
    ensures
        match spec_chart_error(
            *input,
            ReferenceKey::Lagna,
            spec_configured_transform(config.house_system),
        ) {
            Some(e) => r == Err::<ChartCore, DeriveError>(e),
            None => r matches Ok(core) && chart_core_matches(
                core,
                *input,
                ReferenceKey::Lagna,
                spec_configured_transform(config.house_system),
            ),
        },
{
    derive_chart_core(input, ReferenceKey::Lagna, configured_transform(config.house_system))
}

} // verus!
