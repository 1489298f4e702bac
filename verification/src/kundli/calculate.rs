//! The decisions of the high-level calculation: validating a request against
//! its config, resolving each chart's house mode, and deriving each
//! requested chart layer.

use vstd::prelude::*;

use crate::kundli::astro::{AstroSettings, HouseSystem, ZodiacType};
use crate::kundli::config::{
    selection_error, strictly_sorted, ChartKind, ChartSpec, HouseMode, KundliConfig, ReferenceKey,
};
use crate::kundli::derive::input::ChartInput;
use crate::kundli::derive::pipeline::{
    chart_core_matches, cusp_houses_layout, derive_chart_core, lemma_chart_core_unique,
    lemma_chart_layout, spec_chart_error, whole_sign_layout, ChartCore, HouseTransform,
};
use crate::kundli::error::{DeriveError, InputConfigMismatchField, KundliError};

verus! {

/// A chart's house mode once `Configured` is resolved against the config.
#[derive(Debug, Clone, Copy, PartialEq, Eq, Structural)]
pub enum ResolvedHouseMode {
    WholeSign,
    CuspBased(HouseSystem),
    NoHouses,
}

/// The house mode a chart resolves to: the configured house system (whole
/// signs for the whole-sign system, cusps otherwise) for `Configured`,
/// otherwise the chart's own mode.
pub open spec fn spec_resolve_house_mode(chart: ChartSpec, config: KundliConfig) -> ResolvedHouseMode {
    match chart.house_mode {
        HouseMode::Configured => match config.house_system {
            HouseSystem::WholeSign => ResolvedHouseMode::WholeSign,
            other => ResolvedHouseMode::CuspBased(other),
        },
        HouseMode::WholeSign => ResolvedHouseMode::WholeSign,
        HouseMode::CuspBased(system) => ResolvedHouseMode::CuspBased(system),
        HouseMode::NoHouses => ResolvedHouseMode::NoHouses,
    }
}

/// Resolves a chart's house mode against the config; it never fails.
pub fn resolve_house_mode(chart: ChartSpec, config: &KundliConfig) -> (r: Result<
    ResolvedHouseMode,
    DeriveError,
>)
    ensures
        r == Ok::<ResolvedHouseMode, DeriveError>(spec_resolve_house_mode(chart, *config)),
{
    let configured = match config.house_system {
        HouseSystem::WholeSign => ResolvedHouseMode::WholeSign,
        other => ResolvedHouseMode::CuspBased(other),
    };
    let resolved = match chart.house_mode {
        HouseMode::Configured => configured,
        HouseMode::WholeSign => ResolvedHouseMode::WholeSign,
        HouseMode::CuspBased(system) => ResolvedHouseMode::CuspBased(system),
        HouseMode::NoHouses => ResolvedHouseMode::NoHouses,
    };
    Ok(resolved)
}

/// The first duplicated setting on which a request and a config disagree,
/// checked in the order zodiac, ayanamsha, house system, node type.
pub open spec fn spec_settings_mismatch(request: AstroSettings, config: KundliConfig) -> Option<
    InputConfigMismatchField,
> {
    if request.zodiac != config.zodiac {
        Some(InputConfigMismatchField::Zodiac)
    } else if request.ayanamsha != config.ayanamsha {
        Some(InputConfigMismatchField::Ayanamsha)
    } else if request.house_system != config.house_system {
        Some(InputConfigMismatchField::HouseSystem)
    } else if request.node_type != config.node_type {
        Some(InputConfigMismatchField::NodeType)
    } else {
        None
    }
}

/// A config that duplicates a request's settings never mismatches it; so a
/// config made with `KundliConfig::from_request` (whose settings the
/// `with_charts` builder keeps) always agrees with the request it was made
/// from.
pub proof fn lemma_matching_settings_never_mismatch(request: AstroSettings, config: KundliConfig)
    requires
        config.zodiac == request.zodiac,
        config.ayanamsha == request.ayanamsha,
        config.house_system == request.house_system,
        config.node_type == request.node_type,
    ensures
        spec_settings_mismatch(request, config) is None,
{
}

/// Checks that the settings duplicated in a request and a config agree.
pub fn validate_request_matches_config(request: &AstroSettings, config: &KundliConfig) -> (r:
    Result<(), KundliError>)
    ensures
        r == match spec_settings_mismatch(*request, *config) {
            Some(field) => Err(KundliError::InputConfigMismatch(field)),
            None => Ok::<(), KundliError>(()),
        },
{
    if request.zodiac != config.zodiac {
        return Err(KundliError::InputConfigMismatch(InputConfigMismatchField::Zodiac));
    }
    if request.ayanamsha != config.ayanamsha {
        return Err(KundliError::InputConfigMismatch(InputConfigMismatchField::Ayanamsha));
    }
    if request.house_system != config.house_system {
        return Err(KundliError::InputConfigMismatch(InputConfigMismatchField::HouseSystem));
    }
    if request.node_type != config.node_type {
        return Err(KundliError::InputConfigMismatch(InputConfigMismatchField::NodeType));
    }
    Ok(())
}

/// Prepares a calculation once its request has passed its own checks: a
/// copy of the config is validated (its chart selection sorted and
/// deduplicated), then checked against the request's settings. The
/// selection error comes first, then the first mismatched setting.
pub fn prepare_calculation(request: &AstroSettings, config: &KundliConfig) -> (r: Result<
    KundliConfig,
    KundliError,
>)
    ensures
        match selection_error(config.charts@) {
            Some(e) => r == Err::<KundliConfig, KundliError>(KundliError::ChartSelection(e)),
            None => match spec_settings_mismatch(*request, *config) {
                Some(field) => r == Err::<KundliConfig, KundliError>(
                    KundliError::InputConfigMismatch(field),
                ),
                None => r matches Ok(c) && {
                    &&& c.zodiac == config.zodiac
                    &&& c.ayanamsha == config.ayanamsha
                    &&& c.house_system == config.house_system
                    &&& c.node_type == config.node_type
                    &&& strictly_sorted(c.charts@)
                    &&& forall|x: ChartSpec| c.charts@.contains(x) <==> config.charts@.contains(x)
                },
            },
        },
{
    let mut validated = config.duplicate();
    validated.validate()?;
    validate_request_matches_config(request, &validated)?;
    Ok(validated)
}

/// Whether a chart kind applies a divisional sign transform.
pub open spec fn is_divisional(kind: ChartKind) -> bool {
    kind is Varga || kind is DivisionalBhava
}

/// The division of a divisional chart kind (0 for the others).
pub open spec fn kind_division(kind: ChartKind) -> u8 {
    match kind {
        ChartKind::Varga { division } => division,
        ChartKind::DivisionalBhava { division } => division,
        _ => 0,
    }
}

/// The division a chart's signs are moved by: `Some` exactly for the
/// divisional kinds, with their division.
pub fn chart_division(kind: ChartKind) -> (d: Option<u8>)
    ensures
        d is Some <==> is_divisional(kind),
        d matches Some(v) ==> v == kind_division(kind),
{
    match kind {
        ChartKind::Varga { division } | ChartKind::DivisionalBhava { division } => Some(division),
        _ => None,
    }
}

/// What a chart layer is derived as: the dasha cycle, or a chart whose
/// signs are moved by the given division (`None` for undivided charts).
#[derive(Debug, Clone, Copy, PartialEq, Eq, Structural)]
pub enum LayerPlan {
    VimshottariDasha,
    Chart { division: Option<u8> },
}

/// How the layer of a chart kind is derived: the dasha kind as the dasha
/// cycle, every other kind as a chart moved by its division, if any.
pub fn layer_plan(kind: ChartKind) -> (p: LayerPlan)
    ensures
        p is VimshottariDasha <==> kind == ChartKind::VimshottariDasha,
        p matches LayerPlan::Chart { division } ==> (division is Some <==> is_divisional(kind))
            && (division matches Some(v) ==> v == kind_division(kind)),
{
    match kind {
        ChartKind::VimshottariDasha => LayerPlan::VimshottariDasha,
        _ => LayerPlan::Chart { division: chart_division(kind) },
    }
}

/// The error a chart raises before its input is read: `UnsupportedZodiac`
/// for a divisional chart of non-sidereal data, else `InvalidDivision(0)`
/// for a divisional chart of division 0.
pub open spec fn spec_chart_refusal(zodiac: ZodiacType, chart: ChartSpec) -> Option<DeriveError> {
    if is_divisional(chart.kind) && zodiac != ZodiacType::Sidereal {
        Some(DeriveError::UnsupportedZodiac(zodiac))
    } else if is_divisional(chart.kind) && kind_division(chart.kind) == 0 {
        Some(DeriveError::InvalidDivision(0))
    } else {
        None
    }
}

/// Whether a chart can be derived at all: its house mode exposes houses,
/// unless it is a divisional chart of non-sidereal data, which is refused
/// on its zodiac first.
pub open spec fn chart_derivable(zodiac: ZodiacType, config: KundliConfig, chart: ChartSpec) -> bool {
    (is_divisional(chart.kind) && zodiac != ZodiacType::Sidereal) || spec_resolve_house_mode(
        chart,
        config,
    ) != ResolvedHouseMode::NoHouses
}

/// The error a chart raises before its input is read, if any.
pub fn chart_refusal(zodiac: ZodiacType, chart: ChartSpec) -> (r: Option<DeriveError>)
    ensures
        r == spec_chart_refusal(zodiac, chart),
{
    match chart_division(chart.kind) {
        Some(division) => {
            if zodiac != ZodiacType::Sidereal {
                Some(DeriveError::UnsupportedZodiac(zodiac))
            } else if division == 0 {
                Some(DeriveError::InvalidDivision(division))
            } else {
                None
            }
        },
        None => None,
    }
}

/// House assignment for a resolved mode that exposes houses.
pub open spec fn spec_transform_for(mode: ResolvedHouseMode) -> HouseTransform {
    match mode {
        ResolvedHouseMode::CuspBased(system) => HouseTransform::CuspBased(system),
        _ => HouseTransform::WholeSign,
    }
}

/// What deriving a non-dasha chart gives: the chart's refusal, if it has
/// one; else the input's error; else the pipeline's first error, or the
/// chart it derives, anchored at the chart's reference with its resolved
/// house mode.
pub open spec fn chart_result_meets(
    zodiac: ZodiacType,
    config: KundliConfig,
    chart: ChartSpec,
    input: Result<ChartInput, DeriveError>,
    r: Result<ChartCore, DeriveError>,
) -> bool {
    match spec_chart_refusal(zodiac, chart) {
        Some(e) => r == Err::<ChartCore, DeriveError>(e),
        None => match input {
            Err(e) => r == Err::<ChartCore, DeriveError>(e),
            Ok(i) => {
                let t = spec_transform_for(spec_resolve_house_mode(chart, config));
                match spec_chart_error(i, chart.reference, t) {
                    Some(e) => r == Err::<ChartCore, DeriveError>(e),
                    None => r matches Ok(core) && chart_core_matches(core, i, chart.reference, t),
                }
            },
        },
    }
}

/// A chart's houses follow its house mode. A chart asking for cusps (an
/// explicit cusp-based mode, or the configured mode with any house system
/// but whole-sign) is derived with cusp-based houses: every house starts at
/// its reported cusp. A chart asking for whole signs (explicitly, or the
/// configured mode with the whole-sign system) is derived with whole-sign
/// houses.
pub proof fn lemma_chart_houses_follow_house_mode(
    zodiac: ZodiacType,
    config: KundliConfig,
    chart: ChartSpec,
    input: ChartInput,
    r: Result<ChartCore, DeriveError>,
)
    requires
        chart_result_meets(zodiac, config, chart, Ok(input), r),
    ensures
        r matches Ok(core) ==> ((chart.house_mode is CuspBased || (chart.house_mode
            == HouseMode::Configured && config.house_system != HouseSystem::WholeSign))
            ==> cusp_houses_layout(core, input, chart.reference)),
        r matches Ok(core) ==> ((chart.house_mode == HouseMode::WholeSign || (chart.house_mode
            == HouseMode::Configured && config.house_system == HouseSystem::WholeSign))
            ==> whole_sign_layout(core, input, chart.reference)),
{
    if let Ok(core) = r {
        let t = spec_transform_for(spec_resolve_house_mode(chart, config));
        assert(spec_chart_refusal(zodiac, chart) is None);
        assert(spec_chart_error(input, chart.reference, t) is None);
        lemma_chart_layout(core, input, chart.reference, t);
    }
}

/// The request check succeeds exactly when the request and the config agree
/// on all four duplicated settings; otherwise it names the first setting on
/// which they differ, in the order zodiac, ayanamsha, house system, node
/// type.
pub proof fn lemma_request_check_names_first_difference(
    request: AstroSettings,
    config: KundliConfig,
    r: Result<(), KundliError>,
)
    requires
        r == match spec_settings_mismatch(request, config) {
            Some(field) => Err(KundliError::InputConfigMismatch(field)),
            None => Ok::<(), KundliError>(()),
        },
    ensures
        r is Ok <==> (request.zodiac == config.zodiac && request.ayanamsha == config.ayanamsha
            && request.house_system == config.house_system && request.node_type
            == config.node_type),
        request.zodiac != config.zodiac ==> r == Err::<(), KundliError>(
            KundliError::InputConfigMismatch(InputConfigMismatchField::Zodiac),
        ),
        request.zodiac == config.zodiac && request.ayanamsha != config.ayanamsha ==> r == Err::<
            (),
            KundliError,
        >(KundliError::InputConfigMismatch(InputConfigMismatchField::Ayanamsha)),
        request.zodiac == config.zodiac && request.ayanamsha == config.ayanamsha
            && request.house_system != config.house_system ==> r == Err::<(), KundliError>(
            KundliError::InputConfigMismatch(InputConfigMismatchField::HouseSystem),
        ),
        request.zodiac == config.zodiac && request.ayanamsha == config.ayanamsha
            && request.house_system == config.house_system && request.node_type
            != config.node_type ==> r == Err::<(), KundliError>(
            KundliError::InputConfigMismatch(InputConfigMismatchField::NodeType),
        ),
{
}

/// Preparing a calculation whose chart selection is valid succeeds exactly
/// when the request and the config agree on all four duplicated settings.
pub proof fn lemma_preparation_needs_agreeing_settings(
    request: AstroSettings,
    config: KundliConfig,
    r: Result<KundliConfig, KundliError>,
)
    requires
        selection_error(config.charts@) is None,
        match spec_settings_mismatch(request, config) {
            Some(field) => r == Err::<KundliConfig, KundliError>(
                KundliError::InputConfigMismatch(field),
            ),
            None => r is Ok,
        },
    ensures
        r is Ok <==> (request.zodiac == config.zodiac && request.ayanamsha == config.ayanamsha
            && request.house_system == config.house_system && request.node_type
            == config.node_type),
        request.zodiac == config.zodiac && request.ayanamsha != config.ayanamsha ==> r == Err::<
            KundliConfig,
            KundliError,
        >(KundliError::InputConfigMismatch(InputConfigMismatchField::Ayanamsha)),
{
}

/// Two chart results that are equal as values: the same error, or charts
/// with the same lagna sign and the same placements and houses in order.
pub open spec fn same_chart_result(
    a: Result<ChartCore, DeriveError>,
    b: Result<ChartCore, DeriveError>,
) -> bool {
    match (a, b) {
        (Err(x), Err(y)) => x == y,
        (Ok(x), Ok(y)) => x.lagna_sign == y.lagna_sign && x.planets@ == y.planets@ && x.houses@
            == y.houses@,
        _ => false,
    }
}

/// Whether a chart kind runs the Rasi pipeline unchanged.
pub open spec fn is_rasi_style(kind: ChartKind) -> bool {
    kind is Rasi || kind is Bhava || kind is Chalit
}

/// Bhava and Chalit charts share the Rasi pipeline: for the same zodiac,
/// config, reference, house mode and input, charts of these three kinds
/// give the same result.
pub proof fn lemma_bhava_and_chalit_share_rasi(
    zodiac: ZodiacType,
    config: KundliConfig,
    reference: ReferenceKey,
    house_mode: HouseMode,
    kind_a: ChartKind,
    kind_b: ChartKind,
    input: Result<ChartInput, DeriveError>,
    ra: Result<ChartCore, DeriveError>,
    rb: Result<ChartCore, DeriveError>,
)
    requires
        is_rasi_style(kind_a),
        is_rasi_style(kind_b),
        chart_result_meets(zodiac, config, ChartSpec { kind: kind_a, reference, house_mode }, input, ra),
        chart_result_meets(zodiac, config, ChartSpec { kind: kind_b, reference, house_mode }, input, rb),
    ensures
        same_chart_result(ra, rb),
{
    let a = ChartSpec { kind: kind_a, reference, house_mode };
    let b = ChartSpec { kind: kind_b, reference, house_mode };
    assert(spec_chart_refusal(zodiac, a) is None);
    assert(spec_chart_refusal(zodiac, b) is None);
    assert(spec_resolve_house_mode(a, config) == spec_resolve_house_mode(b, config));
    if let Ok(i) = input {
        let t = spec_transform_for(spec_resolve_house_mode(a, config));
        if spec_chart_error(i, reference, t) is None {
            lemma_chart_core_unique(ra->Ok_0, rb->Ok_0, i, reference, t);
        }
    }
}

/// Derives one non-dasha chart layer from the zodiac of the astronomical
/// result, the validated config, the chart spec and the prepared input
/// (signs already transformed for divisional charts), or the error its
/// preparation raised.
///
/// A divisional chart of non-sidereal data is refused with
/// `UnsupportedZodiac` (whatever its house mode), and one of division 0
/// with `InvalidDivision`; then an input error is passed on; then the
/// pipeline runs anchored at the chart's reference with its resolved house
/// mode.
pub fn derive_chart_result_core(
    zodiac: ZodiacType,
    config: &KundliConfig,
    chart: ChartSpec,
    input: Result<ChartInput, DeriveError>,
) -> (r: Result<ChartCore, DeriveError>)
    requires
        chart.kind != ChartKind::VimshottariDasha,
        chart_derivable(zodiac, *config, chart),
        input matches Ok(i) ==> i.wf(),
    ensures
        chart_result_meets(zodiac, *config, chart, input, r),
{
    if let Some(error) = chart_refusal(zodiac, chart) {
        return Err(error);
    }
    let resolved = resolve_house_mode(chart, config)?;
    let transform = if let ResolvedHouseMode::CuspBased(system) = resolved {
        HouseTransform::CuspBased(system)
    } else {
        HouseTransform::WholeSign
    };
    let input = input?;
    derive_chart_core(&input, chart.reference, transform)
}

} // verus!
