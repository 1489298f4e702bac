use kundli_rs::kundli::astro::{HouseSystem, ZodiacType};
use kundli_rs::kundli::config::ChartKind;
use kundli_rs::kundli::error::{ChartSelectionError, DeriveError, InputConfigMismatchField};
use kundli_rs::kundli::model::DashaLord;

#[test]
fn chart_selection_errors_read_as_sentences() {
    assert_eq!(ChartSelectionError::Empty.message(), "at least one chart must be requested");
    assert_eq!(
        ChartSelectionError::InvalidDivision(0).message(),
        "invalid divisional chart: D0; expected division >= 1"
    );
    assert_eq!(
        ChartSelectionError::UnexpectedHouseMode(ChartKind::VimshottariDasha).message(),
        "chart kind VimshottariDasha does not support the selected house mode"
    );
    assert_eq!(
        ChartSelectionError::CuspBasedHouseModeRequired(ChartKind::Bhava).message(),
        "chart kind Bhava requires a cusp-based house mode"
    );
    assert_eq!(
        ChartSelectionError::UnexpectedHouseMode(ChartKind::Varga { division: 9 }).message(),
        "chart kind Varga { division: 9 } does not support the selected house mode"
    );
}

#[test]
fn chart_kinds_read_as_their_debug_form() {
    let kinds = [
        ChartKind::Rasi,
        ChartKind::Varga { division: 0 },
        ChartKind::Varga { division: 9 },
        ChartKind::Varga { division: 60 },
        ChartKind::Varga { division: 255 },
        ChartKind::Bhava,
        ChartKind::Chalit,
        ChartKind::DivisionalBhava { division: 100 },
        ChartKind::DivisionalBhava { division: 12 },
        ChartKind::VimshottariDasha,
    ];
    for kind in kinds {
        assert_eq!(
            ChartSelectionError::CuspBasedHouseModeRequired(kind).message(),
            format!("chart kind {kind:?} requires a cusp-based house mode")
        );
    }
    for division in 0..=255u8 {
        assert_eq!(
            ChartSelectionError::InvalidDivision(division).message(),
            format!("invalid divisional chart: D{division}; expected division >= 1")
        );
    }
}

#[test]
fn mismatched_settings_name_the_field_twice() {
    assert_eq!(
        InputConfigMismatchField::Zodiac.message(),
        "request.zodiac must match config.zodiac"
    );
    assert_eq!(
        InputConfigMismatchField::Ayanamsha.message(),
        "request.ayanamsha must match config.ayanamsha"
    );
    assert_eq!(
        InputConfigMismatchField::HouseSystem.message(),
        "request.house_system must match config.house_system"
    );
    assert_eq!(
        InputConfigMismatchField::NodeType.message(),
        "request.node_type must match config.node_type"
    );
    assert_eq!(InputConfigMismatchField::NodeType.field_name(), "node_type");
}

#[test]
fn derive_errors_read_as_sentences() {
    assert_eq!(
        DeriveError::MissingMoon.message(""),
        "moon position is required for vimshottari dasha"
    );
    assert_eq!(
        DeriveError::MissingPlacementBody.message(""),
        "pipeline placement is missing its body identifier"
    );
    assert_eq!(DeriveError::InvalidHouseCusps(3).message(""), "expected 12 house cusps, got 3");
    assert_eq!(
        DeriveError::InvalidHouseCusps(123456789).message(""),
        "expected 12 house cusps, got 123456789"
    );
    assert_eq!(
        DeriveError::InvalidHouseNumber(13).message(""),
        "invalid house number: 13; expected a value in 1..=12"
    );
    assert_eq!(
        DeriveError::InvalidLongitude(f64::NAN.to_bits()).message("NaN"),
        "invalid longitude: NaN; expected a finite degree value"
    );
    assert_eq!(
        DeriveError::InvalidPada(5).message(""),
        "invalid pada value: 5; expected a value in 1..=4"
    );
    assert_eq!(
        DeriveError::InvalidDashaSequenceLord(DashaLord::Mercury).message(""),
        "invalid Vimshottari sequence lord: Mercury"
    );
    assert_eq!(
        DeriveError::InvalidDivision(0).message(""),
        "invalid divisional chart: D0; expected division >= 1"
    );
    assert_eq!(
        DeriveError::UnsupportedZodiac(ZodiacType::Tropical).message(""),
        "unsupported zodiac for derive operation: Tropical; expected sidereal data"
    );
    assert_eq!(
        DeriveError::UnsupportedHouseSystem(HouseSystem::Koch).message(""),
        "unsupported house system for derive operation: Koch"
    );
    assert_eq!(
        DeriveError::UnsupportedD9HouseSystem(HouseSystem::Equal).message(""),
        "unsupported house system for D9 derivation: Equal; expected whole-sign houses"
    );
    assert_eq!(
        DeriveError::SpecialPointCalculationFailed("gulika_sunrise").message(""),
        "failed to calculate special reference point: gulika_sunrise"
    );
}

#[test]
fn named_values_read_as_their_debug_form() {
    for zodiac in [ZodiacType::Sidereal, ZodiacType::Tropical] {
        assert_eq!(
            DeriveError::UnsupportedZodiac(zodiac).message(""),
            format!("unsupported zodiac for derive operation: {zodiac:?}; expected sidereal data")
        );
    }
    for system in [HouseSystem::Placidus, HouseSystem::Koch, HouseSystem::Equal, HouseSystem::WholeSign] {
        assert_eq!(
            DeriveError::UnsupportedHouseSystem(system).message(""),
            format!("unsupported house system for derive operation: {system:?}")
        );
    }
    for lord in DashaLord::SEQUENCE {
        assert_eq!(
            DeriveError::InvalidDashaSequenceLord(lord).message(""),
            format!("invalid Vimshottari sequence lord: {lord:?}")
        );
    }
    for count in [0usize, 9, 10, 11, 99, 100, 1000, usize::MAX] {
        assert_eq!(
            DeriveError::InvalidHouseCusps(count).message(""),
            format!("expected 12 house cusps, got {count}")
        );
    }
}
