use kundli_rs::kundli::astro::{AstroBody, HouseSystem, ZodiacType};
use kundli_rs::kundli::calculate::{
    chart_division, chart_refusal, derive_chart_result_core, layer_plan, prepare_calculation,
    validate_request_matches_config, LayerPlan,
};
use kundli_rs::kundli::astro::AstroSettings;
use kundli_rs::kundli::config::{ChartKind, ChartSpec, HouseMode, KundliConfig, ReferenceKey};
use kundli_rs::kundli::derive::d1::derive_d1_core;
use kundli_rs::kundli::derive::d9::{d9_refusal, derive_d9_core};
use kundli_rs::kundli::derive::dasha::{dasha_refusal, mahadasha_years, vimshottari_from_moon};
use kundli_rs::kundli::derive::house::{
    house_from_cusps, is_in_range, renumber_house, whole_sign_house,
};
use kundli_rs::kundli::derive::input::{ChartInput, PreparedBody, PreparedCusp, PreparedPoint};
use kundli_rs::kundli::derive::pipeline::{derive_chart_core, HouseStart, HouseTransform};
use kundli_rs::kundli::derive::reference_points::{gulika_segment, weekday_index};
use kundli_rs::kundli::error::{
    ChartSelectionError, DeriveError, InputConfigMismatchField, KundliError,
};
use kundli_rs::kundli::model::{DashaLord, HouseNumber, Nakshatra, Sign};

/// Facts of a whole-degree longitude in `[0, 360)`, keyed by its degrees.
fn point(degrees: u64) -> PreparedPoint {
    let scaled = degrees * 27;
    PreparedPoint {
        order_key: degrees,
        sign_index: (degrees / 30) as u8,
        nakshatra_index: (scaled / 360) as u8,
        pada_number: ((scaled % 360) * 4 / 360 + 1) as u8,
    }
}

fn body(body: AstroBody, degrees: u64, is_retrograde: bool) -> PreparedBody {
    PreparedBody { body, point: point(degrees), is_retrograde }
}

fn cusp(degrees: u64) -> PreparedCusp {
    PreparedCusp { order_key: degrees, sign_index: (degrees / 30) as u8 }
}

/// Sun 15, Moon 95, Saturn 32 (retrograde), the others at 180 + slot.
fn sample_input(cusps: &[u64]) -> ChartInput {
    let bodies = (0..9usize)
        .map(|index| {
            let id = AstroBody::from_index(index);
            match id {
                AstroBody::Sun => body(id, 15, false),
                AstroBody::Moon => body(id, 95, false),
                AstroBody::Saturn => body(id, 32, true),
                _ => body(id, 180 + index as u64, false),
            }
        })
        .collect();
    ChartInput {
        ascendant: point(45),
        bodies,
        cusps: cusps.iter().map(|c| cusp(*c)).collect(),
    }
}

fn house(number: u8) -> HouseNumber {
    HouseNumber::new(number).unwrap()
}

const EQUAL_CUSPS: [u64; 12] = [0, 30, 60, 90, 120, 150, 180, 210, 240, 270, 300, 330];

#[test]
fn d1_pipeline_materializes_chart_result() {
    let input = sample_input(&[0; 12]);

    let chart = derive_chart_core(&input, ReferenceKey::Lagna, HouseTransform::WholeSign).unwrap();

    assert_eq!(chart.lagna_sign, Sign::Taurus);
    assert_eq!(chart.planets.len(), 9);
    assert_eq!(chart.planets[0].sign, Sign::Aries);
    assert_eq!(chart.planets[0].house, house(12));
    assert_eq!(chart.planets[1].house, house(3));
    assert_eq!(chart.planets[1].nakshatra, Nakshatra::Pushya);
    assert!(chart.planets[6].is_retrograde);
    assert_eq!(chart.houses.len(), 12);
    assert_eq!(chart.houses[0].sign, Sign::Taurus);
    assert_eq!(chart.houses[0].house, house(1));
    assert_eq!(chart.houses[0].start, HouseStart::SignBoundary);
    assert_eq!(chart.houses[11].sign, Sign::Aries);
}

#[test]
fn moon_reference_reanchors_whole_sign_houses() {
    let input = sample_input(&[0; 12]);

    let chart = derive_chart_core(&input, ReferenceKey::Moon, HouseTransform::WholeSign).unwrap();

    assert_eq!(chart.planets[1].house, house(1));
    assert_eq!(chart.planets[0].house, house(10));
    assert_eq!(chart.houses[0].sign, Sign::Cancer);
}

#[test]
fn moon_reference_renumbers_cusp_based_houses() {
    let input = sample_input(&EQUAL_CUSPS);

    let chart = derive_chart_core(
        &input,
        ReferenceKey::Moon,
        HouseTransform::CuspBased(HouseSystem::Placidus),
    )
    .unwrap();

    assert_eq!(chart.planets[1].house, house(1));
    assert_eq!(chart.planets[0].house, house(10));
    assert_eq!(chart.houses[0].house, house(10));
    assert_eq!(chart.houses[3].house, house(1));
    assert_eq!(chart.houses[3].start, HouseStart::Cusp(3));
    assert_eq!(chart.houses[3].sign, Sign::Cancer);
}

#[test]
fn reference_body_must_be_present() {
    let mut input = sample_input(&[0; 12]);
    input.bodies.retain(|b| b.body != AstroBody::Moon && b.body != AstroBody::Sun);

    assert_eq!(
        derive_chart_core(&input, ReferenceKey::Moon, HouseTransform::WholeSign),
        Err(DeriveError::MissingMoon)
    );
    assert_eq!(
        derive_chart_core(&input, ReferenceKey::Sun, HouseTransform::WholeSign),
        Err(DeriveError::MissingPlacementBody)
    );
    assert!(derive_chart_core(
        &input,
        ReferenceKey::Planet(AstroBody::Jupiter),
        HouseTransform::WholeSign
    )
    .is_ok());
}

#[test]
fn first_invalid_pada_is_reported() {
    let mut input = sample_input(&[0; 12]);
    input.bodies[2].point.pada_number = 5;
    input.bodies[4].point.pada_number = 0;

    assert_eq!(
        derive_chart_core(&input, ReferenceKey::Lagna, HouseTransform::WholeSign),
        Err(DeriveError::InvalidPada(5))
    );

    input.ascendant.pada_number = 7;
    assert_eq!(
        derive_chart_core(&input, ReferenceKey::Lagna, HouseTransform::WholeSign),
        Err(DeriveError::InvalidPada(7))
    );
}

#[test]
fn cusp_based_chart_needs_twelve_cusps_that_cover_the_points() {
    let input = sample_input(&[0, 30, 60]);
    assert_eq!(
        derive_chart_core(&input, ReferenceKey::Lagna, HouseTransform::CuspBased(HouseSystem::Equal)),
        Err(DeriveError::InvalidHouseCusps(3))
    );

    let input = sample_input(&[0; 12]);
    assert_eq!(
        derive_chart_core(&input, ReferenceKey::Lagna, HouseTransform::CuspBased(HouseSystem::Equal)),
        Err(DeriveError::InvalidHouseCusps(12))
    );
}

#[test]
fn d1_uses_cusps_for_non_whole_sign_systems() {
    let mut input = sample_input(&[45, 75, 105, 135, 165, 195, 225, 255, 285, 315, 345, 15]);
    input.bodies[3] = body(AstroBody::Mercury, 60, false);
    let config = KundliConfig::default().with_house_system(HouseSystem::Equal);

    let chart = derive_d1_core(&input, &config).unwrap();

    assert_eq!(chart.planets[3].sign, Sign::Gemini);
    assert_eq!(chart.planets[3].house, house(1));
    assert_eq!(chart.houses[0].house, house(1));
    assert_eq!(chart.houses[0].sign, Sign::Taurus);
    assert_eq!(chart.houses[11].house, house(12));
    assert_eq!(chart.houses[11].sign, Sign::Aries);
}

#[test]
fn d9_checks_zodiac_then_house_system_then_input() {
    let input = sample_input(&[0; 12]);
    let whole = KundliConfig::default();
    let equal = KundliConfig::default().with_house_system(HouseSystem::Equal);

    assert_eq!(
        derive_d9_core(ZodiacType::Tropical, &equal, Err(DeriveError::InvalidLongitude(1))),
        Err(DeriveError::UnsupportedZodiac(ZodiacType::Tropical))
    );
    assert_eq!(
        derive_d9_core(ZodiacType::Sidereal, &equal, Ok(input.clone())),
        Err(DeriveError::UnsupportedD9HouseSystem(HouseSystem::Equal))
    );
    assert_eq!(
        derive_d9_core(ZodiacType::Sidereal, &whole, Err(DeriveError::InvalidLongitude(7))),
        Err(DeriveError::InvalidLongitude(7))
    );
    let chart = derive_d9_core(ZodiacType::Sidereal, &whole, Ok(input)).unwrap();
    assert_eq!(chart.lagna_sign, Sign::Taurus);
}

#[test]
fn divisional_chart_layers_are_checked_before_input() {
    let config = KundliConfig::default();
    let input = sample_input(&[0; 12]);

    assert_eq!(
        derive_chart_result_core(
            ZodiacType::Tropical,
            &config,
            ChartSpec::varga(3),
            Err(DeriveError::InvalidLongitude(1))
        ),
        Err(DeriveError::UnsupportedZodiac(ZodiacType::Tropical))
    );
    assert_eq!(
        derive_chart_result_core(ZodiacType::Sidereal, &config, ChartSpec::varga(0), Ok(input.clone())),
        Err(DeriveError::InvalidDivision(0))
    );
    assert!(derive_chart_result_core(ZodiacType::Tropical, &config, ChartSpec::d1(), Ok(input.clone()))
        .is_ok());
    let moon_chart =
        derive_chart_result_core(ZodiacType::Sidereal, &config, ChartSpec::moon_chart(), Ok(input))
            .unwrap();
    assert_eq!(moon_chart.planets[1].house, house(1));
    // A divisional chart without houses is still refused on its zodiac first.
    assert_eq!(
        derive_chart_result_core(
            ZodiacType::Tropical,
            &config,
            ChartSpec::varga(9).with_house_mode(HouseMode::NoHouses),
            Err(DeriveError::InvalidLongitude(1))
        ),
        Err(DeriveError::UnsupportedZodiac(ZodiacType::Tropical))
    );
}

#[test]
fn refusals_come_before_any_longitude_is_read() {
    assert_eq!(
        chart_refusal(ZodiacType::Tropical, ChartSpec::varga(0)),
        Some(DeriveError::UnsupportedZodiac(ZodiacType::Tropical))
    );
    assert_eq!(
        chart_refusal(ZodiacType::Sidereal, ChartSpec::divisional_bhava(0)),
        Some(DeriveError::InvalidDivision(0))
    );
    assert_eq!(chart_refusal(ZodiacType::Sidereal, ChartSpec::d9()), None);
    assert_eq!(chart_refusal(ZodiacType::Tropical, ChartSpec::d1()), None);
    assert_eq!(chart_refusal(ZodiacType::Tropical, ChartSpec::bhava()), None);

    let whole_sign = KundliConfig::default();
    let equal = KundliConfig::default().with_house_system(HouseSystem::Equal);
    assert_eq!(
        d9_refusal(ZodiacType::Tropical, &equal),
        Some(DeriveError::UnsupportedZodiac(ZodiacType::Tropical))
    );
    assert_eq!(
        d9_refusal(ZodiacType::Sidereal, &equal),
        Some(DeriveError::UnsupportedD9HouseSystem(HouseSystem::Equal))
    );
    assert_eq!(d9_refusal(ZodiacType::Sidereal, &whole_sign), None);

    assert_eq!(
        dasha_refusal(ZodiacType::Tropical),
        Some(DeriveError::UnsupportedZodiac(ZodiacType::Tropical))
    );
    assert_eq!(dasha_refusal(ZodiacType::Sidereal), None);
}

#[test]
fn layers_are_planned_by_chart_kind() {
    assert_eq!(layer_plan(ChartKind::VimshottariDasha), LayerPlan::VimshottariDasha);
    assert_eq!(layer_plan(ChartKind::Rasi), LayerPlan::Chart { division: None });
    assert_eq!(layer_plan(ChartKind::Chalit), LayerPlan::Chart { division: None });
    assert_eq!(layer_plan(ChartKind::Varga { division: 9 }), LayerPlan::Chart { division: Some(9) });
    assert_eq!(
        layer_plan(ChartKind::DivisionalBhava { division: 4 }),
        LayerPlan::Chart { division: Some(4) }
    );
}

#[test]
fn dasha_cycle_starts_with_the_moon_nakshatra_lord() {
    // The Moon at 6 2/3 degrees: the middle of Ashwini.
    let moon = PreparedPoint { order_key: 0, sign_index: 0, nakshatra_index: 0, pada_number: 3 };

    let dasha = vimshottari_from_moon(ZodiacType::Sidereal, Ok(moon)).unwrap();

    assert_eq!(dasha.moon_nakshatra, Nakshatra::Ashwini);
    assert_eq!(
        dasha.periods.iter().map(|p| p.lord).collect::<Vec<_>>(),
        vec![
            DashaLord::Ketu,
            DashaLord::Venus,
            DashaLord::Sun,
            DashaLord::Moon,
            DashaLord::Mars,
            DashaLord::Rahu,
            DashaLord::Jupiter,
            DashaLord::Saturn,
            DashaLord::Mercury,
        ]
    );
    assert_eq!(dasha.periods[0].years, 7);
    assert_eq!(dasha.periods.iter().map(|p| p.years).sum::<u32>(), 120);
}

#[test]
fn dasha_cycle_wraps_after_mercury() {
    // The Moon at 350 degrees: Revati.
    let moon = point(350);

    let dasha = vimshottari_from_moon(ZodiacType::Sidereal, Ok(moon)).unwrap();

    assert_eq!(dasha.moon_nakshatra, Nakshatra::Revati);
    assert_eq!(dasha.periods[0].lord, DashaLord::Mercury);
    assert_eq!(dasha.periods[1].lord, DashaLord::Ketu);
    assert_eq!(dasha.periods[2].lord, DashaLord::Venus);
    assert_eq!(dasha.periods.iter().map(|p| p.years).sum::<u32>(), 120);
}

#[test]
fn dasha_refuses_non_sidereal_data_first() {
    assert_eq!(
        vimshottari_from_moon(ZodiacType::Tropical, Err(DeriveError::InvalidLongitude(3))),
        Err(DeriveError::UnsupportedZodiac(ZodiacType::Tropical))
    );
    assert_eq!(
        vimshottari_from_moon(ZodiacType::Sidereal, Err(DeriveError::InvalidLongitude(3))),
        Err(DeriveError::InvalidLongitude(3))
    );
    let mut moon = point(10);
    moon.pada_number = 5;
    assert_eq!(
        vimshottari_from_moon(ZodiacType::Sidereal, Ok(moon)),
        Err(DeriveError::InvalidPada(5))
    );
}

#[test]
fn mahadasha_years_match_the_vimshottari_table() {
    let years: Vec<u32> = DashaLord::SEQUENCE.iter().map(|lord| mahadasha_years(*lord)).collect();
    assert_eq!(years, vec![7, 20, 6, 10, 7, 18, 16, 19, 17]);
}

#[test]
fn whole_sign_houses_count_from_the_reference_sign() {
    assert_eq!(whole_sign_house(0, 0), house(1));
    assert_eq!(whole_sign_house(0, 1), house(2));
    assert_eq!(whole_sign_house(0, 11), house(12));
    assert_eq!(whole_sign_house(0, 3), house(4));
    assert_eq!(whole_sign_house(5, 2), house(10));
    for target in 0..12usize {
        assert_eq!(whole_sign_house(0, target).get() as usize, target + 1);
    }
}

#[test]
fn renumbering_makes_the_first_house_one() {
    assert_eq!(renumber_house(house(4), house(4)), house(1));
    assert_eq!(renumber_house(house(1), house(4)), house(10));
    assert_eq!(renumber_house(house(3), house(4)), house(12));
}

#[test]
fn cusp_ranges_handle_wrap_around() {
    assert!(is_in_range(45, 30, 60));
    assert!(!is_in_range(25, 30, 60));
    assert!(!is_in_range(65, 30, 60));
    assert!(is_in_range(355, 350, 10));
    assert!(is_in_range(5, 350, 10));
    assert!(!is_in_range(20, 350, 10));
    assert!(!is_in_range(340, 350, 10));
}

#[test]
fn cusp_houses_find_the_first_containing_house() {
    let equal = EQUAL_CUSPS.to_vec();
    assert_eq!(house_from_cusps(15, &equal), Ok(house(1)));
    assert_eq!(house_from_cusps(105, &equal), Ok(house(4)));
    assert_eq!(house_from_cusps(60, &equal), Ok(house(3)));
    assert_eq!(house_from_cusps(345, &equal), Ok(house(12)));

    let shifted = vec![300, 330, 0, 30, 60, 90, 120, 150, 180, 210, 240, 270];
    assert_eq!(house_from_cusps(350, &shifted), Ok(house(2)));
    assert_eq!(house_from_cusps(5, &shifted), Ok(house(3)));

    assert_eq!(house_from_cusps(45, &vec![0, 30, 60]), Err(DeriveError::InvalidHouseCusps(3)));
    assert_eq!(house_from_cusps(45, &vec![]), Err(DeriveError::InvalidHouseCusps(0)));
}

#[test]
fn weekday_and_gulika_segment() {
    // JD 2451545 (2000-01-01, a Saturday) has weekday index 6.
    assert_eq!(weekday_index(2451545), 6);
    assert_eq!(weekday_index(-1), 0);
    assert_eq!(weekday_index(-3), 5);
    // On Sunday (0) Saturn rules the seventh part of the day, the fifth of the night.
    assert_eq!(gulika_segment(true, 0), 6);
    assert_eq!(gulika_segment(false, 0), 4);
    // On Saturday (6) Saturn rules the first part of the day.
    assert_eq!(gulika_segment(true, 6), 0);
    assert_eq!(gulika_segment(false, 6), 5);
}

#[test]
fn prepare_calculation_validates_then_matches_settings() {
    let settings = AstroSettings::new();
    let empty = KundliConfig::from_request(&settings);
    assert_eq!(
        prepare_calculation(&settings, &empty).unwrap_err(),
        KundliError::ChartSelection(ChartSelectionError::Empty)
    );

    let mismatched = KundliConfig::from_request(&settings)
        .with_house_system(HouseSystem::Equal)
        .with_charts(&[ChartSpec::d1(), ChartSpec::d9()]);
    assert_eq!(
        prepare_calculation(&settings, &mismatched).unwrap_err(),
        KundliError::InputConfigMismatch(InputConfigMismatchField::HouseSystem)
    );

    let duplicated = KundliConfig::from_request(&settings).with_charts(&[
        ChartSpec::d1(),
        ChartSpec::d1(),
        ChartSpec::vimshottari_dasha(),
    ]);
    let prepared = prepare_calculation(&settings, &duplicated).unwrap();
    assert_eq!(prepared.charts, vec![ChartSpec::d1(), ChartSpec::vimshottari_dasha()]);
    assert_eq!(duplicated.charts.len(), 3);

    let bhava = KundliConfig::from_request(&settings).with_charts(&[ChartSpec::bhava()]);
    assert_eq!(
        prepare_calculation(&settings, &bhava).unwrap_err(),
        KundliError::ChartSelection(ChartSelectionError::CuspBasedHouseModeRequired(
            kundli_rs::kundli::config::ChartKind::Bhava
        ))
    );
    let cusp_bhava = KundliConfig::from_request(&settings)
        .with_charts(&[ChartSpec::bhava().with_house_mode(HouseMode::CuspBased(HouseSystem::Koch))]);
    assert!(prepare_calculation(&settings, &cusp_bhava).is_ok());
}

#[test]
fn settings_mismatch_is_reported_in_field_order() {
    let settings = AstroSettings::new();
    let config = KundliConfig::from_request(&settings)
        .with_node_type(kundli_rs::kundli::astro::NodeType::Mean)
        .with_zodiac(ZodiacType::Tropical);
    assert_eq!(
        validate_request_matches_config(&settings, &config),
        Err(KundliError::InputConfigMismatch(InputConfigMismatchField::Zodiac))
    );
    assert_eq!(InputConfigMismatchField::HouseSystem.field_name(), "house_system");
    assert_eq!(InputConfigMismatchField::NodeType.field_name(), "node_type");
}

#[test]
fn only_divisional_charts_move_signs() {
    assert_eq!(chart_division(ChartKind::Varga { division: 9 }), Some(9));
    assert_eq!(chart_division(ChartKind::DivisionalBhava { division: 2 }), Some(2));
    assert_eq!(chart_division(ChartKind::Varga { division: 0 }), Some(0));
    assert_eq!(chart_division(ChartKind::Rasi), None);
    assert_eq!(chart_division(ChartKind::Bhava), None);
    assert_eq!(chart_division(ChartKind::Chalit), None);
    assert_eq!(chart_division(ChartKind::VimshottariDasha), None);
}

#[test]
fn bhava_and_chalit_share_the_rasi_pipeline() {
    let config = KundliConfig::default();
    let mode = HouseMode::CuspBased(HouseSystem::Placidus);
    for reference in [ReferenceKey::Lagna, ReferenceKey::Moon, ReferenceKey::Planet(AstroBody::Mars)] {
        let derive = |spec: ChartSpec| {
            derive_chart_result_core(
                ZodiacType::Sidereal,
                &config,
                spec.with_house_mode(mode).with_reference(reference),
                Ok(sample_input(&EQUAL_CUSPS)),
            )
        };
        let rasi = derive(ChartSpec::rasi());
        assert!(rasi.is_ok());
        assert_eq!(derive(ChartSpec::bhava()), rasi);
        assert_eq!(derive(ChartSpec::chalit()), rasi);
    }
}
