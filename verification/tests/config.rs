use kundli_rs::kundli::astro::{AstroBody, AstroSettings, HouseSystem};
use kundli_rs::kundli::calculate::{resolve_house_mode, ResolvedHouseMode};
use kundli_rs::kundli::config::{
    chart_spec_less, normalize_chart_selection, ChartKind, ChartSpec, HouseMode, KundliConfig,
    ReferenceKey,
};
use kundli_rs::kundli::error::{ChartSelectionError, KundliError};

#[test]
fn validate_rejects_empty_chart_selection() {
    let mut config = KundliConfig::default();

    let error = config.validate().unwrap_err();

    assert_eq!(
        error,
        KundliError::ChartSelection(ChartSelectionError::Empty)
    );
}

#[test]
fn validate_rejects_zero_division_varga() {
    let mut config = KundliConfig::default().with_charts(&[ChartSpec::varga(0)]);

    let error = config.validate().unwrap_err();

    assert_eq!(
        error,
        KundliError::ChartSelection(ChartSelectionError::InvalidDivision(0))
    );
}

#[test]
fn validate_sorts_and_deduplicates_chart_selection() {
    let mut config = KundliConfig::default().with_charts(&[
        ChartSpec::vimshottari_dasha(),
        ChartSpec::d1(),
        ChartSpec::d1(),
        ChartSpec::d9(),
    ]);

    config.validate().unwrap();

    assert_eq!(
        config.charts,
        vec![
            ChartSpec::d1(),
            ChartSpec::d9(),
            ChartSpec::vimshottari_dasha()
        ]
    );
}

#[test]
fn validate_rejects_bhava_without_explicit_cusp_based_mode() {
    let mut config = KundliConfig::default().with_charts(&[ChartSpec::bhava()]);

    let error = config.validate().unwrap_err();

    assert_eq!(
        error,
        KundliError::ChartSelection(ChartSelectionError::CuspBasedHouseModeRequired(
            ChartKind::Bhava,
        ))
    );
}

#[test]
fn validate_rejects_chalit_without_explicit_cusp_based_mode() {
    let mut config = KundliConfig::default().with_charts(&[ChartSpec::chalit()]);

    let error = config.validate().unwrap_err();

    assert_eq!(
        error,
        KundliError::ChartSelection(ChartSelectionError::CuspBasedHouseModeRequired(
            ChartKind::Chalit,
        ))
    );
}

#[test]
fn validate_rejects_divisional_bhava_without_cusp_based_mode() {
    let mut config = KundliConfig::default().with_charts(&[ChartSpec::divisional_bhava(9)]);

    let error = config.validate().unwrap_err();

    assert_eq!(
        error,
        KundliError::ChartSelection(ChartSelectionError::CuspBasedHouseModeRequired(
            ChartKind::DivisionalBhava { division: 9 },
        ))
    );
}

#[test]
fn resolve_house_mode_keeps_bhava_style_specs_cusp_based_after_validation() {
    let config = KundliConfig::default().with_house_system(HouseSystem::WholeSign);

    assert_eq!(
        resolve_house_mode(
            ChartSpec::bhava().with_house_mode(HouseMode::CuspBased(HouseSystem::Placidus)),
            &config,
        )
        .unwrap(),
        ResolvedHouseMode::CuspBased(HouseSystem::Placidus)
    );
}

#[test]
fn resolve_house_mode_uses_configured_system_for_configured_charts() {
    let whole = KundliConfig::default();
    let placidus = KundliConfig::default().with_house_system(HouseSystem::Placidus);

    assert_eq!(
        resolve_house_mode(ChartSpec::d1(), &whole).unwrap(),
        ResolvedHouseMode::WholeSign
    );
    assert_eq!(
        resolve_house_mode(ChartSpec::d1(), &placidus).unwrap(),
        ResolvedHouseMode::CuspBased(HouseSystem::Placidus)
    );
    assert_eq!(
        resolve_house_mode(ChartSpec::d9(), &placidus).unwrap(),
        ResolvedHouseMode::WholeSign
    );
    assert_eq!(
        resolve_house_mode(ChartSpec::vimshottari_dasha(), &placidus).unwrap(),
        ResolvedHouseMode::NoHouses
    );
}

#[test]
fn validate_reports_first_invalid_chart() {
    let mut config = KundliConfig::default().with_charts(&[
        ChartSpec::d1(),
        ChartSpec::vimshottari_dasha().with_house_mode(HouseMode::WholeSign),
        ChartSpec::varga(0),
    ]);
    let before = config.clone();

    let error = config.validate().unwrap_err();

    assert_eq!(
        error,
        KundliError::ChartSelection(ChartSelectionError::UnexpectedHouseMode(
            ChartKind::VimshottariDasha
        ))
    );
    assert_eq!(config, before);
}

#[test]
fn validate_rejects_rasi_and_varga_without_houses() {
    let mut rasi =
        KundliConfig::default().with_charts(&[ChartSpec::d1().with_house_mode(HouseMode::NoHouses)]);
    let mut varga =
        KundliConfig::default().with_charts(&[ChartSpec::d9().with_house_mode(HouseMode::NoHouses)]);

    assert_eq!(
        rasi.validate().unwrap_err(),
        KundliError::ChartSelection(ChartSelectionError::UnexpectedHouseMode(ChartKind::Rasi))
    );
    assert_eq!(
        varga.validate().unwrap_err(),
        KundliError::ChartSelection(ChartSelectionError::UnexpectedHouseMode(
            ChartKind::Varga { division: 9 }
        ))
    );
}

#[test]
fn validate_accepts_cusp_based_bhava_and_is_idempotent() {
    let bhava = ChartSpec::bhava().with_house_mode(HouseMode::CuspBased(HouseSystem::Koch));
    let mut config = KundliConfig::default().with_charts(&[
        bhava,
        ChartSpec::moon_chart(),
        ChartSpec::sun_chart(),
        ChartSpec::d1().with_reference(ReferenceKey::Planet(AstroBody::Jupiter)),
        ChartSpec::rasi(),
        bhava,
    ]);

    config.validate().unwrap();
    let once = config.clone();
    config.validate().unwrap();

    assert_eq!(
        once.charts,
        vec![
            ChartSpec::d1(),
            ChartSpec::moon_chart(),
            ChartSpec::sun_chart(),
            ChartSpec::d1().with_reference(ReferenceKey::Planet(AstroBody::Jupiter)),
            bhava,
        ]
    );
    assert_eq!(config, once);
}

#[test]
fn chart_order_matches_derived_ord() {
    let specs = vec![
        ChartSpec::vimshottari_dasha(),
        ChartSpec::divisional_bhava(3).with_house_mode(HouseMode::CuspBased(HouseSystem::Equal)),
        ChartSpec::divisional_bhava(3),
        ChartSpec::chalit(),
        ChartSpec::bhava(),
        ChartSpec::varga(10),
        ChartSpec::varga(2),
        ChartSpec::d9(),
        ChartSpec::d9().with_house_mode(HouseMode::CuspBased(HouseSystem::Placidus)),
        ChartSpec::d9().with_house_mode(HouseMode::CuspBased(HouseSystem::WholeSign)),
        ChartSpec::d1().with_reference(ReferenceKey::Planet(AstroBody::Ketu)),
        ChartSpec::d1().with_reference(ReferenceKey::Planet(AstroBody::Sun)),
        ChartSpec::sun_chart(),
        ChartSpec::moon_chart(),
        ChartSpec::d1().with_house_mode(HouseMode::WholeSign),
        ChartSpec::d1(),
    ];
    for a in &specs {
        for b in &specs {
            assert_eq!(chart_spec_less(a, b), a < b, "{a:?} vs {b:?}");
        }
    }
    let mut sorted = specs.clone();
    sorted.sort();
    sorted.dedup();
    assert_eq!(normalize_chart_selection(&specs), sorted);
}

#[test]
fn from_request_copies_the_duplicated_settings() {
    let settings = AstroSettings::new().with_house_system(HouseSystem::Equal);

    let config = KundliConfig::from_request(&settings);

    assert_eq!(config.house_system, HouseSystem::Equal);
    assert_eq!(config.zodiac, settings.zodiac);
    assert_eq!(config.ayanamsha, settings.ayanamsha);
    assert_eq!(config.node_type, settings.node_type);
    assert!(config.charts.is_empty());
}

#[test]
fn chart_spec_constructors_name_their_charts() {
    assert_eq!(ChartSpec::rasi(), ChartSpec::d1());
    assert_eq!(ChartSpec::d9(), ChartSpec::varga(9));
    assert_eq!(
        ChartSpec::d1(),
        ChartSpec::new(ChartKind::Rasi, ReferenceKey::Lagna, HouseMode::Configured)
    );
    assert_eq!(ChartSpec::moon_chart().reference, ReferenceKey::Moon);
    assert_eq!(ChartSpec::sun_chart().reference, ReferenceKey::Sun);
    assert_eq!(ChartSpec::varga(3).kind, ChartKind::Varga { division: 3 });
    assert_eq!(ChartSpec::varga(3).house_mode, HouseMode::WholeSign);
    assert_eq!(ChartSpec::divisional_bhava(2).kind, ChartKind::DivisionalBhava { division: 2 });
    assert_eq!(ChartSpec::vimshottari_dasha().house_mode, HouseMode::NoHouses);
    assert_eq!(ChartSpec::vimshottari_dasha().reference, ReferenceKey::Moon);
    let moved = ChartSpec::bhava()
        .with_reference(ReferenceKey::Planet(AstroBody::Mars))
        .with_house_mode(HouseMode::CuspBased(HouseSystem::Koch));
    assert_eq!(moved.kind, ChartKind::Bhava);
    assert_eq!(moved.reference, ReferenceKey::Planet(AstroBody::Mars));
    assert_eq!(moved.house_mode, HouseMode::CuspBased(HouseSystem::Koch));
}
