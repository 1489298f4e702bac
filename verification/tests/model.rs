use kundli_rs::kundli::derive::nakshatra::{
    dasha_lord_for_nakshatra, nakshatra_from_index, nakshatra_to_index, pada_from_number,
};
use kundli_rs::kundli::derive::sign::{sign_from_index, sign_to_index};
use kundli_rs::kundli::error::DeriveError;
use kundli_rs::kundli::model::{DashaLord, HouseNumber, Nakshatra, Pada, Sign};

#[test]
fn checked_constructor_rejects_invalid_house_number() {
    assert_eq!(HouseNumber::new(0), None);
    assert_eq!(HouseNumber::new(13), None);
}

#[test]
fn checked_constructors_accept_their_ranges() {
    for value in 1..=12u8 {
        assert_eq!(HouseNumber::new(value).unwrap().get(), value);
    }
    for value in 1..=4u8 {
        assert_eq!(Pada::new(value).unwrap().get(), value);
    }
    assert_eq!(Pada::new(0), None);
    assert_eq!(Pada::new(5), None);
    assert_eq!(pada_from_number(5), Err(DeriveError::InvalidPada(5)));
    assert_eq!(pada_from_number(2), Ok(Pada::new(2).unwrap()));
}

#[test]
fn test_dasha_lord_for_nakshatra_sequence() {
    // First 9 nakshatras map directly to SEQUENCE
    assert_eq!(
        dasha_lord_for_nakshatra(Nakshatra::Ashwini),
        DashaLord::Ketu
    );
    assert_eq!(
        dasha_lord_for_nakshatra(Nakshatra::Bharani),
        DashaLord::Venus
    );
    assert_eq!(
        dasha_lord_for_nakshatra(Nakshatra::Krittika),
        DashaLord::Sun
    );
    assert_eq!(dasha_lord_for_nakshatra(Nakshatra::Rohini), DashaLord::Moon);
    assert_eq!(
        dasha_lord_for_nakshatra(Nakshatra::Mrigashira),
        DashaLord::Mars
    );
    assert_eq!(dasha_lord_for_nakshatra(Nakshatra::Ardra), DashaLord::Rahu);
    assert_eq!(
        dasha_lord_for_nakshatra(Nakshatra::Punarvasu),
        DashaLord::Jupiter
    );
    assert_eq!(
        dasha_lord_for_nakshatra(Nakshatra::Pushya),
        DashaLord::Saturn
    );
    assert_eq!(
        dasha_lord_for_nakshatra(Nakshatra::Ashlesha),
        DashaLord::Mercury
    );

    // Cycle repeats for next 9 nakshatras
    assert_eq!(dasha_lord_for_nakshatra(Nakshatra::Magha), DashaLord::Ketu);
    assert_eq!(
        dasha_lord_for_nakshatra(Nakshatra::PurvaPhalguni),
        DashaLord::Venus
    );

    // And again for last 9
    assert_eq!(dasha_lord_for_nakshatra(Nakshatra::Mula), DashaLord::Ketu);
    assert_eq!(
        dasha_lord_for_nakshatra(Nakshatra::Revati),
        DashaLord::Mercury
    );
}

#[test]
fn dasha_lords_repeat_every_nine_nakshatras() {
    for index in 0..18usize {
        assert_eq!(
            dasha_lord_for_nakshatra(nakshatra_from_index(index)),
            dasha_lord_for_nakshatra(nakshatra_from_index(index + 9))
        );
        assert_eq!(
            dasha_lord_for_nakshatra(nakshatra_from_index(index)),
            DashaLord::SEQUENCE[index % 9]
        );
    }
}

#[test]
fn sign_and_nakshatra_indices_round_trip() {
    for index in 0..12usize {
        assert_eq!(sign_to_index(sign_from_index(index)), index);
    }
    for index in 0..27usize {
        assert_eq!(nakshatra_to_index(nakshatra_from_index(index)), index);
    }
    assert_eq!(sign_from_index(0), Sign::Aries);
    assert_eq!(sign_from_index(6), Sign::Libra);
    assert_eq!(sign_from_index(11), Sign::Pisces);
    assert_eq!(nakshatra_from_index(3), Nakshatra::Rohini);
    assert_eq!(nakshatra_from_index(26), Nakshatra::Revati);
}

#[test]
fn sequence_lord_follows_canonical_sequence() {
    for index in 0..9usize {
        assert_eq!(DashaLord::sequence_lord(index), DashaLord::SEQUENCE[index]);
    }
}

#[test]
fn padas_are_their_values() {
    assert_eq!(Pada::new(2), Pada::new(2));
    assert_ne!(Pada::new(2), Pada::new(3));
    assert_eq!(Pada::new(4).unwrap().get(), 4);
}
