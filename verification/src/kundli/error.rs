//! Errors of chart selection, derivation and the high-level API.

use vstd::prelude::*;

use crate::kundli::astro::{AstroError, HouseSystem, ZodiacType};
use crate::kundli::config::ChartKind;
use crate::kundli::model::DashaLord;
use crate::kundli::text::{append_decimal, decimal_text};
use vstd::string::StringExecFns;

verus! {

/// Invalid high-level chart selection declared in a `KundliConfig`.
#[derive(Debug, Clone, Copy, PartialEq, Eq, Structural)]
pub enum ChartSelectionError {
    /// At least one chart layer must be requested.
    Empty,
    /// A divisional chart requested division 0.
    InvalidDivision(u8),
    /// The selected chart kind does not support the given house mode.
    UnexpectedHouseMode(ChartKind),
    /// The selected chart kind requires a cusp-based house mode.
    CuspBasedHouseModeRequired(ChartKind),
}

/// Errors of the derive layer.
///
/// `InvalidLongitude` carries the rejected value as its IEEE-754 bit
/// pattern (`f64::to_bits`).
#[derive(Debug, Clone, Copy, PartialEq, Eq)]
pub enum DeriveError {
    MissingMoon,
    MissingPlacementBody,
    InvalidHouseCusps(usize),
    InvalidHouseNumber(u8),
    InvalidLongitude(u64),
    InvalidPada(u8),
    InvalidDashaSequenceLord(DashaLord),
    InvalidDivision(u8),
    UnsupportedZodiac(ZodiacType),
    UnsupportedHouseSystem(HouseSystem),
    UnsupportedD9HouseSystem(HouseSystem),
    SpecialPointCalculationFailed(&'static str),
}

/// The duplicated setting on which a request and a config disagree.
#[derive(Debug, Clone, Copy, PartialEq, Eq, Structural)]
pub enum InputConfigMismatchField {
    Zodiac,
    Ayanamsha,
    HouseSystem,
    NodeType,
}

/// The name of a duplicated setting as written in requests and configs.
pub open spec fn field_name_text(field: InputConfigMismatchField) -> Seq<char> {
    match field {
        InputConfigMismatchField::Zodiac => "zodiac"@,
        InputConfigMismatchField::Ayanamsha => "ayanamsha"@,
        InputConfigMismatchField::HouseSystem => "house_system"@,
        InputConfigMismatchField::NodeType => "node_type"@,
    }
}

/// The message of a mismatched setting.
pub open spec fn mismatch_text(field: InputConfigMismatchField) -> Seq<char> {
    "request."@ + field_name_text(field) + " must match config."@ + field_name_text(field)
}

impl InputConfigMismatchField {
    /// The field's name as written in requests and configs.
    pub fn field_name(self) -> (name: &'static str)
        ensures
            name@ == field_name_text(self),
    {
        match self {
            InputConfigMismatchField::Zodiac => "zodiac",
            InputConfigMismatchField::Ayanamsha => "ayanamsha",
            InputConfigMismatchField::HouseSystem => "house_system",
            InputConfigMismatchField::NodeType => "node_type",
        }
    }
}

impl InputConfigMismatchField {
    /// The message of the mismatch: `request.<field> must match config.<field>`.
    pub fn message(self) -> (s: String)
        ensures
            s@ == mismatch_text(self),
    {
        let name = self.field_name();
        let mut s = String::from_str("request.");
        s.append(name);
        s.append(" must match config.");
        s.append(name);
        s
    }
}

/// A chart kind as it reads in messages: its variant name, with the
/// division of a divisional kind.
pub open spec fn chart_kind_text(kind: ChartKind) -> Seq<char> {
    match kind {
        ChartKind::Rasi => "Rasi"@,
        ChartKind::Varga { division } => "Varga { division: "@ + decimal_text(division as nat)
            + " }"@,
        ChartKind::Bhava => "Bhava"@,
        ChartKind::Chalit => "Chalit"@,
        ChartKind::DivisionalBhava { division } => "DivisionalBhava { division: "@ + decimal_text(
            division as nat,
        ) + " }"@,
        ChartKind::VimshottariDasha => "VimshottariDasha"@,
    }
}

/// Appends the text of a chart kind to `s`.
fn append_chart_kind(s: &mut String, kind: ChartKind)
    ensures
        final(s)@ == old(s)@ + chart_kind_text(kind),
{
    match kind {
        ChartKind::Rasi => s.append("Rasi"),
        ChartKind::Varga { division } => {
            s.append("Varga { division: ");
            append_decimal(s, division as u64);
            s.append(" }");
        },
        ChartKind::Bhava => s.append("Bhava"),
        ChartKind::Chalit => s.append("Chalit"),
        ChartKind::DivisionalBhava { division } => {
            s.append("DivisionalBhava { division: ");
            append_decimal(s, division as u64);
            s.append(" }");
        },
        ChartKind::VimshottariDasha => s.append("VimshottariDasha"),
    }
}

/// The message of a chart selection error.
pub open spec fn chart_selection_text(e: ChartSelectionError) -> Seq<char> {
    match e {
        ChartSelectionError::Empty => "at least one chart must be requested"@,
        ChartSelectionError::InvalidDivision(division) => "invalid divisional chart: D"@
            + decimal_text(division as nat) + "; expected division >= 1"@,
        ChartSelectionError::UnexpectedHouseMode(kind) => "chart kind "@ + chart_kind_text(kind)
            + " does not support the selected house mode"@,
        ChartSelectionError::CuspBasedHouseModeRequired(kind) => "chart kind "@ + chart_kind_text(
            kind,
        ) + " requires a cusp-based house mode"@,
    }
}

impl ChartSelectionError {
    /// The message of this error.
    pub fn message(&self) -> (s: String)
        ensures
            s@ == chart_selection_text(*self),
    {
        match *self {
            ChartSelectionError::Empty => String::from_str("at least one chart must be requested"),
            ChartSelectionError::InvalidDivision(division) => {
                let mut s = String::from_str("invalid divisional chart: D");
                append_decimal(&mut s, division as u64);
                s.append("; expected division >= 1");
                s
            },
            ChartSelectionError::UnexpectedHouseMode(kind) => {
                let mut s = String::from_str("chart kind ");
                append_chart_kind(&mut s, kind);
                s.append(" does not support the selected house mode");
                s
            },
            ChartSelectionError::CuspBasedHouseModeRequired(kind) => {
                let mut s = String::from_str("chart kind ");
                append_chart_kind(&mut s, kind);
                s.append(" requires a cusp-based house mode");
                s
            },
        }
    }
}

/// A zodiac mode as it reads in messages.
pub open spec fn zodiac_text(zodiac: ZodiacType) -> Seq<char> {
    match zodiac {
        ZodiacType::Sidereal => "Sidereal"@,
        ZodiacType::Tropical => "Tropical"@,
    }
}

/// A house system as it reads in messages.
pub open spec fn house_system_text(system: HouseSystem) -> Seq<char> {
    match system {
        HouseSystem::Placidus => "Placidus"@,
        HouseSystem::Koch => "Koch"@,
        HouseSystem::Equal => "Equal"@,
        HouseSystem::WholeSign => "WholeSign"@,
    }
}

/// A dasha lord as it reads in messages.
pub open spec fn dasha_lord_text(lord: DashaLord) -> Seq<char> {
    match lord {
        DashaLord::Ketu => "Ketu"@,
        DashaLord::Venus => "Venus"@,
        DashaLord::Sun => "Sun"@,
        DashaLord::Moon => "Moon"@,
        DashaLord::Mars => "Mars"@,
        DashaLord::Rahu => "Rahu"@,
        DashaLord::Jupiter => "Jupiter"@,
        DashaLord::Saturn => "Saturn"@,
        DashaLord::Mercury => "Mercury"@,
    }
}

fn zodiac_str(zodiac: ZodiacType) -> (s: &'static str)
    ensures
        s@ == zodiac_text(zodiac),
{
    match zodiac {
        ZodiacType::Sidereal => "Sidereal",
        ZodiacType::Tropical => "Tropical",
    }
}

fn house_system_str(system: HouseSystem) -> (s: &'static str)
    ensures
        s@ == house_system_text(system),
{
    match system {
        HouseSystem::Placidus => "Placidus",
        HouseSystem::Koch => "Koch",
        HouseSystem::Equal => "Equal",
        HouseSystem::WholeSign => "WholeSign",
    }
}

fn dasha_lord_str(lord: DashaLord) -> (s: &'static str)
    ensures
        s@ == dasha_lord_text(lord),
{
    match lord {
        DashaLord::Ketu => "Ketu",
        DashaLord::Venus => "Venus",
        DashaLord::Sun => "Sun",
        DashaLord::Moon => "Moon",
        DashaLord::Mars => "Mars",
        DashaLord::Rahu => "Rahu",
        DashaLord::Jupiter => "Jupiter",
        DashaLord::Saturn => "Saturn",
        DashaLord::Mercury => "Mercury",
    }
}

/// The message of a derive error. `longitude_text` is the decimal text of
/// the rejected longitude, which only `InvalidLongitude` shows.
pub open spec fn derive_error_text(e: DeriveError, longitude_text: Seq<char>) -> Seq<char> {
    match e {
        DeriveError::MissingMoon => "moon position is required for vimshottari dasha"@,
        DeriveError::MissingPlacementBody => "pipeline placement is missing its body identifier"@,
        DeriveError::InvalidHouseCusps(count) => "expected 12 house cusps, got "@ + decimal_text(
            count as nat,
        ),
        DeriveError::InvalidHouseNumber(value) => "invalid house number: "@ + decimal_text(
            value as nat,
        ) + "; expected a value in 1..=12"@,
        DeriveError::InvalidLongitude(_) => "invalid longitude: "@ + longitude_text
            + "; expected a finite degree value"@,
        DeriveError::InvalidPada(value) => "invalid pada value: "@ + decimal_text(value as nat)
            + "; expected a value in 1..=4"@,
        DeriveError::InvalidDashaSequenceLord(lord) => "invalid Vimshottari sequence lord: "@
            + dasha_lord_text(lord),
        DeriveError::InvalidDivision(division) => "invalid divisional chart: D"@ + decimal_text(
            division as nat,
        ) + "; expected division >= 1"@,
        DeriveError::UnsupportedZodiac(zodiac) => "unsupported zodiac for derive operation: "@
            + zodiac_text(zodiac) + "; expected sidereal data"@,
        DeriveError::UnsupportedHouseSystem(system) =>
            "unsupported house system for derive operation: "@ + house_system_text(system),
        DeriveError::UnsupportedD9HouseSystem(system) =>
            "unsupported house system for D9 derivation: "@ + house_system_text(system)
            + "; expected whole-sign houses"@,
        DeriveError::SpecialPointCalculationFailed(point) =>
            "failed to calculate special reference point: "@ + point@,
    }
}

impl DeriveError {
    /// The message of this error; `longitude_text` is the decimal text of
    /// the rejected longitude, shown by `InvalidLongitude` only.
    pub fn message(&self, longitude_text: &str) -> (s: String)
        ensures
            s@ == derive_error_text(*self, longitude_text@),
    {
        match *self {
            DeriveError::MissingMoon => String::from_str(
                "moon position is required for vimshottari dasha",
            ),
            DeriveError::MissingPlacementBody => String::from_str(
                "pipeline placement is missing its body identifier",
            ),
            DeriveError::InvalidHouseCusps(count) => {
                let mut s = String::from_str("expected 12 house cusps, got ");
                append_decimal(&mut s, count as u64);
                s
            },
            DeriveError::InvalidHouseNumber(value) => {
                let mut s = String::from_str("invalid house number: ");
                append_decimal(&mut s, value as u64);
                s.append("; expected a value in 1..=12");
                s
            },
            DeriveError::InvalidLongitude(_) => {
                let mut s = String::from_str("invalid longitude: ");
                s.append(longitude_text);
                s.append("; expected a finite degree value");
                s
            },
            DeriveError::InvalidPada(value) => {
                let mut s = String::from_str("invalid pada value: ");
                append_decimal(&mut s, value as u64);
                s.append("; expected a value in 1..=4");
                s
            },
            DeriveError::InvalidDashaSequenceLord(lord) => {
                let mut s = String::from_str("invalid Vimshottari sequence lord: ");
                s.append(dasha_lord_str(lord));
                s
            },
            DeriveError::InvalidDivision(division) => {
                let mut s = String::from_str("invalid divisional chart: D");
                append_decimal(&mut s, division as u64);
                s.append("; expected division >= 1");
                s
            },
            DeriveError::UnsupportedZodiac(zodiac) => {
                let mut s = String::from_str("unsupported zodiac for derive operation: ");
                s.append(zodiac_str(zodiac));
                s.append("; expected sidereal data");
                s
            },
            DeriveError::UnsupportedHouseSystem(system) => {
                let mut s = String::from_str("unsupported house system for derive operation: ");
                s.append(house_system_str(system));
                s
            },
            DeriveError::UnsupportedD9HouseSystem(system) => {
                let mut s = String::from_str("unsupported house system for D9 derivation: ");
                s.append(house_system_str(system));
                s.append("; expected whole-sign houses");
                s
            },
            DeriveError::SpecialPointCalculationFailed(point) => {
                let mut s = String::from_str("failed to calculate special reference point: ");
                s.append(point);
                s
            },
        }
    }
}

/// Errors of the high-level kundli API.
#[derive(Debug, Clone, PartialEq)]
pub enum KundliError {
    Astro(AstroError),
    Derive(DeriveError),
    ChartSelection(ChartSelectionError),
    InputConfigMismatch(InputConfigMismatchField),
}

} // verus!
