use vstd::prelude::*;

verus! {

/// Zodiac mode for astronomical and derivation calculations.
#[derive(Debug, Clone, Copy, PartialEq, Eq, Hash, Structural)]
pub enum ZodiacType {
    /// Sidereal zodiac.
    Sidereal,
    /// Tropical zodiac.
    Tropical,
}

/// Ayanamsha used for sidereal calculations.
#[derive(Debug, Clone, Copy, PartialEq, Eq, Hash, Structural)]
pub enum Ayanamsha {
    /// Lahiri ayanamsha.
    Lahiri,
    /// Raman ayanamsha.
    Raman,
    /// Krishnamurti ayanamsha.
    Krishnamurti,
}

/// House system used for house derivation.
#[derive(Debug, Clone, Copy, PartialEq, Eq, Hash, PartialOrd, Ord, Structural)]
pub enum HouseSystem {
    /// Placidus house system.
    Placidus,
    /// Koch house system.
    Koch,
    /// Equal house system.
    Equal,
    /// Whole-sign house system.
    WholeSign,
}

/// Node mode used for Rahu and Ketu positions.
#[derive(Debug, Clone, Copy, PartialEq, Eq, Hash, Structural)]
pub enum NodeType {
    /// Mean node positions.
    Mean,
    /// True node positions.
    True,
}

/// Astronomical bodies included in a derivation-ready result.
#[derive(Debug, Clone, Copy, PartialEq, Eq, Hash, PartialOrd, Ord, Structural)]
pub enum AstroBody {
    Sun,
    Moon,
    Mars,
    Mercury,
    Jupiter,
    Venus,
    Saturn,
    Rahu,
    Ketu,
}

/// Canonical slot of a body (Sun is 0, ..., Ketu is 8).
pub open spec fn astro_body_ordinal(body: AstroBody) -> int {
    match body {
        AstroBody::Sun => 0,
        AstroBody::Moon => 1,
        AstroBody::Mars => 2,
        AstroBody::Mercury => 3,
        AstroBody::Jupiter => 4,
        AstroBody::Venus => 5,
        AstroBody::Saturn => 6,
        AstroBody::Rahu => 7,
        AstroBody::Ketu => 8,
    }
}

impl AstroBody {
    /// All bodies in canonical order.
    pub const ALL: [AstroBody; 9] = [
        AstroBody::Sun,
        AstroBody::Moon,
        AstroBody::Mars,
        AstroBody::Mercury,
        AstroBody::Jupiter,
        AstroBody::Venus,
        AstroBody::Saturn,
        AstroBody::Rahu,
        AstroBody::Ketu,
    ];

    /// Canonical slot of this body within [`AstroBody::ALL`].
    pub fn index(self) -> (i: usize)
        ensures
            i == astro_body_ordinal(self),
            i < 9,
    {
        match self {
            AstroBody::Sun => 0,
            AstroBody::Moon => 1,
            AstroBody::Mars => 2,
            AstroBody::Mercury => 3,
            AstroBody::Jupiter => 4,
            AstroBody::Venus => 5,
            AstroBody::Saturn => 6,
            AstroBody::Rahu => 7,
            AstroBody::Ketu => 8,
        }
    }

    /// The body in canonical slot `index`.
    pub fn from_index(index: usize) -> (body: AstroBody)
        requires
            index < 9,
        ensures
            astro_body_ordinal(body) == index,
    {
        match index {
            0 => AstroBody::Sun,
            1 => AstroBody::Moon,
            2 => AstroBody::Mars,
            3 => AstroBody::Mercury,
            4 => AstroBody::Jupiter,
            5 => AstroBody::Venus,
            6 => AstroBody::Saturn,
            7 => AstroBody::Rahu,
            _ => AstroBody::Ketu,
        }
    }
}

/// The zodiac-related settings that an astronomical request carries
/// besides its time and place.
#[derive(Debug, Clone, Copy, PartialEq, Eq, Hash, Structural)]
pub struct AstroSettings {
    /// Zodiac mode used by the backend.
    pub zodiac: ZodiacType,
    /// Ayanamsha used for sidereal calculations.
    pub ayanamsha: Ayanamsha,
    /// House system requested from the backend.
    pub house_system: HouseSystem,
    /// Node mode used for Rahu and Ketu positions.
    pub node_type: NodeType,
}

impl AstroSettings {
    /// The crate's default kundli settings: sidereal zodiac, Lahiri
    /// ayanamsha, whole-sign houses and true nodes.
    pub fn new() -> (s: AstroSettings)
        ensures
            s.zodiac == ZodiacType::Sidereal,
            s.ayanamsha == Ayanamsha::Lahiri,
            s.house_system == HouseSystem::WholeSign,
            s.node_type == NodeType::True,
    {
        AstroSettings {
            zodiac: ZodiacType::Sidereal,
            ayanamsha: Ayanamsha::Lahiri,
            house_system: HouseSystem::WholeSign,
            node_type: NodeType::True,
        }
    }

    /// Returns a copy with a different zodiac mode.
    pub fn with_zodiac(self, zodiac: ZodiacType) -> (s: AstroSettings)
        ensures
            s == (AstroSettings { zodiac, ..self }),
    {
        AstroSettings { zodiac, ..self }
    }

    /// Returns a copy with a different ayanamsha.
    pub fn with_ayanamsha(self, ayanamsha: Ayanamsha) -> (s: AstroSettings)
        ensures
            s == (AstroSettings { ayanamsha, ..self }),
    {
        AstroSettings { ayanamsha, ..self }
    }

    /// Returns a copy with a different house system.
    pub fn with_house_system(self, house_system: HouseSystem) -> (s: AstroSettings)
        ensures
            s == (AstroSettings { house_system, ..self }),
    {
        AstroSettings { house_system, ..self }
    }

    /// Returns a copy with a different node mode.
    pub fn with_node_type(self, node_type: NodeType) -> (s: AstroSettings)
        ensures
            s == (AstroSettings { node_type, ..self }),
    {
        AstroSettings { node_type, ..self }
    }
}

impl Default for AstroSettings {
    fn default() -> (s: AstroSettings)
        ensures
            s.zodiac == ZodiacType::Sidereal,
            s.ayanamsha == Ayanamsha::Lahiri,
            s.house_system == HouseSystem::WholeSign,
            s.node_type == NodeType::True,
    {
        AstroSettings::new()
    }
}

} // verus!
