//! What the ephemeris backend must compute for a request: which source each
//! body is read from, whether sidereal mode applies, and which ephemeris path
//! the backend is given. The backend itself runs these steps; this module
//! decides them.

use vstd::prelude::*;

use super::engine::SwissEphConfig;
use super::error::AstroError;
use super::request::{astro_body_ordinal, AstroBody, AstroSettings, Ayanamsha, NodeType, ZodiacType};

verus! {

/// A body the ephemeris backend can compute directly.
#[derive(Debug, Clone, Copy, PartialEq, Eq, Hash, Structural)]
pub enum EphemerisSource {
    Sun,
    Moon,
    Mars,
    Mercury,
    Jupiter,
    Venus,
    Saturn,
    MeanNode,
    TrueNode,
}

/// How one canonical body is obtained from the backend.
///
/// When `mirrored` is set, the reported position is the one of `source`
/// turned by 180 degrees of longitude with its latitude (and latitude speed)
/// negated; Ketu is obtained this way from the lunar node.
#[derive(Debug, Clone, Copy, PartialEq, Eq, Hash, Structural)]
pub struct BodyComputation {
    pub body: AstroBody,
    pub source: EphemerisSource,
    pub mirrored: bool,
}

/// Everything the backend is told to do for one request.
#[derive(Debug, Clone, PartialEq, Eq)]
pub struct EphemerisPlan {
    /// Path handed to the backend (empty selects its default).
    pub ephemeris_path: String,
    /// Whether positions, houses and the ayanamsha value are sidereal.
    pub sidereal: bool,
    /// The sidereal mode to install before computing, when sidereal.
    pub sidereal_mode: Option<Ayanamsha>,
    /// One computation per canonical body, in canonical order.
    pub bodies: Vec<BodyComputation>,
}

/// The lunar node source selected by a node mode.
pub open spec fn spec_node_source(node_type: NodeType) -> EphemerisSource {
    match node_type {
        NodeType::Mean => EphemerisSource::MeanNode,
        NodeType::True => EphemerisSource::TrueNode,
    }
}

/// How a canonical body is computed: planets directly, Rahu from the
/// selected node, Ketu as the mirror of that node.
pub open spec fn spec_body_computation(body: AstroBody, node_type: NodeType) -> BodyComputation {
    match body {
        AstroBody::Sun => BodyComputation { body, source: EphemerisSource::Sun, mirrored: false },
        AstroBody::Moon => BodyComputation { body, source: EphemerisSource::Moon, mirrored: false },
        AstroBody::Mars => BodyComputation { body, source: EphemerisSource::Mars, mirrored: false },
        AstroBody::Mercury => BodyComputation {
            body,
            source: EphemerisSource::Mercury,
            mirrored: false,
        },
        AstroBody::Jupiter => BodyComputation {
            body,
            source: EphemerisSource::Jupiter,
            mirrored: false,
        },
        AstroBody::Venus => BodyComputation { body, source: EphemerisSource::Venus, mirrored: false },
        AstroBody::Saturn => BodyComputation {
            body,
            source: EphemerisSource::Saturn,
            mirrored: false,
        },
        AstroBody::Rahu => BodyComputation { body, source: spec_node_source(node_type), mirrored: false },
        AstroBody::Ketu => BodyComputation { body, source: spec_node_source(node_type), mirrored: true },
    }
}

/// Whether a path can be handed to the backend: it must hold no NUL character.
pub open spec fn path_is_passable(path: Seq<char>) -> bool {
    !path.contains('\0')
}

/// The lunar node source selected by a node mode.
pub fn node_source(node_type: NodeType) -> (s: EphemerisSource)
    ensures
        s == spec_node_source(node_type),
{
    match node_type {
        NodeType::Mean => EphemerisSource::MeanNode,
        NodeType::True => EphemerisSource::TrueNode,
    }
}

/// How a canonical body is computed by the backend.
pub fn body_computation(body: AstroBody, node_type: NodeType) -> (c: BodyComputation)
    ensures
        c == spec_body_computation(body, node_type),
{
    let source = match body {
        AstroBody::Sun => EphemerisSource::Sun,
        AstroBody::Moon => EphemerisSource::Moon,
        AstroBody::Mars => EphemerisSource::Mars,
        AstroBody::Mercury => EphemerisSource::Mercury,
        AstroBody::Jupiter => EphemerisSource::Jupiter,
        AstroBody::Venus => EphemerisSource::Venus,
        AstroBody::Saturn => EphemerisSource::Saturn,
        AstroBody::Rahu | AstroBody::Ketu => node_source(node_type),
    };
    BodyComputation { body, source, mirrored: body == AstroBody::Ketu }
}

/// Rahu and Ketu come from the node that the settings select (the mean
/// node for `Mean`, the true node for `True`): Rahu as the node itself,
/// Ketu as its mirror. Every other body is read directly from its own source
/// and is never mirrored.
pub proof fn lemma_nodes_and_planets_in_plan(
    settings: AstroSettings,
    config: SwissEphConfig,
    r: Result<EphemerisPlan, AstroError>,
)
    requires
        r matches Ok(plan) ==> {
            &&& plan.bodies@.len() == 9
            &&& forall|i: int|
                0 <= i < 9 ==> {
                    &&& astro_body_ordinal(#[trigger] plan.bodies@[i].body) == i
                    &&& plan.bodies@[i] == spec_body_computation(
                        plan.bodies@[i].body,
                        settings.node_type,
                    )
                }
        },
    ensures
        r matches Ok(plan) ==> {
            let node = if settings.node_type == NodeType::Mean {
                EphemerisSource::MeanNode
            } else {
                EphemerisSource::TrueNode
            };
            &&& plan.bodies@[7] == BodyComputation {
                body: AstroBody::Rahu,
                source: node,
                mirrored: false,
            }
            &&& plan.bodies@[8] == BodyComputation {
                body: AstroBody::Ketu,
                source: node,
                mirrored: true,
            }
            &&& plan.bodies@[0] == BodyComputation {
                body: AstroBody::Sun,
                source: EphemerisSource::Sun,
                mirrored: false,
            }
            &&& plan.bodies@[1] == BodyComputation {
                body: AstroBody::Moon,
                source: EphemerisSource::Moon,
                mirrored: false,
            }
            &&& plan.bodies@[2] == BodyComputation {
                body: AstroBody::Mars,
                source: EphemerisSource::Mars,
                mirrored: false,
            }
            &&& plan.bodies@[3] == BodyComputation {
                body: AstroBody::Mercury,
                source: EphemerisSource::Mercury,
                mirrored: false,
            }
            &&& plan.bodies@[4] == BodyComputation {
                body: AstroBody::Jupiter,
                source: EphemerisSource::Jupiter,
                mirrored: false,
            }
            &&& plan.bodies@[5] == BodyComputation {
                body: AstroBody::Venus,
                source: EphemerisSource::Venus,
                mirrored: false,
            }
            &&& plan.bodies@[6] == BodyComputation {
                body: AstroBody::Saturn,
                source: EphemerisSource::Saturn,
                mirrored: false,
            }
        },
{
    if let Ok(plan) = r {
        assert(astro_body_ordinal(plan.bodies@[0].body) == 0);
        assert(astro_body_ordinal(plan.bodies@[1].body) == 1);
        assert(astro_body_ordinal(plan.bodies@[2].body) == 2);
        assert(astro_body_ordinal(plan.bodies@[3].body) == 3);
        assert(astro_body_ordinal(plan.bodies@[4].body) == 4);
        assert(astro_body_ordinal(plan.bodies@[5].body) == 5);
        assert(astro_body_ordinal(plan.bodies@[6].body) == 6);
        assert(astro_body_ordinal(plan.bodies@[7].body) == 7);
        assert(astro_body_ordinal(plan.bodies@[8].body) == 8);
    }
}

/// Whether `path` holds a NUL character.
fn contains_nul(path: &str) -> (r: bool)
    ensures
        r == path@.contains('\0'),
{
    broadcast use vstd::string::axiom_spec_iter;
    let mut found = false;
    for c in it: path.chars()
        invariant
            it.seq() == path@,
            found == (exists|j: int| 0 <= j < it.index() && it.seq()[j] == '\0'),
    {
        if c == '\0' {
            found = true;
        }
    }
    found
}

/// The path handed to the backend for a configuration: the configured path
/// when one is set (rejected with `InvalidEphemerisPath` if it holds a NUL
/// character), otherwise the empty path.
pub fn resolved_ephemeris_path(config: &SwissEphConfig) -> (r: Result<String, AstroError>)
    ensures
        match config.path_view() {
            None => r matches Ok(p) && p@ == Seq::<char>::empty(),
            Some(v) => if path_is_passable(v) {
                r matches Ok(p) && p@ == v
            } else {
                r == Err::<String, AstroError>(AstroError::InvalidEphemerisPath)
            },
        },
{
    match config.ephemeris_path() {
        Some(path) => {
            if contains_nul(path) {
                Err(AstroError::InvalidEphemerisPath)
            } else {
                Ok(path.to_owned())
            }
        },
        None => Ok(String::new()),
    }
}

/// Builds the plan the backend runs for a request with the given settings:
/// the ephemeris path (refused with `InvalidEphemerisPath` exactly when the
/// configured path holds a NUL character), sidereal mode iff the zodiac is
/// sidereal, and one computation for every body in canonical order.
pub fn ephemeris_plan(settings: &AstroSettings, config: &SwissEphConfig) -> (r: Result<
    EphemerisPlan,
    AstroError,
>)
    ensures
        r is Err <==> (config.path_view() matches Some(v) && !path_is_passable(v)),
        r is Err ==> r == Err::<EphemerisPlan, AstroError>(AstroError::InvalidEphemerisPath),
        r matches Ok(plan) ==> {
            &&& match config.path_view() {
                Some(v) => plan.ephemeris_path@ == v,
                None => plan.ephemeris_path@ == Seq::<char>::empty(),
            }
            &&& plan.sidereal == (settings.zodiac == ZodiacType::Sidereal)
            &&& plan.sidereal_mode == (if settings.zodiac == ZodiacType::Sidereal {
                Some(settings.ayanamsha)
            } else {
                None
            })
            &&& plan.bodies@.len() == 9
            &&& forall|i: int|
                0 <= i < 9 ==> {
                    &&& astro_body_ordinal(#[trigger] plan.bodies@[i].body) == i
                    &&& plan.bodies@[i] == spec_body_computation(
                        plan.bodies@[i].body,
                        settings.node_type,
                    )
                }
        },
{
    let ephemeris_path = resolved_ephemeris_path(config)?;
    let sidereal = settings.zodiac == ZodiacType::Sidereal;
    let sidereal_mode = if sidereal {
        Some(settings.ayanamsha)
    } else {
        None
    };
    let mut bodies: Vec<BodyComputation> = Vec::new();
    let mut i: usize = 0;
    while i < 9
        invariant
            i <= 9,
            bodies@.len() == i,
            forall|k: int|
                0 <= k < i ==> {
                    &&& astro_body_ordinal(#[trigger] bodies@[k].body) == k
                    &&& bodies@[k] == spec_body_computation(bodies@[k].body, settings.node_type)
                },
        decreases 9 - i,
    {
        let body = AstroBody::from_index(i);
        bodies.push(body_computation(body, settings.node_type));
        i = i + 1;
    }
    Ok(EphemerisPlan { ephemeris_path, sidereal, sidereal_mode, bodies })
}

} // verus!
