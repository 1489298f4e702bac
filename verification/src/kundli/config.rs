//! Declarative chart selection and its validation.

use vstd::prelude::*;

use crate::kundli::astro::{
    astro_body_ordinal, AstroBody, AstroSettings, Ayanamsha, HouseSystem, NodeType, ZodiacType,
};
use crate::kundli::error::{ChartSelectionError, KundliError};

verus! {

/// High-level chart family requested from the public API.
#[derive(Debug, Clone, Copy, PartialEq, Eq, Hash, PartialOrd, Ord, Structural)]
pub enum ChartKind {
    /// The base Rasi chart.
    Rasi,
    /// A divisional chart such as D2, D9, or D60.
    Varga { division: u8 },
    /// A cusp-based bhava chart.
    Bhava,
    /// A bhava-chalit style chart.
    Chalit,
    /// A cusp-based chart derived after a divisional transform.
    DivisionalBhava { division: u8 },
    /// Vimshottari dasha output.
    VimshottariDasha,
}

/// Reference anchor used to re-interpret a chart.
#[derive(Debug, Clone, Copy, PartialEq, Eq, Hash, PartialOrd, Ord, Structural)]
pub enum ReferenceKey {
    Lagna,
    Moon,
    Sun,
    Planet(AstroBody),
}

/// House derivation mode for a chart request.
#[derive(Debug, Clone, Copy, PartialEq, Eq, Hash, PartialOrd, Ord, Structural)]
pub enum HouseMode {
    /// Reuse `KundliConfig::house_system`.
    Configured,
    /// Always derive whole-sign houses.
    WholeSign,
    /// Always derive cusp-based houses with the given system.
    CuspBased(HouseSystem),
    /// This chart does not expose houses.
    NoHouses,
}

/// Declarative chart selection spec.
#[derive(Debug, Clone, Copy, PartialEq, Eq, Hash, PartialOrd, Ord, Structural)]
pub struct ChartSpec {
    pub kind: ChartKind,
    pub reference: ReferenceKey,
    pub house_mode: HouseMode,
}

// ---------------------------------------------------------------------------
// The order of chart specs: variants in declaration order, then their fields,
// field by field (the order that `derive(Ord)` gives these types).
// ---------------------------------------------------------------------------

/// Position of a house system in declaration order.
pub open spec fn house_system_ordinal(system: HouseSystem) -> int {
    match system {
        HouseSystem::Placidus => 0,
        HouseSystem::Koch => 1,
        HouseSystem::Equal => 2,
        HouseSystem::WholeSign => 3,
    }
}

/// The sort key of a chart spec: six integers compared lexicographically.
pub open spec fn chart_spec_key(c: ChartSpec) -> (int, int, int, int, int, int) {
    let (k0, k1) = match c.kind {
        ChartKind::Rasi => (0int, 0int),
        ChartKind::Varga { division } => (1int, division as int),
        ChartKind::Bhava => (2int, 0int),
        ChartKind::Chalit => (3int, 0int),
        ChartKind::DivisionalBhava { division } => (4int, division as int),
        ChartKind::VimshottariDasha => (5int, 0int),
    };
    let (r0, r1) = match c.reference {
        ReferenceKey::Lagna => (0int, 0int),
        ReferenceKey::Moon => (1int, 0int),
        ReferenceKey::Sun => (2int, 0int),
        ReferenceKey::Planet(body) => (3int, astro_body_ordinal(body)),
    };
    let (h0, h1) = match c.house_mode {
        HouseMode::Configured => (0int, 0int),
        HouseMode::WholeSign => (1int, 0int),
        HouseMode::CuspBased(system) => (2int, house_system_ordinal(system)),
        HouseMode::NoHouses => (3int, 0int),
    };
    (k0, k1, r0, r1, h0, h1)
}

/// Lexicographic strict order on sort keys.
pub open spec fn key_lt(a: (int, int, int, int, int, int), b: (int, int, int, int, int, int)) -> bool {
    a.0 < b.0 || (a.0 == b.0 && (a.1 < b.1 || (a.1 == b.1 && (a.2 < b.2 || (a.2 == b.2 && (a.3
        < b.3 || (a.3 == b.3 && (a.4 < b.4 || (a.4 == b.4 && a.5 < b.5)))))))))
}

/// Strict order on chart specs.
pub open spec fn chart_spec_lt(a: ChartSpec, b: ChartSpec) -> bool {
    key_lt(chart_spec_key(a), chart_spec_key(b))
}

/// A selection that is strictly increasing, hence sorted and free of
/// duplicates.
pub open spec fn strictly_sorted(s: Seq<ChartSpec>) -> bool {
    forall|i: int, j: int| 0 <= i < j < s.len() ==> chart_spec_lt(#[trigger] s[i], #[trigger] s[j])
}

/// Distinct chart specs have distinct sort keys.
pub proof fn lemma_key_injective(a: ChartSpec, b: ChartSpec)
    ensures
        chart_spec_key(a) == chart_spec_key(b) ==> a == b,
{
}

/// The order on chart specs is irreflexive, transitive and total.
pub proof fn lemma_chart_spec_order(a: ChartSpec, b: ChartSpec, c: ChartSpec)
    ensures
        !chart_spec_lt(a, a),
        chart_spec_lt(a, b) && chart_spec_lt(b, c) ==> chart_spec_lt(a, c),
        chart_spec_lt(a, b) || a == b || chart_spec_lt(b, a),
{
    lemma_key_injective(a, b);
}

/// A strictly increasing selection is determined by the set of charts it
/// holds: two such selections with the same members are equal.
pub proof fn lemma_strictly_sorted_unique(a: Seq<ChartSpec>, b: Seq<ChartSpec>)
    requires
        strictly_sorted(a),
        strictly_sorted(b),
        forall|x: ChartSpec| a.contains(x) <==> b.contains(x),
    ensures
        a == b,
    decreases a.len(),
{
    if a.len() == 0 {
        if b.len() > 0 {
            assert(b.contains(b[0]));
        }
        assert(a =~= b);
    } else {
        assert(a.contains(a[0]));
        assert(b.len() > 0);
        let k = choose|k: int| 0 <= k < b.len() && b[k] == a[0];
        assert(b.contains(b[0]));
        let m = choose|m: int| 0 <= m < a.len() && a[m] == b[0];
        if k > 0 {
            assert(chart_spec_lt(b[0], b[k]));
            if m > 0 {
                assert(chart_spec_lt(a[0], a[m]));
                lemma_chart_spec_order(a[0], b[0], a[0]);
            } else {
                lemma_chart_spec_order(a[0], a[0], a[0]);
            }
        }
        assert(a[0] == b[0]);
        let a1 = a.drop_first();
        let b1 = b.drop_first();
        assert forall|x: ChartSpec| a1.contains(x) <==> b1.contains(x) by {
            if a1.contains(x) {
                let i = choose|i: int| 0 <= i < a1.len() && a1[i] == x;
                assert(a[i + 1] == x);
                assert(chart_spec_lt(a[0], a[i + 1]));
                lemma_chart_spec_order(x, x, x);
                assert(a.contains(x));
                let j = choose|j: int| 0 <= j < b.len() && b[j] == x;
                assert(j != 0);
                assert(b1[j - 1] == x);
            }
            if b1.contains(x) {
                let i = choose|i: int| 0 <= i < b1.len() && b1[i] == x;
                assert(b[i + 1] == x);
                assert(chart_spec_lt(b[0], b[i + 1]));
                lemma_chart_spec_order(x, x, x);
                assert(b.contains(x));
                let j = choose|j: int| 0 <= j < a.len() && a[j] == x;
                assert(j != 0);
                assert(a1[j - 1] == x);
            }
        }
        lemma_strictly_sorted_unique(a1, b1);
        assert(a =~= b) by {
            assert forall|i: int| 0 <= i < a.len() implies a[i] == b[i] by {
                if i > 0 {
                    assert(a[i] == a1[i - 1]);
                    assert(b[i] == b1[i - 1]);
                }
            }
        }
    }
}

impl ChartSpec {
    /// Creates a chart spec from its three parts.
    pub fn new(kind: ChartKind, reference: ReferenceKey, house_mode: HouseMode) -> (c: ChartSpec)
        ensures
            c == (ChartSpec { kind, reference, house_mode }),
    {
        ChartSpec { kind, reference, house_mode }
    }

    /// The D1 chart: Rasi, anchored at the lagna, with configured houses.
    pub fn d1() -> (c: ChartSpec)
        ensures
            c == (ChartSpec {
                kind: ChartKind::Rasi,
                reference: ReferenceKey::Lagna,
                house_mode: HouseMode::Configured,
            }),
    {
        Self::new(ChartKind::Rasi, ReferenceKey::Lagna, HouseMode::Configured)
    }

    /// Alias of [`ChartSpec::d1`].
    pub fn rasi() -> (c: ChartSpec)
        ensures
            c == (ChartSpec {
                kind: ChartKind::Rasi,
                reference: ReferenceKey::Lagna,
                house_mode: HouseMode::Configured,
            }),
    {
        Self::d1()
    }

    /// The Rasi chart anchored at the Moon.
    pub fn moon_chart() -> (c: ChartSpec)
        ensures
            c == (ChartSpec {
                kind: ChartKind::Rasi,
                reference: ReferenceKey::Moon,
                house_mode: HouseMode::Configured,
            }),
    {
        Self::new(ChartKind::Rasi, ReferenceKey::Moon, HouseMode::Configured)
    }

    /// The Rasi chart anchored at the Sun.
    pub fn sun_chart() -> (c: ChartSpec)
        ensures
            c == (ChartSpec {
                kind: ChartKind::Rasi,
                reference: ReferenceKey::Sun,
                house_mode: HouseMode::Configured,
            }),
    {
        Self::new(ChartKind::Rasi, ReferenceKey::Sun, HouseMode::Configured)
    }

    /// The Navamsa chart: division 9, lagna-anchored, whole-sign houses.
    pub fn d9() -> (c: ChartSpec)
        ensures
            c == (ChartSpec {
                kind: ChartKind::Varga { division: 9 },
                reference: ReferenceKey::Lagna,
                house_mode: HouseMode::WholeSign,
            }),
    {
        Self::new(ChartKind::Varga { division: 9 }, ReferenceKey::Lagna, HouseMode::WholeSign)
    }

    /// A divisional chart of the given division, lagna-anchored, whole-sign houses.
    pub fn varga(division: u8) -> (c: ChartSpec)
        ensures
            c == (ChartSpec {
                kind: ChartKind::Varga { division },
                reference: ReferenceKey::Lagna,
                house_mode: HouseMode::WholeSign,
            }),
    {
        Self::new(ChartKind::Varga { division }, ReferenceKey::Lagna, HouseMode::WholeSign)
    }

    /// The bhava chart with configured houses.
    pub fn bhava() -> (c: ChartSpec)
        ensures
            c == (ChartSpec {
                kind: ChartKind::Bhava,
                reference: ReferenceKey::Lagna,
                house_mode: HouseMode::Configured,
            }),
    {
        Self::new(ChartKind::Bhava, ReferenceKey::Lagna, HouseMode::Configured)
    }

    /// The chalit chart with configured houses.
    pub fn chalit() -> (c: ChartSpec)
        ensures
            c == (ChartSpec {
                kind: ChartKind::Chalit,
                reference: ReferenceKey::Lagna,
                house_mode: HouseMode::Configured,
            }),
    {
        Self::new(ChartKind::Chalit, ReferenceKey::Lagna, HouseMode::Configured)
    }

    /// A divisional bhava chart with configured houses.
    pub fn divisional_bhava(division: u8) -> (c: ChartSpec)
        ensures
            c == (ChartSpec {
                kind: ChartKind::DivisionalBhava { division },
                reference: ReferenceKey::Lagna,
                house_mode: HouseMode::Configured,
            }),
    {
        Self::new(ChartKind::DivisionalBhava { division }, ReferenceKey::Lagna, HouseMode::Configured)
    }

    /// The Vimshottari dasha layer, anchored at the Moon, without houses.
    pub fn vimshottari_dasha() -> (c: ChartSpec)
        ensures
            c == (ChartSpec {
                kind: ChartKind::VimshottariDasha,
                reference: ReferenceKey::Moon,
                house_mode: HouseMode::NoHouses,
            }),
    {
        Self::new(ChartKind::VimshottariDasha, ReferenceKey::Moon, HouseMode::NoHouses)
    }

    /// Returns a copy with a different reference anchor.
    pub fn with_reference(self, reference: ReferenceKey) -> (c: ChartSpec)
        ensures
            c == (ChartSpec { reference, ..self }),
    {
        ChartSpec { reference, ..self }
    }

    /// Returns a copy with a different house mode.
    pub fn with_house_mode(self, house_mode: HouseMode) -> (c: ChartSpec)
        ensures
            c == (ChartSpec { house_mode, ..self }),
    {
        ChartSpec { house_mode, ..self }
    }
}

/// Sort key of a chart kind.
fn chart_kind_key(kind: ChartKind) -> (k: (u8, u8))
    ensures
        k.0 as int == chart_spec_key(ChartSpec { kind, reference: ReferenceKey::Lagna, house_mode: HouseMode::Configured }).0,
        k.1 as int == chart_spec_key(ChartSpec { kind, reference: ReferenceKey::Lagna, house_mode: HouseMode::Configured }).1,
{
    match kind {
        ChartKind::Rasi => (0, 0),
        ChartKind::Varga { division } => (1, division),
        ChartKind::Bhava => (2, 0),
        ChartKind::Chalit => (3, 0),
        ChartKind::DivisionalBhava { division } => (4, division),
        ChartKind::VimshottariDasha => (5, 0),
    }
}

/// Sort key of a reference anchor.
fn reference_key(reference: ReferenceKey) -> (k: (u8, u8))
    ensures
        k.0 as int == chart_spec_key(ChartSpec { kind: ChartKind::Rasi, reference, house_mode: HouseMode::Configured }).2,
        k.1 as int == chart_spec_key(ChartSpec { kind: ChartKind::Rasi, reference, house_mode: HouseMode::Configured }).3,
{
    match reference {
        ReferenceKey::Lagna => (0, 0),
        ReferenceKey::Moon => (1, 0),
        ReferenceKey::Sun => (2, 0),
        ReferenceKey::Planet(body) => (3, body.index() as u8),
    }
}

/// Sort key of a house mode.
fn house_mode_key(house_mode: HouseMode) -> (k: (u8, u8))
    ensures
        k.0 as int == chart_spec_key(ChartSpec { kind: ChartKind::Rasi, reference: ReferenceKey::Lagna, house_mode }).4,
        k.1 as int == chart_spec_key(ChartSpec { kind: ChartKind::Rasi, reference: ReferenceKey::Lagna, house_mode }).5,
{
    match house_mode {
        HouseMode::Configured => (0, 0),
        HouseMode::WholeSign => (1, 0),
        HouseMode::CuspBased(system) => (2, match system {
            HouseSystem::Placidus => 0,
            HouseSystem::Koch => 1,
            HouseSystem::Equal => 2,
            HouseSystem::WholeSign => 3,
        }),
        HouseMode::NoHouses => (3, 0),
    }
}

/// Whether `a` comes strictly before `b` in chart order.
pub fn chart_spec_less(a: &ChartSpec, b: &ChartSpec) -> (r: bool)
    ensures
        r == chart_spec_lt(*a, *b),
{
    let (a0, a1) = chart_kind_key(a.kind);
    let (b0, b1) = chart_kind_key(b.kind);
    let (a2, a3) = reference_key(a.reference);
    let (b2, b3) = reference_key(b.reference);
    let (a4, a5) = house_mode_key(a.house_mode);
    let (b4, b5) = house_mode_key(b.house_mode);
    a0 < b0 || (a0 == b0 && (a1 < b1 || (a1 == b1 && (a2 < b2 || (a2 == b2 && (a3 < b3 || (a3
        == b3 && (a4 < b4 || (a4 == b4 && a5 < b5)))))))))
}

// ---------------------------------------------------------------------------
// Chart selection rules.
// ---------------------------------------------------------------------------

/// The selection error a single chart spec raises, if any: a zero division
/// first, then a house mode the chart kind does not support.
pub open spec fn chart_spec_error(c: ChartSpec) -> Option<ChartSelectionError> {
    let zero_division = match c.kind {
        ChartKind::Varga { division } => division == 0,
        ChartKind::DivisionalBhava { division } => division == 0,
        _ => false,
    };
    if zero_division {
        Some(ChartSelectionError::InvalidDivision(0))
    } else {
        match c.kind {
            ChartKind::VimshottariDasha => if c.house_mode != HouseMode::NoHouses {
                Some(ChartSelectionError::UnexpectedHouseMode(c.kind))
            } else {
                None
            },
            ChartKind::Varga { .. } => if c.house_mode == HouseMode::NoHouses {
                Some(ChartSelectionError::UnexpectedHouseMode(c.kind))
            } else {
                None
            },
            ChartKind::Rasi => if c.house_mode == HouseMode::NoHouses {
                Some(ChartSelectionError::UnexpectedHouseMode(c.kind))
            } else {
                None
            },
            _ => if !(c.house_mode is CuspBased) {
                Some(ChartSelectionError::CuspBasedHouseModeRequired(c.kind))
            } else {
                None
            },
        }
    }
}

/// The error of the first chart spec in `s` that raises one.
pub open spec fn first_chart_spec_error(s: Seq<ChartSpec>) -> Option<ChartSelectionError>
    decreases s.len(),
{
    if s.len() == 0 {
        None
    } else {
        match first_chart_spec_error(s.drop_last()) {
            Some(e) => Some(e),
            None => chart_spec_error(s.last()),
        }
    }
}

/// The error a whole selection raises, if any: an empty selection, else the
/// first chart spec that raises one.
pub open spec fn selection_error(s: Seq<ChartSpec>) -> Option<ChartSelectionError> {
    if s.len() == 0 {
        Some(ChartSelectionError::Empty)
    } else {
        first_chart_spec_error(s)
    }
}

/// The selection error of one chart spec.
pub fn check_chart_spec(chart: &ChartSpec) -> (r: Option<ChartSelectionError>)
    ensures
        r == chart_spec_error(*chart),
{
    match chart.kind {
        ChartKind::Varga { division } | ChartKind::DivisionalBhava { division } => {
            if division == 0 {
                return Some(ChartSelectionError::InvalidDivision(division));
            }
        },
        _ => {},
    }
    match chart.kind {
        ChartKind::VimshottariDasha => {
            if chart.house_mode != HouseMode::NoHouses {
                return Some(ChartSelectionError::UnexpectedHouseMode(chart.kind));
            }
        },
        ChartKind::Varga { .. } | ChartKind::Rasi => {
            if chart.house_mode == HouseMode::NoHouses {
                return Some(ChartSelectionError::UnexpectedHouseMode(chart.kind));
            }
        },
        _ => {
            match chart.house_mode {
                HouseMode::CuspBased(_) => {},
                _ => {
                    return Some(ChartSelectionError::CuspBasedHouseModeRequired(chart.kind));
                },
            }
        },
    }
    None
}

/// Sorts a selection into chart order and drops repeated charts: the result
/// is strictly increasing and holds exactly the charts of the input.
pub fn normalize_chart_selection(charts: &Vec<ChartSpec>) -> (r: Vec<ChartSpec>)
    ensures
        strictly_sorted(r@),
        forall|x: ChartSpec| r@.contains(x) <==> charts@.contains(x),
{
    let mut out: Vec<ChartSpec> = Vec::new();
    let mut i: usize = 0;
    while i < charts.len()
        invariant
            i <= charts@.len(),
            strictly_sorted(out@),
            forall|x: ChartSpec| out@.contains(x) <==> charts@.take(i as int).contains(x),
        decreases charts@.len() - i,
    {
        let c = charts[i];
        let mut p: usize = 0;
        while p < out.len() && chart_spec_less(&out[p], &c)
            invariant
                p <= out@.len(),
                forall|k: int| 0 <= k < p ==> chart_spec_lt(#[trigger] out@[k], c),
            decreases out@.len() - p,
        {
            p = p + 1;
        }
        let ghost before = out@;
        if p < out.len() && out[p] == c {
            assert(before[p as int] == c);
            assert forall|x: ChartSpec| out@.contains(x) <==> (before.contains(x) || x == c) by {
                if x == c {
                    assert(before.contains(c));
                }
            }
        } else {
            if p < out.len() {
                proof {
                    lemma_chart_spec_order(c, out@[p as int], c);
                }
                assert(chart_spec_lt(c, out@[p as int]));
            }
            out.insert(p, c);
            assert forall|a: int, b: int| 0 <= a < b < out@.len() implies chart_spec_lt(
                #[trigger] out@[a],
                #[trigger] out@[b],
            ) by {
                if b < p {
                    assert(out@[a] == before[a] && out@[b] == before[b]);
                } else if b == p {
                    assert(out@[a] == before[a]);
                } else if a == p {
                    assert(out@[b] == before[b - 1]);
                    if b - 1 > p {
                        assert(chart_spec_lt(before[p as int], before[b - 1]));
                        lemma_chart_spec_order(c, before[p as int], before[b - 1]);
                    }
                } else if a < p {
                    assert(out@[b] == before[b - 1]);
                    assert(out@[a] == before[a]);
                    assert(chart_spec_lt(before[a], c));
                    assert(chart_spec_lt(c, before[p as int]));
                    lemma_chart_spec_order(before[a], c, before[p as int]);
                    if b - 1 > p {
                        assert(chart_spec_lt(before[p as int], before[b - 1]));
                        lemma_chart_spec_order(before[a], before[p as int], before[b - 1]);
                    }
                } else {
                    assert(out@[a] == before[a - 1] && out@[b] == before[b - 1]);
                }
            }
            assert forall|x: ChartSpec| out@.contains(x) <==> (before.contains(x) || x == c) by {
                if out@.contains(x) {
                    let k = choose|k: int| 0 <= k < out@.len() && out@[k] == x;
                    if k < p {
                        assert(before[k] == x);
                    } else if k > p {
                        assert(before[k - 1] == x);
                    }
                }
                if before.contains(x) {
                    let k = choose|k: int| 0 <= k < before.len() && before[k] == x;
                    if k < p {
                        assert(out@[k] == x);
                    } else {
                        assert(out@[k + 1] == x);
                    }
                }
                if x == c {
                    assert(out@[p as int] == c);
                }
            }
        }
        let ghost prefix = charts@.take(i as int);
        let ghost next = charts@.take(i + 1);
        assert(next =~= prefix.push(c));
        assert forall|x: ChartSpec| next.contains(x) <==> (prefix.contains(x) || x == c) by {
            if next.contains(x) {
                let k = choose|k: int| 0 <= k < next.len() && next[k] == x;
                if k < i {
                    assert(prefix[k] == x);
                }
            }
            if prefix.contains(x) {
                let k = choose|k: int| 0 <= k < prefix.len() && prefix[k] == x;
                assert(next[k] == x);
            }
            if x == c {
                assert(next[i as int] == x);
            }
        }
        assert forall|x: ChartSpec| out@.contains(x) <==> next.contains(x) by {
            assert(out@.contains(x) <==> (before.contains(x) || x == c));
            assert(before.contains(x) <==> prefix.contains(x));
        }
        i = i + 1;
    }
    assert(charts@.take(charts@.len() as int) =~= charts@);
    out
}

/// Declarative options that control how a kundli is derived.
#[derive(Debug, Clone, PartialEq, Eq)]
pub struct KundliConfig {
    /// Zodiac mode used throughout the calculation.
    pub zodiac: ZodiacType,
    /// Ayanamsha applied to sidereal calculations.
    pub ayanamsha: Ayanamsha,
    /// Default house system used throughout derivation.
    pub house_system: HouseSystem,
    /// Lunar node mode used for Rahu and Ketu positions.
    pub node_type: NodeType,
    /// Requested chart layers to derive from the astronomical result.
    pub charts: Vec<ChartSpec>,
}

/// Copies a slice of chart specs into a vector, keeping their order.
fn copy_chart_specs(charts: &[ChartSpec]) -> (r: Vec<ChartSpec>)
    ensures
        r@ == charts@,
{
    let mut out: Vec<ChartSpec> = Vec::new();
    let mut i: usize = 0;
    while i < charts.len()
        invariant
            i <= charts@.len(),
            out@ == charts@.take(i as int),
        decreases charts@.len() - i,
    {
        out.push(charts[i]);
        assert(charts@.take(i + 1) =~= charts@.take(i as int).push(charts@[i as int]));
        i = i + 1;
    }
    assert(charts@.take(charts@.len() as int) =~= charts@);
    out
}

impl KundliConfig {
    /// Creates a config with explicit duplicated astro settings and no charts.
    pub fn new(
        zodiac: ZodiacType,
        ayanamsha: Ayanamsha,
        house_system: HouseSystem,
        node_type: NodeType,
    ) -> (c: KundliConfig)
        ensures
            c.zodiac == zodiac,
            c.ayanamsha == ayanamsha,
            c.house_system == house_system,
            c.node_type == node_type,
            c.charts@ == Seq::<ChartSpec>::empty(),
    {
        KundliConfig { zodiac, ayanamsha, house_system, node_type, charts: Vec::new() }
    }

    /// Creates a config whose duplicated settings match the given request
    /// settings.
    pub fn from_request(request: &AstroSettings) -> (c: KundliConfig)
        ensures
            c.zodiac == request.zodiac,
            c.ayanamsha == request.ayanamsha,
            c.house_system == request.house_system,
            c.node_type == request.node_type,
            c.charts@ == Seq::<ChartSpec>::empty(),
    {
        Self::new(request.zodiac, request.ayanamsha, request.house_system, request.node_type)
    }

    /// Returns the config with a different zodiac mode.
    pub fn with_zodiac(self, zodiac: ZodiacType) -> (c: KundliConfig)
        ensures
            c == (KundliConfig { zodiac, ..self }),
    {
        KundliConfig { zodiac, ..self }
    }

    /// Returns the config with a different ayanamsha.
    pub fn with_ayanamsha(self, ayanamsha: Ayanamsha) -> (c: KundliConfig)
        ensures
            c == (KundliConfig { ayanamsha, ..self }),
    {
        KundliConfig { ayanamsha, ..self }
    }

    /// Returns the config with a different house system.
    pub fn with_house_system(self, house_system: HouseSystem) -> (c: KundliConfig)
        ensures
            c == (KundliConfig { house_system, ..self }),
    {
        KundliConfig { house_system, ..self }
    }

    /// Returns the config with a different node mode.
    pub fn with_node_type(self, node_type: NodeType) -> (c: KundliConfig)
        ensures
            c == (KundliConfig { node_type, ..self }),
    {
        KundliConfig { node_type, ..self }
    }

    /// Returns the config with the given chart selection, as given.
    pub fn with_charts(self, charts: &[ChartSpec]) -> (c: KundliConfig)
        ensures
            c.zodiac == self.zodiac,
            c.ayanamsha == self.ayanamsha,
            c.house_system == self.house_system,
            c.node_type == self.node_type,
            c.charts@ == charts@,
    {
        KundliConfig { charts: copy_chart_specs(charts), ..self }
    }

    /// A copy of this config with the same settings and chart selection.
    pub fn duplicate(&self) -> (c: KundliConfig)
        ensures
            c.zodiac == self.zodiac,
            c.ayanamsha == self.ayanamsha,
            c.house_system == self.house_system,
            c.node_type == self.node_type,
            c.charts@ == self.charts@,
    {
        KundliConfig {
            zodiac: self.zodiac,
            ayanamsha: self.ayanamsha,
            house_system: self.house_system,
            node_type: self.node_type,
            charts: copy_chart_specs(self.charts.as_slice()),
        }
    }

    /// Validates and normalizes the requested chart layers.
    ///
    /// Fails with `ChartSelection(Empty)` when no chart is requested, else
    /// with the error of the first chart spec that raises one; the config is
    /// then left as it was. On success the selection is sorted into chart
    /// order with repeated charts removed, and a selection that was already
    /// sorted and free of repeats is left unchanged.
    pub fn validate(&mut self) -> (r: Result<(), KundliError>)
        ensures
            r == match selection_error(old(self).charts@) {
                Some(e) => Err(KundliError::ChartSelection(e)),
                None => Ok::<(), KundliError>(()),
            },
            final(self).zodiac == old(self).zodiac,
            final(self).ayanamsha == old(self).ayanamsha,
            final(self).house_system == old(self).house_system,
            final(self).node_type == old(self).node_type,
            r is Err ==> final(self).charts@ == old(self).charts@,
            r is Ok ==> strictly_sorted(final(self).charts@),
            r is Ok ==> forall|x: ChartSpec|
                final(self).charts@.contains(x) <==> old(self).charts@.contains(x),
            r is Ok && strictly_sorted(old(self).charts@) ==> final(self).charts@
                == old(self).charts@,
    {
        if self.charts.len() == 0 {
            return Err(KundliError::ChartSelection(ChartSelectionError::Empty));
        }
        let mut i: usize = 0;
        while i < self.charts.len()
            invariant
                i <= self.charts@.len(),
                self.charts@.len() > 0,
                first_chart_spec_error(self.charts@.take(i as int)) is None,
            decreases self.charts@.len() - i,
        {
            let chart = self.charts[i];
            assert(self.charts@.take(i + 1).drop_last() =~= self.charts@.take(i as int));
            match check_chart_spec(&chart) {
                Some(e) => {
                    proof {
                        lemma_first_error_of_prefix(self.charts@, i as int);
                    }
                    return Err(KundliError::ChartSelection(e));
                },
                None => {},
            }
            i = i + 1;
        }
        assert(self.charts@.take(self.charts@.len() as int) =~= self.charts@);
        let normalized = normalize_chart_selection(&self.charts);
        proof {
            if strictly_sorted(self.charts@) {
                lemma_strictly_sorted_unique(normalized@, self.charts@);
            }
        }
        self.charts = normalized;
        Ok(())
    }
}

/// When no chart before position `i` raises an error and the chart at `i`
/// does, that error is the first error of the whole selection.
proof fn lemma_first_error_of_prefix(s: Seq<ChartSpec>, i: int)
    requires
        0 <= i < s.len(),
        first_chart_spec_error(s.take(i)) is None,
        chart_spec_error(s[i]) is Some,
    ensures
        first_chart_spec_error(s) == chart_spec_error(s[i]),
    decreases s.len() - i,
{
    assert(s.take(i + 1).drop_last() =~= s.take(i));
    if i + 1 == s.len() {
        assert(s.take(i + 1) =~= s);
    } else {
        lemma_first_error_prefix_stable(s, i + 1);
    }
}

/// Once a prefix has an error, every longer prefix has the same first error.
proof fn lemma_first_error_prefix_stable(s: Seq<ChartSpec>, n: int)
    requires
        0 < n <= s.len(),
        first_chart_spec_error(s.take(n)) is Some,
    ensures
        first_chart_spec_error(s) == first_chart_spec_error(s.take(n)),
    decreases s.len() - n,
{
    if n == s.len() {
        assert(s.take(n) =~= s);
    } else {
        assert(s.take(n + 1).drop_last() =~= s.take(n));
        lemma_first_error_prefix_stable(s, n + 1);
    }
}

/// A selection has no first error exactly when none of its chart specs
/// raises one.
proof fn lemma_no_first_error(s: Seq<ChartSpec>)
    ensures
        first_chart_spec_error(s) is None <==> forall|i: int|
            0 <= i < s.len() ==> chart_spec_error(#[trigger] s[i]) is None,
    decreases s.len(),
{
    if s.len() > 0 {
        let t = s.drop_last();
        lemma_no_first_error(t);
        if first_chart_spec_error(s) is None {
            assert forall|i: int| 0 <= i < s.len() implies chart_spec_error(
                #[trigger] s[i],
            ) is None by {
                if i < s.len() - 1 {
                    assert(s[i] == t[i]);
                }
            }
        }
        if forall|i: int| 0 <= i < s.len() ==> chart_spec_error(#[trigger] s[i]) is None {
            assert forall|i: int| 0 <= i < t.len() implies chart_spec_error(
                #[trigger] t[i],
            ) is None by {
                assert(t[i] == s[i]);
            }
            assert(chart_spec_error(s[s.len() - 1]) is None);
        }
    }
}

/// A selection holding the same charts as one that passes validation passes
/// too. With `validate`'s own guarantees (a passing selection comes out
/// strictly sorted, and a strictly sorted one is left as it is) this makes
/// validation idempotent: validating a validated config succeeds and
/// changes nothing.
pub proof fn lemma_same_charts_pass_validation(before: Seq<ChartSpec>, after: Seq<ChartSpec>)
    requires
        selection_error(before) is None,
        forall|x: ChartSpec| after.contains(x) <==> before.contains(x),
    ensures
        selection_error(after) is None,
{
    lemma_no_first_error(before);
    lemma_no_first_error(after);
    assert(before.contains(before[0]));
    assert(after.contains(before[0]));
    assert forall|i: int| 0 <= i < after.len() implies chart_spec_error(
        #[trigger] after[i],
    ) is None by {
        assert(after.contains(after[i]));
        let j = choose|j: int| 0 <= j < before.len() && before[j] == after[i];
        assert(chart_spec_error(before[j]) is None);
    }
}

impl Default for KundliConfig {
    /// Sidereal zodiac, Lahiri ayanamsha, whole-sign houses, true nodes and
    /// no charts.
    fn default() -> (c: KundliConfig)
        ensures
            c.zodiac == ZodiacType::Sidereal,
            c.ayanamsha == Ayanamsha::Lahiri,
            c.house_system == HouseSystem::WholeSign,
            c.node_type == NodeType::True,
            c.charts@ == Seq::<ChartSpec>::empty(),
    {
        KundliConfig::new(
            ZodiacType::Sidereal,
            Ayanamsha::Lahiri,
            HouseSystem::WholeSign,
            NodeType::True,
        )
    }
}

} // verus!
