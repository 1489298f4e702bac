//! The chart pipeline: resolve the reference point, place every point in its
//! sign and nakshatra, assign houses (whole-sign or cusp-based, renumbered
//! from the reference), and assemble the chart.
//!
//! The stages run in this order and the first error raised wins: a missing
//! reference body, then an invalid pada (ascendant first, then the bodies in
//! order), then a failed cusp-based house placement (reference, ascendant,
//! then the bodies in order).

use vstd::prelude::*;

use crate::kundli::astro::{AstroBody, HouseSystem};
use crate::kundli::config::ReferenceKey;
use crate::kundli::derive::first_match::{
    first_match, lemma_first_match_full, lemma_first_match_spec, lemma_first_match_step,
};
use crate::kundli::derive::house::{
    house_from_cusps, lemma_house_from_cusps_range, renumber_house, spec_house_from_cusps,
    spec_renumber_house, spec_whole_sign_house, whole_sign_house,
};
use crate::kundli::derive::input::{ChartInput, PreparedBody, PreparedCusp, PreparedPoint};
use crate::kundli::derive::nakshatra::{
    lemma_nakshatra_index_bijective, nakshatra_from_index, pada_from_number,
};
use crate::kundli::derive::sign::{lemma_sign_index_bijective, sign_from_index};
use crate::kundli::error::DeriveError;
use crate::kundli::model::{nakshatra_ordinal, sign_ordinal, HouseNumber, Nakshatra, Pada, Sign};

verus! {

/// How houses are assigned.
#[derive(Debug, Clone, Copy, PartialEq, Eq, Structural)]
pub enum HouseTransform {
    /// Houses are whole signs counted from the reference point's sign.
    WholeSign,
    /// Houses lie between the reported cusps, renumbered so that the house
    /// holding the reference point is house 1.
    CuspBased(HouseSystem),
}

/// A derived body placement.
#[derive(Debug, Clone, Copy, PartialEq, Eq, Structural)]
pub struct PlacementCore {
    pub body: AstroBody,
    pub sign: Sign,
    pub house: HouseNumber,
    pub nakshatra: Nakshatra,
    pub pada: Pada,
    pub is_retrograde: bool,
}

/// Where a house starts.
#[derive(Debug, Clone, Copy, PartialEq, Eq, Structural)]
pub enum HouseStart {
    /// At the start of its sign: `30 * sign index` degrees.
    SignBoundary,
    /// At the reported cusp with this index.
    Cusp(usize),
}

/// A derived house.
#[derive(Debug, Clone, Copy, PartialEq, Eq, Structural)]
pub struct HouseCore {
    pub house: HouseNumber,
    pub sign: Sign,
    pub start: HouseStart,
}

/// A derived chart: the lagna's sign, one placement per body in input order,
/// and the twelve houses in the order of their starts.
#[derive(Debug, Clone, PartialEq, Eq)]
pub struct ChartCore {
    pub lagna_sign: Sign,
    pub planets: Vec<PlacementCore>,
    pub houses: Vec<HouseCore>,
}

/// The body a non-lagna reference key names.
pub open spec fn reference_target(key: ReferenceKey) -> AstroBody {
    match key {
        ReferenceKey::Moon => AstroBody::Moon,
        ReferenceKey::Sun => AstroBody::Sun,
        ReferenceKey::Planet(body) => body,
        ReferenceKey::Lagna => AstroBody::Sun,
    }
}

/// Whether a prepared body is the given body.
pub open spec fn is_body(target: AstroBody) -> spec_fn(PreparedBody) -> bool {
    |b: PreparedBody| b.body == target
}

/// The error raised when the reference body is absent.
pub open spec fn missing_reference_error(target: AstroBody) -> DeriveError {
    if target == AstroBody::Moon {
        DeriveError::MissingMoon
    } else {
        DeriveError::MissingPlacementBody
    }
}

/// The reference point: the ascendant for the lagna, else the first body of
/// the input that is the named body.
pub open spec fn spec_reference_point(input: ChartInput, key: ReferenceKey) -> Result<
    PreparedPoint,
    DeriveError,
> {
    match key {
        ReferenceKey::Lagna => Ok(input.ascendant),
        _ => match first_match(input.bodies@, is_body(reference_target(key))) {
            Some(i) => Ok(input.bodies@[i].point),
            None => Err(missing_reference_error(reference_target(key))),
        },
    }
}

/// Whether a point's pada number is a valid pada.
pub open spec fn pada_ok(p: PreparedPoint) -> bool {
    1 <= p.pada_number <= 4
}

/// Whether a prepared body has an invalid pada.
pub open spec fn has_bad_pada() -> spec_fn(PreparedBody) -> bool {
    |b: PreparedBody| !pada_ok(b.point)
}

/// The order keys of the cusps.
pub open spec fn cusp_keys(cusps: Seq<PreparedCusp>) -> Seq<u64> {
    cusps.map_values(|c: PreparedCusp| c.order_key)
}

/// Whether cusp-based placement of a body fails.
pub open spec fn cusp_house_fails(keys: Seq<u64>) -> spec_fn(PreparedBody) -> bool {
    |b: PreparedBody| spec_house_from_cusps(b.point.order_key, keys) is Err
}

/// The error of the house stage, if any.
pub open spec fn house_stage_error(
    input: ChartInput,
    reference: PreparedPoint,
    transform: HouseTransform,
) -> Option<DeriveError> {
    match transform {
        HouseTransform::WholeSign => None,
        HouseTransform::CuspBased(_) => {
            let keys = cusp_keys(input.cusps@);
            if keys.len() != 12 {
                Some(DeriveError::InvalidHouseCusps(keys.len() as usize))
            } else {
                match spec_house_from_cusps(reference.order_key, keys) {
                    Err(e) => Some(e),
                    Ok(_) => match spec_house_from_cusps(input.ascendant.order_key, keys) {
                        Err(e) => Some(e),
                        Ok(_) => match first_match(input.bodies@, cusp_house_fails(keys)) {
                            Some(i) => Some(
                                spec_house_from_cusps(
                                    input.bodies@[i].point.order_key,
                                    keys,
                                )->Err_0,
                            ),
                            None => None,
                        },
                    },
                }
            }
        },
    }
}

/// The first error the pipeline raises on an input, if any.
pub open spec fn spec_chart_error(
    input: ChartInput,
    key: ReferenceKey,
    transform: HouseTransform,
) -> Option<DeriveError> {
    match spec_reference_point(input, key) {
        Err(e) => Some(e),
        Ok(reference) => if !pada_ok(input.ascendant) {
            Some(DeriveError::InvalidPada(input.ascendant.pada_number))
        } else {
            match first_match(input.bodies@, has_bad_pada()) {
                Some(i) => Some(DeriveError::InvalidPada(input.bodies@[i].point.pada_number)),
                None => house_stage_error(input, reference, transform),
            }
        },
    }
}

/// House number of a point.
pub open spec fn spec_point_house(
    input: ChartInput,
    reference: PreparedPoint,
    transform: HouseTransform,
    point: PreparedPoint,
) -> int {
    match transform {
        HouseTransform::WholeSign => spec_whole_sign_house(
            reference.sign_index as int,
            point.sign_index as int,
        ),
        HouseTransform::CuspBased(_) => {
            let keys = cusp_keys(input.cusps@);
            spec_renumber_house(
                spec_house_from_cusps(point.order_key, keys)->Ok_0,
                spec_house_from_cusps(reference.order_key, keys)->Ok_0,
            )
        },
    }
}

/// Whether a placement is the one derived for a body with the given house.
pub open spec fn placement_matches(p: PlacementCore, b: PreparedBody, house: int) -> bool {
    &&& p.body == b.body
    &&& sign_ordinal(p.sign) == b.point.sign_index
    &&& p.house.value() == house
    &&& nakshatra_ordinal(p.nakshatra) == b.point.nakshatra_index
    &&& p.pada.value() == b.point.pada_number
    &&& p.is_retrograde == b.is_retrograde
}

/// Whether row `i` of the houses is the one derived.
pub open spec fn house_row_matches(
    row: HouseCore,
    input: ChartInput,
    reference: PreparedPoint,
    transform: HouseTransform,
    i: int,
) -> bool {
    match transform {
        HouseTransform::WholeSign => {
            &&& row.house.value() == i + 1
            &&& sign_ordinal(row.sign) == (reference.sign_index + i) % 12
            &&& row.start == HouseStart::SignBoundary
        },
        HouseTransform::CuspBased(_) => {
            &&& row.house.value() == spec_renumber_house(
                i + 1,
                spec_house_from_cusps(reference.order_key, cusp_keys(input.cusps@))->Ok_0,
            )
            &&& sign_ordinal(row.sign) == input.cusps@[i].sign_index
            &&& row.start == HouseStart::Cusp(i as usize)
        },
    }
}

/// Whether a chart is the one the pipeline derives from an input that
/// raises no error.
pub open spec fn chart_core_matches(
    core: ChartCore,
    input: ChartInput,
    key: ReferenceKey,
    transform: HouseTransform,
) -> bool {
    let reference = spec_reference_point(input, key)->Ok_0;
    &&& sign_ordinal(core.lagna_sign) == input.ascendant.sign_index
    &&& core.planets@.len() == input.bodies@.len()
    &&& forall|i: int|
        0 <= i < input.bodies@.len() ==> placement_matches(
            #[trigger] core.planets@[i],
            input.bodies@[i],
            spec_point_house(input, reference, transform, input.bodies@[i].point),
        )
    &&& core.houses@.len() == 12
    &&& forall|i: int|
        0 <= i < 12 ==> house_row_matches(#[trigger] core.houses@[i], input, reference, transform, i)
}

/// The chart has cusp-based houses: twelve cusps, house row `k` starting at
/// reported cusp `k` and numbered from the house holding the reference
/// point, and every body in the cusp house containing it, numbered the same
/// way.
pub open spec fn cusp_houses_layout(core: ChartCore, input: ChartInput, key: ReferenceKey) -> bool {
    let reference = spec_reference_point(input, key)->Ok_0;
    let keys = cusp_keys(input.cusps@);
    let first = spec_house_from_cusps(reference.order_key, keys)->Ok_0;
    &&& input.cusps@.len() == 12
    &&& core.houses@.len() == 12
    &&& forall|k: int|
        0 <= k < 12 ==> (#[trigger] core.houses@[k]).start == HouseStart::Cusp(k as usize)
            && core.houses@[k].house.value() == spec_renumber_house(k + 1, first)
    &&& core.planets@.len() == input.bodies@.len()
    &&& forall|k: int|
        0 <= k < input.bodies@.len() ==> (#[trigger] core.planets@[k]).house.value()
            == spec_renumber_house(
            spec_house_from_cusps(input.bodies@[k].point.order_key, keys)->Ok_0,
            first,
        )
}

/// The chart has whole-sign houses: house row `k` is house `k + 1`, starts
/// at a sign boundary and holds the `k`-th sign from the reference point's
/// sign, and every body's house counts its sign from that sign.
pub open spec fn whole_sign_layout(core: ChartCore, input: ChartInput, key: ReferenceKey) -> bool {
    let reference = spec_reference_point(input, key)->Ok_0;
    &&& core.houses@.len() == 12
    &&& forall|k: int|
        0 <= k < 12 ==> (#[trigger] core.houses@[k]).start == HouseStart::SignBoundary
            && core.houses@[k].house.value() == k + 1 && sign_ordinal(core.houses@[k].sign) == (
            reference.sign_index + k) % 12
    &&& core.planets@.len() == input.bodies@.len()
    &&& forall|k: int|
        0 <= k < input.bodies@.len() ==> (#[trigger] core.planets@[k]).house.value()
            == spec_whole_sign_house(
            reference.sign_index as int,
            input.bodies@[k].point.sign_index as int,
        )
}

/// A derived chart has the layout of its house assignment: cusp-based
/// houses for a cusp-based assignment, whole-sign houses otherwise.
pub proof fn lemma_chart_layout(core: ChartCore, input: ChartInput, key: ReferenceKey, transform: HouseTransform)
    requires
        spec_chart_error(input, key, transform) is None,
        chart_core_matches(core, input, key, transform),
    ensures
        transform is CuspBased ==> cusp_houses_layout(core, input, key),
        transform is WholeSign ==> whole_sign_layout(core, input, key),
{
    let reference = spec_reference_point(input, key)->Ok_0;
    assert forall|k: int| 0 <= k < input.bodies@.len() implies placement_matches(
        #[trigger] core.planets@[k],
        input.bodies@[k],
        spec_point_house(input, reference, transform, input.bodies@[k].point),
    ) by {}
    assert forall|k: int| 0 <= k < 12 implies house_row_matches(
        #[trigger] core.houses@[k],
        input,
        reference,
        transform,
        k,
    ) by {}
    if transform is CuspBased {
        assert(cusp_keys(input.cusps@).len() == input.cusps@.len());
    }
}

/// The derived chart is determined by its input: two charts that both match
/// the same input, reference and house assignment have the same lagna sign,
/// the same placements and the same houses, in the same order.
pub proof fn lemma_chart_core_unique(
    a: ChartCore,
    b: ChartCore,
    input: ChartInput,
    key: ReferenceKey,
    transform: HouseTransform,
)
    requires
        chart_core_matches(a, input, key, transform),
        chart_core_matches(b, input, key, transform),
    ensures
        a.lagna_sign == b.lagna_sign,
        a.planets@ == b.planets@,
        a.houses@ == b.houses@,
{
    let reference = spec_reference_point(input, key)->Ok_0;
    lemma_sign_index_bijective(a.lagna_sign, b.lagna_sign);
    assert forall|i: int| 0 <= i < a.planets@.len() implies a.planets@[i] == b.planets@[i] by {
        let house = spec_point_house(input, reference, transform, input.bodies@[i].point);
        assert(placement_matches(a.planets@[i], input.bodies@[i], house));
        assert(placement_matches(b.planets@[i], input.bodies@[i], house));
        lemma_sign_index_bijective(a.planets@[i].sign, b.planets@[i].sign);
        lemma_nakshatra_index_bijective(a.planets@[i].nakshatra, b.planets@[i].nakshatra);
        a.planets@[i].house.lemma_value_injective(b.planets@[i].house);
        a.planets@[i].pada.lemma_value_injective(b.planets@[i].pada);
    }
    assert(a.planets@ =~= b.planets@);
    assert forall|i: int| 0 <= i < 12 implies a.houses@[i] == b.houses@[i] by {
        assert(house_row_matches(a.houses@[i], input, reference, transform, i));
        assert(house_row_matches(b.houses@[i], input, reference, transform, i));
        lemma_sign_index_bijective(a.houses@[i].sign, b.houses@[i].sign);
        a.houses@[i].house.lemma_value_injective(b.houses@[i].house);
    }
    assert(a.houses@ =~= b.houses@);
}

/// In a chart derived without error, the reference point lies in house 1:
/// whole-sign houses count from its sign, and cusp-based houses are
/// renumbered from the house that holds it. So in a chart anchored at a
/// body (the Moon of a Moon chart) that body is placed in house 1.
pub proof fn lemma_reference_in_first_house(
    core: ChartCore,
    input: ChartInput,
    key: ReferenceKey,
    transform: HouseTransform,
)
    requires
        spec_chart_error(input, key, transform) is None,
        chart_core_matches(core, input, key, transform),
    ensures
        spec_point_house(
            input,
            spec_reference_point(input, key)->Ok_0,
            transform,
            spec_reference_point(input, key)->Ok_0,
        ) == 1,
        key != ReferenceKey::Lagna ==> (first_match(input.bodies@, is_body(reference_target(key)))
            matches Some(i) && core.planets@[i].body == reference_target(key)
            && core.planets@[i].house.value() == 1),
{
    let reference = spec_reference_point(input, key)->Ok_0;
    if let HouseTransform::CuspBased(_) = transform {
        lemma_house_from_cusps_range(reference.order_key, cusp_keys(input.cusps@));
    }
    if key != ReferenceKey::Lagna {
        let pred = is_body(reference_target(key));
        lemma_first_match_spec(input.bodies@, pred);
        let i = first_match(input.bodies@, pred)->Some_0;
        assert(placement_matches(
            core.planets@[i],
            input.bodies@[i],
            spec_point_house(input, reference, transform, input.bodies@[i].point),
        ));
    }
}

/// A chart anchored at a body (the Sun for `Sun`, the Moon for `Moon`, the
/// named body for `Planet`) is anchored at the first such body of the input.
/// When the chart is derived, that body's placement is in house 1. When the
/// input holds no such body, the chart is refused: with `MissingMoon` for
/// the Moon chart, and with `MissingPlacementBody` for any body other than
/// the Moon.
pub proof fn lemma_body_reference_anchors_at_that_body(
    input: ChartInput,
    key: ReferenceKey,
    target: AstroBody,
    transform: HouseTransform,
    r: Result<ChartCore, DeriveError>,
)
    requires
        (key == ReferenceKey::Sun && target == AstroBody::Sun) || (key == ReferenceKey::Moon
            && target == AstroBody::Moon) || key == ReferenceKey::Planet(target),
        match spec_chart_error(input, key, transform) {
            Some(e) => r == Err::<ChartCore, DeriveError>(e),
            None => r matches Ok(core) && chart_core_matches(core, input, key, transform),
        },
    ensures
        r matches Ok(core) ==> exists|i: int|
            0 <= i < input.bodies@.len() && #[trigger] input.bodies@[i].body == target
                && core.planets@[i].body == target && core.planets@[i].house.value() == 1
                && forall|j: int| 0 <= j < i ==> input.bodies@[j].body != target,
        (forall|j: int| 0 <= j < input.bodies@.len() ==> input.bodies@[j].body != target) ==> {
            &&& key == ReferenceKey::Moon ==> r == Err::<ChartCore, DeriveError>(
                DeriveError::MissingMoon,
            )
            &&& target != AstroBody::Moon ==> r == Err::<ChartCore, DeriveError>(
                DeriveError::MissingPlacementBody,
            )
        },
{
    let pred = is_body(target);
    assert(reference_target(key) == target);
    lemma_first_match_spec(input.bodies@, pred);
    if let Ok(core) = r {
        lemma_reference_in_first_house(core, input, key, transform);
        let i = first_match(input.bodies@, pred)->Some_0;
        assert(input.bodies@[i].body == target);
    }
    if forall|j: int| 0 <= j < input.bodies@.len() ==> input.bodies@[j].body != target {
        assert(first_match(input.bodies@, pred) is None) by {
            if let Some(i) = first_match(input.bodies@, pred) {
                assert(input.bodies@[i].body != target);
            }
        }
    }
}

/// Resolves the reference point of a chart.
pub fn resolve_reference(input: &ChartInput, key: ReferenceKey) -> (r: Result<
    PreparedPoint,
    DeriveError,
>)
    ensures
        r == spec_reference_point(*input, key),
{
    let target = match key {
        ReferenceKey::Lagna => {
            return Ok(input.ascendant);
        },
        ReferenceKey::Moon => AstroBody::Moon,
        ReferenceKey::Sun => AstroBody::Sun,
        ReferenceKey::Planet(body) => body,
    };
    let ghost pred = is_body(target);
    let mut i: usize = 0;
    while i < input.bodies.len()
        invariant
            i <= input.bodies@.len(),
            target == reference_target(key),
            key != ReferenceKey::Lagna,
            pred == is_body(target),
            first_match(input.bodies@.take(i as int), pred) is None,
        decreases input.bodies@.len() - i,
    {
        proof {
            lemma_first_match_step(input.bodies@, pred, i as int);
        }
        if input.bodies[i].body == target {
            return Ok(input.bodies[i].point);
        }
        i = i + 1;
    }
    proof {
        lemma_first_match_full(input.bodies@, pred);
    }
    if target == AstroBody::Moon {
        Err(DeriveError::MissingMoon)
    } else {
        Err(DeriveError::MissingPlacementBody)
    }
}

/// The pada of every body, or the error of the first invalid one.
fn body_padas(bodies: &Vec<PreparedBody>) -> (r: Result<Vec<Pada>, DeriveError>)
    ensures
        match first_match(bodies@, has_bad_pada()) {
            Some(i) => r == Err::<Vec<Pada>, DeriveError>(
                DeriveError::InvalidPada(bodies@[i].point.pada_number),
            ),
            None => r matches Ok(v) && v@.len() == bodies@.len() && forall|k: int|
                0 <= k < bodies@.len() ==> (#[trigger] v@[k]).value() == bodies@[k].point.pada_number,
        },
{
    let ghost pred = has_bad_pada();
    let mut padas: Vec<Pada> = Vec::new();
    let mut i: usize = 0;
    while i < bodies.len()
        invariant
            i <= bodies@.len(),
            pred == has_bad_pada(),
            first_match(bodies@.take(i as int), pred) is None,
            padas@.len() == i,
            forall|k: int| 0 <= k < i ==> (#[trigger] padas@[k]).value() == bodies@[k].point.pada_number,
        decreases bodies@.len() - i,
    {
        proof {
            lemma_first_match_step(bodies@, pred, i as int);
        }
        let pada = pada_from_number(bodies[i].point.pada_number)?;
        padas.push(pada);
        i = i + 1;
    }
    proof {
        lemma_first_match_full(bodies@, pred);
    }
    Ok(padas)
}

/// The order keys of the cusps, in order.
fn cusp_order_keys(cusps: &Vec<PreparedCusp>) -> (keys: Vec<u64>)
    ensures
        keys@ == cusp_keys(cusps@),
{
    let mut keys: Vec<u64> = Vec::new();
    let mut i: usize = 0;
    while i < cusps.len()
        invariant
            i <= cusps@.len(),
            keys@.len() == i,
            forall|k: int| 0 <= k < i ==> #[trigger] keys@[k] == cusps@[k].order_key,
        decreases cusps@.len() - i,
    {
        keys.push(cusps[i].order_key);
        i = i + 1;
    }
    assert(keys@ =~= cusp_keys(cusps@));
    keys
}

/// Whole-sign houses of the bodies counted from the reference sign.
fn whole_sign_body_houses(bodies: &Vec<PreparedBody>, reference_sign: u8) -> (houses: Vec<
    HouseNumber,
>)
    requires
        reference_sign < 12,
        forall|i: int| 0 <= i < bodies@.len() ==> (#[trigger] bodies@[i]).point.wf(),
    ensures
        houses@.len() == bodies@.len(),
        forall|k: int|
            0 <= k < bodies@.len() ==> (#[trigger] houses@[k]).value() == spec_whole_sign_house(
                reference_sign as int,
                bodies@[k].point.sign_index as int,
            ),
{
    let mut houses: Vec<HouseNumber> = Vec::new();
    let mut i: usize = 0;
    while i < bodies.len()
        invariant
            i <= bodies@.len(),
            reference_sign < 12,
            forall|j: int| 0 <= j < bodies@.len() ==> (#[trigger] bodies@[j]).point.wf(),
            houses@.len() == i,
            forall|k: int|
                0 <= k < i ==> (#[trigger] houses@[k]).value() == spec_whole_sign_house(
                    reference_sign as int,
                    bodies@[k].point.sign_index as int,
                ),
        decreases bodies@.len() - i,
    {
        let target = bodies[i].point.sign_index;
        assert(bodies@[i as int].point.wf());
        houses.push(whole_sign_house(reference_sign as usize, target as usize));
        i = i + 1;
    }
    houses
}

/// Cusp-based houses of the bodies renumbered from `first`, or the error of
/// the first body whose placement fails.
fn cusp_body_houses(bodies: &Vec<PreparedBody>, keys: &Vec<u64>, first: HouseNumber) -> (r: Result<
    Vec<HouseNumber>,
    DeriveError,
>)
    ensures
        match first_match(bodies@, cusp_house_fails(keys@)) {
            Some(i) => r == Err::<Vec<HouseNumber>, DeriveError>(
                spec_house_from_cusps(bodies@[i].point.order_key, keys@)->Err_0,
            ),
            None => r matches Ok(v) && v@.len() == bodies@.len() && forall|k: int|
                0 <= k < bodies@.len() ==> (#[trigger] v@[k]).value() == spec_renumber_house(
                    spec_house_from_cusps(bodies@[k].point.order_key, keys@)->Ok_0,
                    first.value() as int,
                ),
        },
{
    let ghost pred = cusp_house_fails(keys@);
    let mut houses: Vec<HouseNumber> = Vec::new();
    let mut i: usize = 0;
    while i < bodies.len()
        invariant
            i <= bodies@.len(),
            pred == cusp_house_fails(keys@),
            first_match(bodies@.take(i as int), pred) is None,
            houses@.len() == i,
            forall|k: int|
                0 <= k < i ==> (#[trigger] houses@[k]).value() == spec_renumber_house(
                    spec_house_from_cusps(bodies@[k].point.order_key, keys@)->Ok_0,
                    first.value() as int,
                ),
        decreases bodies@.len() - i,
    {
        proof {
            lemma_first_match_step(bodies@, pred, i as int);
        }
        let absolute = house_from_cusps(bodies[i].point.order_key, keys)?;
        houses.push(renumber_house(absolute, first));
        i = i + 1;
    }
    proof {
        lemma_first_match_full(bodies@, pred);
    }
    Ok(houses)
}

/// The twelve whole-sign houses: house `i + 1` is the sign `i` places after
/// the reference sign and starts at that sign's boundary.
fn whole_sign_rows(reference_sign: u8) -> (rows: Vec<HouseCore>)
    requires
        reference_sign < 12,
    ensures
        rows@.len() == 12,
        forall|i: int|
            0 <= i < 12 ==> {
                &&& (#[trigger] rows@[i]).house.value() == i + 1
                &&& sign_ordinal(rows@[i].sign) == (reference_sign + i) % 12
                &&& rows@[i].start == HouseStart::SignBoundary
            },
{
    let mut rows: Vec<HouseCore> = Vec::new();
    let mut i: usize = 0;
    while i < 12
        invariant
            i <= 12,
            reference_sign < 12,
            rows@.len() == i,
            forall|k: int|
                0 <= k < i ==> {
                    &&& (#[trigger] rows@[k]).house.value() == k + 1
                    &&& sign_ordinal(rows@[k].sign) == (reference_sign + k) % 12
                    &&& rows@[k].start == HouseStart::SignBoundary
                },
        decreases 12 - i,
    {
        let house = HouseNumber::new((i + 1) as u8).unwrap();
        let sign = sign_from_index((reference_sign as usize + i) % 12);
        rows.push(HouseCore { house, sign, start: HouseStart::SignBoundary });
        i = i + 1;
    }
    rows
}

/// The twelve cusp-based houses: house `i` starts at cusp `i`, is numbered
/// from `first`, and lies in the sign of its cusp.
fn cusp_rows(cusps: &Vec<PreparedCusp>, first: HouseNumber) -> (rows: Vec<HouseCore>)
    requires
        cusps@.len() == 12,
        forall|i: int| 0 <= i < cusps@.len() ==> (#[trigger] cusps@[i]).sign_index < 12,
    ensures
        rows@.len() == 12,
        forall|i: int|
            0 <= i < 12 ==> {
                &&& (#[trigger] rows@[i]).house.value() == spec_renumber_house(
                    i + 1,
                    first.value() as int,
                )
                &&& sign_ordinal(rows@[i].sign) == cusps@[i].sign_index
                &&& rows@[i].start == HouseStart::Cusp(i as usize)
            },
{
    let mut rows: Vec<HouseCore> = Vec::new();
    let mut i: usize = 0;
    while i < 12
        invariant
            i <= 12,
            cusps@.len() == 12,
            forall|j: int| 0 <= j < cusps@.len() ==> (#[trigger] cusps@[j]).sign_index < 12,
            rows@.len() == i,
            forall|k: int|
                0 <= k < i ==> {
                    &&& (#[trigger] rows@[k]).house.value() == spec_renumber_house(
                        k + 1,
                        first.value() as int,
                    )
                    &&& sign_ordinal(rows@[k].sign) == cusps@[k].sign_index
                    &&& rows@[k].start == HouseStart::Cusp(k as usize)
                },
        decreases 12 - i,
    {
        let absolute = HouseNumber::new((i + 1) as u8).unwrap();
        let house = renumber_house(absolute, first);
        assert(cusps@[i as int].sign_index < 12);
        let sign = sign_from_index(cusps[i].sign_index as usize);
        rows.push(HouseCore { house, sign, start: HouseStart::Cusp(i) });
        i = i + 1;
    }
    rows
}

/// Assembles the placements from the bodies, their padas and their houses.
fn assemble_placements(
    bodies: &Vec<PreparedBody>,
    padas: &Vec<Pada>,
    houses: &Vec<HouseNumber>,
) -> (placements: Vec<PlacementCore>)
    requires
        padas@.len() == bodies@.len(),
        houses@.len() == bodies@.len(),
        forall|i: int| 0 <= i < bodies@.len() ==> (#[trigger] bodies@[i]).point.wf(),
        forall|i: int|
            0 <= i < bodies@.len() ==> (#[trigger] padas@[i]).value() == bodies@[i].point.pada_number,
    ensures
        placements@.len() == bodies@.len(),
        forall|i: int|
            0 <= i < bodies@.len() ==> placement_matches(
                #[trigger] placements@[i],
                bodies@[i],
                houses@[i].value() as int,
            ),
{
    let mut placements: Vec<PlacementCore> = Vec::new();
    let mut i: usize = 0;
    while i < bodies.len()
        invariant
            i <= bodies@.len(),
            padas@.len() == bodies@.len(),
            houses@.len() == bodies@.len(),
            forall|j: int| 0 <= j < bodies@.len() ==> (#[trigger] bodies@[j]).point.wf(),
            forall|j: int|
                0 <= j < bodies@.len() ==> (#[trigger] padas@[j]).value()
                    == bodies@[j].point.pada_number,
            placements@.len() == i,
            forall|k: int|
                0 <= k < i ==> placement_matches(
                    #[trigger] placements@[k],
                    bodies@[k],
                    houses@[k].value() as int,
                ),
        decreases bodies@.len() - i,
    {
        let b = bodies[i];
        assert(bodies@[i as int].point.wf());
        placements.push(
            PlacementCore {
                body: b.body,
                sign: sign_from_index(b.point.sign_index as usize),
                house: houses[i],
                nakshatra: nakshatra_from_index(b.point.nakshatra_index as usize),
                pada: padas[i],
                is_retrograde: b.is_retrograde,
            },
        );
        i = i + 1;
    }
    placements
}

/// Runs the chart pipeline on prepared input: the reference point, sign
/// and nakshatra placement, houses, and the assembled chart; or the first
/// error a stage raises.
pub fn derive_chart_core(input: &ChartInput, key: ReferenceKey, transform: HouseTransform) -> (r:
    Result<ChartCore, DeriveError>)
    requires
        input.wf(),
    ensures
        match spec_chart_error(*input, key, transform) {
            Some(e) => r == Err::<ChartCore, DeriveError>(e),
            None => r matches Ok(core) && chart_core_matches(core, *input, key, transform),
        },
{
    let reference = resolve_reference(input, key)?;
    proof {
        if key != ReferenceKey::Lagna {
            lemma_first_match_spec(input.bodies@, is_body(reference_target(key)));
        }
    }
    assert(reference.wf());
    let _ascendant_pada = pada_from_number(input.ascendant.pada_number)?;
    let padas = body_padas(&input.bodies)?;
    let lagna_sign = sign_from_index(input.ascendant.sign_index as usize);
    match transform {
        HouseTransform::WholeSign => {
            let _ascendant_house = whole_sign_house(
                reference.sign_index as usize,
                input.ascendant.sign_index as usize,
            );
            let houses = whole_sign_body_houses(&input.bodies, reference.sign_index);
            let planets = assemble_placements(&input.bodies, &padas, &houses);
            let rows = whole_sign_rows(reference.sign_index);
            let core = ChartCore { lagna_sign, planets, houses: rows };
            assert(chart_core_matches(core, *input, key, transform));
            Ok(core)
        },
        HouseTransform::CuspBased(_) => {
            if input.cusps.len() != 12 {
                return Err(DeriveError::InvalidHouseCusps(input.cusps.len()));
            }
            let keys = cusp_order_keys(&input.cusps);
            let first_house = house_from_cusps(reference.order_key, &keys)?;
            let _ascendant_house = house_from_cusps(input.ascendant.order_key, &keys)?;
            let absolute_houses = cusp_body_houses(&input.bodies, &keys, first_house)?;
            let planets = assemble_placements(&input.bodies, &padas, &absolute_houses);
            let rows = cusp_rows(&input.cusps, first_house);
            let core = ChartCore { lagna_sign, planets, houses: rows };
            assert(chart_core_matches(core, *input, key, transform));
            Ok(core)
        },
    }
}

} // verus!
