//! House numbers: whole-sign counting from a reference sign, renumbering
//! relative to a reference house, and placement between reported cusps.
//!
//! Cusp-based placement compares longitudes through order keys: for
//! normalized longitudes (finite, in `[0, 360)`, with `-0.0` keyed as `0.0`)
//! the IEEE-754 bit pattern orders exactly as the numbers do, so comparing
//! keys is comparing longitudes.

use vstd::prelude::*;

use crate::kundli::error::DeriveError;
use crate::kundli::model::HouseNumber;

verus! {

/// Number of houses (and of signs).
pub const NUM_HOUSES: usize = 12;

/// Whole-sign house of a target sign when the reference sign is house 1.
pub open spec fn spec_whole_sign_house(reference_sign: int, target_sign: int) -> int {
    (target_sign + 12 - reference_sign) % 12 + 1
}

/// House `absolute` renumbered so that house `first` becomes house 1.
pub open spec fn spec_renumber_house(absolute: int, first: int) -> int {
    (absolute + 12 - first) % 12 + 1
}

/// Whether a longitude key lies in the house that starts at `start` and
/// ends before `end`; a house whose end key is below its start key wraps
/// through 0 degrees.
pub open spec fn key_in_range(longitude: u64, start: u64, end: u64) -> bool {
    if start <= end {
        start <= longitude && longitude < end
    } else {
        longitude >= start || longitude < end
    }
}

/// Whether cusp `i` starts the house containing `target` (cusp `i + 1`,
/// cyclically, ends it).
pub open spec fn cusp_contains(target: u64, cusps: Seq<u64>, i: int) -> bool {
    key_in_range(target, cusps[i], cusps[(i + 1) % 12])
}

/// The first cusp index from `i` on whose house contains `target`.
pub open spec fn cusp_search(target: u64, cusps: Seq<u64>, i: int) -> Option<int>
    decreases 12 - i,
{
    if i >= 12 || i < 0 {
        None
    } else if cusp_contains(target, cusps, i) {
        Some(i)
    } else {
        cusp_search(target, cusps, i + 1)
    }
}

/// The cusp-based house of `target`: `InvalidHouseCusps` with the cusp count
/// unless there are exactly twelve cusps and one of their houses contains
/// the target, else the one-based number of the first such house.
pub open spec fn spec_house_from_cusps(target: u64, cusps: Seq<u64>) -> Result<int, DeriveError> {
    if cusps.len() != 12 {
        Err(DeriveError::InvalidHouseCusps(cusps.len() as usize))
    } else {
        match cusp_search(target, cusps, 0) {
            Some(i) => Ok(i + 1),
            None => Err(DeriveError::InvalidHouseCusps(12)),
        }
    }
}

/// The search from `i` finds, if anything, a cusp index in `i..12`.
proof fn lemma_cusp_search_range(target: u64, cusps: Seq<u64>, i: int)
    ensures
        cusp_search(target, cusps, i) matches Some(j) ==> i <= j < 12,
    decreases 12 - i,
{
    if 0 <= i < 12 && !cusp_contains(target, cusps, i) {
        lemma_cusp_search_range(target, cusps, i + 1);
    }
}

/// A house found between the cusps is a house number in `1..=12`.
pub proof fn lemma_house_from_cusps_range(target: u64, cusps: Seq<u64>)
    ensures
        spec_house_from_cusps(target, cusps) matches Ok(n) ==> 1 <= n <= 12,
{
    lemma_cusp_search_range(target, cusps, 0);
}

/// Whole-sign house of the target sign counted from the reference sign.
pub fn whole_sign_house(reference_sign: usize, target_sign: usize) -> (h: HouseNumber)
    requires
        reference_sign < 12,
        target_sign < 12,
    ensures
        h.value() == spec_whole_sign_house(reference_sign as int, target_sign as int),
{
    let number = ((target_sign + NUM_HOUSES - reference_sign) % NUM_HOUSES + 1) as u8;
    HouseNumber::new(number).unwrap()
}

/// Renumbers an absolute house so that `first_house` becomes house 1.
pub fn renumber_house(absolute_house: HouseNumber, first_house: HouseNumber) -> (h: HouseNumber)
    ensures
        h.value() == spec_renumber_house(
            absolute_house.value() as int,
            first_house.value() as int,
        ),
{
    let absolute = absolute_house.get();
    let first = first_house.get();
    let renumbered = (absolute + 12 - first) % 12 + 1;
    HouseNumber::new(renumbered).unwrap()
}

/// Whether a longitude key lies within the house from `start` to `end`.
pub fn is_in_range(longitude: u64, start: u64, end: u64) -> (r: bool)
    ensures
        r == key_in_range(longitude, start, end),
{
    if start <= end {
        longitude >= start && longitude < end
    } else {
        longitude >= start || longitude < end
    }
}

/// Finds the cusp-based house containing `target`.
pub fn house_from_cusps(target: u64, cusps: &Vec<u64>) -> (r: Result<HouseNumber, DeriveError>)
    ensures
        match spec_house_from_cusps(target, cusps@) {
            Ok(n) => r matches Ok(h) && h.value() == n,
            Err(e) => r == Err::<HouseNumber, DeriveError>(e),
        },
{
    if cusps.len() != NUM_HOUSES {
        return Err(DeriveError::InvalidHouseCusps(cusps.len()));
    }
    let mut index: usize = 0;
    while index < NUM_HOUSES
        invariant
            cusps@.len() == 12,
            index <= 12,
            cusp_search(target, cusps@, 0) == cusp_search(target, cusps@, index as int),
        decreases 12 - index,
    {
        let start = cusps[index];
        let end = cusps[(index + 1) % NUM_HOUSES];
        if is_in_range(target, start, end) {
            return Ok(HouseNumber::new((index + 1) as u8).unwrap());
        }
        index = index + 1;
    }
    Err(DeriveError::InvalidHouseCusps(cusps.len()))
}

/// Whole-sign houses count signs from the reference sign: the reference sign
/// itself is house 1, and the target sign lies `house - 1` signs after it.
pub proof fn lemma_whole_sign_house_counts_signs(reference_sign: int, target_sign: int)
    requires
        0 <= reference_sign < 12,
        0 <= target_sign < 12,
    ensures
        1 <= spec_whole_sign_house(reference_sign, target_sign) <= 12,
        spec_whole_sign_house(reference_sign, reference_sign) == 1,
        (reference_sign + spec_whole_sign_house(reference_sign, target_sign) - 1) % 12
            == target_sign,
{
}

/// Renumbering makes the reference house house 1 and is one-to-one: two
/// distinct absolute houses never receive the same new number.
pub proof fn lemma_renumber_house_bijective(a: int, b: int, first: int)
    requires
        1 <= a <= 12,
        1 <= b <= 12,
        1 <= first <= 12,
    ensures
        1 <= spec_renumber_house(a, first) <= 12,
        spec_renumber_house(first, first) == 1,
        spec_renumber_house(a, first) == spec_renumber_house(b, first) ==> a == b,
{
}

/// A whole-sign house is the sign's own number renumbered from the
/// reference sign's number.
pub proof fn lemma_whole_sign_is_renumbered_sign(reference_sign: int, target_sign: int)
    requires
        0 <= reference_sign < 12,
        0 <= target_sign < 12,
    ensures
        spec_whole_sign_house(reference_sign, target_sign) == spec_renumber_house(
            target_sign + 1,
            reference_sign + 1,
        ),
{
}

/// Twelve cusps that increase strictly when read from some starting cusp
/// round the circle (the reported cusps of a real house system).
pub open spec fn cusps_cyclically_increasing(cusps: Seq<u64>) -> bool {
    &&& cusps.len() == 12
    &&& exists|r: int| 0 <= r < 12 && #[trigger] cusps_increasing_from(cusps, r)
}

/// The cusps increase strictly when read round the circle from cusp `r`.
pub open spec fn cusps_increasing_from(cusps: Seq<u64>, r: int) -> bool {
    forall|a: int, b: int|
        0 <= a < b < 12 ==> #[trigger] cusps[(r + a) % 12] < #[trigger] cusps[(r + b) % 12]
}

/// The search for a containing house succeeds from `i` when some cusp at or
/// after `i` contains the target.
proof fn lemma_cusp_search_finds(target: u64, cusps: Seq<u64>, i: int, j: int)
    requires
        0 <= i <= j < 12,
        cusp_contains(target, cusps, j),
    ensures
        cusp_search(target, cusps, i) is Some,
    decreases j - i,
{
    if !cusp_contains(target, cusps, i) {
        lemma_cusp_search_finds(target, cusps, i + 1, j);
    }
}

/// Walks the cusps in increasing order from the `k`-th one until the target
/// lies before the next one.
proof fn lemma_cusp_walk(target: u64, cusps: Seq<u64>, r: int, k: int) -> (j: int)
    requires
        cusps.len() == 12,
        0 <= r < 12,
        0 <= k <= 10,
        forall|a: int, b: int|
            0 <= a < b < 12 ==> #[trigger] cusps[(r + a) % 12] < #[trigger] cusps[(r + b) % 12],
        cusps[(r + k) % 12] <= target,
        target < cusps[(r + 11) % 12],
    ensures
        0 <= j < 12,
        cusp_contains(target, cusps, j),
    decreases 10 - k,
{
    let j = (r + k) % 12;
    assert((j + 1) % 12 == (r + k + 1) % 12);
    assert(cusps[(r + k) % 12] < cusps[(r + (k + 1)) % 12]);
    if target < cusps[(r + k + 1) % 12] {
        j
    } else {
        if k + 1 == 11 {
            assert(false);
        }
        lemma_cusp_walk(target, cusps, r, k + 1)
    }
}

/// With twelve cusps in cyclically increasing order, every longitude key
/// falls in one of their houses, so cusp-based placement never fails.
pub proof fn lemma_ordered_cusps_place_every_longitude(target: u64, cusps: Seq<u64>)
    requires
        cusps_cyclically_increasing(cusps),
    ensures
        spec_house_from_cusps(target, cusps) is Ok,
{
    let r = choose|r: int| 0 <= r < 12 && #[trigger] cusps_increasing_from(cusps, r);
    assert(cusps[(r + 0) % 12] < cusps[(r + 11) % 12]);
    if target >= cusps[(r + 11) % 12] || target < cusps[(r + 0) % 12] {
        let j = (r + 11) % 12;
        assert((j + 1) % 12 == (r + 0) % 12);
        assert(cusp_contains(target, cusps, j));
        lemma_cusp_search_finds(target, cusps, 0, j);
    } else {
        let j = lemma_cusp_walk(target, cusps, r, 0);
        lemma_cusp_search_finds(target, cusps, 0, j);
    }
}

} // verus!
