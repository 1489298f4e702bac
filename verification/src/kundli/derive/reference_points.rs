//! Calendar rules behind the Gulika reference point: the weekday of a
//! Julian day and the eighth of the day or night that Saturn rules.

use vstd::prelude::*;

use crate::kundli::astro::AstroBody;

verus! {

/// Rulers of the eight parts of the day, from the weekday's own ruler on.
pub open spec fn day_ruler(i: int) -> AstroBody {
    if i == 0 {
        AstroBody::Sun
    } else if i == 1 {
        AstroBody::Moon
    } else if i == 2 {
        AstroBody::Mars
    } else if i == 3 {
        AstroBody::Mercury
    } else if i == 4 {
        AstroBody::Jupiter
    } else if i == 5 {
        AstroBody::Venus
    } else {
        AstroBody::Saturn
    }
}

/// Rulers of the eight parts of the night, from the weekday's own ruler on.
pub open spec fn night_ruler(i: int) -> AstroBody {
    if i == 0 {
        AstroBody::Sun
    } else if i == 1 {
        AstroBody::Venus
    } else if i == 2 {
        AstroBody::Mercury
    } else if i == 3 {
        AstroBody::Moon
    } else if i == 4 {
        AstroBody::Saturn
    } else if i == 5 {
        AstroBody::Jupiter
    } else {
        AstroBody::Mars
    }
}

/// The ruler in slot `i` of the day or night sequence.
pub open spec fn ruler(is_day: bool, i: int) -> AstroBody {
    if is_day {
        day_ruler(i)
    } else {
        night_ruler(i)
    }
}

/// The ruler of part `j` when the sequence starts at the weekday's slot.
pub open spec fn rotated_ruler(is_day: bool, weekday: int, j: int) -> AstroBody {
    ruler(is_day, (weekday + j) % 7)
}

fn ruler_at(is_day: bool, i: usize) -> (r: AstroBody)
    requires
        i < 7,
    ensures
        r == ruler(is_day, i as int),
{
    if is_day {
        match i {
            0 => AstroBody::Sun,
            1 => AstroBody::Moon,
            2 => AstroBody::Mars,
            3 => AstroBody::Mercury,
            4 => AstroBody::Jupiter,
            5 => AstroBody::Venus,
            _ => AstroBody::Saturn,
        }
    } else {
        match i {
            0 => AstroBody::Sun,
            1 => AstroBody::Venus,
            2 => AstroBody::Mercury,
            3 => AstroBody::Moon,
            4 => AstroBody::Saturn,
            5 => AstroBody::Jupiter,
            _ => AstroBody::Mars,
        }
    }
}

/// Weekday index of the day numbered `day_number` (the integer part of a
/// Julian day): `(day_number + 1) mod 7`, always in `0..7`.
pub fn weekday_index(day_number: i64) -> (w: usize)
    requires
        day_number < i64::MAX,
    ensures
        w == (day_number + 1) % 7,
        w < 7,
{
    let shifted = day_number + 1;
    let r = shifted % 7;
    if r < 0 {
        (r + 7) as usize
    } else {
        r as usize
    }
}

/// The part of the day (or night) ruled by Saturn when the rulers start at
/// the given weekday: the first offset whose ruler is Saturn.
pub fn gulika_segment(is_day_birth: bool, weekday: usize) -> (segment: usize)
    requires
        weekday < 7,
    ensures
        segment < 7,
        rotated_ruler(is_day_birth, weekday as int, segment as int) == AstroBody::Saturn,
        forall|j: int|
            0 <= j < segment ==> #[trigger] rotated_ruler(is_day_birth, weekday as int, j)
                != AstroBody::Saturn,
{
    let mut i: usize = 0;
    while i < 7
        invariant
            i <= 7,
            weekday < 7,
            forall|j: int|
                0 <= j < i ==> #[trigger] rotated_ruler(is_day_birth, weekday as int, j)
                    != AstroBody::Saturn,
        decreases 7 - i,
    {
        if ruler_at(is_day_birth, (weekday + i) % 7) == AstroBody::Saturn {
            return i;
        }
        i = i + 1;
    }
    proof {
        let saturn_slot: int = if is_day_birth {
            6
        } else {
            4
        };
        let j = (saturn_slot + 7 - weekday) % 7;
        assert((weekday + j) % 7 == saturn_slot);
        assert(rotated_ruler(is_day_birth, weekday as int, j) != AstroBody::Saturn);
    }
    0
}

} // verus!
