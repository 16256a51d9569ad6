//! Where the samples of a resampled contour lie.
//!
//! A contour of `points` points is read as a function on `[0, 1]` that takes
//! the `k`-th point at `k / (points - 1)` and is linear in between. Resampling
//! to `count` samples evaluates it at `i / (count - 1)`. This module says, in
//! whole numbers, between which two points each sample lies and how far
//! along; only the blend itself needs fractional arithmetic.

use vstd::prelude::*;

verus! {

/// Where one sample lies.
#[derive(Clone, Copy, Debug, PartialEq, Eq, Structural)]
pub enum SamplePosition {
    /// The contour has no point: the sample is the origin.
    Origin,
    /// The contour has one point: the sample is that point.
    Single,
    /// The sample lies `numer / denom` of the way from the point `index` to
    /// the point `index + 1`.
    Between { index: usize, numer: usize, denom: usize },
}

/// The number of equal parts into which `count` samples cut `[0, 1]`; a
/// single sample is taken at 0.
pub open spec fn parts(count: int) -> int {
    if count >= 2 {
        count - 1
    } else {
        1
    }
}

/// The segment in which the sample `i` of `count` lies on a contour of
/// `points` points, the last segment holding its own end.
pub open spec fn segment_of(points: int, count: int, i: int) -> int {
    let whole = (i * (points - 1)) / parts(count);
    if whole <= points - 2 {
        whole
    } else {
        points - 2
    }
}

/// Where the sample `i` of `count` lies on a contour of `points` points.
pub open spec fn position_of(points: int, count: int, i: int) -> SamplePosition {
    if points == 0 {
        SamplePosition::Origin
    } else if points == 1 {
        SamplePosition::Single
    } else {
        let index = segment_of(points, count, i);
        SamplePosition::Between {
            index: index as usize,
            numer: (i * (points - 1) - index * parts(count)) as usize,
            denom: parts(count) as usize,
        }
    }
}

/// The index of the input point that a sample is, where it is one.
pub open spec fn exact_point(position: SamplePosition) -> Option<int> {
    match position {
        SamplePosition::Origin => None,
        SamplePosition::Single => Some(0),
        SamplePosition::Between { index, numer, denom } => if numer == 0 {
            Some(index as int)
        } else if numer == denom {
            Some(index + 1)
        } else {
            None
        },
    }
}

/// A sample lies inside its segment: not before its start and not after
/// its end.
pub proof fn lemma_position_in_segment(points: int, count: int, i: int)
    requires
        points >= 2,
        count >= 1,
        0 <= i < count,
    ensures
        0 <= segment_of(points, count, i) <= points - 2,
        0 <= i * (points - 1) - segment_of(points, count, i) * parts(count) <= parts(count),
{
    let d = parts(count);
    let x = i * (points - 1);
    assert(0 <= x) by (nonlinear_arith)
        requires
            0 <= i,
            points >= 2,
            x == i * (points - 1),
    ;
    assert(x <= d * (points - 1)) by (nonlinear_arith)
        requires
            0 <= i <= d,
            points >= 2,
            x == i * (points - 1),
    ;
    vstd::arithmetic::div_mod::lemma_fundamental_div_mod(x, d);
    vstd::arithmetic::div_mod::lemma_div_pos_is_pos(x, d);
    vstd::arithmetic::div_mod::lemma_mod_bound(x, d);
    let whole = x / d;
    if whole <= points - 2 {
        assert(x - whole * d == x % d) by (nonlinear_arith)
            requires
                x == d * whole + x % d,
        ;
    } else {
        // The sample is the end of the contour.
        assert(whole >= points - 1);
        assert(d * whole >= d * (points - 1)) by (nonlinear_arith)
            requires
                whole >= points - 1,
                d >= 1,
        ;
        assert(x == d * (points - 1));
        assert(x - (points - 2) * d == d) by (nonlinear_arith)
            requires
                x == d * (points - 1),
        ;
    }
}

/// The first sample of a contour with at least one point is its first
/// point, and the last of two or more samples is its last point.
pub proof fn lemma_resampling_fixed_points(points: usize, count: usize)
    requires
        points >= 1,
        count >= 2,
    ensures
        exact_point(position_of(points as int, count as int, 0)) == Some(0int),
        exact_point(position_of(points as int, count as int, count - 1)) == Some(points - 1),
{
    let points = points as int;
    let count = count as int;
    if points >= 2 {
        let d = count - 1;
        lemma_position_in_segment(points, count, 0);
        lemma_position_in_segment(points, count, count - 1);
        assert(0 * (points - 1) == 0);
        assert((0int / d) == 0);
        vstd::arithmetic::div_mod::lemma_div_multiples_vanish(points - 1, d);
        assert((count - 1) * (points - 1) == d * (points - 1));
        assert((d * (points - 1)) / d == points - 1);
        assert(segment_of(points, count, count - 1) == points - 2);
        assert((count - 1) * (points - 1) - (points - 2) * d == d) by (nonlinear_arith)
            requires
                d == count - 1,
        ;
    }
}

/// Finds where the sample `i` of `count` lies on a contour of `points`
/// points.
pub fn sample_position(points: usize, count: usize, i: usize) -> (position: SamplePosition)
    requires
        count >= 1,
        i < count,
    ensures
        position == position_of(points as int, count as int, i as int),
{
    if points == 0 {
        return SamplePosition::Origin;
    }
    if points == 1 {
        return SamplePosition::Single;
    }
    proof {
        lemma_position_in_segment(points as int, count as int, i as int);
    }
    let denom: usize = if count >= 2 {
        count - 1
    } else {
        1
    };
    assert(i * (points - 1) <= usize::MAX * usize::MAX) by (nonlinear_arith)
        requires
            0 <= i <= usize::MAX,
            0 <= points - 1 <= usize::MAX,
    ;
    assert(usize::MAX * usize::MAX <= u128::MAX) by (nonlinear_arith)
        requires
            usize::MAX <= 0xffff_ffff_ffff_ffff,
            u128::MAX == 0xffff_ffff_ffff_ffff_ffff_ffff_ffff_ffff,
    ;
    let scaled: u128 = (i as u128) * ((points - 1) as u128);
    let whole: u128 = scaled / (denom as u128);
    let index: usize = if whole <= (points - 2) as u128 {
        whole as usize
    } else {
        points - 2
    };
    assert(index * denom <= scaled) by (nonlinear_arith)
        requires
            0 <= scaled - index * denom,
    ;
    let numer: u128 = scaled - (index as u128) * (denom as u128);
    SamplePosition::Between { index, numer: numer as usize, denom }
}

/// The number of samples to which a contour of `points` points is
/// resampled: as many as it has points, at least two for each term that a
/// loop may draw, and at least a thousand.
pub open spec fn sample_count(points: int, max_harmonics: int) -> int {
    if points >= 2 * max_harmonics && points >= 1000 {
        points
    } else if 2 * max_harmonics >= 1000 {
        2 * max_harmonics
    } else {
        1000
    }
}

/// The number of terms that are computed on either side of the constant
/// term of a contour with `samples` samples: one for every two samples, and
/// no more than five hundred.
pub open spec fn term_count(samples: int) -> int {
    if samples / 2 <= 500 {
        samples / 2
    } else {
        500
    }
}

/// Finds the number of samples and, for that many samples, the number of
/// terms on either side. With a thousand samples or more there are five
/// hundred terms.
pub fn sample_counts(points: usize, max_harmonics: usize) -> (counts: (usize, usize))
    requires
        2 * max_harmonics <= usize::MAX,
    ensures
        counts.0 == sample_count(points as int, max_harmonics as int),
        counts.1 == term_count(counts.0 as int),
        counts.1 == 500,
{
    let doubled = 2 * max_harmonics;
    let samples = if points >= doubled && points >= 1000 {
        points
    } else if doubled >= 1000 {
        doubled
    } else {
        1000
    };
    let halved = samples / 2;
    let terms = if halved <= 500 {
        halved
    } else {
        500
    };
    (samples, terms)
}

} // verus!
