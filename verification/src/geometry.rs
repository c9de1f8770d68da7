//! The bounding box of a detected code.

use crate::error::QRDecodeError;
use crate::types::{Corner, PositionModel, QRPosition};
use vstd::math::{max, min};
use vstd::prelude::*;

verus! {

/// Fewer corners than this do not outline a code.
pub const MIN_CORNERS: usize = 4;

/// The smallest `x` among the corners; `i32::MAX` where there are none.
pub open spec fn min_x(c: Seq<Corner>) -> int
    decreases c.len(),
{
    if c.len() == 0 {
        i32::MAX as int
    } else {
        min(min_x(c.drop_last()), c.last().0 as int)
    }
}

/// The largest `x` among the corners; `i32::MIN` where there are none.
pub open spec fn max_x(c: Seq<Corner>) -> int
    decreases c.len(),
{
    if c.len() == 0 {
        i32::MIN as int
    } else {
        max(max_x(c.drop_last()), c.last().0 as int)
    }
}

/// The smallest `y` among the corners; `i32::MAX` where there are none.
pub open spec fn min_y(c: Seq<Corner>) -> int
    decreases c.len(),
{
    if c.len() == 0 {
        i32::MAX as int
    } else {
        min(min_y(c.drop_last()), c.last().1 as int)
    }
}

/// The largest `y` among the corners; `i32::MIN` where there are none.
pub open spec fn max_y(c: Seq<Corner>) -> int
    decreases c.len(),
{
    if c.len() == 0 {
        i32::MIN as int
    } else {
        max(max_y(c.drop_last()), c.last().1 as int)
    }
}

/// The extent of the corners along `x`.
pub open spec fn span_x(c: Seq<Corner>) -> int {
    max_x(c) - min_x(c)
}

/// The extent of the corners along `y`.
pub open spec fn span_y(c: Seq<Corner>) -> int {
    max_y(c) - min_y(c)
}

/// An extent as a box can hold it: extents beyond `i32::MAX` are cut there.
pub open spec fn capped(extent: int) -> int {
    if extent > i32::MAX {
        i32::MAX as int
    } else {
        extent
    }
}

/// The box around the corners, with the corners themselves.
pub open spec fn spec_position(c: Seq<Corner>) -> PositionModel {
    PositionModel {
        x: min_x(c),
        y: min_y(c),
        width: capped(span_x(c)),
        height: capped(span_y(c)),
        corners: Some(c),
    }
}

/// The area that the corners cover: that of their bounding box, and nothing
/// where they are too few to outline a code.
pub open spec fn spec_area(c: Seq<Corner>) -> int {
    if c.len() < MIN_CORNERS {
        0
    } else {
        span_x(c) * span_y(c)
    }
}

/// The bounding box encloses every corner, and each of its four sides
/// touches one.
pub proof fn lemma_bounding_box(c: Seq<Corner>)
    requires
        c.len() > 0,
    ensures
        forall|i: int| 0 <= i < c.len() ==> min_x(c) <= (#[trigger] c[i]).0 <= max_x(c),
        forall|i: int| 0 <= i < c.len() ==> min_y(c) <= (#[trigger] c[i]).1 <= max_y(c),
        exists|i: int| 0 <= i < c.len() && (#[trigger] c[i]).0 == min_x(c),
        exists|i: int| 0 <= i < c.len() && (#[trigger] c[i]).0 == max_x(c),
        exists|i: int| 0 <= i < c.len() && (#[trigger] c[i]).1 == min_y(c),
        exists|i: int| 0 <= i < c.len() && (#[trigger] c[i]).1 == max_y(c),
        0 <= span_x(c) <= u32::MAX,
        0 <= span_y(c) <= u32::MAX,
    decreases c.len(),
{
    let rest = c.drop_last();
    let last = c.len() - 1;
    if rest.len() == 0 {
        assert(c[last].0 == min_x(c) && c[last].0 == max_x(c));
        assert(c[last].1 == min_y(c) && c[last].1 == max_y(c));
    } else {
        lemma_bounding_box(rest);
        assert forall|i: int| 0 <= i < c.len() implies min_x(c) <= (#[trigger] c[i]).0 <= max_x(c)
            && min_y(c) <= c[i].1 <= max_y(c) by {
            if i < last {
                assert(rest[i] == c[i]);
            }
        }
        let a = choose|i: int| 0 <= i < rest.len() && (#[trigger] rest[i]).0 == min_x(rest);
        assert(rest[a] == c[a]);
        assert(c[a].0 == min_x(c) || c[last].0 == min_x(c));
        let b = choose|i: int| 0 <= i < rest.len() && (#[trigger] rest[i]).0 == max_x(rest);
        assert(rest[b] == c[b]);
        assert(c[b].0 == max_x(c) || c[last].0 == max_x(c));
        let d = choose|i: int| 0 <= i < rest.len() && (#[trigger] rest[i]).1 == min_y(rest);
        assert(rest[d] == c[d]);
        assert(c[d].1 == min_y(c) || c[last].1 == min_y(c));
        let e = choose|i: int| 0 <= i < rest.len() && (#[trigger] rest[i]).1 == max_y(rest);
        assert(rest[e] == c[e]);
        assert(c[e].1 == max_y(c) || c[last].1 == max_y(c));
    }
}

/// The sides of the bounding box: `(min_x, min_y, max_x, max_y)`.
pub fn bounding_box(corners: &Vec<Corner>) -> (b: (i32, i32, i32, i32))
    ensures
        b.0 == min_x(corners@),
        b.1 == min_y(corners@),
        b.2 == max_x(corners@),
        b.3 == max_y(corners@),
{
    let mut lo_x: i32 = i32::MAX;
    let mut lo_y: i32 = i32::MAX;
    let mut hi_x: i32 = i32::MIN;
    let mut hi_y: i32 = i32::MIN;
    let mut i: usize = 0;
    while i < corners.len()
        invariant
            i <= corners.len(),
            lo_x == min_x(corners@.take(i as int)),
            lo_y == min_y(corners@.take(i as int)),
            hi_x == max_x(corners@.take(i as int)),
            hi_y == max_y(corners@.take(i as int)),
        decreases corners.len() - i,
    {
        let (x, y) = corners[i];
        proof {
            let next = corners@.take(i + 1);
            assert(next.drop_last() =~= corners@.take(i as int));
            assert(next.last() == corners@[i as int]);
        }
        if x < lo_x {
            lo_x = x;
        }
        if x > hi_x {
            hi_x = x;
        }
        if y < lo_y {
            lo_y = y;
        }
        if y > hi_y {
            hi_y = y;
        }
        i += 1;
    }
    proof {
        assert(corners@.take(corners.len() as int) =~= corners@);
    }
    (lo_x, lo_y, hi_x, hi_y)
}

/// A copy of the corners, in order.
pub fn copy_corners(corners: &Vec<Corner>) -> (copy: Vec<Corner>)
    ensures
        copy@ == corners@,
{
    let mut copy: Vec<Corner> = Vec::new();
    let mut i: usize = 0;
    while i < corners.len()
        invariant
            i <= corners.len(),
            copy@ == corners@.take(i as int),
        decreases corners.len() - i,
    {
        copy.push(corners[i]);
        assert(corners@.take(i + 1) =~= corners@.take(i as int).push(corners@[i as int]));
        i += 1;
    }
    assert(corners@.take(corners.len() as int) =~= corners@);
    copy
}

/// The distance from `lo` to `hi` as a box can hold it.
fn capped_extent(lo: i32, hi: i32) -> (e: i32)
    requires
        lo <= hi,
    ensures
        e == capped(hi - lo),
{
    let extent: i64 = hi as i64 - lo as i64;
    if extent > i32::MAX as i64 {
        i32::MAX
    } else {
        extent as i32
    }
}

/// The position of a code with the given corners.
///
/// Fewer than four corners outline nothing: that is a `DecodeError`.
pub fn calculate_position_from_corners(corners: &Vec<Corner>) -> (r: Result<QRPosition, QRDecodeError>)
    ensures
        r is Ok <==> corners@.len() >= MIN_CORNERS,
        r matches Ok(p) ==> p@ == spec_position(corners@),
        r matches Err(e) ==> e is DecodeError && e.detail() == "角点数量不足"@,
{
    if corners.len() < MIN_CORNERS {
        return Err(QRDecodeError::decode_error(String::from_str("角点数量不足")));
    }
    let (lo_x, lo_y, hi_x, hi_y) = bounding_box(corners);
    proof {
        lemma_bounding_box(corners@);
    }
    let width: i32 = capped_extent(lo_x, hi_x);
    let height: i32 = capped_extent(lo_y, hi_y);
    Ok(QRPosition::new(lo_x, lo_y, width, height).with_corners(copy_corners(corners)))
}

/// The area that the corners cover, in square pixels.
pub fn calculate_area_from_corners(corners: &Vec<Corner>) -> (a: u64)
    ensures
        a == spec_area(corners@),
{
    if corners.len() < MIN_CORNERS {
        return 0;
    }
    let (lo_x, lo_y, hi_x, hi_y) = bounding_box(corners);
    proof {
        lemma_bounding_box(corners@);
    }
    let w: u64 = (hi_x as i64 - lo_x as i64) as u64;
    let h: u64 = (hi_y as i64 - lo_y as i64) as u64;
    assert(w * h <= u64::MAX) by (nonlinear_arith)
        requires
            w <= u32::MAX,
            h <= u32::MAX,
    ;
    w * h
}

} // verus!
