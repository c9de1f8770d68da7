//! Telling repeated detections of one physical code apart from detections
//! of different codes.
//!
//! Two results are taken for the same code when the top-left corners of
//! their bounding boxes lie less than `DUPLICATE_DISTANCE` pixels apart.

use crate::types::QRCodeResult;
use vstd::prelude::*;

verus! {

/// Results whose boxes start closer together than this are one code.
pub const DUPLICATE_DISTANCE: u64 = 50;

/// The square of the Euclidean distance between two points.
pub open spec fn distance_squared(ax: int, ay: int, bx: int, by: int) -> int {
    (ax - bx) * (ax - bx) + (ay - by) * (ay - by)
}

/// Whether two results are detections of the same physical code.
pub open spec fn same_code(a: QRCodeResult, b: QRCodeResult) -> bool {
    distance_squared(a.position.x as int, a.position.y as int, b.position.x as int, b.position.y as int)
        < DUPLICATE_DISTANCE * DUPLICATE_DISTANCE
}

/// Whether `candidate` repeats one of `existing`.
pub open spec fn spec_is_duplicate(candidate: QRCodeResult, existing: Seq<QRCodeResult>) -> bool {
    exists|i: int| 0 <= i < existing.len() && same_code(candidate, #[trigger] existing[i])
}

/// The results with every repetition left out: a result stays when it
/// repeats none of those that stayed before it.
pub open spec fn spec_dedup(results: Seq<QRCodeResult>) -> Seq<QRCodeResult>
    decreases results.len(),
{
    if results.len() == 0 {
        Seq::empty()
    } else {
        let kept = spec_dedup(results.drop_last());
        if spec_is_duplicate(results.last(), kept) {
            kept
        } else {
            kept.push(results.last())
        }
    }
}

/// Being the same code does not depend on which of the two is asked first.
pub proof fn lemma_same_code_symmetric(a: QRCodeResult, b: QRCodeResult)
    ensures
        same_code(a, b) == same_code(b, a),
{
    let dx = a.position.x as int - b.position.x as int;
    let dy = a.position.y as int - b.position.y as int;
    assert(dx * dx == (-dx) * (-dx)) by (nonlinear_arith);
    assert(dy * dy == (-dy) * (-dy)) by (nonlinear_arith);
}

/// What is left after the repetitions are gone: the first result always
/// stays, no two of those that stay are the same code, and each stems from
/// the results that came in.
pub proof fn lemma_dedup(results: Seq<QRCodeResult>)
    ensures
        spec_dedup(results).len() <= results.len(),
        results.len() > 0 ==> spec_dedup(results).len() > 0 && spec_dedup(results)[0] == results[0],
        forall|i: int, j: int|
            0 <= i < j < spec_dedup(results).len() ==> !same_code(
                #[trigger] spec_dedup(results)[j],
                #[trigger] spec_dedup(results)[i],
            ),
        forall|i: int|
            0 <= i < spec_dedup(results).len() ==> results.contains(#[trigger] spec_dedup(results)[i]),
    decreases results.len(),
{
    if results.len() > 0 {
        let rest = results.drop_last();
        lemma_dedup(rest);
        let kept = spec_dedup(rest);
        if rest.len() > 0 {
            assert(rest[0] == results[0]);
        }
        assert forall|i: int| 0 <= i < spec_dedup(results).len() implies results.contains(
            #[trigger] spec_dedup(results)[i],
        ) by {
            if i < kept.len() {
                assert(rest.contains(kept[i]));
                let k = choose|k: int| 0 <= k < rest.len() && rest[k] == kept[i];
                assert(results[k] == kept[i]);
            } else {
                assert(results[results.len() - 1] == spec_dedup(results)[i]);
            }
        }
    }
}

/// The distance along one axis between two coordinates.
fn axis_distance(a: i32, b: i32) -> (d: u64)
    ensures
        d == if a >= b {
            a - b
        } else {
            b - a
        },
{
    if a >= b {
        (a as i64 - b as i64) as u64
    } else {
        (b as i64 - a as i64) as u64
    }
}

/// Whether two results are detections of the same physical code.
pub fn is_same_code(a: &QRCodeResult, b: &QRCodeResult) -> (same: bool)
    ensures
        same == same_code(*a, *b),
{
    let dx: u64 = axis_distance(a.position.x, b.position.x);
    let dy: u64 = axis_distance(a.position.y, b.position.y);
    proof {
        let sx = a.position.x as int - b.position.x as int;
        let sy = a.position.y as int - b.position.y as int;
        assert(sx * sx == dx * dx && sy * sy == dy * dy) by (nonlinear_arith)
            requires
                dx == sx || dx == -sx,
                dy == sy || dy == -sy,
        ;
        assert(dx >= 50 ==> dx * dx >= 2500) by (nonlinear_arith);
        assert(dy >= 50 ==> dy * dy >= 2500) by (nonlinear_arith);
        assert(dx * dx >= 0 && dy * dy >= 0) by (nonlinear_arith);
        assert(dx < 50 ==> dx * dx < 2500) by (nonlinear_arith);
        assert(dy < 50 ==> dy * dy < 2500) by (nonlinear_arith);
    }
    if dx >= DUPLICATE_DISTANCE || dy >= DUPLICATE_DISTANCE {
        false
    } else {
        dx * dx + dy * dy < DUPLICATE_DISTANCE * DUPLICATE_DISTANCE
    }
}

/// Whether `candidate` repeats one of `existing`.
pub fn is_duplicate(candidate: &QRCodeResult, existing: &Vec<QRCodeResult>) -> (dup: bool)
    ensures
        dup == spec_is_duplicate(*candidate, existing@),
{
    let mut i: usize = 0;
    while i < existing.len()
        invariant
            i <= existing.len(),
            forall|j: int| 0 <= j < i ==> !same_code(*candidate, #[trigger] existing@[j]),
        decreases existing.len() - i,
    {
        if is_same_code(candidate, &existing[i]) {
            return true;
        }
        i += 1;
    }
    false
}

/// Leaves out every repetition, keeping the first detection of each code in
/// the order in which the results came.
pub fn dedup(results: Vec<QRCodeResult>) -> (kept: Vec<QRCodeResult>)
    ensures
        kept@ == spec_dedup(results@),
{
    let mut kept: Vec<QRCodeResult> = Vec::new();
    let ghost all = results@;
    for r in it: results.into_iter()
        invariant
            it.seq() == all,
            kept@ == spec_dedup(all.take(it.index() as int)),
    {
        proof {
            let i = it.index() as int;
            assert(all.take(i + 1).drop_last() =~= all.take(i));
            assert(all.take(i + 1).last() == r);
        }
        if !is_duplicate(&r, &kept) {
            kept.push(r);
        }
    }
    proof {
        assert(all.take(all.len() as int) =~= all);
    }
    kept
}

} // verus!
