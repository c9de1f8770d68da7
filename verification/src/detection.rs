//! What a backend hands back, and how it becomes results.
//!
//! A backend is asked once per image. It either fails or names the codes it
//! found, each with its text, its corners and the size of the straightened
//! crop in which it was read. Nothing here calls a backend: the caller does,
//! and hands the reply in.

use crate::confidence::{lemma_score_in_range, score, spec_score, BackendKind};
use crate::error::QRDecodeError;
use crate::geometry::{calculate_position_from_corners, spec_position, MIN_CORNERS};
use crate::types::{detection_models, Corner, DetectionModel, QRCodeResult, CONFIDENCE_MAX};
use vstd::prelude::*;

verus! {

/// One code as a backend reports it.
#[derive(Debug, Clone)]
pub struct RawDetection {
    /// The decoded text; empty where the backend saw a code and could not
    /// read it.
    pub content: String,
    /// The corners of the code in the image that was handed to the backend.
    pub corners: Vec<Corner>,
    /// Width of the straightened crop of the code; zero where there is none.
    pub rectified_width: i32,
    /// Height of the straightened crop of the code; zero where there is none.
    pub rectified_height: i32,
}

/// The answer of one backend call.
#[derive(Debug, Clone)]
pub enum BackendReply {
    /// The call failed; the text says how.
    Failed(String),
    /// The call went through and found these codes, possibly none.
    Detections(Vec<RawDetection>),
}

impl RawDetection {
    /// The backend could not read the code: there is nothing to report.
    pub open spec fn is_blank(&self) -> bool {
        self.content@.len() == 0
    }

    /// The code was read, but its corners do not outline it.
    pub open spec fn is_malformed(&self) -> bool {
        !self.is_blank() && self.corners@.len() < MIN_CORNERS
    }

    /// The result that this detection becomes when `kind` reported it.
    pub open spec fn as_detection(&self, kind: BackendKind) -> DetectionModel {
        DetectionModel {
            content: self.content@,
            position: spec_position(self.corners@),
            confidence: spec_score(
                self.corners@,
                self.rectified_width as int,
                self.rectified_height as int,
                kind,
            ),
            qr_type: kind.spec_symbol_name(),
            raw_bytes: None,
        }
    }
}

/// No detection of the run is malformed.
pub open spec fn well_formed(raw: Seq<RawDetection>) -> bool {
    forall|i: int| 0 <= i < raw.len() ==> !(#[trigger] raw[i]).is_malformed()
}

/// What a single detection contributes to the results: nothing where it is
/// blank.
pub open spec fn readable(kind: BackendKind) -> spec_fn(RawDetection) -> Option<DetectionModel> {
    |d: RawDetection|
        if d.is_blank() {
            None
        } else {
            Some(d.as_detection(kind))
        }
}

/// The results that a run of well-formed detections becomes: the blank ones
/// dropped, the others in their order.
pub open spec fn spec_interpret(raw: Seq<RawDetection>, kind: BackendKind) -> Seq<DetectionModel> {
    raw.filter_map(readable(kind))
}

/// What holds of every result that comes of a run of detections: it has
/// text, its corners outline a code, it names the backend that read it, and
/// its confidence lies between the base score of that backend and
/// certainty.
pub proof fn lemma_results_are_sound(raw: Seq<RawDetection>, kind: BackendKind)
    requires
        well_formed(raw),
    ensures
        forall|i: int|
            0 <= i < spec_interpret(raw, kind).len() ==> {
                let r = #[trigger] spec_interpret(raw, kind)[i];
                &&& r.content.len() > 0
                &&& r.is_valid()
                &&& kind.base() <= r.confidence <= CONFIDENCE_MAX
                &&& r.qr_type == kind.spec_symbol_name()
                &&& r.position.corners matches Some(c) && c.len() >= MIN_CORNERS
            },
    decreases raw.len(),
{
    if raw.len() > 0 {
        let rest = raw.drop_last();
        assert forall|j: int| 0 <= j < rest.len() implies !(#[trigger] rest[j]).is_malformed() by {
            assert(rest[j] == raw[j]);
        }
        lemma_results_are_sound(rest, kind);
        let last = raw.last();
        assert(!raw[raw.len() - 1].is_malformed());
        lemma_score_in_range(
            last.corners@,
            last.rectified_width as int,
            last.rectified_height as int,
            kind,
        );
        assert forall|i: int| 0 <= i < spec_interpret(raw, kind).len() implies {
            let r = #[trigger] spec_interpret(raw, kind)[i];
            &&& r.content.len() > 0
            &&& r.is_valid()
            &&& kind.base() <= r.confidence <= CONFIDENCE_MAX
            &&& r.qr_type == kind.spec_symbol_name()
            &&& r.position.corners matches Some(c) && c.len() >= MIN_CORNERS
        } by {
            if i < spec_interpret(rest, kind).len() {
                assert(spec_interpret(raw, kind)[i] == spec_interpret(rest, kind)[i]);
            }
        }
    }
}

/// Turns the detections of one backend call into results.
///
/// Blank detections are passed over. A detection that was read but has fewer
/// than four corners makes the whole call worthless: that is a `DecodeError`.
pub fn interpret(raw: &Vec<RawDetection>, kind: BackendKind) -> (r: Result<Vec<QRCodeResult>, QRDecodeError>)
    ensures
        r is Ok <==> well_formed(raw@),
        r matches Ok(v) ==> detection_models(v@) == spec_interpret(raw@, kind),
        r matches Err(e) ==> e is DecodeError && e.detail() == "角点数量不足"@,
{
    let mut results: Vec<QRCodeResult> = Vec::new();
    let mut i: usize = 0;
    while i < raw.len()
        invariant
            i <= raw.len(),
            well_formed(raw@.take(i as int)),
            detection_models(results@) == spec_interpret(raw@.take(i as int), kind),
        decreases raw.len() - i,
    {
        let d = &raw[i];
        proof {
            let next = raw@.take(i + 1);
            assert(next.drop_last() =~= raw@.take(i as int));
            assert(next.last() == raw@[i as int]);
            assert(spec_interpret(next, kind) == match readable(kind)(*d) {
                Some(m) => spec_interpret(raw@.take(i as int), kind) + seq![m],
                None => spec_interpret(raw@.take(i as int), kind),
            });
        }
        if !d.content.as_str().is_empty() {
            match calculate_position_from_corners(&d.corners) {
                Err(e) => {
                    assert(raw@[i as int].is_malformed());
                    return Err(e);
                },
                Ok(position) => {
                    let confidence: u32 = score(&d.corners, d.rectified_width, d.rectified_height, kind);
                    let result = QRCodeResult::new(d.content.clone(), position, confidence, kind.symbol_name());
                    let ghost before = results@;
                    results.push(result);
                    assert(detection_models(results@) =~= detection_models(before) + seq![result@]);
                },
            }
        }
        assert forall|j: int| 0 <= j < i + 1 implies !(#[trigger] raw@.take(i + 1)[j]).is_malformed() by {
            if j < i {
                assert(raw@.take(i as int)[j] == raw@.take(i + 1)[j]);
            }
        }
        i += 1;
    }
    proof {
        assert(raw@.take(raw.len() as int) =~= raw@);
    }
    Ok(results)
}

/// The test that a result passes when it is trusted at least `min`.
pub open spec fn at_least(min: u32) -> spec_fn(QRCodeResult) -> bool {
    |r: QRCodeResult| r.confidence >= min
}

/// The same test on the model of a result.
pub open spec fn model_at_least(min: u32) -> spec_fn(DetectionModel) -> bool {
    |m: DetectionModel| m.confidence >= min
}

/// Filtering results and looking at their models comes to the same as
/// filtering the models.
pub proof fn lemma_models_of_confident(results: Seq<QRCodeResult>, min: u32)
    ensures
        detection_models(results.filter(at_least(min))) == detection_models(results).filter(
            model_at_least(min),
        ),
    decreases results.len(),
{
    reveal(Seq::filter);
    if results.len() == 0 {
        assert(detection_models(results.filter(at_least(min))) =~= detection_models(results).filter(
            model_at_least(min),
        ));
    } else {
        let rest = results.drop_last();
        lemma_models_of_confident(rest, min);
        assert(detection_models(results).drop_last() =~= detection_models(rest));
        assert(detection_models(results).last() == results.last()@);
        if at_least(min)(results.last()) {
            assert(detection_models(rest.filter(at_least(min)).push(results.last()))
                =~= detection_models(rest.filter(at_least(min))).push(results.last()@));
        }
    }
}

/// Keeps the results that are trusted at least `min_confidence`, in their
/// order.
pub fn filter_confident(results: Vec<QRCodeResult>, min_confidence: u32) -> (kept: Vec<QRCodeResult>)
    ensures
        kept@ == results@.filter(at_least(min_confidence)),
        detection_models(kept@) == detection_models(results@).filter(model_at_least(min_confidence)),
{
    let mut kept: Vec<QRCodeResult> = Vec::new();
    let ghost all = results@;
    for r in it: results.into_iter()
        invariant
            it.seq() == all,
            kept@ == all.take(it.index() as int).filter(at_least(min_confidence)),
    {
        proof {
            reveal(Seq::filter);
            let i = it.index() as int;
            assert(all.take(i + 1).drop_last() =~= all.take(i));
            assert(all.take(i + 1).last() == r);
        }
        if r.confidence >= min_confidence {
            kept.push(r);
        }
    }
    proof {
        assert(all.take(all.len() as int) =~= all);
        lemma_models_of_confident(all, min_confidence);
    }
    kept
}

} // verus!
