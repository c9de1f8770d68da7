//! The tiered decoder: ranked backends with fallback.
//!
//! A decode of one image asks up to three tiers in turn: the WeChat backend
//! where it is at hand, then the generic detector for many codes, then the
//! generic detector for a single code. The first tier that reads anything
//! settles the decode; what it read is then held against the minimum
//! confidence. A tier that fails is passed over like one that reads nothing.
//!
//! The backends live outside this library. The caller asks the tier that
//! `first_tier` names, hands its reply to `decode_qr_codes`, and goes on
//! as the step that comes back says.

use crate::confidence::{score, spec_score, BackendKind};
use crate::detection::{
    filter_confident, interpret, lemma_results_are_sound, model_at_least, spec_interpret,
    well_formed, BackendReply, RawDetection,
};
use crate::error::QRDecodeError;
use crate::geometry::{
    calculate_area_from_corners, calculate_position_from_corners, spec_area, spec_position,
    MIN_CORNERS,
};
use crate::types::{
    detection_models, Corner, DetectionModel, ProcessingConfig, QRCodeResult, QRPosition,
    CONFIDENCE_MAX,
};
use crate::wechat_qr_decoder::WeChatQRDecoder;
use vstd::prelude::*;

verus! {

/// One backend call of the cascade.
#[derive(Debug, Clone, Copy, PartialEq, Eq, Structural)]
pub enum Tier {
    /// The WeChat backend.
    WeChat,
    /// The generic detector, asked for every code in the image.
    GenericMulti,
    /// The generic detector, asked for one code.
    GenericSingle,
}

impl Tier {
    /// The backend behind the tier.
    pub open spec fn spec_backend(self) -> BackendKind {
        match self {
            Tier::WeChat => BackendKind::WeChat,
            _ => BackendKind::Generic,
        }
    }

    /// The backend behind the tier.
    pub fn backend(self) -> (kind: BackendKind)
        ensures
            kind == self.spec_backend(),
    {
        match self {
            Tier::WeChat => BackendKind::WeChat,
            _ => BackendKind::Generic,
        }
    }

    /// The tier that is asked when this one read nothing; `None` after the
    /// last.
    pub open spec fn spec_next(self) -> Option<Tier> {
        match self {
            Tier::WeChat => Some(Tier::GenericMulti),
            Tier::GenericMulti => Some(Tier::GenericSingle),
            Tier::GenericSingle => None,
        }
    }

    /// The tier that is asked when this one read nothing; `None` after the
    /// last.
    pub fn next(self) -> (t: Option<Tier>)
        ensures
            t == self.spec_next(),
    {
        match self {
            Tier::WeChat => Some(Tier::GenericMulti),
            Tier::GenericMulti => Some(Tier::GenericSingle),
            Tier::GenericSingle => None,
        }
    }

    /// How many tiers come after this one.
    pub open spec fn remaining(self) -> nat {
        match self {
            Tier::WeChat => 2,
            Tier::GenericMulti => 1,
            Tier::GenericSingle => 0,
        }
    }

    /// What the reply of this tier holds: the codes that were read, before
    /// any is held against the minimum confidence. A failed call and a
    /// malformed reply hold nothing. The single-code tier reads the first
    /// detection of its reply and no other.
    pub open spec fn spec_found(self, reply: BackendReply) -> Seq<DetectionModel> {
        match reply {
            BackendReply::Failed(_) => Seq::empty(),
            BackendReply::Detections(raw) => {
                let seen = if self == Tier::GenericSingle {
                    raw@.take(if raw@.len() > 0 { 1int } else { 0int })
                } else {
                    raw@
                };
                if well_formed(seen) {
                    spec_interpret(seen, self.spec_backend())
                } else {
                    Seq::empty()
                }
            },
        }
    }
}

/// Every code in the reply of a backend that answers with many, where the
/// call went through and no detection is malformed.
pub open spec fn spec_read_all(reply: BackendReply, kind: BackendKind) -> Option<Seq<DetectionModel>> {
    match reply {
        BackendReply::Detections(raw) if well_formed(raw@) => Some(spec_interpret(raw@, kind)),
        _ => None,
    }
}

/// What is to be done next in a decode.
#[derive(Debug)]
pub enum DecodeStep {
    /// Ask this tier and come back with its reply.
    Invoke(Tier),
    /// The decode is over; these are its results, possibly none.
    Done(Vec<QRCodeResult>),
}

/// What a `DecodeStep` is, as mathematics.
pub enum DecodeStepModel {
    Invoke(Tier),
    Done(Seq<DetectionModel>),
}

impl View for DecodeStep {
    type V = DecodeStepModel;

    open spec fn view(&self) -> DecodeStepModel {
        match self {
            DecodeStep::Invoke(t) => DecodeStepModel::Invoke(*t),
            DecodeStep::Done(v) => DecodeStepModel::Done(detection_models(v@)),
        }
    }
}

/// The step that follows the reply of `tier`, with results below
/// `min_confidence` left out at the end.
pub open spec fn spec_step(tier: Tier, reply: BackendReply, min_confidence: u32) -> DecodeStepModel {
    let found = tier.spec_found(reply);
    match tier.spec_next() {
        Some(next) if found.len() == 0 => DecodeStepModel::Invoke(next),
        _ => DecodeStepModel::Done(found.filter(model_at_least(min_confidence))),
    }
}

/// The results of a decode that starts at `tier`, where `replies` says what
/// each tier answers when it is asked.
pub open spec fn spec_run(tier: Tier, replies: spec_fn(Tier) -> BackendReply, min_confidence: u32) -> Seq<DetectionModel>
    decreases tier.remaining(),
{
    match spec_step(tier, replies(tier), min_confidence) {
        DecodeStepModel::Invoke(next) => if next.remaining() < tier.remaining() {
            spec_run(next, replies, min_confidence)
        } else {
            Seq::empty()
        },
        DecodeStepModel::Done(results) => results,
    }
}

/// The tier that a decode starts with.
pub open spec fn spec_first_tier(has_wechat: bool) -> Tier {
    if has_wechat {
        Tier::WeChat
    } else {
        Tier::GenericMulti
    }
}

/// The results of a whole decode, said at once: those of the first tier, in
/// rank, that read anything, held against the minimum confidence; those of
/// the last tier where none did.
pub open spec fn spec_cascade(
    has_wechat: bool,
    replies: spec_fn(Tier) -> BackendReply,
    min_confidence: u32,
) -> Seq<DetectionModel> {
    let wechat = Tier::WeChat.spec_found(replies(Tier::WeChat));
    let multi = Tier::GenericMulti.spec_found(replies(Tier::GenericMulti));
    let single = Tier::GenericSingle.spec_found(replies(Tier::GenericSingle));
    let chosen = if has_wechat && wechat.len() > 0 {
        wechat
    } else if multi.len() > 0 {
        multi
    } else {
        single
    };
    chosen.filter(model_at_least(min_confidence))
}

/// Following the steps one by one gives the results of the cascade: the
/// tiers are asked in rank, the first that reads anything ends the decode,
/// and what later tiers would have answered plays no part.
pub proof fn lemma_run_is_cascade(
    has_wechat: bool,
    replies: spec_fn(Tier) -> BackendReply,
    min_confidence: u32,
)
    ensures
        spec_run(spec_first_tier(has_wechat), replies, min_confidence) == spec_cascade(
            has_wechat,
            replies,
            min_confidence,
        ),
{
    reveal_with_fuel(spec_run, 4);
}

/// A low-confidence reading still settles the decode: once a tier has read
/// anything, no later tier is asked, even if nothing of what it read is
/// trusted enough to be kept.
pub proof fn lemma_filter_comes_last(tier: Tier, reply: BackendReply, min_confidence: u32)
    requires
        tier.spec_found(reply).len() > 0,
    ensures
        spec_step(tier, reply, min_confidence) is Done,
{
}

/// What holds of the results of every decode: each has text, and is
/// trusted at least as much as was asked for, and at most to certainty.
pub proof fn lemma_decoded_results_are_sound(tier: Tier, reply: BackendReply, min_confidence: u32)
    ensures
        spec_step(tier, reply, min_confidence) matches DecodeStepModel::Done(results) ==> forall|i: int|
            0 <= i < results.len() ==> {
                let r = #[trigger] results[i];
                r.content.len() > 0 && min_confidence <= r.confidence <= CONFIDENCE_MAX
            },
{
    let found = tier.spec_found(reply);
    let kept = found.filter(model_at_least(min_confidence));
    if let BackendReply::Detections(raw) = reply {
        let seen = if tier == Tier::GenericSingle {
            raw@.take(
                if raw@.len() > 0 {
                    1int
                } else {
                    0int
                },
            )
        } else {
            raw@
        };
        if well_formed(seen) {
            lemma_results_are_sound(seen, tier.spec_backend());
        }
    }
    assert forall|i: int| 0 <= i < kept.len() implies {
        let r = #[trigger] kept[i];
        r.content.len() > 0 && min_confidence <= r.confidence <= CONFIDENCE_MAX
    } by {
        found.lemma_filter_pred(model_at_least(min_confidence), i);
        assert(kept.contains(kept[i]));
        found.lemma_filter_contains_rev(model_at_least(min_confidence), kept[i]);
        let j = choose|j: int| 0 <= j < found.len() && found[j] == kept[i];
        assert(found[j].content.len() > 0);
    }
}

/// Counters over the decodes of one decoder.
#[derive(Debug, Clone, Copy, PartialEq, Eq, Structural)]
pub struct DecodingStats {
    /// Decodes that ran to their end.
    pub total_attempts: usize,
    /// Decodes that ended with at least one result.
    pub successful_decodes: usize,
    /// Results over all decodes.
    pub total_qr_codes_found: usize,
}

/// A counter raised by `by`; it stays at `usize::MAX` once it is there.
pub open spec fn spec_raised(counter: usize, by: int) -> int {
    if counter + by > usize::MAX {
        usize::MAX as int
    } else {
        counter + by
    }
}

/// A counter raised by `by`; it stays at `usize::MAX` once it is there.
pub fn raised(counter: usize, by: usize) -> (r: usize)
    ensures
        r == spec_raised(counter, by as int),
{
    if by > usize::MAX - counter {
        usize::MAX
    } else {
        counter + by
    }
}

/// `part` out of `whole` in thousandths, rounded down; zero where `whole` is
/// zero.
pub open spec fn spec_per_mille(part: int, whole: int) -> int {
    if whole <= 0 {
        0
    } else {
        part * 1000 / whole
    }
}

/// `part` out of `whole` in thousandths, rounded down; zero where `whole` is
/// zero.
pub fn per_mille(part: usize, whole: usize) -> (r: u128)
    ensures
        r == spec_per_mille(part as int, whole as int),
{
    if whole == 0 {
        0
    } else {
        (part as u128) * 1000 / (whole as u128)
    }
}

impl DecodingStats {
    /// Counters at zero.
    pub fn new() -> (s: Self)
        ensures
            s == (DecodingStats { total_attempts: 0, successful_decodes: 0, total_qr_codes_found: 0 }),
    {
        Self { total_attempts: 0, successful_decodes: 0, total_qr_codes_found: 0 }
    }

    /// The counters after one more decode that ended with `found` results.
    pub open spec fn spec_record(self, found: nat) -> DecodingStats {
        DecodingStats {
            total_attempts: spec_raised(self.total_attempts, 1) as usize,
            successful_decodes: if found > 0 {
                spec_raised(self.successful_decodes, 1) as usize
            } else {
                self.successful_decodes
            },
            total_qr_codes_found: spec_raised(self.total_qr_codes_found, found as int) as usize,
        }
    }

    /// Counts one more decode that ended with `found` results.
    pub fn record(&mut self, found: usize)
        ensures
            *final(self) == old(self).spec_record(found as nat),
    {
        self.total_attempts = raised(self.total_attempts, 1);
        if found > 0 {
            self.successful_decodes = raised(self.successful_decodes, 1);
        }
        self.total_qr_codes_found = raised(self.total_qr_codes_found, found);
    }

    /// The share of decodes that ended with a result, in thousandths; zero
    /// before the first decode.
    pub fn success_rate(&self) -> (r: u128)
        ensures
            r == spec_per_mille(self.successful_decodes as int, self.total_attempts as int),
    {
        per_mille(self.successful_decodes, self.total_attempts)
    }

    /// The mean number of results of a decode, in thousandths; zero before
    /// the first decode.
    pub fn average_qr_codes_per_attempt(&self) -> (r: u128)
        ensures
            r == spec_per_mille(self.total_qr_codes_found as int, self.total_attempts as int),
    {
        per_mille(self.total_qr_codes_found, self.total_attempts)
    }
}

/// The tiered decoder.
pub struct QRDecoder {
    config: ProcessingConfig,
    wechat_decoder: Option<WeChatQRDecoder>,
    stats: DecodingStats,
}

impl QRDecoder {
    /// The configuration that the decoder was built with.
    pub closed spec fn spec_config(&self) -> ProcessingConfig {
        self.config
    }

    /// Whether the WeChat backend is at hand.
    pub closed spec fn has_wechat(&self) -> bool {
        self.wechat_decoder is Some
    }

    /// The counters of the decoder.
    pub closed spec fn spec_stats(&self) -> DecodingStats {
        self.stats
    }

    /// A decoder with its counters at zero. `wechat` is the outcome of
    /// building the WeChat decoder: where that failed, the decoder works
    /// with the generic backend alone.
    pub fn new(config: &ProcessingConfig, wechat: Result<WeChatQRDecoder, QRDecodeError>) -> (d: Self)
        ensures
            d.spec_config() == *config,
            d.has_wechat() == (wechat is Ok),
            d.spec_stats() == (DecodingStats { total_attempts: 0, successful_decodes: 0, total_qr_codes_found: 0 }),
    {
        let wechat_decoder = match wechat {
            Ok(decoder) => Some(decoder),
            Err(_) => None,
        };
        Self { config: config.clone(), wechat_decoder, stats: DecodingStats::new() }
    }

    /// The tier to ask first.
    pub fn first_tier(&self) -> (t: Tier)
        ensures
            t == spec_first_tier(self.has_wechat()),
    {
        if self.wechat_decoder.is_some() {
            Tier::WeChat
        } else {
            Tier::GenericMulti
        }
    }

    /// Goes on with a decode, given the reply of the tier that was asked
    /// last.
    ///
    /// Where the tier read nothing and another tier is left, that tier is to
    /// be asked. Otherwise the decode is over: its results are what the tier
    /// read, less those below the minimum confidence, and the counters take
    /// note of it.
    pub fn decode_qr_codes(&mut self, tier: Tier, reply: &BackendReply) -> (step: DecodeStep)
        ensures
            step@ == spec_step(tier, *reply, old(self).spec_config().min_confidence),
            final(self).spec_config() == old(self).spec_config(),
            final(self).has_wechat() == old(self).has_wechat(),
            final(self).spec_stats() == match step {
                DecodeStep::Invoke(_) => old(self).spec_stats(),
                DecodeStep::Done(v) => old(self).spec_stats().spec_record(v@.len()),
            },
    {
        let found: Vec<QRCodeResult> = match tier {
            Tier::GenericSingle => match self.detect_and_decode_single(reply) {
                Ok(result) => {
                    let mut one: Vec<QRCodeResult> = Vec::new();
                    one.push(result);
                    assert(detection_models(one@) =~= seq![result@]);
                    one
                },
                Err(_) => Vec::new(),
            },
            _ => match Self::read_all(reply, tier.backend()) {
                Ok(results) => results,
                Err(_) => Vec::new(),
            },
        };
        assert(detection_models(found@) =~= tier.spec_found(*reply));
        if found.len() == 0 {
            match tier.next() {
                Some(next) => {
                    return DecodeStep::Invoke(next);
                },
                None => {},
            }
        }
        let kept = filter_confident(found, self.config.min_confidence);
        self.stats.record(kept.len());
        DecodeStep::Done(kept)
    }

    /// Every code in the reply of a backend that answers with many.
    fn read_all(reply: &BackendReply, kind: BackendKind) -> (r: Result<Vec<QRCodeResult>, QRDecodeError>)
        ensures
            r is Ok <==> spec_read_all(*reply, kind) is Some,
            r matches Ok(v) ==> Some(detection_models(v@)) == spec_read_all(*reply, kind),
            r matches Err(e) ==> e is DecodeError && e.detail() == match *reply {
                BackendReply::Failed(why) => "多重二维码检测失败: "@ + why@,
                BackendReply::Detections(_) => "角点数量不足"@,
            },
    {
        match reply {
            BackendReply::Failed(why) => Err(
                QRDecodeError::decode_error(String::from_str("多重二维码检测失败: ").concat(why.as_str())),
            ),
            BackendReply::Detections(raw) => interpret(raw, kind),
        }
    }

    /// Every code in the reply of the generic detector when it is asked for
    /// many.
    ///
    /// Errors, both `DecodeError`s: the call failed; a code was read but has
    /// fewer than four corners.
    pub fn detect_and_decode_multi(&self, reply: &BackendReply) -> (r: Result<Vec<QRCodeResult>, QRDecodeError>)
        ensures
            r is Ok <==> spec_read_all(*reply, BackendKind::Generic) is Some,
            r matches Ok(v) ==> Some(detection_models(v@)) == spec_read_all(*reply, BackendKind::Generic),
            r matches Err(e) ==> e is DecodeError && e.detail() == match *reply {
                BackendReply::Failed(why) => "多重二维码检测失败: "@ + why@,
                BackendReply::Detections(_) => "角点数量不足"@,
            },
    {
        Self::read_all(reply, BackendKind::Generic)
    }

    /// The one code in the reply of the generic detector when it is asked
    /// for one: the first detection of the reply.
    ///
    /// Errors: a `DecodeError` where the call failed; `NoQRCodeFound` where
    /// the reply is empty or its detection is blank; a `DecodeError` where
    /// the code was read but has fewer than four corners.
    pub fn detect_and_decode_single(&self, reply: &BackendReply) -> (r: Result<QRCodeResult, QRDecodeError>)
        ensures
            r is Ok <==> Tier::GenericSingle.spec_found(*reply).len() > 0,
            r matches Ok(result) ==> Tier::GenericSingle.spec_found(*reply) == seq![result@],
            r matches Err(e) ==> match *reply {
                BackendReply::Failed(why) => e is DecodeError && e.detail() == "二维码检测失败: "@ + why@,
                BackendReply::Detections(raw) => if raw@.len() == 0 || raw@[0].is_blank() {
                    e is NoQRCodeFound
                } else {
                    e is DecodeError && e.detail() == "角点数量不足"@
                },
            },
    {
        match reply {
            BackendReply::Failed(why) => Err(
                QRDecodeError::decode_error(String::from_str("二维码检测失败: ").concat(why.as_str())),
            ),
            BackendReply::Detections(raw) => {
                if raw.len() == 0 {
                    assert(raw@.take(0) =~= Seq::<RawDetection>::empty());
                    return Err(QRDecodeError::NoQRCodeFound);
                }
                let d = &raw[0];
                proof {
                    let seen = raw@.take(1);
                    assert(seen.drop_last() =~= Seq::<RawDetection>::empty());
                    assert(seen.last() == raw@[0]);
                    assert(seen[0] == raw@[0]);
                    assert(Seq::<RawDetection>::empty().filter_map(
                        crate::detection::readable(BackendKind::Generic),
                    ) =~= Seq::<DetectionModel>::empty());
                }
                if d.content.as_str().is_empty() {
                    return Err(QRDecodeError::NoQRCodeFound);
                }
                match calculate_position_from_corners(&d.corners) {
                    Err(e) => Err(e),
                    Ok(position) => {
                        let confidence: u32 = score(
                            &d.corners,
                            d.rectified_width,
                            d.rectified_height,
                            BackendKind::Generic,
                        );
                        let result = QRCodeResult::new(
                            d.content.clone(),
                            position,
                            confidence,
                            BackendKind::Generic.symbol_name(),
                        );
                        assert(Tier::GenericSingle.spec_found(*reply) =~= seq![result@]);
                        Ok(result)
                    },
                }
            },
        }
    }

    /// The position of a code with the given corners; a `DecodeError` where
    /// they are fewer than four.
    pub fn calculate_position_from_corners(&self, corners: &Vec<Corner>) -> (r: Result<QRPosition, QRDecodeError>)
        ensures
            r is Ok <==> corners@.len() >= MIN_CORNERS,
            r matches Ok(p) ==> p@ == spec_position(corners@),
            r matches Err(e) ==> e is DecodeError && e.detail() == "角点数量不足"@,
    {
        calculate_position_from_corners(corners)
    }

    /// The confidence of a detection of the generic backend, in thousandths.
    pub fn calculate_confidence_from_corners(&self, corners: &Vec<Corner>, rectified_width: i32, rectified_height: i32) -> (s: u32)
        ensures
            s == spec_score(corners@, rectified_width as int, rectified_height as int, BackendKind::Generic),
    {
        score(corners, rectified_width, rectified_height, BackendKind::Generic)
    }

    /// The area that the corners cover, in square pixels.
    pub fn calculate_area_from_corners(&self, corners: &Vec<Corner>) -> (a: u64)
        ensures
            a == spec_area(corners@),
    {
        calculate_area_from_corners(corners)
    }

    /// The counters of the decoder.
    pub fn get_stats(&self) -> (s: &DecodingStats)
        ensures
            *s == self.spec_stats(),
    {
        &self.stats
    }

    /// Sets the counters back to zero.
    pub fn reset_stats(&mut self)
        ensures
            final(self).spec_stats() == (DecodingStats { total_attempts: 0, successful_decodes: 0, total_qr_codes_found: 0 }),
            final(self).spec_config() == old(self).spec_config(),
            final(self).has_wechat() == old(self).has_wechat(),
    {
        self.stats = DecodingStats::new();
    }
}

} // verus!
