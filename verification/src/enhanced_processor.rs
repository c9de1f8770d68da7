//! The quick search: a short, hand-ordered list of single corrections.
//!
//! The list starts with the image as it is and goes on with corrections of
//! brightness, contrast, gamma, blur, sharpness and morphology, the mildest
//! first. The order says which corrections are needed most often; the list
//! is short so that the common case stays fast. The search ends with the
//! first correction under which anything is read.

use crate::clock::now_millis;
use crate::error::QRDecodeError;
use crate::image_ops::{odd_kernel, spec_odd_kernel, ImageInfo, ImageOp};
use crate::qr_decoder::{raised, spec_raised};
use crate::search::{spec_advance, Advance, AttemptOutcome, SearchOutcome, SearchStep};
use crate::text::{
    decimal, decimal_text, hundredths, hundredths_text, signed_decimal, signed_decimal_text,
    spec_lines_of,
};
use crate::types::{ProcessingConfig, QRCodeResult};
use vstd::prelude::*;

verus! {

/// One correction of the quick search. Factors are hundredths.
#[derive(Debug, Clone, Copy, PartialEq, Eq, Structural)]
pub enum TransformType {
    /// The image as it is.
    Original,
    /// Add to every value.
    Brightness(i32),
    /// Multiply every value.
    Contrast(u32),
    /// Gamma correction.
    Gamma(u32),
    /// Gaussian blur with the given kernel side.
    GaussianBlur(i32),
    /// Bilateral filter.
    BilateralFilter,
    /// Median blur with the given kernel side.
    MedianBlur(i32),
    /// Morphological opening.
    MorphOpen,
    /// Morphological closing.
    MorphClose,
    /// Sharpening.
    Sharpen,
    /// Brightness, then contrast.
    BrightnessContrast(i32, u32),
}

/// How many corrections the quick search knows.
pub const TRANSFORM_COUNT: usize = 36;

/// The corrections of the quick search, in the order in which they are
/// tried.
pub open spec fn spec_transform_sequence() -> Seq<TransformType> {
    seq![
        TransformType::Original,
        TransformType::Brightness(20),
        TransformType::Brightness((-20) as i32),
        TransformType::Contrast(120),
        TransformType::Contrast(80),
        TransformType::Gamma(80),
        TransformType::Gamma(120),
        TransformType::BrightnessContrast(15, 130),
        TransformType::BrightnessContrast((-15) as i32, 130),
        TransformType::BrightnessContrast(25, 70),
        TransformType::BrightnessContrast((-25) as i32, 70),
        TransformType::Brightness(40),
        TransformType::Brightness((-40) as i32),
        TransformType::Contrast(150),
        TransformType::Contrast(60),
        TransformType::Gamma(50),
        TransformType::Gamma(150),
        TransformType::BilateralFilter,
        TransformType::MedianBlur(3),
        TransformType::GaussianBlur(3),
        TransformType::MedianBlur(5),
        TransformType::Sharpen,
        TransformType::MorphOpen,
        TransformType::MorphClose,
        TransformType::Brightness(60),
        TransformType::Brightness((-60) as i32),
        TransformType::Contrast(200),
        TransformType::Contrast(40),
        TransformType::Gamma(30),
        TransformType::Gamma(220),
        TransformType::BrightnessContrast(50, 180),
        TransformType::BrightnessContrast((-50) as i32, 180),
        TransformType::BrightnessContrast(40, 50),
        TransformType::BrightnessContrast((-40) as i32, 50),
        TransformType::GaussianBlur(5),
        TransformType::GaussianBlur(7),
    ]
}

impl TransformType {
    /// The correction in words.
    pub open spec fn spec_description(self) -> Seq<char> {
        match self {
            TransformType::Original => "原始图像"@,
            TransformType::Brightness(value) => "亮度调整: "@ + signed_decimal(value as int),
            TransformType::Contrast(value) => "对比度调整: "@ + hundredths(value as nat),
            TransformType::Gamma(value) => "伽马校正: "@ + hundredths(value as nat),
            TransformType::GaussianBlur(kernel) => "高斯模糊: "@ + signed_decimal(kernel as int) + "x"@
                + signed_decimal(kernel as int),
            TransformType::BilateralFilter => "双边滤波"@,
            TransformType::MedianBlur(kernel) => "中值滤波: "@ + signed_decimal(kernel as int) + "x"@
                + signed_decimal(kernel as int),
            TransformType::MorphOpen => "形态学开运算"@,
            TransformType::MorphClose => "形态学闭运算"@,
            TransformType::Sharpen => "锐化"@,
            TransformType::BrightnessContrast(b, c) => "亮度+对比度: "@ + signed_decimal(b as int)
                + " / "@ + hundredths(c as nat),
        }
    }

    /// The correction in words.
    pub fn description(&self) -> (text: String)
        ensures
            text@ == self.spec_description(),
    {
        match *self {
            TransformType::Original => String::from_str("原始图像"),
            TransformType::Brightness(value) => String::from_str("亮度调整: ").concat(
                signed_decimal_text(value as i128).as_str(),
            ),
            TransformType::Contrast(value) => String::from_str("对比度调整: ").concat(
                hundredths_text(value as u128).as_str(),
            ),
            TransformType::Gamma(value) => String::from_str("伽马校正: ").concat(
                hundredths_text(value as u128).as_str(),
            ),
            TransformType::GaussianBlur(kernel) => String::from_str("高斯模糊: ").concat(
                signed_decimal_text(kernel as i128).as_str(),
            ).concat("x").concat(signed_decimal_text(kernel as i128).as_str()),
            TransformType::BilateralFilter => String::from_str("双边滤波"),
            TransformType::MedianBlur(kernel) => String::from_str("中值滤波: ").concat(
                signed_decimal_text(kernel as i128).as_str(),
            ).concat("x").concat(signed_decimal_text(kernel as i128).as_str()),
            TransformType::MorphOpen => String::from_str("形态学开运算"),
            TransformType::MorphClose => String::from_str("形态学闭运算"),
            TransformType::Sharpen => String::from_str("锐化"),
            TransformType::BrightnessContrast(b, c) => String::from_str("亮度+对比度: ").concat(
                signed_decimal_text(b as i128).as_str(),
            ).concat(" / ").concat(hundredths_text(c as u128).as_str()),
        }
    }

    /// The primitives that make up a morphological correction: they work on
    /// a grey image, so a colour image is turned grey before and, where it
    /// had three channels, back to colour after.
    pub open spec fn spec_morphology(op: ImageOp, channels: int) -> Seq<ImageOp> {
        (if channels == 1 {
            Seq::<ImageOp>::empty()
        } else {
            seq![ImageOp::Grayscale]
        }) + seq![op] + (if channels == 3 {
            seq![ImageOp::GrayToColor]
        } else {
            Seq::<ImageOp>::empty()
        })
    }

    /// The primitives that make up the correction, in the order in which
    /// they run on an image with the given number of channels. Blur kernels
    /// with an even side take the next odd one.
    pub open spec fn spec_ops(self, channels: int) -> Seq<ImageOp> {
        match self {
            TransformType::Original => Seq::empty(),
            TransformType::Brightness(value) => seq![ImageOp::AddScalar(value)],
            TransformType::Contrast(value) => seq![ImageOp::MultiplyScalar(value)],
            TransformType::Gamma(value) => seq![ImageOp::Gamma(value)],
            TransformType::GaussianBlur(kernel) => seq![
                ImageOp::GaussianBlur(spec_odd_kernel(kernel as int) as i32),
            ],
            TransformType::BilateralFilter => seq![ImageOp::BilateralFilter],
            TransformType::MedianBlur(kernel) => seq![
                ImageOp::MedianBlur(spec_odd_kernel(kernel as int) as i32),
            ],
            TransformType::MorphOpen => Self::spec_morphology(ImageOp::MorphOpen, channels),
            TransformType::MorphClose => Self::spec_morphology(ImageOp::MorphClose, channels),
            TransformType::Sharpen => seq![ImageOp::Sharpen],
            TransformType::BrightnessContrast(b, c) => seq![
                ImageOp::AddScalar(b),
                ImageOp::MultiplyScalar(c),
            ],
        }
    }
}

/// Whether the correction at `a` stands before the correction at `b` in
/// the ranking: it has ended more searches with a hit, or as many and comes
/// earlier in the sequence.
pub open spec fn ranks_before(stats: Seq<usize>, a: int, b: int) -> bool {
    stats[a] > stats[b] || (stats[a] == stats[b] && a < b)
}

/// Whether `order` is the ranking of the corrections by their hit counts:
/// it names exactly the corrections that have a hit, the more successful
/// first.
pub open spec fn is_ranking(stats: Seq<usize>, order: Seq<usize>) -> bool {
    &&& forall|i: int|
        0 <= i < order.len() ==> (#[trigger] order[i]) < stats.len() && stats[order[i] as int] > 0
    &&& forall|i: int, j: int|
        0 <= i < j < order.len() ==> ranks_before(stats, #[trigger] order[i] as int, #[trigger] order[j] as int)
    &&& forall|m: int| 0 <= m < stats.len() && #[trigger] stats[m] > 0 ==> order.contains(m as usize)
}

/// Two rankings of the same hit counts agree in their first `k` places.
proof fn lemma_rankings_agree(stats: Seq<usize>, a: Seq<usize>, b: Seq<usize>, k: nat)
    requires
        is_ranking(stats, a),
        is_ranking(stats, b),
        k <= a.len(),
    ensures
        k <= b.len(),
        forall|i: int| 0 <= i < k ==> a[i] == b[i],
    decreases k,
{
    if k > 0 {
        let at = (k - 1) as int;
        lemma_rankings_agree(stats, a, b, (k - 1) as nat);
        // The correction in place `at` of one ranking stands in the other
        // ranking too, and not before that place.
        assert(stats[a[at] as int] > 0);
        assert(b.contains(a[at]));
        let j = choose|j: int| 0 <= j < b.len() && b[j] == a[at];
        if j < at {
            assert(a[j] == b[j]);
            assert(ranks_before(stats, a[j] as int, a[at] as int));
        }
        assert(stats[b[at] as int] > 0);
        assert(a.contains(b[at]));
        let i = choose|i: int| 0 <= i < a.len() && a[i] == b[at];
        if i < at {
            assert(a[i] == b[i]);
            assert(ranks_before(stats, b[i] as int, b[at] as int));
        }
        if i > at {
            assert(ranks_before(stats, a[at] as int, a[i] as int));
            if j > at {
                assert(ranks_before(stats, b[at] as int, b[j] as int));
            }
        }
    }
}

/// Hit counts have one ranking and no other.
pub proof fn lemma_ranking_is_unique(stats: Seq<usize>, a: Seq<usize>, b: Seq<usize>)
    requires
        is_ranking(stats, a),
        is_ranking(stats, b),
    ensures
        a == b,
{
    lemma_rankings_agree(stats, a, b, a.len());
    lemma_rankings_agree(stats, b, a, b.len());
    assert(a =~= b);
}

/// The line that tells how often a correction has ended a search with a
/// hit.
pub open spec fn spec_stats_line(stats: Seq<usize>, index: int) -> Seq<char> {
    "   "@ + spec_transform_sequence()[index].spec_description() + " : "@ + decimal(stats[index] as nat)
        + " 次"@
}

/// The lines that tell of the hit counts, for the corrections in `order`:
/// a heading and a line for each, or one line that says that there is
/// nothing to tell.
pub open spec fn spec_stats_lines(stats: Seq<usize>, order: Seq<usize>) -> Seq<Seq<char>> {
    if order.len() == 0 {
        seq!["📊 暂无变换统计信息"@]
    } else {
        seq!["📊 变换成功统计:"@] + Seq::new(order.len(), |i: int| spec_stats_line(stats, order[i] as int))
    }
}

/// The ranking of the corrections by their hit counts.
pub fn ranking(stats: &Vec<usize>) -> (order: Vec<usize>)
    ensures
        is_ranking(stats@, order@),
{
    let mut order: Vec<usize> = Vec::new();
    let mut k: usize = 0;
    while k < stats.len()
        invariant
            k <= stats.len(),
            forall|i: int|
                0 <= i < order@.len() ==> (#[trigger] order@[i]) < k && stats@[order@[i] as int] > 0,
            forall|i: int, j: int|
                0 <= i < j < order@.len() ==> ranks_before(
                    stats@,
                    #[trigger] order@[i] as int,
                    #[trigger] order@[j] as int,
                ),
            forall|m: int| 0 <= m < k && #[trigger] stats@[m] > 0 ==> order@.contains(m as usize),
        decreases stats.len() - k,
    {
        if stats[k] > 0 {
            let mut p: usize = 0;
            while p < order.len() && stats[order[p]] >= stats[k]
                invariant
                    p <= order@.len(),
                    k < stats@.len(),
                    forall|i: int| 0 <= i < order@.len() ==> (#[trigger] order@[i]) < k,
                    forall|i: int| 0 <= i < p ==> stats@[(#[trigger] order@[i]) as int] >= stats@[k as int],
                decreases order@.len() - p,
            {
                p += 1;
            }
            let ghost before = order@;
            order.insert(p, k);
            proof {
                let after = order@;
                assert(after.len() == before.len() + 1);
                assert(after[p as int] == k);
                assert forall|i: int| 0 <= i < p implies after[i] == before[i] by {}
                assert forall|i: int| p < i < after.len() implies after[i] == before[i - 1] by {}
                assert forall|i: int, j: int| 0 <= i < j < after.len() implies ranks_before(
                    stats@,
                    #[trigger] after[i] as int,
                    #[trigger] after[j] as int,
                ) by {
                    if j < p {
                    } else if j == p {
                    } else if i == p {
                        if p < before.len() {
                            if j - 1 > p {
                                assert(ranks_before(stats@, before[p as int] as int, before[j - 1] as int));
                            }
                        }
                    } else if i < p {
                        assert(ranks_before(stats@, before[i] as int, before[j - 1] as int));
                    } else {
                        assert(ranks_before(stats@, before[i - 1] as int, before[j - 1] as int));
                    }
                }
                assert forall|m: int| 0 <= m < k + 1 && #[trigger] stats@[m] > 0 implies after.contains(
                    m as usize,
                ) by {
                    if m == k {
                        assert(after[p as int] == m as usize);
                    } else {
                        assert(before.contains(m as usize));
                        let at = choose|at: int| 0 <= at < before.len() && before[at] == m as usize;
                        if at < p {
                            assert(after[at] == m as usize);
                        } else {
                            assert(after[at + 1] == m as usize);
                        }
                    }
                }
            }
        }
        k += 1;
    }
    order
}

/// The quick search.
pub struct EnhancedImageProcessor {
    config: ProcessingConfig,
    decoder_config: ProcessingConfig,
    transform_stats: Vec<usize>,
    cursor: usize,
    started: i64,
}

impl EnhancedImageProcessor {
    /// The configuration that the search was built with.
    pub closed spec fn spec_config(&self) -> ProcessingConfig {
        self.config
    }

    /// The configuration for the decoders that the search sets to work.
    pub closed spec fn spec_decoder_config(&self) -> ProcessingConfig {
        self.decoder_config
    }

    /// The index of the correction that is being tried; `TRANSFORM_COUNT`
    /// where no search is under way.
    pub closed spec fn spec_cursor(&self) -> int {
        self.cursor as int
    }

    /// For each correction, how many searches it has ended with a hit.
    pub closed spec fn spec_transform_stats(&self) -> Seq<usize> {
        self.transform_stats@
    }

    /// What holds of every processor: it counts hits for each correction.
    #[verifier::type_invariant]
    closed spec fn well_formed(&self) -> bool {
        self.transform_stats@.len() == TRANSFORM_COUNT
    }

    /// A processor that has found nothing yet and has no search under way.
    pub fn new(config: ProcessingConfig) -> (r: Result<Self, QRDecodeError>)
        ensures
            r matches Ok(p) && p.spec_config() == config && p.spec_decoder_config() == config
                && p.spec_cursor() == TRANSFORM_COUNT && p.spec_transform_stats() == Seq::new(
                TRANSFORM_COUNT as nat,
                |i: int| 0usize,
            ),
    {
        let decoder_config = config.clone();
        let mut transform_stats: Vec<usize> = Vec::new();
        let mut i: usize = 0;
        while i < TRANSFORM_COUNT
            invariant
                i <= TRANSFORM_COUNT,
                transform_stats@ == Seq::new(i as nat, |j: int| 0usize),
            decreases TRANSFORM_COUNT - i,
        {
            transform_stats.push(0);
            assert(transform_stats@ =~= Seq::new((i + 1) as nat, |j: int| 0usize));
            i += 1;
        }
        Ok(Self { config, decoder_config, transform_stats, cursor: TRANSFORM_COUNT, started: 0 })
    }

    /// The configuration for the decoders that the search sets to work.
    pub fn decoder_config(&self) -> (c: &ProcessingConfig)
        ensures
            *c == self.spec_decoder_config(),
    {
        &self.decoder_config
    }

    /// The corrections in the order in which they are tried.
    pub fn get_transform_sequence(&self) -> (sequence: Vec<TransformType>)
        ensures
            sequence@ == spec_transform_sequence(),
    {
        let mut s: Vec<TransformType> = Vec::new();
        s.push(TransformType::Original);
        s.push(TransformType::Brightness(20));
        s.push(TransformType::Brightness(-20));
        s.push(TransformType::Contrast(120));
        s.push(TransformType::Contrast(80));
        s.push(TransformType::Gamma(80));
        s.push(TransformType::Gamma(120));
        s.push(TransformType::BrightnessContrast(15, 130));
        s.push(TransformType::BrightnessContrast(-15, 130));
        s.push(TransformType::BrightnessContrast(25, 70));
        s.push(TransformType::BrightnessContrast(-25, 70));
        s.push(TransformType::Brightness(40));
        s.push(TransformType::Brightness(-40));
        s.push(TransformType::Contrast(150));
        s.push(TransformType::Contrast(60));
        s.push(TransformType::Gamma(50));
        s.push(TransformType::Gamma(150));
        s.push(TransformType::BilateralFilter);
        s.push(TransformType::MedianBlur(3));
        s.push(TransformType::GaussianBlur(3));
        s.push(TransformType::MedianBlur(5));
        s.push(TransformType::Sharpen);
        s.push(TransformType::MorphOpen);
        s.push(TransformType::MorphClose);
        s.push(TransformType::Brightness(60));
        s.push(TransformType::Brightness(-60));
        s.push(TransformType::Contrast(200));
        s.push(TransformType::Contrast(40));
        s.push(TransformType::Gamma(30));
        s.push(TransformType::Gamma(220));
        s.push(TransformType::BrightnessContrast(50, 180));
        s.push(TransformType::BrightnessContrast(-50, 180));
        s.push(TransformType::BrightnessContrast(40, 50));
        s.push(TransformType::BrightnessContrast(-40, 50));
        s.push(TransformType::GaussianBlur(5));
        s.push(TransformType::GaussianBlur(7));
        assert(s@ =~= spec_transform_sequence());
        s
    }

    /// The primitives of a morphological correction.
    fn morphology(op: ImageOp, channels: i32) -> (ops: Vec<ImageOp>)
        ensures
            ops@ == TransformType::spec_morphology(op, channels as int),
    {
        let mut ops: Vec<ImageOp> = Vec::new();
        if channels != 1 {
            ops.push(ImageOp::Grayscale);
        }
        ops.push(op);
        if channels == 3 {
            ops.push(ImageOp::GrayToColor);
        }
        assert(ops@ =~= TransformType::spec_morphology(op, channels as int));
        ops
    }

    /// The primitives that apply a correction to an image, in the order in
    /// which they run.
    pub fn apply_transform(&self, image: &ImageInfo, transform: TransformType) -> (ops: Vec<ImageOp>)
        ensures
            ops@ == transform.spec_ops(image.channels as int),
    {
        let mut ops: Vec<ImageOp> = Vec::new();
        match transform {
            TransformType::Original => {},
            TransformType::Brightness(value) => {
                ops.push(ImageOp::AddScalar(value));
            },
            TransformType::Contrast(value) => {
                ops.push(ImageOp::MultiplyScalar(value));
            },
            TransformType::Gamma(value) => {
                ops.push(ImageOp::Gamma(value));
            },
            TransformType::GaussianBlur(kernel) => {
                ops.push(ImageOp::GaussianBlur(odd_kernel(kernel)));
            },
            TransformType::BilateralFilter => {
                ops.push(ImageOp::BilateralFilter);
            },
            TransformType::MedianBlur(kernel) => {
                ops.push(ImageOp::MedianBlur(odd_kernel(kernel)));
            },
            TransformType::MorphOpen => {
                return Self::morphology(ImageOp::MorphOpen, image.channels);
            },
            TransformType::MorphClose => {
                return Self::morphology(ImageOp::MorphClose, image.channels);
            },
            TransformType::Sharpen => {
                ops.push(ImageOp::Sharpen);
            },
            TransformType::BrightnessContrast(b, c) => {
                ops.push(ImageOp::AddScalar(b));
                ops.push(ImageOp::MultiplyScalar(c));
            },
        }
        assert(ops@ =~= transform.spec_ops(image.channels as int));
        ops
    }

    /// The hit counts with one more hit for the correction at `index`.
    fn counted(stats: &Vec<usize>, index: usize) -> (after: Vec<usize>)
        requires
            index < stats@.len(),
        ensures
            after@ == stats@.update(index as int, spec_raised(stats@[index as int], 1) as usize),
    {
        let mut after: Vec<usize> = Vec::new();
        let mut i: usize = 0;
        while i < stats.len()
            invariant
                i <= stats.len(),
                index < stats@.len(),
                after@ == stats@.update(index as int, spec_raised(stats@[index as int], 1) as usize).take(
                    i as int,
                ),
            decreases stats.len() - i,
        {
            let count: usize = if i == index {
                raised(stats[i], 1)
            } else {
                stats[i]
            };
            after.push(count);
            assert(after@ =~= stats@.update(
                index as int,
                spec_raised(stats@[index as int], 1) as usize,
            ).take(i + 1));
            i += 1;
        }
        assert(after@ =~= stats@.update(index as int, spec_raised(stats@[index as int], 1) as usize));
        after
    }

    /// Starts a search: the first correction is to be tried.
    pub fn begin(&mut self) -> (step: SearchStep<TransformType>)
        ensures
            step == (SearchStep::Attempt { index: 0, candidate: spec_transform_sequence()[0] }),
            final(self).spec_cursor() == 0,
            final(self).spec_transform_stats() == old(self).spec_transform_stats(),
            final(self).spec_config() == old(self).spec_config(),
            final(self).spec_decoder_config() == old(self).spec_decoder_config(),
    {
        proof {
            use_type_invariant(&*self);
        }
        self.cursor = 0;
        self.started = now_millis();
        SearchStep::Attempt { index: 0, candidate: TransformType::Original }
    }

    /// The hit counts after a step of the search.
    pub open spec fn spec_stats_after(stats: Seq<usize>, cursor: int, hit: bool) -> Seq<usize> {
        if hit && 0 <= cursor < stats.len() {
            stats.update(cursor, spec_raised(stats[cursor], 1) as usize)
        } else {
            stats
        }
    }

    /// Goes on with the search, given how the attempt on the correction that
    /// was named last went.
    ///
    /// Where the attempt read anything, the search is over at once: what was
    /// read is the result, no further correction is tried, and the hit is
    /// counted for the correction. Where it read nothing or failed, the next
    /// correction is to be tried; after the last, the search is over with no
    /// result. Where no search is under way, none starts: the step is an end
    /// with no result.
    pub fn decode_with_transforms(&mut self, outcome: AttemptOutcome) -> (step: SearchStep<TransformType>)
        ensures
            match spec_advance(TRANSFORM_COUNT as int, old(self).spec_cursor(), outcome.is_hit()) {
                Advance::Next(next) => step == (SearchStep::Attempt {
                    index: next as usize,
                    candidate: spec_transform_sequence()[next],
                }) && final(self).spec_cursor() == next,
                Advance::Stop { attempts, hit } => step matches SearchStep::Finished(o)
                    && o.attempts_tried == attempts && o.results@ == (if hit {
                    outcome.results()
                } else {
                    Seq::<QRCodeResult>::empty()
                }) && final(self).spec_cursor() == TRANSFORM_COUNT,
            },
            final(self).spec_transform_stats() == Self::spec_stats_after(
                old(self).spec_transform_stats(),
                old(self).spec_cursor(),
                outcome.is_hit() && old(self).spec_cursor() < TRANSFORM_COUNT,
            ),
            final(self).spec_config() == old(self).spec_config(),
            final(self).spec_decoder_config() == old(self).spec_decoder_config(),
    {
        proof {
            use_type_invariant(&*self);
        }
        if self.cursor >= TRANSFORM_COUNT {
            self.cursor = TRANSFORM_COUNT;
            return SearchStep::Finished(SearchOutcome::finish(Vec::new(), TRANSFORM_COUNT, self.started));
        }
        let tried: usize = self.cursor;
        match outcome {
            AttemptOutcome::Decoded(results) if results.len() > 0 => {
                self.transform_stats = Self::counted(&self.transform_stats, tried);
                self.cursor = TRANSFORM_COUNT;
                SearchStep::Finished(SearchOutcome::finish(results, tried + 1, self.started))
            },
            _ => {
                if tried + 1 < TRANSFORM_COUNT {
                    self.cursor = tried + 1;
                    let sequence = self.get_transform_sequence();
                    SearchStep::Attempt { index: tried + 1, candidate: sequence[tried + 1] }
                } else {
                    self.cursor = TRANSFORM_COUNT;
                    SearchStep::Finished(SearchOutcome::finish(Vec::new(), TRANSFORM_COUNT, self.started))
                }
            },
        }
    }

    /// The lines that tell how often each correction has ended a search
    /// with a hit, the more successful first; corrections without a hit are
    /// left out.
    pub fn print_transform_stats(&self) -> (lines: Vec<String>)
        ensures
            exists|order: Seq<usize>|
                is_ranking(self.spec_transform_stats(), order) && spec_lines_of(lines@)
                    == #[trigger] spec_stats_lines(self.spec_transform_stats(), order),
    {
        proof {
            use_type_invariant(self);
        }
        let order = ranking(&self.transform_stats);
        let sequence = self.get_transform_sequence();
        let mut lines: Vec<String> = Vec::new();
        if order.len() == 0 {
            lines.push(String::from_str("📊 暂无变换统计信息"));
            assert(spec_lines_of(lines@) =~= spec_stats_lines(self.spec_transform_stats(), order@));
            return lines;
        }
        lines.push(String::from_str("📊 变换成功统计:"));
        let mut i: usize = 0;
        while i < order.len()
            invariant
                i <= order@.len(),
                is_ranking(self.transform_stats@, order@),
                self.transform_stats@.len() == TRANSFORM_COUNT,
                sequence@ == spec_transform_sequence(),
                lines@.len() == i + 1,
                lines@[0]@ == "📊 变换成功统计:"@,
                forall|j: int|
                    0 <= j < i ==> (#[trigger] lines@[j + 1])@ == spec_stats_line(
                        self.transform_stats@,
                        order@[j] as int,
                    ),
            decreases order@.len() - i,
        {
            let index: usize = order[i];
            let line = String::from_str("   ").concat(sequence[index].description().as_str()).concat(
                " : ",
            ).concat(decimal_text(self.transform_stats[index] as u128).as_str()).concat(" 次");
            lines.push(line);
            i += 1;
        }
        proof {
            let want = spec_stats_lines(self.spec_transform_stats(), order@);
            let entries = Seq::new(
                order@.len(),
                |i: int| spec_stats_line(self.transform_stats@, order@[i] as int),
            );
            assert(want == seq!["📊 变换成功统计:"@] + entries);
            assert(want.len() == order@.len() + 1);
            assert forall|j: int| 0 <= j < want.len() implies spec_lines_of(lines@)[j] == want[j] by {
                if j > 0 {
                    assert(lines@[(j - 1) + 1]@ == spec_stats_line(
                        self.transform_stats@,
                        order@[j - 1] as int,
                    ));
                    assert(want[j] == entries[j - 1]);
                }
            }
            assert(spec_lines_of(lines@) =~= want);
        }
        lines
    }

    /// For each correction, by its place in the sequence, how many searches
    /// it has ended with a hit.
    pub fn get_transform_stats(&self) -> (stats: &Vec<usize>)
        ensures
            stats@ == self.spec_transform_stats(),
    {
        &self.transform_stats
    }
}

} // verus!
