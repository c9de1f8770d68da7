//! The exhaustive search: every combination of scale, contrast, brightness,
//! blur and binarisation.
//!
//! The combinations are the Cartesian product of the option lists of the
//! configuration, walked in their order or, on request, in a random one. The
//! search ends with the first combination under which anything is read; what
//! was read under it is freed of repetitions and returned. The grid is
//! finite, so the search always ends.

use crate::clock::now_millis;
use crate::dedup::{dedup, is_duplicate, spec_dedup, spec_is_duplicate};
use crate::error::QRDecodeError;
use crate::image_processor::ReadOutcome;
use crate::image_ops::{scaled_side, spec_clamped, spec_odd_kernel, spec_scaled_side, ImageInfo, ImageOp, UNIT};
use crate::search::{spec_advance, Advance, AttemptOutcome, SearchOutcome, SearchStep};
use crate::types::{Corner, QRCodeResult, QrResult};
use crate::wechat_qr_decoder::WeChatQRDecoder;
use rand::seq::SliceRandom;
use vstd::arithmetic::div_mod::lemma_fundamental_div_mod_converse;
use vstd::prelude::*;

verus! {

/// The option lists that span the grid. Factors are hundredths.
#[derive(Debug)]
pub struct BruteForceConfig {
    /// Contrast factors.
    pub contrast_options: Vec<u32>,
    /// Brightness offsets.
    pub brightness_options: Vec<i32>,
    /// Blur kernel sides; the sign plays no part, zero means no blur.
    pub blur_options: Vec<i32>,
    /// Scale factors.
    pub scale_options: Vec<u32>,
    /// A distance in pixels, kept for callers that tune their own
    /// deduplication; the search itself tells repetitions by
    /// `DUPLICATE_DISTANCE`.
    pub duplicate_threshold: u32,
    /// Whether the combinations are walked in random order.
    pub randomize: bool,
}

/// One combination of the grid. Factors are hundredths.
#[derive(Debug, Clone, Copy, PartialEq, Eq, Structural)]
pub struct TransformParams {
    /// Contrast factor.
    pub contrast: u32,
    /// Brightness offset.
    pub brightness: i32,
    /// Blur kernel side; the sign plays no part, zero means no blur.
    pub blur: i32,
    /// Scale factor.
    pub scale: u32,
    /// Whether the image is turned grey.
    pub grayscale: bool,
    /// Whether the image is binarised.
    pub binary: bool,
}

impl Default for BruteForceConfig {
    fn default() -> (c: Self)
        ensures
            c.contrast_options@ == seq![200u32, 100u32, 300u32],
            c.brightness_options@ == seq![
                (-75) as i32,
                75i32,
                (-50) as i32,
                (-25) as i32,
                (-10) as i32,
                0i32,
                25i32,
                50i32,
            ],
            c.blur_options@ == seq![
                (-7) as i32,
                (-3) as i32,
                7i32,
                3i32,
                (-1) as i32,
                5i32,
                9i32,
                11i32,
                13i32,
                15i32,
                17i32,
                19i32,
                21i32,
                23i32,
                25i32,
            ],
            c.scale_options@ == seq![20u32, 50u32, 70u32, 90u32, 130u32, 200u32],
            c.duplicate_threshold == 10,
            !c.randomize,
            c.spec_grid_len() == 4320,
    {
        let mut contrast_options: Vec<u32> = Vec::new();
        contrast_options.push(200);
        contrast_options.push(100);
        contrast_options.push(300);
        let mut brightness_options: Vec<i32> = Vec::new();
        brightness_options.push(-75);
        brightness_options.push(75);
        brightness_options.push(-50);
        brightness_options.push(-25);
        brightness_options.push(-10);
        brightness_options.push(0);
        brightness_options.push(25);
        brightness_options.push(50);
        let mut blur_options: Vec<i32> = Vec::new();
        blur_options.push(-7);
        blur_options.push(-3);
        blur_options.push(7);
        blur_options.push(3);
        blur_options.push(-1);
        blur_options.push(5);
        blur_options.push(9);
        blur_options.push(11);
        blur_options.push(13);
        blur_options.push(15);
        blur_options.push(17);
        blur_options.push(19);
        blur_options.push(21);
        blur_options.push(23);
        blur_options.push(25);
        let mut scale_options: Vec<u32> = Vec::new();
        scale_options.push(20);
        scale_options.push(50);
        scale_options.push(70);
        scale_options.push(90);
        scale_options.push(130);
        scale_options.push(200);
        assert(scale_options@.len() * contrast_options@.len() * brightness_options@.len() * blur_options@.len()
            * 2 == 4320) by (nonlinear_arith)
            requires
                scale_options@.len() == 6,
                contrast_options@.len() == 3,
                brightness_options@.len() == 8,
                blur_options@.len() == 15,
        ;
        Self {
            contrast_options,
            brightness_options,
            blur_options,
            scale_options,
            duplicate_threshold: 10,
            randomize: false,
        }
    }
}

impl BruteForceConfig {
    /// How many combinations the grid has: the product of the lengths of the
    /// four option lists, times two for binarised or not.
    pub open spec fn spec_grid_len(&self) -> nat {
        self.scale_options@.len() * self.contrast_options@.len() * self.brightness_options@.len()
            * self.blur_options@.len() * 2
    }

    /// The place in the grid of the first of the two combinations with the
    /// given indices into the option lists: scale counts slowest, then
    /// contrast, then brightness, then blur.
    pub open spec fn spec_offset(&self, scale: int, contrast: int, brightness: int, blur: int) -> int {
        (((scale * self.contrast_options@.len() + contrast) * self.brightness_options@.len()
            + brightness) * self.blur_options@.len() + blur) * 2
    }

    /// The combination at place `i` of the grid: binarised at even places,
    /// and otherwise as the digits of `i / 2` say, read in the mixed radix
    /// of the option lists.
    pub open spec fn spec_combination(&self, i: int) -> TransformParams {
        let blurs = self.blur_options@.len() as int;
        let brightnesses = self.brightness_options@.len() as int;
        let contrasts = self.contrast_options@.len() as int;
        let above_binary = i / 2;
        let above_blur = above_binary / blurs;
        let above_brightness = above_blur / brightnesses;
        TransformParams {
            contrast: self.contrast_options@[above_brightness % contrasts],
            brightness: self.brightness_options@[above_blur % brightnesses],
            blur: self.blur_options@[above_binary % blurs],
            scale: self.scale_options@[above_brightness / contrasts],
            grayscale: true,
            binary: i % 2 == 0,
        }
    }

    /// The grid: every combination, in the order in which the search walks
    /// them when it is not asked to shuffle.
    pub open spec fn spec_grid(&self) -> Seq<TransformParams> {
        Seq::new(self.spec_grid_len(), |i: int| self.spec_combination(i))
    }

    /// The combination with the given indices into the option lists stands
    /// in the grid where nested loops over scale, contrast, brightness, blur
    /// and binarisation put it.
    pub proof fn lemma_combination_at(&self, scale: int, contrast: int, brightness: int, blur: int, plain: int)
        requires
            0 <= scale,
            0 <= contrast < self.contrast_options@.len(),
            0 <= brightness < self.brightness_options@.len(),
            0 <= blur < self.blur_options@.len(),
            0 <= plain <= 1,
        ensures
            self.spec_combination(self.spec_offset(scale, contrast, brightness, blur) + plain) == (
            TransformParams {
                contrast: self.contrast_options@[contrast],
                brightness: self.brightness_options@[brightness],
                blur: self.blur_options@[blur],
                scale: self.scale_options@[scale],
                grayscale: true,
                binary: plain == 0,
            }),
    {
        let blurs = self.blur_options@.len() as int;
        let brightnesses = self.brightness_options@.len() as int;
        let contrasts = self.contrast_options@.len() as int;
        let i = self.spec_offset(scale, contrast, brightness, blur) + plain;
        let above_brightness = scale * contrasts + contrast;
        let above_blur = above_brightness * brightnesses + brightness;
        let above_binary = above_blur * blurs + blur;
        assert(i == above_binary * 2 + plain);
        lemma_fundamental_div_mod_converse(i, 2, above_binary, plain);
        lemma_fundamental_div_mod_converse(above_binary, blurs, above_blur, blur);
        lemma_fundamental_div_mod_converse(above_blur, brightnesses, above_brightness, brightness);
        lemma_fundamental_div_mod_converse(above_brightness, contrasts, scale, contrast);
    }

    /// Counting on from the last blur option carries into brightness, from
    /// the last brightness option into contrast, and from the last contrast
    /// option into scale.
    proof fn lemma_offset_carries(&self, scale: int, contrast: int, brightness: int)
        ensures
            self.spec_offset(scale, contrast, brightness, self.blur_options@.len() as int)
                == self.spec_offset(scale, contrast, brightness + 1, 0),
            self.spec_offset(scale, contrast, self.brightness_options@.len() as int, 0)
                == self.spec_offset(scale, contrast + 1, 0, 0),
            self.spec_offset(scale, self.contrast_options@.len() as int, 0, 0) == self.spec_offset(
                scale + 1,
                0,
                0,
                0,
            ),
            self.spec_offset(self.scale_options@.len() as int, 0, 0, 0) == self.spec_grid_len(),
    {
        let blurs = self.blur_options@.len() as int;
        let brightnesses = self.brightness_options@.len() as int;
        let contrasts = self.contrast_options@.len() as int;
        let scales = self.scale_options@.len() as int;
        assert((((scale * contrasts + contrast) * brightnesses + brightness) * blurs + blurs) * 2 == (((
        scale * contrasts + contrast) * brightnesses + (brightness + 1)) * blurs + 0) * 2)
            by (nonlinear_arith);
        assert((((scale * contrasts + contrast) * brightnesses + brightnesses) * blurs + 0) * 2 == (((
        scale * contrasts + (contrast + 1)) * brightnesses + 0) * blurs + 0) * 2) by (nonlinear_arith);
        assert((((scale * contrasts + contrasts) * brightnesses + 0) * blurs + 0) * 2 == ((((scale + 1)
            * contrasts + 0) * brightnesses + 0) * blurs + 0) * 2) by (nonlinear_arith);
        assert((((scales * contrasts + 0) * brightnesses + 0) * blurs + 0) * 2 == scales * contrasts
            * brightnesses * blurs * 2) by (nonlinear_arith);
    }
}

impl TransformParams {
    /// The combination that leaves every image as it is.
    pub open spec fn is_identity(self) -> bool {
        self.scale == UNIT && self.contrast == UNIT && self.brightness == 0 && self.blur == 0
            && !self.grayscale && !self.binary
    }

    /// The side of the blur kernel that the combination asks for: the sign
    /// of `blur` plays no part.
    pub open spec fn spec_blur_side(self) -> int {
        if self.blur < 0 {
            -(self.blur as int)
        } else {
            self.blur as int
        }
    }

    /// The primitives that apply the combination to an image, in the order
    /// in which they run: scale, then brightness and contrast, then blur,
    /// then grey, then binarisation, then, where `invert` asks for it,
    /// inversion. Each step is left out where it would change nothing: a
    /// scale of one, a contrast of one with no brightness offset, a blur
    /// kernel of at most one pixel. Even blur kernels take the next odd
    /// side. Binarisation works on a single channel, so it brings the grey
    /// step with it; an image that already has a single channel is not
    /// turned grey again.
    pub open spec fn spec_ops(self, invert: bool, image: ImageInfo) -> Seq<ImageOp> {
        (if self.scale != UNIT {
            seq![
                ImageOp::Resize {
                    width: spec_scaled_side(image.width as int, self.scale as int) as i32,
                    height: spec_scaled_side(image.height as int, self.scale as int) as i32,
                },
            ]
        } else {
            Seq::<ImageOp>::empty()
        }) + (if self.contrast != UNIT || self.brightness != 0 {
            seq![ImageOp::ConvertScale { alpha: self.contrast, beta: self.brightness }]
        } else {
            Seq::<ImageOp>::empty()
        }) + (if self.spec_blur_side() > 1 {
            seq![ImageOp::GaussianBlur(spec_odd_kernel(self.spec_blur_side()) as i32)]
        } else {
            Seq::<ImageOp>::empty()
        }) + (if (self.grayscale || self.binary) && image.channels != 1 {
            seq![ImageOp::Grayscale]
        } else {
            Seq::<ImageOp>::empty()
        }) + (if self.binary {
            seq![ImageOp::OtsuThreshold]
        } else {
            Seq::<ImageOp>::empty()
        }) + (if invert {
            seq![ImageOp::Invert]
        } else {
            Seq::<ImageOp>::empty()
        })
    }
}

/// A combination that asks for no change is applied by doing nothing: the
/// image comes out pixel for pixel as it went in.
pub proof fn lemma_identity_transform(params: TransformParams, image: ImageInfo)
    requires
        params.is_identity(),
    ensures
        params.spec_ops(false, image) == Seq::<ImageOp>::empty(),
{
    assert(params.spec_ops(false, image) =~= Seq::<ImageOp>::empty());
}

/// Puts the combinations into a random order.
///
/// This is `rand`'s `SliceRandom::shuffle`, fed by `thread_rng`: it swaps
/// elements in place, so whatever order comes out holds each combination as
/// often as the order that went in. Which order comes out is left open.
/// `thread_rng` gives up only where the system cannot seed it.
#[verifier::external_body]
fn shuffle(combinations: &mut Vec<TransformParams>)
    ensures
        final(combinations)@.to_multiset() == old(combinations)@.to_multiset(),
{
    let mut rng = rand::thread_rng();
    combinations.shuffle(&mut rng);
}

/// The corners of a box as a batch run records them, clockwise from the top
/// left; coordinates beyond what an `i32` holds are cut there.
pub open spec fn spec_box_points(x: int, y: int, width: int, height: int) -> Seq<Corner> {
    seq![
        (x as i32, y as i32),
        (spec_clamped(x + width) as i32, y as i32),
        (spec_clamped(x + width) as i32, spec_clamped(y + height) as i32),
        (x as i32, spec_clamped(y + height) as i32),
    ]
}

/// What a batch run records of one result.
pub open spec fn spec_recorded(r: QRCodeResult) -> (Seq<char>, Option<Seq<Corner>>) {
    (
        r.content@,
        Some(
            spec_box_points(
                r.position.x as int,
                r.position.y as int,
                r.position.width as int,
                r.position.height as int,
            ),
        ),
    )
}

/// What a `QrResult` holds.
pub open spec fn spec_record_of(q: QrResult) -> (Seq<char>, Option<Seq<Corner>>) {
    (
        q.content@,
        match q.points {
            Some(p) => Some(p@),
            None => None,
        },
    )
}

/// The sum of two coordinates, cut at what an `i32` holds.
fn clamped_sum(a: i32, b: i32) -> (s: i32)
    ensures
        s == spec_clamped(a + b),
{
    let wide: i64 = a as i64 + b as i64;
    if wide > i32::MAX as i64 {
        i32::MAX
    } else if wide < i32::MIN as i64 {
        i32::MIN
    } else {
        wide as i32
    }
}

/// The exhaustive search.
pub struct BruteForceDecoder {
    config: BruteForceConfig,
    decoder: WeChatQRDecoder,
    combinations: Vec<TransformParams>,
    cursor: usize,
    started: i64,
}

impl BruteForceDecoder {
    /// The option lists that span the grid.
    pub closed spec fn spec_config(&self) -> BruteForceConfig {
        self.config
    }

    /// The decoder that reads the transformed images.
    pub closed spec fn spec_decoder(&self) -> WeChatQRDecoder {
        self.decoder
    }

    /// The combinations of the search under way, in the order in which they
    /// are tried.
    pub closed spec fn spec_combinations(&self) -> Seq<TransformParams> {
        self.combinations@
    }

    /// The place of the combination that is being tried; at or past the
    /// number of combinations where no search is under way.
    pub closed spec fn spec_cursor(&self) -> int {
        self.cursor as int
    }

    /// A search over the default grid, reading with the given decoder.
    /// `decoder` is the outcome of building that decoder: without it there
    /// is no search, which is a `DecodeError`.
    pub fn new(decoder: Result<WeChatQRDecoder, QRDecodeError>) -> (r: Result<Self, QRDecodeError>)
        ensures
            r is Ok <==> decoder is Ok,
            r matches Ok(d) ==> d.spec_decoder() == decoder->Ok_0 && d.spec_config().spec_grid_len() == 4320
                && !d.spec_config().randomize && d.spec_combinations().len() == 0 && d.spec_cursor() == 0,
            r matches Err(e) ==> e is DecodeError && e.detail() == "创建解码器失败: "@ + (decoder->Err_0).heading()
                + (decoder->Err_0).detail(),
    {
        match decoder {
            Ok(decoder) => Ok(
                Self {
                    config: BruteForceConfig::default(),
                    decoder,
                    combinations: Vec::new(),
                    cursor: 0,
                    started: 0,
                },
            ),
            Err(e) => {
                let why = e.to_string();
                let text = String::from_str("创建解码器失败: ").concat(why.as_str());
                assert(text@ =~= "创建解码器失败: "@ + e.heading() + e.detail());
                Err(QRDecodeError::decode_error(text))
            },
        }
    }

    /// The decoder that reads the transformed images.
    pub fn decoder(&self) -> (d: &WeChatQRDecoder)
        ensures
            *d == self.spec_decoder(),
    {
        &self.decoder
    }

    /// What loading a file for the search came to, given what reading it
    /// came to: a file that could not be read is a `DecodeError`, a file that
    /// holds no pixels `InvalidInput`.
    pub fn load_image(&self, read: ReadOutcome) -> (r: Result<ImageInfo, QRDecodeError>)
        ensures
            r is Ok <==> (read matches ReadOutcome::Image(info) && info.total_pixels > 0),
            r matches Ok(info) ==> read == ReadOutcome::Image(info),
            r matches Err(e) ==> match read {
                ReadOutcome::Failed(why) => e is DecodeError && e.detail() == "加载图像失败: "@ + why@,
                ReadOutcome::Image(_) => e is InvalidInput && e.detail() == "图像为空"@,
            },
    {
        match read {
            ReadOutcome::Failed(why) => Err(
                QRDecodeError::decode_error(String::from_str("加载图像失败: ").concat(why.as_str())),
            ),
            ReadOutcome::Image(info) => {
                if info.total_pixels == 0 {
                    Err(QRDecodeError::invalid_input(String::from_str("图像为空")))
                } else {
                    Ok(info)
                }
            },
        }
    }

    /// Whether `new_result` repeats one of `existing_results`.
    pub fn is_duplicate(&self, new_result: &QRCodeResult, existing_results: &Vec<QRCodeResult>) -> (dup: bool)
        ensures
            dup == spec_is_duplicate(*new_result, existing_results@),
    {
        is_duplicate(new_result, existing_results)
    }

    /// Every combination of the grid, in the order of nested loops over
    /// scale, contrast, brightness, blur and binarisation, the last
    /// counting fastest. Every combination turns the image grey.
    pub fn generate_param_combinations(&self) -> (grid: Vec<TransformParams>)
        ensures
            grid@ == self.spec_config().spec_grid(),
            grid@.len() == self.spec_config().spec_grid_len(),
    {
        Self::grid_of(&self.config)
    }

    /// The grid that the option lists of `config` span.
    fn grid_of(config: &BruteForceConfig) -> (grid: Vec<TransformParams>)
        ensures
            grid@ == config.spec_grid(),
    {
        let mut grid: Vec<TransformParams> = Vec::new();
        let scales: usize = config.scale_options.len();
        let contrasts: usize = config.contrast_options.len();
        let brightnesses: usize = config.brightness_options.len();
        let blurs: usize = config.blur_options.len();
        let mut s: usize = 0;
        proof {
            assert(config.spec_offset(0, 0, 0, 0) == 0) by (nonlinear_arith)
                requires
                    config.spec_offset(0, 0, 0, 0) == (((0 * config.contrast_options@.len() + 0)
                        * config.brightness_options@.len() + 0) * config.blur_options@.len() + 0) * 2,
            ;
            assert(grid@ =~= Seq::new(0, |i: int| config.spec_combination(i)));
        }
        while s < scales
            invariant
                s <= scales,
                scales == config.scale_options@.len(),
                contrasts == config.contrast_options@.len(),
                brightnesses == config.brightness_options@.len(),
                blurs == config.blur_options@.len(),
                0 <= config.spec_offset(s as int, 0, 0, 0),
                grid@ == Seq::new(
                    config.spec_offset(s as int, 0, 0, 0) as nat,
                    |i: int| config.spec_combination(i),
                ),
            decreases scales - s,
        {
            let mut c: usize = 0;
            while c < contrasts
                invariant
                    s < scales,
                    c <= contrasts,
                    scales == config.scale_options@.len(),
                    contrasts == config.contrast_options@.len(),
                    brightnesses == config.brightness_options@.len(),
                    blurs == config.blur_options@.len(),
                    0 <= config.spec_offset(s as int, c as int, 0, 0),
                    grid@ == Seq::new(
                        config.spec_offset(s as int, c as int, 0, 0) as nat,
                        |i: int| config.spec_combination(i),
                    ),
                decreases contrasts - c,
            {
                let mut b: usize = 0;
                while b < brightnesses
                    invariant
                        s < scales,
                        c < contrasts,
                        b <= brightnesses,
                        scales == config.scale_options@.len(),
                        contrasts == config.contrast_options@.len(),
                        brightnesses == config.brightness_options@.len(),
                        blurs == config.blur_options@.len(),
                        0 <= config.spec_offset(s as int, c as int, b as int, 0),
                        grid@ == Seq::new(
                            config.spec_offset(s as int, c as int, b as int, 0) as nat,
                            |i: int| config.spec_combination(i),
                        ),
                    decreases brightnesses - b,
                {
                    let mut l: usize = 0;
                    while l < blurs
                        invariant
                            s < scales,
                            c < contrasts,
                            b < brightnesses,
                            l <= blurs,
                            scales == config.scale_options@.len(),
                            contrasts == config.contrast_options@.len(),
                            brightnesses == config.brightness_options@.len(),
                            blurs == config.blur_options@.len(),
                            0 <= config.spec_offset(s as int, c as int, b as int, l as int),
                            grid@ == Seq::new(
                                config.spec_offset(s as int, c as int, b as int, l as int) as nat,
                                |i: int| config.spec_combination(i),
                            ),
                        decreases blurs - l,
                    {
                        let ghost at = config.spec_offset(s as int, c as int, b as int, l as int);
                        let binarised = TransformParams {
                            contrast: config.contrast_options[c],
                            brightness: config.brightness_options[b],
                            blur: config.blur_options[l],
                            scale: config.scale_options[s],
                            grayscale: true,
                            binary: true,
                        };
                        let plain = TransformParams { binary: false, ..binarised };
                        proof {
                            config.lemma_combination_at(s as int, c as int, b as int, l as int, 0);
                            config.lemma_combination_at(s as int, c as int, b as int, l as int, 1);
                        }
                        grid.push(binarised);
                        grid.push(plain);
                        assert(grid@ =~= Seq::new((at + 2) as nat, |i: int| config.spec_combination(i)));
                        l += 1;
                    }
                    proof {
                        config.lemma_offset_carries(s as int, c as int, b as int);
                    }
                    b += 1;
                }
                proof {
                    config.lemma_offset_carries(s as int, c as int, b as int);
                }
                c += 1;
            }
            proof {
                config.lemma_offset_carries(s as int, c as int, 0);
            }
            s += 1;
        }
        proof {
            config.lemma_offset_carries(s as int, 0, 0);
        }
        grid
    }

    /// The primitives that apply a combination to an image, in the order in
    /// which they run; with `invert`, the image is inverted at the end.
    pub fn apply_transform(&self, image: &ImageInfo, params: &TransformParams, invert: bool) -> (ops: Vec<ImageOp>)
        ensures
            ops@ == params.spec_ops(invert, *image),
            params.is_identity() && !invert ==> ops@.len() == 0,
    {
        let mut ops: Vec<ImageOp> = Vec::new();
        if params.scale != UNIT {
            ops.push(
                ImageOp::Resize {
                    width: scaled_side(image.width, params.scale),
                    height: scaled_side(image.height, params.scale),
                },
            );
        }
        if params.contrast != UNIT || params.brightness != 0 {
            ops.push(ImageOp::ConvertScale { alpha: params.contrast, beta: params.brightness });
        }
        let side: i64 = if params.blur < 0 {
            -(params.blur as i64)
        } else {
            params.blur as i64
        };
        if side > 1 {
            let odd: i64 = if side % 2 == 0 {
                side + 1
            } else {
                side
            };
            let kernel: i32 = if odd > i32::MAX as i64 {
                i32::MAX
            } else {
                odd as i32
            };
            ops.push(ImageOp::GaussianBlur(kernel));
        }
        if (params.grayscale || params.binary) && image.channels != 1 {
            ops.push(ImageOp::Grayscale);
        }
        if params.binary {
            ops.push(ImageOp::OtsuThreshold);
        }
        if invert {
            ops.push(ImageOp::Invert);
        }
        assert(ops@ =~= params.spec_ops(invert, *image));
        ops
    }

    /// Starts a search over the grid, shuffled where `randomize` asks for
    /// it: the first combination is to be tried. An empty grid ends the
    /// search on the spot.
    pub fn begin(&mut self, randomize: bool) -> (step: SearchStep<TransformParams>)
        ensures
            final(self).spec_combinations().to_multiset() == old(self).spec_config().spec_grid().to_multiset(),
            !randomize ==> final(self).spec_combinations() == old(self).spec_config().spec_grid(),
            final(self).spec_combinations().len() == old(self).spec_config().spec_grid_len(),
            final(self).spec_cursor() == 0,
            final(self).spec_decoder() == old(self).spec_decoder(),
            final(self).spec_config() == (BruteForceConfig { randomize, ..old(self).spec_config() }),
            if final(self).spec_combinations().len() > 0 {
                step == (SearchStep::Attempt { index: 0, candidate: final(self).spec_combinations()[0] })
            } else {
                step matches SearchStep::Finished(o) && o.results@.len() == 0 && o.attempts_tried == 0
            },
    {
        self.config.randomize = randomize;
        let mut combinations = Self::grid_of(&self.config);
        if randomize {
            shuffle(&mut combinations);
        }
        proof {
            assert(self.config.spec_grid() =~= old(self).config.spec_grid());
            combinations@.to_multiset_ensures();
            self.config.spec_grid().to_multiset_ensures();
        }
        self.combinations = combinations;
        self.cursor = 0;
        self.started = now_millis();
        if self.combinations.len() > 0 {
            SearchStep::Attempt { index: 0, candidate: self.combinations[0] }
        } else {
            SearchStep::Finished(SearchOutcome::finish(Vec::new(), 0, self.started))
        }
    }

    /// Goes on with the search, given how the attempt on the combination
    /// that was named last went.
    ///
    /// Where the attempt read anything, the search is over at once: what was
    /// read, freed of repetitions, is the result, and no further combination
    /// is tried. Where it read nothing or failed, the next combination is to
    /// be tried; after the last, the search is over with no result. Where no
    /// search is under way, none starts: the step is an end with no result.
    pub fn detect_and_decode(&mut self, outcome: AttemptOutcome) -> (step: SearchStep<TransformParams>)
        ensures
            match spec_advance(
                old(self).spec_combinations().len() as int,
                old(self).spec_cursor(),
                outcome.is_hit(),
            ) {
                Advance::Next(next) => step == (SearchStep::Attempt {
                    index: next as usize,
                    candidate: old(self).spec_combinations()[next],
                }) && final(self).spec_cursor() == next,
                Advance::Stop { attempts, hit } => step matches SearchStep::Finished(o)
                    && o.attempts_tried == attempts && o.results@ == (if hit {
                    spec_dedup(outcome.results())
                } else {
                    Seq::<QRCodeResult>::empty()
                }) && final(self).spec_cursor() == old(self).spec_combinations().len(),
            },
            final(self).spec_combinations() == old(self).spec_combinations(),
            final(self).spec_decoder() == old(self).spec_decoder(),
            final(self).spec_config() == old(self).spec_config(),
    {
        let count: usize = self.combinations.len();
        if self.cursor >= count {
            self.cursor = count;
            return SearchStep::Finished(SearchOutcome::finish(Vec::new(), count, self.started));
        }
        let tried: usize = self.cursor;
        match outcome {
            AttemptOutcome::Decoded(results) if results.len() > 0 => {
                self.cursor = count;
                SearchStep::Finished(SearchOutcome::finish(dedup(results), tried + 1, self.started))
            },
            _ => {
                if tried + 1 < count {
                    self.cursor = tried + 1;
                    SearchStep::Attempt { index: tried + 1, candidate: self.combinations[tried + 1] }
                } else {
                    self.cursor = count;
                    SearchStep::Finished(SearchOutcome::finish(Vec::new(), count, self.started))
                }
            },
        }
    }

    /// What a batch run records of the results of a search: the text of
    /// each code and the four corners of its bounding box, clockwise from
    /// the top left.
    pub fn decode_with_brute_force(&self, found: &Vec<QRCodeResult>) -> (recorded: Vec<QrResult>)
        ensures
            recorded@.len() == found@.len(),
            forall|i: int|
                0 <= i < found@.len() ==> spec_record_of(#[trigger] recorded@[i]) == spec_recorded(found@[i]),
    {
        let mut recorded: Vec<QrResult> = Vec::new();
        let mut i: usize = 0;
        while i < found.len()
            invariant
                i <= found.len(),
                recorded@.len() == i,
                forall|j: int|
                    0 <= j < i ==> spec_record_of(#[trigger] recorded@[j]) == spec_recorded(found@[j]),
            decreases found.len() - i,
        {
            let r = &found[i];
            let right: i32 = clamped_sum(r.position.x, r.position.width);
            let bottom: i32 = clamped_sum(r.position.y, r.position.height);
            let mut points: Vec<Corner> = Vec::new();
            points.push((r.position.x, r.position.y));
            points.push((right, r.position.y));
            points.push((right, bottom));
            points.push((r.position.x, bottom));
            assert(points@ =~= spec_box_points(
                r.position.x as int,
                r.position.y as int,
                r.position.width as int,
                r.position.height as int,
            ));
            recorded.push(QrResult { content: r.content.clone(), points: Some(points) });
            i += 1;
        }
        recorded
    }
}

} // verus!
