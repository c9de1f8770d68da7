//! The values that travel through the pipeline.
//!
//! Positions are whole pixels of the source image. Confidences are
//! thousandths: `1000` stands for certainty, `0` for none.

use crate::cli::Args;
use crate::clock::now_millis;
use crate::error::QRDecodeError;
use crate::formats::{eq_ignore_ascii_case, same_ignoring_case};
use vstd::prelude::*;

verus! {

/// The confidence that stands for certainty.
pub const CONFIDENCE_MAX: u32 = 1000;

/// A corner of a detected code: `(x, y)` in whole pixels.
pub type Corner = (i32, i32);

/// A decoded code as a batch run records it.
#[derive(Debug, Clone)]
pub struct QrResult {
    /// The decoded text.
    pub content: String,
    /// The corners of the code, where they are known.
    pub points: Option<Vec<Corner>>,
}

/// Where a code lies in the image: its axis-aligned bounding box.
#[derive(Debug, Clone)]
pub struct QRPosition {
    /// Left edge.
    pub x: i32,
    /// Top edge.
    pub y: i32,
    /// Extent to the right of `x`.
    pub width: i32,
    /// Extent below `y`.
    pub height: i32,
    /// The corners that the box was drawn around, where they are known.
    pub corners: Option<Vec<Corner>>,
}

/// What a `QRPosition` is, as mathematics.
pub struct PositionModel {
    pub x: int,
    pub y: int,
    pub width: int,
    pub height: int,
    pub corners: Option<Seq<Corner>>,
}

impl View for QRPosition {
    type V = PositionModel;

    open spec fn view(&self) -> PositionModel {
        PositionModel {
            x: self.x as int,
            y: self.y as int,
            width: self.width as int,
            height: self.height as int,
            corners: match self.corners {
                Some(c) => Some(c@),
                None => None,
            },
        }
    }
}

impl PositionModel {
    /// The centre of the box, in half pixels, so that it is exact.
    pub open spec fn center(self) -> (int, int) {
        (2 * self.x + self.width, 2 * self.y + self.height)
    }

    /// Width times height.
    pub open spec fn area(self) -> int {
        self.width * self.height
    }
}

impl QRPosition {
    /// A box without corners.
    pub fn new(x: i32, y: i32, width: i32, height: i32) -> (p: Self)
        ensures
            p@ == (PositionModel { x: x as int, y: y as int, width: width as int, height: height as int, corners: None }),
    {
        Self { x, y, width, height, corners: None }
    }

    /// The same box, drawn around `corners`.
    pub fn with_corners(self, corners: Vec<Corner>) -> (p: Self)
        ensures
            p@ == (PositionModel { corners: Some(corners@), ..self@ }),
    {
        Self { x: self.x, y: self.y, width: self.width, height: self.height, corners: Some(corners) }
    }

    /// The centre of the box in half pixels: `(2x + width, 2y + height)`.
    pub fn center(&self) -> (c: (i64, i64))
        ensures
            (c.0 as int, c.1 as int) == self@.center(),
    {
        (2 * (self.x as i64) + self.width as i64, 2 * (self.y as i64) + self.height as i64)
    }

    /// The area of the box in square pixels.
    pub fn area(&self) -> (a: i64)
        ensures
            a == self@.area(),
    {
        let w: i64 = self.width as i64;
        let h: i64 = self.height as i64;
        assert(-0x8000_0000 <= w <= 0x7fff_ffff && -0x8000_0000 <= h <= 0x7fff_ffff ==> -0x4000_0000_0000_0000
            <= w * h <= 0x4000_0000_0000_0000) by (nonlinear_arith);
        w * h
    }
}

/// One decoded code.
#[derive(Debug, Clone)]
pub struct QRCodeResult {
    /// The decoded text.
    pub content: String,
    /// Where the code lies.
    pub position: QRPosition,
    /// How far the detection is trusted, in thousandths.
    pub confidence: u32,
    /// The kind of symbol, which also tells the backend that found it.
    pub qr_type: String,
    /// When the result was produced: milliseconds since 1970-01-01 UTC.
    pub timestamp: i64,
    /// The undecoded payload, where the backend hands it out.
    pub raw_bytes: Option<Vec<u8>>,
}

/// What a `QRCodeResult` is, as mathematics. The moment of its production is
/// no part of it.
pub struct DetectionModel {
    pub content: Seq<char>,
    pub position: PositionModel,
    pub confidence: int,
    pub qr_type: Seq<char>,
    pub raw_bytes: Option<Seq<u8>>,
}

impl View for QRCodeResult {
    type V = DetectionModel;

    open spec fn view(&self) -> DetectionModel {
        DetectionModel {
            content: self.content@,
            position: self.position@,
            confidence: self.confidence as int,
            qr_type: self.qr_type@,
            raw_bytes: match self.raw_bytes {
                Some(b) => Some(b@),
                None => None,
            },
        }
    }
}

impl DetectionModel {
    /// A result that may be reported: it has text and some confidence.
    pub open spec fn is_valid(self) -> bool {
        self.content.len() > 0 && self.confidence > 0
    }
}

/// The models of a run of results, in order.
pub open spec fn detection_models(results: Seq<QRCodeResult>) -> Seq<DetectionModel> {
    Seq::new(results.len(), |i: int| results[i]@)
}

impl QRCodeResult {
    /// A result stamped with the present moment.
    pub fn new(content: String, position: QRPosition, confidence: u32, qr_type: String) -> (r: Self)
        ensures
            r@ == (DetectionModel {
                content: content@,
                position: position@,
                confidence: confidence as int,
                qr_type: qr_type@,
                raw_bytes: None,
            }),
    {
        Self { content, position, confidence, qr_type, timestamp: now_millis(), raw_bytes: None }
    }

    /// The same result, with its undecoded payload.
    pub fn with_raw_bytes(self, raw_bytes: Vec<u8>) -> (r: Self)
        ensures
            r@ == (DetectionModel { raw_bytes: Some(raw_bytes@), ..self@ }),
            r.timestamp == self.timestamp,
    {
        Self {
            content: self.content,
            position: self.position,
            confidence: self.confidence,
            qr_type: self.qr_type,
            timestamp: self.timestamp,
            raw_bytes: Some(raw_bytes),
        }
    }

    /// Whether the result may be reported.
    pub fn is_valid(&self) -> (b: bool)
        ensures
            b == self@.is_valid(),
    {
        !self.content.as_str().is_empty() && self.confidence > 0
    }
}

/// How results are written out.
#[derive(Debug, Clone, Copy, PartialEq, Eq, Structural)]
pub enum OutputFormat {
    /// The decoded text alone.
    Text,
    /// JSON.
    Json,
    /// Comma-separated values.
    Csv,
    /// A report with every detail.
    Verbose,
}

impl OutputFormat {
    /// The format that a word names, the case of ASCII letters aside:
    /// `text` or `txt`, `json`, `csv`, `verbose` or `v`.
    pub open spec fn spec_named(word: Seq<char>) -> Option<OutputFormat> {
        if same_ignoring_case(word, "text"@) || same_ignoring_case(word, "txt"@) {
            Some(OutputFormat::Text)
        } else if same_ignoring_case(word, "json"@) {
            Some(OutputFormat::Json)
        } else if same_ignoring_case(word, "csv"@) {
            Some(OutputFormat::Csv)
        } else if same_ignoring_case(word, "verbose"@) || same_ignoring_case(word, "v"@) {
            Some(OutputFormat::Verbose)
        } else {
            None
        }
    }

    /// The format that `word` names. A word that names none is
    /// `InvalidInput`.
    pub fn from_str(word: &str) -> (r: Result<OutputFormat, QRDecodeError>)
        ensures
            match r {
                Ok(format) => Self::spec_named(word@) == Some(format),
                Err(e) => Self::spec_named(word@) is None && e is InvalidInput && e.detail()
                    == "不支持的输出格式: "@ + word@,
            },
    {
        if eq_ignore_ascii_case(word, "text") || eq_ignore_ascii_case(word, "txt") {
            Ok(OutputFormat::Text)
        } else if eq_ignore_ascii_case(word, "json") {
            Ok(OutputFormat::Json)
        } else if eq_ignore_ascii_case(word, "csv") {
            Ok(OutputFormat::Csv)
        } else if eq_ignore_ascii_case(word, "verbose") || eq_ignore_ascii_case(word, "v") {
            Ok(OutputFormat::Verbose)
        } else {
            Err(QRDecodeError::invalid_input(String::from_str("不支持的输出格式: ").concat(word)))
        }
    }
}

/// Everything that steers the processing of one image.
#[derive(Debug)]
pub struct ProcessingConfig {
    /// The image to read.
    pub input_path: String,
    /// Where the results go; standard output where absent.
    pub output_path: Option<String>,
    /// How the results are written.
    pub output_format: OutputFormat,
    /// Whether the image is cleaned up before detection.
    pub preprocess: bool,
    /// Whether progress is narrated.
    pub verbose: bool,
    /// Whether positions are written with the text.
    pub show_position: bool,
    /// Results below this confidence are dropped, in thousandths.
    pub min_confidence: u32,
    /// Whether the cleaned-up image is kept.
    pub save_processed: bool,
    /// Where the cleaned-up image is kept.
    pub processed_output_path: Option<String>,
    /// Whether the exhaustive search runs when the quick one finds nothing.
    pub brute_force: bool,
    /// How many codes the image is expected to hold.
    pub expected_count: usize,
    /// Whether the exhaustive search walks its candidates in random order.
    pub randomize: bool,
    /// Whether the image is inverted before detection.
    pub invert: bool,
}

impl Default for ProcessingConfig {
    fn default() -> (c: Self)
        ensures
            c.input_path@.len() == 0,
            c.output_path is None,
            c.output_format == OutputFormat::Text,
            c.preprocess,
            !c.verbose,
            !c.show_position,
            c.min_confidence == 0,
            !c.save_processed,
            c.processed_output_path is None,
            !c.brute_force,
            c.expected_count == 1,
            !c.randomize,
            !c.invert,
    {
        Self {
            input_path: String::new(),
            output_path: None,
            output_format: OutputFormat::Text,
            preprocess: true,
            verbose: false,
            show_position: false,
            min_confidence: 0,
            save_processed: false,
            processed_output_path: None,
            brute_force: false,
            expected_count: 1,
            randomize: false,
            invert: false,
        }
    }
}

/// A copy of an optional text.
pub fn copy_optional_text(text: &Option<String>) -> (copy: Option<String>)
    ensures
        copy == *text,
{
    match text {
        Some(t) => Some(t.clone()),
        None => None,
    }
}

impl Clone for ProcessingConfig {
    fn clone(&self) -> (c: Self)
        ensures
            c == *self,
    {
        Self {
            input_path: self.input_path.clone(),
            output_path: copy_optional_text(&self.output_path),
            output_format: self.output_format,
            preprocess: self.preprocess,
            verbose: self.verbose,
            show_position: self.show_position,
            min_confidence: self.min_confidence,
            save_processed: self.save_processed,
            processed_output_path: copy_optional_text(&self.processed_output_path),
            brute_force: self.brute_force,
            expected_count: self.expected_count,
            randomize: self.randomize,
            invert: self.invert,
        }
    }
}

impl ProcessingConfig {
    /// The configuration that the arguments of a run ask for.
    pub fn from_args(args: &Args) -> (r: Result<Self, QRDecodeError>)
        ensures
            r matches Ok(c) && c == (ProcessingConfig {
                input_path: args.input_path,
                output_path: args.output_path,
                output_format: args.output_format,
                preprocess: args.preprocess,
                verbose: args.verbose,
                show_position: args.show_position,
                min_confidence: args.min_confidence,
                save_processed: args.save_processed,
                processed_output_path: args.processed_output_path,
                brute_force: args.brute_force,
                expected_count: args.expected_count,
                randomize: args.randomize,
                invert: args.invert,
            }),
    {
        Ok(
            Self {
                input_path: args.input_path.clone(),
                output_path: copy_optional_text(&args.output_path),
                output_format: args.output_format,
                preprocess: args.preprocess,
                verbose: args.verbose,
                show_position: args.show_position,
                min_confidence: args.min_confidence,
                save_processed: args.save_processed,
                processed_output_path: copy_optional_text(&args.processed_output_path),
                brute_force: args.brute_force,
                expected_count: args.expected_count,
                randomize: args.randomize,
                invert: args.invert,
            },
        )
    }

    /// Whether the configuration can be run, given whether its input exists.
    pub open spec fn spec_validate(&self, input_exists: bool) -> bool {
        input_exists && self.min_confidence <= CONFIDENCE_MAX
    }

    /// Checks the configuration before a run. `input_exists` says whether
    /// `input_path` names something on disk.
    ///
    /// A missing input is reported first, then a confidence threshold above
    /// certainty; both as `InvalidInput`.
    pub fn validate(&self, input_exists: bool) -> (r: Result<(), QRDecodeError>)
        ensures
            r is Ok <==> self.spec_validate(input_exists),
            r matches Err(e) ==> e is InvalidInput && e.detail() == if input_exists {
                "置信度阈值必须在 0.0 到 1.0 之间"@
            } else {
                "输入文件不存在: "@ + self.input_path@
            },
    {
        if !input_exists {
            return Err(
                QRDecodeError::invalid_input(
                    String::from_str("输入文件不存在: ").concat(self.input_path.as_str()),
                ),
            );
        }
        if self.min_confidence > CONFIDENCE_MAX {
            return Err(QRDecodeError::invalid_input(String::from_str("置信度阈值必须在 0.0 到 1.0 之间")));
        }
        Ok(())
    }
}

/// Which clean-up steps run before detection, and how.
#[derive(Debug, Clone)]
pub struct ImageProcessingParams {
    /// Convert to a single channel.
    pub to_grayscale: bool,
    /// Smooth with a Gaussian kernel.
    pub gaussian_blur: bool,
    /// The side of that kernel.
    pub blur_kernel_size: i32,
    /// Equalise the histogram.
    pub histogram_equalization: bool,
    /// Binarise with a local threshold.
    pub adaptive_threshold: bool,
    /// Resize by this factor, in hundredths: `100` leaves the size alone.
    pub scale_factor: u32,
}

impl Default for ImageProcessingParams {
    fn default() -> (p: Self)
        ensures
            p.to_grayscale,
            p.gaussian_blur,
            p.blur_kernel_size == 3,
            p.histogram_equalization,
            !p.adaptive_threshold,
            p.scale_factor == 100,
    {
        Self {
            to_grayscale: true,
            gaussian_blur: true,
            blur_kernel_size: 3,
            histogram_equalization: true,
            adaptive_threshold: false,
            scale_factor: 100,
        }
    }
}

} // verus!
