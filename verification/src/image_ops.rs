//! The image primitives that a transform is made of.
//!
//! This library decides which primitives run and in what order; running them
//! on pixels is left to the vision library of the caller. A transform is
//! therefore a list of `ImageOp`s, and an image is known here by its
//! `ImageInfo` alone.
//!
//! Factors are hundredths: a contrast of `150` multiplies by 1.5, a scale of
//! `100` leaves the size alone.

use crate::error::QRDecodeError;
use vstd::prelude::*;

verus! {

/// The factor that changes nothing, in hundredths.
pub const UNIT: u32 = 100;

/// What is known of an image.
#[derive(Debug, Clone, Copy, PartialEq, Eq, Structural)]
pub struct ImageInfo {
    /// Columns.
    pub width: i32,
    /// Rows.
    pub height: i32,
    /// Values per pixel: one for a grey image, three for a colour image.
    pub channels: i32,
    /// The code of the pixel type.
    pub depth: i32,
    /// Columns times rows.
    pub total_pixels: usize,
}

/// One image primitive.
#[derive(Debug, Clone, Copy, PartialEq, Eq, Structural)]
pub enum ImageOp {
    /// Resample to the given size, interpolating linearly.
    Resize { width: i32, height: i32 },
    /// Replace each value `v` by `alpha * v + beta`, `alpha` in hundredths.
    ConvertScale { alpha: u32, beta: i32 },
    /// Add a constant to every value.
    AddScalar(i32),
    /// Multiply every value by a factor in hundredths.
    MultiplyScalar(u32),
    /// Raise every value, taken as a share of full brightness, to a power
    /// in hundredths.
    Gamma(u32),
    /// Gaussian blur with a square kernel of the given odd side.
    GaussianBlur(i32),
    /// Edge-preserving bilateral filter: diameter 9, both sigmas 75.
    BilateralFilter,
    /// Median blur with a square kernel of the given odd side.
    MedianBlur(i32),
    /// Colour to grey.
    Grayscale,
    /// Grey to colour.
    GrayToColor,
    /// Morphological opening with a 3×3 rectangle.
    MorphOpen,
    /// Morphological closing with a 3×3 rectangle.
    MorphClose,
    /// Convolution with the 3×3 sharpening kernel.
    Sharpen,
    /// Histogram equalisation.
    EqualizeHist,
    /// Binarise with the global threshold that Otsu's method picks.
    OtsuThreshold,
    /// Binarise with a local Gaussian threshold: block 11, offset 2.
    AdaptiveThreshold,
    /// Bitwise complement.
    Invert,
}

/// A number as an `i32` can hold it: what lies beyond either end is cut
/// there.
pub open spec fn spec_clamped(v: int) -> int {
    if v > i32::MAX {
        i32::MAX as int
    } else if v < i32::MIN {
        i32::MIN as int
    } else {
        v
    }
}

/// The side of an image after scaling by `percent` hundredths: the exact
/// product, rounded towards zero.
pub open spec fn spec_scaled_side(side: int, percent: int) -> int {
    if side >= 0 {
        spec_clamped(side * percent / 100)
    } else {
        spec_clamped(-((-side) * percent / 100))
    }
}

/// The side of an image after scaling by `percent` hundredths.
pub fn scaled_side(side: i32, percent: u32) -> (s: i32)
    ensures
        s == spec_scaled_side(side as int, percent as int),
{
    let size: i128 = if side >= 0 {
        side as i128
    } else {
        -(side as i128)
    };
    let factor: i128 = percent as i128;
    assert(0 <= size * factor <= 0x8000_0000 * 0x1_0000_0000) by (nonlinear_arith)
        requires
            0 <= size <= 0x8000_0000,
            0 <= factor <= 0x1_0000_0000,
    ;
    let wide: i128 = if side >= 0 {
        size * factor / 100
    } else {
        -(size * factor / 100)
    };
    if wide > i32::MAX as i128 {
        i32::MAX
    } else if wide < i32::MIN as i128 {
        i32::MIN
    } else {
        wide as i32
    }
}

/// The kernel side that a primitive accepts for a requested side: blur
/// kernels must be odd, so an even side gives way to the next odd one.
pub open spec fn spec_odd_kernel(side: int) -> int {
    if side % 2 == 0 {
        spec_clamped(side + 1)
    } else {
        spec_clamped(side)
    }
}

/// The kernel side that a primitive accepts for a requested side.
pub fn odd_kernel(side: i32) -> (k: i32)
    ensures
        k == spec_odd_kernel(side as int),
        side >= 0 ==> k % 2 == 1,
{
    if side % 2 == 0 {
        side + 1
    } else {
        side
    }
}

impl ImageInfo {
    /// What is known of an image of the given size and pixel layout.
    pub fn new(width: i32, height: i32, channels: i32, depth: i32) -> (info: Self)
        ensures
            info.width == width,
            info.height == height,
            info.channels == channels,
            info.depth == depth,
            info.total_pixels as int == if width > 0 && height > 0 && width * height <= usize::MAX {
                width * height
            } else {
                0
            },
    {
        let wide: i64 = if width > 0 && height > 0 {
            assert(0 < (width as int) * (height as int) < 0x4000_0000_0000_0000) by (nonlinear_arith)
                requires
                    0 < width <= 0x7fff_ffff,
                    0 < height <= 0x7fff_ffff,
            ;
            (width as i64) * (height as i64)
        } else {
            0
        };
        let total_pixels: usize = if wide as u64 <= usize::MAX as u64 {
            wide as usize
        } else {
            0
        };
        Self { width, height, channels, depth, total_pixels }
    }

    /// Width over height in thousandths, rounded down; zero where the height
    /// is not positive.
    pub open spec fn spec_aspect_ratio(&self) -> int {
        if self.height <= 0 || self.width < 0 {
            0
        } else {
            self.width * 1000 / (self.height as int)
        }
    }

    /// Width over height in thousandths, rounded down; zero where the image
    /// has no height.
    pub fn aspect_ratio(&self) -> (r: u64)
        ensures
            r == self.spec_aspect_ratio(),
    {
        if self.height <= 0 || self.width < 0 {
            0
        } else {
            (self.width as u64) * 1000 / (self.height as u64)
        }
    }

    /// Whether the image has one value per pixel.
    pub fn is_grayscale(&self) -> (b: bool)
        ensures
            b == (self.channels == 1),
    {
        self.channels == 1
    }

    /// Whether the image has at least three values per pixel.
    pub fn is_color(&self) -> (b: bool)
        ensures
            b == (self.channels >= 3),
    {
        self.channels >= 3
    }
}

/// Where a primitive runs.
#[derive(Debug, Clone, Copy, PartialEq, Eq, Structural)]
pub enum Setting {
    /// The clean-up before detection.
    CleanUp,
    /// The quick search.
    QuickSearch,
    /// The exhaustive search.
    Grid,
}

/// What is said of a primitive that failed, before the reason.
pub open spec fn spec_complaint(op: ImageOp, setting: Setting) -> Seq<char> {
    match op {
        ImageOp::Resize { .. } => if setting == Setting::Grid {
            "缩放处理失败"@
        } else {
            "图像缩放失败"@
        },
        ImageOp::ConvertScale { .. } => "亮度对比度调整失败"@,
        ImageOp::AddScalar(_) => "亮度调整失败"@,
        ImageOp::MultiplyScalar(_) => "对比度调整失败"@,
        ImageOp::Gamma(_) => "伽马校正失败"@,
        ImageOp::GaussianBlur(_) => if setting == Setting::Grid {
            "模糊处理失败"@
        } else {
            "高斯模糊失败"@
        },
        ImageOp::BilateralFilter => "双边滤波失败"@,
        ImageOp::MedianBlur(_) => "中值滤波失败"@,
        ImageOp::Grayscale => "灰度转换失败"@,
        ImageOp::GrayToColor => "灰度转彩色失败"@,
        ImageOp::MorphOpen => "形态学开运算失败"@,
        ImageOp::MorphClose => "形态学闭运算失败"@,
        ImageOp::Sharpen => "锐化失败"@,
        ImageOp::EqualizeHist => "直方图均衡化失败"@,
        ImageOp::OtsuThreshold => "二值化处理失败"@,
        ImageOp::AdaptiveThreshold => "自适应阈值处理失败"@,
        ImageOp::Invert => "反色处理失败"@,
    }
}

impl ImageOp {
    /// What is said of the primitive when it fails, before the reason.
    pub fn complaint(&self, setting: Setting) -> (text: &'static str)
        ensures
            text@ == spec_complaint(*self, setting),
    {
        match self {
            ImageOp::Resize { .. } => match setting {
                Setting::Grid => "缩放处理失败",
                _ => "图像缩放失败",
            },
            ImageOp::ConvertScale { .. } => "亮度对比度调整失败",
            ImageOp::AddScalar(_) => "亮度调整失败",
            ImageOp::MultiplyScalar(_) => "对比度调整失败",
            ImageOp::Gamma(_) => "伽马校正失败",
            ImageOp::GaussianBlur(_) => match setting {
                Setting::Grid => "模糊处理失败",
                _ => "高斯模糊失败",
            },
            ImageOp::BilateralFilter => "双边滤波失败",
            ImageOp::MedianBlur(_) => "中值滤波失败",
            ImageOp::Grayscale => "灰度转换失败",
            ImageOp::GrayToColor => "灰度转彩色失败",
            ImageOp::MorphOpen => "形态学开运算失败",
            ImageOp::MorphClose => "形态学闭运算失败",
            ImageOp::Sharpen => "锐化失败",
            ImageOp::EqualizeHist => "直方图均衡化失败",
            ImageOp::OtsuThreshold => "二值化处理失败",
            ImageOp::AdaptiveThreshold => "自适应阈值处理失败",
            ImageOp::Invert => "反色处理失败",
        }
    }

    /// The error for the primitive that failed for the reason `why`.
    pub fn failure(&self, setting: Setting, why: &str) -> (e: QRDecodeError)
        ensures
            e is ImageProcessingError,
            e.detail() == spec_complaint(*self, setting) + ": "@ + why@,
    {
        QRDecodeError::image_processing_error(
            String::from_str(self.complaint(setting)).concat(": ").concat(why),
        )
    }
}

} // verus!
