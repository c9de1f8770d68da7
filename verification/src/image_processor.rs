//! Getting an image ready for detection.
//!
//! Reading and writing pixels is the caller's part. This module says which
//! files may be read, which images are fit for detection, and which
//! primitives clean an image up, in what order.

use crate::error::QRDecodeError;
use crate::formats::{
    extension_of, is_supported_format, lowered, spec_extension, spec_is_supported, spec_lowered,
    spec_supported_formats,
};
use crate::image_ops::{odd_kernel, scaled_side, spec_odd_kernel, spec_scaled_side, ImageInfo, ImageOp, UNIT};
use crate::types::{ImageProcessingParams, ProcessingConfig};
use vstd::prelude::*;

verus! {

/// Images with a side below this many pixels are too small for detection.
pub const MIN_SIDE: i32 = 50;

/// Images with more pixels than this are too large for detection.
pub const MAX_PIXELS: usize = 50_000_000;

/// What reading an image file came to.
#[derive(Debug)]
pub enum ReadOutcome {
    /// The vision library could not read the file; the text says why.
    Failed(String),
    /// The file was read; this is what came out, possibly an image with no
    /// pixels.
    Image(ImageInfo),
}

/// The preparation of images for detection.
pub struct ImageProcessor {
    config: ProcessingConfig,
    params: ImageProcessingParams,
}

/// The primitives that turn an image with the given number of channels
/// grey: none where it already has a single channel.
pub open spec fn spec_to_gray(channels: int) -> Seq<ImageOp> {
    if channels == 1 {
        Seq::empty()
    } else {
        seq![ImageOp::Grayscale]
    }
}

/// The clean-up that `params` asks for, for an image as `image` describes
/// it. The steps run in this order, each only where it is switched on:
/// scaling, unless the factor is one; grey; Gaussian blur, with an odd
/// kernel; histogram equalisation; local thresholding. The last two work on
/// a single channel and turn the image grey first where it is not.
pub open spec fn spec_preprocess(params: ImageProcessingParams, image: ImageInfo) -> Seq<ImageOp> {
    let gray_after_first = params.to_grayscale || image.channels == 1;
    let gray_after_equalise = gray_after_first || params.histogram_equalization;
    (if params.scale_factor != UNIT {
        seq![
            ImageOp::Resize {
                width: spec_scaled_side(image.width as int, params.scale_factor as int) as i32,
                height: spec_scaled_side(image.height as int, params.scale_factor as int) as i32,
            },
        ]
    } else {
        Seq::<ImageOp>::empty()
    }) + (if params.to_grayscale {
        spec_to_gray(image.channels as int)
    } else {
        Seq::<ImageOp>::empty()
    }) + (if params.gaussian_blur {
        seq![ImageOp::GaussianBlur(spec_odd_kernel(params.blur_kernel_size as int) as i32)]
    } else {
        Seq::<ImageOp>::empty()
    }) + (if params.histogram_equalization {
        (if gray_after_first {
            Seq::<ImageOp>::empty()
        } else {
            seq![ImageOp::Grayscale]
        }) + seq![ImageOp::EqualizeHist]
    } else {
        Seq::<ImageOp>::empty()
    }) + (if params.adaptive_threshold {
        (if gray_after_equalise {
            Seq::<ImageOp>::empty()
        } else {
            seq![ImageOp::Grayscale]
        }) + seq![ImageOp::AdaptiveThreshold]
    } else {
        Seq::<ImageOp>::empty()
    })
}

/// Whether a file may be read: it is there, and its extension, where it
/// has one, is that of a known image format.
pub open spec fn spec_readable(present: bool, path: Seq<char>) -> bool {
    present && (spec_extension(path) is Some ==> spec_is_supported(
        spec_extension(path),
        spec_supported_formats(),
    ))
}

/// Whether an image is fit for detection: no side under `MIN_SIDE`, no more
/// than `MAX_PIXELS` pixels.
pub open spec fn spec_fit_for_detection(info: ImageInfo) -> bool {
    info.width >= MIN_SIDE && info.height >= MIN_SIDE && info.total_pixels <= MAX_PIXELS
}

impl ImageProcessor {
    /// The configuration that the processor was built with.
    pub closed spec fn spec_config(&self) -> ProcessingConfig {
        self.config
    }

    /// The clean-up that the processor applies.
    pub closed spec fn spec_params(&self) -> ImageProcessingParams {
        self.params
    }

    /// A processor with the usual clean-up: grey, a 3×3 Gaussian blur and
    /// histogram equalisation.
    pub fn new(config: &ProcessingConfig) -> (p: Self)
        ensures
            p.spec_config() == *config,
            p.spec_params().to_grayscale,
            p.spec_params().gaussian_blur,
            p.spec_params().blur_kernel_size == 3,
            p.spec_params().histogram_equalization,
            !p.spec_params().adaptive_threshold,
            p.spec_params().scale_factor == 100,
    {
        Self { config: config.clone(), params: ImageProcessingParams::default() }
    }

    /// A processor with a clean-up of the caller's choosing.
    pub fn with_params(config: &ProcessingConfig, params: ImageProcessingParams) -> (p: Self)
        ensures
            p.spec_config() == *config,
            p.spec_params() == params,
    {
        Self { config: config.clone(), params }
    }

    /// The clean-up that the processor applies.
    pub fn params(&self) -> (p: &ImageProcessingParams)
        ensures
            *p == self.spec_params(),
    {
        &self.params
    }

    /// Whether the file at `path` may be read at all. `present` says
    /// whether there is such a file.
    ///
    /// A missing file is `InvalidInput`. A file whose extension is not that
    /// of a known image format is `UnsupportedFormat`; a file without
    /// extension is given the benefit of the doubt.
    pub fn check_readable(&self, path: &str, present: bool) -> (r: Result<(), QRDecodeError>)
        ensures
            r is Ok <==> spec_readable(present, path@),
            r matches Err(e) ==> if !present {
                e is InvalidInput && e.detail() == "图像文件不存在: "@ + path@
            } else {
                e is UnsupportedFormat && e.detail() == "不支持的图像格式: "@ + spec_lowered(
                    spec_extension(path@).unwrap(),
                )
            },
    {
        if !present {
            return Err(QRDecodeError::invalid_input(String::from_str("图像文件不存在: ").concat(path)));
        }
        match extension_of(path) {
            Some(e) => {
                if !is_supported_format(Some(e)) {
                    return Err(
                        QRDecodeError::UnsupportedFormat(
                            String::from_str("不支持的图像格式: ").concat(lowered(e).as_str()),
                        ),
                    );
                }
            },
            None => {},
        }
        Ok(())
    }

    /// What loading the file at `path` came to, given what reading it came
    /// to.
    ///
    /// A file that could not be read and a file that holds no pixels are
    /// both `ImageProcessingError`s.
    pub fn load_image(&self, path: &str, read: ReadOutcome) -> (r: Result<ImageInfo, QRDecodeError>)
        ensures
            r is Ok <==> (read matches ReadOutcome::Image(info) && info.total_pixels > 0),
            r matches Ok(info) ==> read == ReadOutcome::Image(info),
            r matches Err(e) ==> e is ImageProcessingError && e.detail() == match read {
                ReadOutcome::Failed(why) => "无法加载图像 "@ + path@ + ": "@ + why@,
                ReadOutcome::Image(_) => "加载的图像为空: "@ + path@,
            },
    {
        match read {
            ReadOutcome::Failed(why) => Err(
                QRDecodeError::image_processing_error(
                    String::from_str("无法加载图像 ").concat(path).concat(": ").concat(why.as_str()),
                ),
            ),
            ReadOutcome::Image(info) => {
                if info.total_pixels == 0 {
                    Err(
                        QRDecodeError::image_processing_error(
                            String::from_str("加载的图像为空: ").concat(path),
                        ),
                    )
                } else {
                    Ok(info)
                }
            },
        }
    }

    /// What saving an image at `path` came to, given what writing the file
    /// came to: `written` holds the reason where it could not be written,
    /// which is an `ImageProcessingError`.
    pub fn save_image(&self, path: &str, written: Result<(), String>) -> (r: Result<(), QRDecodeError>)
        ensures
            r is Ok <==> written is Ok,
            r matches Err(e) ==> e is ImageProcessingError && e.detail() == "保存图像失败 "@ + path@ + ": "@
                + written->Err_0@,
    {
        match written {
            Ok(()) => Ok(()),
            Err(why) => Err(
                QRDecodeError::image_processing_error(
                    String::from_str("保存图像失败 ").concat(path).concat(": ").concat(why.as_str()),
                ),
            ),
        }
    }

    /// The primitives that clean an image up before detection, in the order
    /// in which they run.
    pub fn preprocess_image(&self, image: &ImageInfo) -> (ops: Vec<ImageOp>)
        ensures
            ops@ == spec_preprocess(self.spec_params(), *image),
    {
        let mut ops: Vec<ImageOp> = Vec::new();
        let mut gray: bool = image.channels == 1;
        if self.params.scale_factor != UNIT {
            ops.push(self.resize_image(image, self.params.scale_factor));
        }
        if self.params.to_grayscale {
            if !gray {
                ops.push(ImageOp::Grayscale);
            }
            gray = true;
        }
        if self.params.gaussian_blur {
            ops.push(self.apply_gaussian_blur(self.params.blur_kernel_size));
        }
        if self.params.histogram_equalization {
            if !gray {
                ops.push(ImageOp::Grayscale);
            }
            gray = true;
            ops.push(ImageOp::EqualizeHist);
        }
        if self.params.adaptive_threshold {
            if !gray {
                ops.push(ImageOp::Grayscale);
            }
            ops.push(ImageOp::AdaptiveThreshold);
        }
        assert(ops@ =~= spec_preprocess(self.spec_params(), *image));
        ops
    }

    /// The primitive that scales an image by `scale_factor` hundredths: each
    /// side is the exact product, rounded towards zero.
    pub fn resize_image(&self, image: &ImageInfo, scale_factor: u32) -> (op: ImageOp)
        ensures
            op == (ImageOp::Resize {
                width: spec_scaled_side(image.width as int, scale_factor as int) as i32,
                height: spec_scaled_side(image.height as int, scale_factor as int) as i32,
            }),
    {
        ImageOp::Resize {
            width: scaled_side(image.width, scale_factor),
            height: scaled_side(image.height, scale_factor),
        }
    }

    /// The primitives that turn an image grey: none where it is grey
    /// already.
    pub fn convert_to_grayscale(&self, image: &ImageInfo) -> (ops: Vec<ImageOp>)
        ensures
            ops@ == spec_to_gray(image.channels as int),
    {
        let mut ops: Vec<ImageOp> = Vec::new();
        if image.channels != 1 {
            ops.push(ImageOp::Grayscale);
        }
        assert(ops@ =~= spec_to_gray(image.channels as int));
        ops
    }

    /// The primitive that blurs with a Gaussian kernel of the given side, or
    /// of the next odd side where that is even.
    pub fn apply_gaussian_blur(&self, kernel_size: i32) -> (op: ImageOp)
        ensures
            op == ImageOp::GaussianBlur(spec_odd_kernel(kernel_size as int) as i32),
    {
        ImageOp::GaussianBlur(odd_kernel(kernel_size))
    }

    /// The primitives that equalise the histogram of an image: it is turned
    /// grey first where it is not.
    pub fn apply_histogram_equalization(&self, image: &ImageInfo) -> (ops: Vec<ImageOp>)
        ensures
            ops@ == spec_to_gray(image.channels as int) + seq![ImageOp::EqualizeHist],
    {
        let mut ops = self.convert_to_grayscale(image);
        ops.push(ImageOp::EqualizeHist);
        assert(ops@ =~= spec_to_gray(image.channels as int) + seq![ImageOp::EqualizeHist]);
        ops
    }

    /// The primitives that binarise an image with a local threshold: it is
    /// turned grey first where it is not.
    pub fn apply_adaptive_threshold(&self, image: &ImageInfo) -> (ops: Vec<ImageOp>)
        ensures
            ops@ == spec_to_gray(image.channels as int) + seq![ImageOp::AdaptiveThreshold],
    {
        let mut ops = self.convert_to_grayscale(image);
        ops.push(ImageOp::AdaptiveThreshold);
        assert(ops@ =~= spec_to_gray(image.channels as int) + seq![ImageOp::AdaptiveThreshold]);
        ops
    }

    /// What is known of an image of the given size and pixel layout.
    pub fn get_image_info(&self, width: i32, height: i32, channels: i32, depth: i32) -> (info: ImageInfo)
        ensures
            info.width == width,
            info.height == height,
            info.channels == channels,
            info.depth == depth,
            info.total_pixels as int == if width > 0 && height > 0 && width * height <= usize::MAX {
                width * height
            } else {
                0
            },
    {
        ImageInfo::new(width, height, channels, depth)
    }

    /// Whether the image is fit for detection.
    ///
    /// Both failures are `ImageProcessingError`s; an image that is too small
    /// is reported as such even where it is also too large.
    pub fn validate_for_qr_detection(&self, info: &ImageInfo) -> (r: Result<(), QRDecodeError>)
        ensures
            r is Ok <==> spec_fit_for_detection(*info),
            r matches Err(e) ==> e is ImageProcessingError && e.detail() == if info.width < MIN_SIDE
                || info.height < MIN_SIDE {
                "图像尺寸太小，无法进行二维码检测 (最小 50x50 像素)"@
            } else {
                "图像尺寸过大，建议缩小后再处理"@
            },
    {
        if info.width < MIN_SIDE || info.height < MIN_SIDE {
            return Err(
                QRDecodeError::image_processing_error(
                    String::from_str("图像尺寸太小，无法进行二维码检测 (最小 50x50 像素)"),
                ),
            );
        }
        if info.total_pixels > MAX_PIXELS {
            return Err(
                QRDecodeError::image_processing_error(String::from_str("图像尺寸过大，建议缩小后再处理")),
            );
        }
        Ok(())
    }
}

} // verus!
