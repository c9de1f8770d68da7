//! Locating and decoding QR codes in still images: the decision logic of an
//! adaptive, multi-strategy decode pipeline.
//!
//! The library decides and the caller acts. Reading files, running image
//! primitives and asking a detection backend are the caller's part; the
//! library says which primitive or backend comes next, takes the outcome as
//! a plain value, and says what follows from it.
//!
//! The contracts are proved by Verus. What is taken on trust says so where
//! it stands: the clock and the naming of a moment, which are `chrono`'s,
//! the shuffle, which is `rand`'s, and what `String::push` does.
//!
//! Quantities are whole numbers throughout. Confidences are thousandths of
//! certainty, factors of scale, contrast and gamma are hundredths, corners
//! and boxes are whole pixels, and times are milliseconds.
//!
//! - `confidence`, `geometry`, `dedup`, `detection`: from what a backend
//!   hands back to results.
//! - `qr_decoder`, `wechat_qr_decoder`: the tiers of backends and the
//!   fallback from one to the next.
//! - `image_ops`, `image_processor`: image primitives and the clean-up
//!   before detection.
//! - `search`, `enhanced_processor`, `brute_force_decoder`, `image_search`:
//!   the quick search, the exhaustive search, and the two in a row.
//! - `batch_processor`, `progress_display`, `report`, `pipeline`: a run over
//!   the files of a directory, its books and what is told of it.
//! - `cli`, `output`, `formats`, `types`, `error`, `text`, `clock`: the
//!   arguments of a run, results as text, and what the rest is built on.

pub mod batch_processor;
pub mod brute_force_decoder;
pub mod cli;
pub mod clock;
pub mod confidence;
pub mod dedup;
pub mod detection;
pub mod enhanced_processor;
pub mod error;
pub mod formats;
pub mod geometry;
pub mod image_ops;
pub mod image_processor;
pub mod image_search;
pub mod output;
pub mod pipeline;
pub mod progress_display;
pub mod qr_decoder;
pub mod report;
pub mod search;
pub mod text;
pub mod types;
pub mod wechat_qr_decoder;

pub use batch_processor::{BatchConfig, BatchProcessor, BatchResult};
pub use brute_force_decoder::BruteForceDecoder;
pub use cli::Args;
pub use enhanced_processor::EnhancedImageProcessor;
pub use error::QRDecodeError;
pub use image_processor::ImageProcessor;
pub use output::OutputFormatter;
pub use qr_decoder::QRDecoder;
pub use types::{
    Corner, ImageProcessingParams, OutputFormat, ProcessingConfig, QRCodeResult, QRPosition, QrResult,
};

use vstd::prelude::*;

verus! {

/// The version of the library.
pub const VERSION: &'static str = "0.1.0";

/// The name of the library.
pub const NAME: &'static str = "qr_decoder";

} // verus!
