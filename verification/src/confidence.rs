//! How far a raw detection is trusted.
//!
//! The score is a heuristic, not a calibrated probability: it exists so that
//! results can be held against a minimum confidence, not to rank true
//! positives. It starts from what the backend has earned on past images and
//! grows with each sign that the detection is sound.

use crate::geometry::{calculate_area_from_corners, spec_area, MIN_CORNERS};
use crate::types::{Corner, CONFIDENCE_MAX};
use vstd::prelude::*;

verus! {

/// The backend that produced a detection.
#[derive(Debug, Clone, Copy, PartialEq, Eq, Structural)]
pub enum BackendKind {
    /// The detector that ships with the vision library.
    Generic,
    /// The detector built on the pretrained WeChat models.
    WeChat,
}

/// A rectified image with both sides above this many pixels is of use.
pub const USEFUL_SIDE: i32 = 20;

/// Codes that cover more than this many square pixels are not specks.
pub const SMALL_AREA: u64 = 100;

/// Codes that cover more than this many square pixels are large.
pub const LARGE_AREA: u64 = 1000;

impl BackendKind {
    /// The name under which results of this backend are reported.
    pub open spec fn spec_symbol_name(self) -> Seq<char> {
        match self {
            BackendKind::Generic => "QR_CODE"@,
            BackendKind::WeChat => "WECHAT_QR_CODE"@,
        }
    }

    /// The name under which results of this backend are reported.
    pub fn symbol_name(self) -> (name: String)
        ensures
            name@ == self.spec_symbol_name(),
    {
        match self {
            BackendKind::Generic => String::from_str("QR_CODE"),
            BackendKind::WeChat => String::from_str("WECHAT_QR_CODE"),
        }
    }

    /// The score a detection of this backend starts from.
    pub open spec fn base(self) -> int {
        match self {
            BackendKind::Generic => 500,
            BackendKind::WeChat => 800,
        }
    }

    /// What a full set of corners adds.
    pub open spec fn corners_bonus(self) -> int {
        match self {
            BackendKind::Generic => 200,
            BackendKind::WeChat => 100,
        }
    }

    /// What a rectified image of useful size adds.
    pub open spec fn image_bonus(self) -> int {
        match self {
            BackendKind::Generic => 200,
            BackendKind::WeChat => 50,
        }
    }

    /// What a code that is no speck adds.
    pub open spec fn small_area_bonus(self) -> int {
        match self {
            BackendKind::Generic => 100,
            BackendKind::WeChat => 50,
        }
    }

    /// What a large code adds on top.
    pub open spec fn large_area_bonus(self) -> int {
        match self {
            BackendKind::Generic => 0,
            BackendKind::WeChat => 50,
        }
    }
}

/// The sum of the base score and every bonus earned, before it is cut at
/// certainty.
pub open spec fn spec_uncapped_score(
    corners: Seq<Corner>,
    rectified_width: int,
    rectified_height: int,
    kind: BackendKind,
) -> int {
    kind.base() + (if corners.len() >= MIN_CORNERS {
        kind.corners_bonus()
    } else {
        0
    }) + (if rectified_width > USEFUL_SIDE && rectified_height > USEFUL_SIDE {
        kind.image_bonus()
    } else {
        0
    }) + (if spec_area(corners) > SMALL_AREA {
        kind.small_area_bonus()
    } else {
        0
    }) + (if spec_area(corners) > LARGE_AREA {
        kind.large_area_bonus()
    } else {
        0
    })
}

/// The confidence of a detection, in thousandths.
pub open spec fn spec_score(
    corners: Seq<Corner>,
    rectified_width: int,
    rectified_height: int,
    kind: BackendKind,
) -> int {
    let sum = spec_uncapped_score(corners, rectified_width, rectified_height, kind);
    if sum > CONFIDENCE_MAX {
        CONFIDENCE_MAX as int
    } else {
        sum
    }
}

/// Whatever the corners and the rectified image, the confidence lies between
/// the backend's base score and certainty.
pub proof fn lemma_score_in_range(
    corners: Seq<Corner>,
    rectified_width: int,
    rectified_height: int,
    kind: BackendKind,
)
    ensures
        0 <= kind.base() <= spec_score(corners, rectified_width, rectified_height, kind)
            <= CONFIDENCE_MAX,
{
}

/// Scores a raw detection.
///
/// `corners` outline the code; `rectified_width` and `rectified_height` are
/// the sides of the straightened crop of the code, zero where there is none.
/// Too few corners and an empty crop are no error: they earn no bonus.
pub fn score(corners: &Vec<Corner>, rectified_width: i32, rectified_height: i32, kind: BackendKind) -> (s: u32)
    ensures
        s == spec_score(corners@, rectified_width as int, rectified_height as int, kind),
        s <= CONFIDENCE_MAX,
{
    let full: bool = corners.len() >= MIN_CORNERS;
    let useful: bool = rectified_width > USEFUL_SIDE && rectified_height > USEFUL_SIDE;
    let area: u64 = calculate_area_from_corners(corners);
    let mut sum: u32 = match kind {
        BackendKind::Generic => 500,
        BackendKind::WeChat => 800,
    };
    if full {
        sum +=
        match kind {
            BackendKind::Generic => 200,
            BackendKind::WeChat => 100,
        };
    }
    if useful {
        sum +=
        match kind {
            BackendKind::Generic => 200,
            BackendKind::WeChat => 50,
        };
    }
    if area > SMALL_AREA {
        sum +=
        match kind {
            BackendKind::Generic => 100,
            BackendKind::WeChat => 50,
        };
    }
    if area > LARGE_AREA {
        sum +=
        match kind {
            BackendKind::Generic => 0,
            BackendKind::WeChat => 50,
        };
    }
    if sum > CONFIDENCE_MAX {
        CONFIDENCE_MAX
    } else {
        sum
    }
}

} // verus!
