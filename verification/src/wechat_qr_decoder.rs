//! The decoder built on the pretrained WeChat models.
//!
//! The models are four files. Where one is missing, or the backend cannot be
//! built from them, there is no decoder: callers go on without it.

use crate::confidence::{score, spec_score, BackendKind};
use crate::detection::{
    filter_confident, interpret, model_at_least, spec_interpret, well_formed, BackendReply,
};
use crate::error::QRDecodeError;
use crate::geometry::{calculate_area_from_corners, calculate_position_from_corners, spec_area, spec_position, MIN_CORNERS};
use crate::types::{detection_models, Corner, ProcessingConfig, QRCodeResult, QRPosition};
use vstd::prelude::*;

verus! {

/// Which of the four model files are in place.
#[derive(Debug, Clone, Copy)]
pub struct ModelArtifacts {
    /// The topology of the detector, `models/detect.prototxt`.
    pub detect_prototxt: bool,
    /// The weights of the detector, `models/detect.caffemodel`.
    pub detect_caffemodel: bool,
    /// The topology of the super-resolution net, `models/sr.prototxt`.
    pub sr_prototxt: bool,
    /// The weights of the super-resolution net, `models/sr.caffemodel`.
    pub sr_caffemodel: bool,
}

impl ModelArtifacts {
    /// The complaint about the first file that is missing, in the order in
    /// which the backend wants them; `None` where all four are in place.
    pub open spec fn spec_missing(&self) -> Option<Seq<char>> {
        if !self.detect_prototxt {
            Some("检测模型文件不存在: models/detect.prototxt"@)
        } else if !self.detect_caffemodel {
            Some("检测模型权重文件不存在: models/detect.caffemodel"@)
        } else if !self.sr_prototxt {
            Some("超分辨率模型文件不存在: models/sr.prototxt"@)
        } else if !self.sr_caffemodel {
            Some("超分辨率模型权重文件不存在: models/sr.caffemodel"@)
        } else {
            None
        }
    }

    /// The complaint about the first file that is missing; `None` where all
    /// four are in place and the backend can be built.
    pub fn missing(&self) -> (m: Option<String>)
        ensures
            m is Some <==> self.spec_missing() is Some,
            m matches Some(text) ==> Some(text@) == self.spec_missing(),
    {
        if !self.detect_prototxt {
            Some(String::from_str("检测模型文件不存在: models/detect.prototxt"))
        } else if !self.detect_caffemodel {
            Some(String::from_str("检测模型权重文件不存在: models/detect.caffemodel"))
        } else if !self.sr_prototxt {
            Some(String::from_str("超分辨率模型文件不存在: models/sr.prototxt"))
        } else if !self.sr_caffemodel {
            Some(String::from_str("超分辨率模型权重文件不存在: models/sr.caffemodel"))
        } else {
            None
        }
    }
}

/// The decoder built on the pretrained WeChat models.
pub struct WeChatQRDecoder {
    config: ProcessingConfig,
    model_loaded: bool,
}

impl WeChatQRDecoder {
    /// The configuration that the decoder was built with.
    pub closed spec fn spec_config(&self) -> ProcessingConfig {
        self.config
    }

    /// Whether the models are loaded.
    pub closed spec fn spec_is_model_loaded(&self) -> bool {
        self.model_loaded
    }

    /// A decoder, given which model files are in place and how building the
    /// backend from them went: `backend_failure` is `None` where it was built,
    /// and holds the backend's complaint where it was not.
    ///
    /// A missing file is reported before a backend that could not be built;
    /// both are `DecodeError`s.
    pub fn new(config: &ProcessingConfig, artifacts: &ModelArtifacts, backend_failure: Option<String>) -> (r: Result<Self, QRDecodeError>)
        ensures
            r is Ok <==> artifacts.spec_missing() is None && backend_failure is None,
            r matches Ok(d) ==> d.spec_config() == *config && d.spec_is_model_loaded(),
            r matches Err(e) ==> e is DecodeError && e.detail() == match artifacts.spec_missing() {
                Some(text) => text,
                None => "无法创建 WeChat QR Code 检测器: "@ + backend_failure->0@,
            },
    {
        match artifacts.missing() {
            Some(text) => Err(QRDecodeError::decode_error(text)),
            None => match backend_failure {
                Some(why) => Err(
                    QRDecodeError::decode_error(
                        String::from_str("无法创建 WeChat QR Code 检测器: ").concat(why.as_str()),
                    ),
                ),
                None => Ok(Self { config: config.clone(), model_loaded: true }),
            },
        }
    }

    /// What `decode_qr_codes` makes of a reply, where it makes anything of it.
    pub open spec fn spec_decode(&self, reply: BackendReply) -> Option<Seq<crate::types::DetectionModel>> {
        match reply {
            BackendReply::Detections(raw) if self.spec_is_model_loaded() && well_formed(raw@) => Some(
                spec_interpret(raw@, BackendKind::WeChat).filter(
                    model_at_least(self.spec_config().min_confidence),
                ),
            ),
            _ => None,
        }
    }

    /// The results in the reply of the WeChat backend to one image: every
    /// code that was read and is trusted at least as much as the
    /// configuration asks.
    ///
    /// Errors, all `DecodeError`s: the models are not loaded; the backend
    /// call failed; a code was read but has fewer than four corners.
    pub fn decode_qr_codes(&self, reply: &BackendReply) -> (r: Result<Vec<QRCodeResult>, QRDecodeError>)
        ensures
            r is Ok <==> self.spec_decode(*reply) is Some,
            r matches Ok(v) ==> Some(detection_models(v@)) == self.spec_decode(*reply),
            r matches Err(e) ==> e is DecodeError && e.detail() == if !self.spec_is_model_loaded() {
                "模型未加载"@
            } else {
                match *reply {
                    BackendReply::Failed(why) => "WeChat QR Code 检测失败: "@ + why@,
                    BackendReply::Detections(_) => "角点数量不足"@,
                }
            },
    {
        if !self.model_loaded {
            return Err(QRDecodeError::decode_error(String::from_str("模型未加载")));
        }
        match reply {
            BackendReply::Failed(why) => Err(
                QRDecodeError::decode_error(
                    String::from_str("WeChat QR Code 检测失败: ").concat(why.as_str()),
                ),
            ),
            BackendReply::Detections(raw) => match interpret(raw, BackendKind::WeChat) {
                Err(e) => Err(e),
                Ok(results) => Ok(filter_confident(results, self.config.min_confidence)),
            },
        }
    }

    /// The position of a code with the given corners; a `DecodeError` where
    /// they are fewer than four.
    pub fn calculate_position_from_corners(&self, corners: &Vec<Corner>) -> (r: Result<QRPosition, QRDecodeError>)
        ensures
            r is Ok <==> corners@.len() >= MIN_CORNERS,
            r matches Ok(p) ==> p@ == spec_position(corners@),
            r matches Err(e) ==> e is DecodeError && e.detail() == "角点数量不足"@,
    {
        calculate_position_from_corners(corners)
    }

    /// The confidence of a detection of this backend, in thousandths.
    pub fn calculate_confidence(&self, corners: &Vec<Corner>, image_width: i32, image_height: i32) -> (s: u32)
        ensures
            s == spec_score(corners@, image_width as int, image_height as int, BackendKind::WeChat),
    {
        score(corners, image_width, image_height, BackendKind::WeChat)
    }

    /// The area that the corners cover, in square pixels.
    pub fn calculate_area_from_corners(&self, corners: &Vec<Corner>) -> (a: u64)
        ensures
            a == spec_area(corners@),
    {
        calculate_area_from_corners(corners)
    }

    /// Whether the models are loaded.
    pub fn is_model_loaded(&self) -> (b: bool)
        ensures
            b == self.spec_is_model_loaded(),
    {
        self.model_loaded
    }
}

} // verus!
