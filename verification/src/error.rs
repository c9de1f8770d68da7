//! Error taxonomy of the decode pipeline.

use vstd::prelude::*;

verus! {

/// What can go wrong while locating and decoding QR codes.
///
/// Every variant that wraps a failure raised outside this library carries the
/// text of that failure, so that values of this type stay plain data.
#[derive(Debug, Clone)]
pub enum QRDecodeError {
    /// A computer-vision primitive reported a failure.
    OpenCVError(String),
    /// A file could not be read or written.
    IoError(String),
    /// The image holds no QR code.
    NoQRCodeFound,
    /// A backend call failed or handed back malformed data.
    DecodeError(String),
    /// The file is not one of the image formats that can be read.
    UnsupportedFormat(String),
    /// A path, a threshold or an argument is not usable.
    InvalidInput(String),
    /// An image primitive failed.
    ImageProcessingError(String),
    /// A report could not be produced or written.
    OutputError(String),
    /// A value could not be serialised.
    JsonError(String),
    /// Any other failure.
    GenericError(String),
}

impl QRDecodeError {
    /// A `DecodeError` with the given message.
    pub fn decode_error(msg: String) -> (e: Self)
        ensures
            e == QRDecodeError::DecodeError(msg),
    {
        QRDecodeError::DecodeError(msg)
    }

    /// An `ImageProcessingError` with the given message.
    pub fn image_processing_error(msg: String) -> (e: Self)
        ensures
            e == QRDecodeError::ImageProcessingError(msg),
    {
        QRDecodeError::ImageProcessingError(msg)
    }

    /// An `OutputError` with the given message.
    pub fn output_error(msg: String) -> (e: Self)
        ensures
            e == QRDecodeError::OutputError(msg),
    {
        QRDecodeError::OutputError(msg)
    }

    /// An `InvalidInput` with the given message.
    pub fn invalid_input(msg: String) -> (e: Self)
        ensures
            e == QRDecodeError::InvalidInput(msg),
    {
        QRDecodeError::InvalidInput(msg)
    }

    /// Whether the search goes on after this error: backend and primitive
    /// failures only cost the candidate that raised them.
    pub open spec fn spec_is_recoverable(&self) -> bool {
        self is DecodeError || self is ImageProcessingError || self is OpenCVError
            || self is NoQRCodeFound
    }

    /// A copy of the error.
    pub fn copy(&self) -> (e: Self)
        ensures
            e == *self,
    {
        match self {
            QRDecodeError::OpenCVError(m) => QRDecodeError::OpenCVError(m.clone()),
            QRDecodeError::IoError(m) => QRDecodeError::IoError(m.clone()),
            QRDecodeError::NoQRCodeFound => QRDecodeError::NoQRCodeFound,
            QRDecodeError::DecodeError(m) => QRDecodeError::DecodeError(m.clone()),
            QRDecodeError::UnsupportedFormat(m) => QRDecodeError::UnsupportedFormat(m.clone()),
            QRDecodeError::InvalidInput(m) => QRDecodeError::InvalidInput(m.clone()),
            QRDecodeError::ImageProcessingError(m) => QRDecodeError::ImageProcessingError(m.clone()),
            QRDecodeError::OutputError(m) => QRDecodeError::OutputError(m.clone()),
            QRDecodeError::JsonError(m) => QRDecodeError::JsonError(m.clone()),
            QRDecodeError::GenericError(m) => QRDecodeError::GenericError(m.clone()),
        }
    }

    /// Whether the search goes on after this error.
    pub fn is_recoverable(&self) -> (b: bool)
        ensures
            b == self.spec_is_recoverable(),
    {
        match self {
            QRDecodeError::DecodeError(_) => true,
            QRDecodeError::ImageProcessingError(_) => true,
            QRDecodeError::OpenCVError(_) => true,
            QRDecodeError::NoQRCodeFound => true,
            _ => false,
        }
    }

    /// The heading under which the error is reported, without its message.
    pub open spec fn heading(&self) -> Seq<char> {
        match self {
            QRDecodeError::OpenCVError(_) => "OpenCV 错误: "@,
            QRDecodeError::IoError(_) => "文件 I/O 错误: "@,
            QRDecodeError::NoQRCodeFound => "图像中未找到二维码"@,
            QRDecodeError::DecodeError(_) => "二维码解码失败: "@,
            QRDecodeError::UnsupportedFormat(_) => "不支持的图像格式: "@,
            QRDecodeError::InvalidInput(_) => "无效的输入参数: "@,
            QRDecodeError::ImageProcessingError(_) => "图像处理错误: "@,
            QRDecodeError::OutputError(_) => "输出格式化错误: "@,
            QRDecodeError::JsonError(_) => "JSON 序列化错误: "@,
            QRDecodeError::GenericError(_) => "通用错误: "@,
        }
    }

    /// The message that the error carries; empty for `NoQRCodeFound`.
    pub open spec fn detail(&self) -> Seq<char> {
        match self {
            QRDecodeError::OpenCVError(m) => m@,
            QRDecodeError::IoError(m) => m@,
            QRDecodeError::NoQRCodeFound => Seq::<char>::empty(),
            QRDecodeError::DecodeError(m) => m@,
            QRDecodeError::UnsupportedFormat(m) => m@,
            QRDecodeError::InvalidInput(m) => m@,
            QRDecodeError::ImageProcessingError(m) => m@,
            QRDecodeError::OutputError(m) => m@,
            QRDecodeError::JsonError(m) => m@,
            QRDecodeError::GenericError(m) => m@,
        }
    }

    /// The line shown to the user: the heading followed by the message.
    pub fn to_string(&self) -> (text: String)
        ensures
            text@ == self.heading() + self.detail(),
    {
        match self {
            QRDecodeError::OpenCVError(m) => String::from_str("OpenCV 错误: ").concat(m.as_str()),
            QRDecodeError::IoError(m) => String::from_str("文件 I/O 错误: ").concat(m.as_str()),
            QRDecodeError::NoQRCodeFound => String::from_str("图像中未找到二维码"),
            QRDecodeError::DecodeError(m) => String::from_str("二维码解码失败: ").concat(m.as_str()),
            QRDecodeError::UnsupportedFormat(m) => String::from_str("不支持的图像格式: ").concat(
                m.as_str(),
            ),
            QRDecodeError::InvalidInput(m) => String::from_str("无效的输入参数: ").concat(m.as_str()),
            QRDecodeError::ImageProcessingError(m) => String::from_str("图像处理错误: ").concat(
                m.as_str(),
            ),
            QRDecodeError::OutputError(m) => String::from_str("输出格式化错误: ").concat(m.as_str()),
            QRDecodeError::JsonError(m) => String::from_str("JSON 序列化错误: ").concat(m.as_str()),
            QRDecodeError::GenericError(m) => String::from_str("通用错误: ").concat(m.as_str()),
        }
    }
}

} // verus!
