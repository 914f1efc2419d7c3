//! Error kinds of a capture session.

use vstd::prelude::*;

verus! {

/// What can go wrong while capturing a document.
#[derive(Debug, Clone, PartialEq, Eq)]
pub enum EbCaptureError {
    /// No candidate program is running.
    NoEbookPrograms,
    /// The chosen program is gone.
    ProgramNotFound { program: String },
    /// The system denies screen capture.
    CapturePermissionDenied,
    /// Both capture tiers are exhausted, or the image could not be persisted.
    CaptureFailure { reason: String },
    /// The buffer size fits no known layout, even with a recovered height.
    UnsupportedPixelFormat { byte_length: usize, width: usize, height: usize },
    /// The document could not be assembled.
    PdfGenerationFailure { reason: String },
    /// Every navigation strategy failed.
    NavigationFailure { reason: String },
    /// The platform offers no implementation of the requested capability.
    UnsupportedPlatform,
    /// Less free disk space than a session needs.
    InsufficientDiskSpace { required_mb: u64 },
    /// Input that is not a number, or out of range.
    InvalidInput { input: String },
    /// An I/O operation of the driver failed.
    Io { message: String },
    /// An image could not be encoded or decoded.
    Image { message: String },
}

/// Mathematical model of an [`EbCaptureError`]: texts are character sequences.
pub ghost enum ErrorModel {
    NoEbookPrograms,
    ProgramNotFound { program: Seq<char> },
    CapturePermissionDenied,
    CaptureFailure { reason: Seq<char> },
    UnsupportedPixelFormat { byte_length: int, width: int, height: int },
    PdfGenerationFailure { reason: Seq<char> },
    NavigationFailure { reason: Seq<char> },
    UnsupportedPlatform,
    InsufficientDiskSpace { required_mb: int },
    InvalidInput { input: Seq<char> },
    Io { message: Seq<char> },
    Image { message: Seq<char> },
}

impl View for EbCaptureError {
    type V = ErrorModel;

    open spec fn view(&self) -> ErrorModel {
        match *self {
            EbCaptureError::NoEbookPrograms => ErrorModel::NoEbookPrograms,
            EbCaptureError::ProgramNotFound { program } => ErrorModel::ProgramNotFound {
                program: program@,
            },
            EbCaptureError::CapturePermissionDenied => ErrorModel::CapturePermissionDenied,
            EbCaptureError::CaptureFailure { reason } => ErrorModel::CaptureFailure {
                reason: reason@,
            },
            EbCaptureError::UnsupportedPixelFormat { byte_length, width, height } => {
                ErrorModel::UnsupportedPixelFormat {
                    byte_length: byte_length as int,
                    width: width as int,
                    height: height as int,
                }
            },
            EbCaptureError::PdfGenerationFailure { reason } => ErrorModel::PdfGenerationFailure {
                reason: reason@,
            },
            EbCaptureError::NavigationFailure { reason } => ErrorModel::NavigationFailure {
                reason: reason@,
            },
            EbCaptureError::UnsupportedPlatform => ErrorModel::UnsupportedPlatform,
            EbCaptureError::InsufficientDiskSpace { required_mb } => {
                ErrorModel::InsufficientDiskSpace { required_mb: required_mb as int }
            },
            EbCaptureError::InvalidInput { input } => ErrorModel::InvalidInput { input: input@ },
            EbCaptureError::Io { message } => ErrorModel::Io { message: message@ },
            EbCaptureError::Image { message } => ErrorModel::Image { message: message@ },
        }
    }
}

impl EbCaptureError {
    /// A capture failure with the given reason.
    pub fn capture_failure(reason: &str) -> (e: EbCaptureError)
        ensures
            e@ == (ErrorModel::CaptureFailure { reason: reason@ }),
    {
        EbCaptureError::CaptureFailure { reason: reason.to_owned() }
    }

    /// A navigation failure with the given reason.
    pub fn navigation_failure(reason: &str) -> (e: EbCaptureError)
        ensures
            e@ == (ErrorModel::NavigationFailure { reason: reason@ }),
    {
        EbCaptureError::NavigationFailure { reason: reason.to_owned() }
    }
}

} // verus!
