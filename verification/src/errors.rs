use vstd::prelude::*;
use vstd::string::StringExecFns;

verus! {

/// Failure of one stage of the OCR extraction pipeline. Each variant wraps
/// the diagnostic reported by the stage that failed, so that the cause is
/// not lost when the error is wrapped again by the content resolver.
#[derive(Debug, PartialEq, Eq)]
pub enum OcrError {
    /// The image has degenerate dimensions, or a pixel buffer whose size
    /// does not match the dimensions.
    InvalidImage(String),
    /// The OCR capability rejected the normalized image.
    PrepareFailed(String),
    /// The word-detection stage reported an error.
    DetectionFailed(String),
    /// The text-recognition stage reported an error.
    RecognitionFailed(String),
}

/// Failure of clipboard-content resolution. Each variant other than
/// `NoUsableContent` wraps the diagnostic of its originating cause.
#[derive(Debug, PartialEq, Eq)]
pub enum ResolveError {
    /// The clipboard exposes neither a text nor an image format.
    NoUsableContent,
    /// The text format was present but retrieval failed.
    TextRetrievalFailed(String),
    /// The image format was present but retrieval failed.
    ImageRetrievalFailed(String),
    /// The retrieved image data could not be decoded into an image.
    ImageDecodeFailed(String),
    /// OCR extraction on the retrieved image failed.
    ExtractionFailed(OcrError),
}

impl OcrError {
    /// The human-readable message for this error: a stage prefix followed by
    /// the wrapped diagnostic.
    pub open spec fn spec_message(&self) -> Seq<char> {
        match self {
            OcrError::InvalidImage(m) => "Invalid image for OCR: "@ + m@,
            OcrError::PrepareFailed(m) => "Failed to prepare OCR input: "@ + m@,
            OcrError::DetectionFailed(m) => "Failed to detect words: "@ + m@,
            OcrError::RecognitionFailed(m) => "Failed to recognize text: "@ + m@,
        }
    }

    /// Render the error as a display string for the driver.
    pub fn message(&self) -> (r: String)
        ensures
            r@ == self.spec_message(),
    {
        let mut out: String;
        match self {
            OcrError::InvalidImage(m) => {
                out = "Invalid image for OCR: ".to_owned();
                out.append(m.as_str());
            },
            OcrError::PrepareFailed(m) => {
                out = "Failed to prepare OCR input: ".to_owned();
                out.append(m.as_str());
            },
            OcrError::DetectionFailed(m) => {
                out = "Failed to detect words: ".to_owned();
                out.append(m.as_str());
            },
            OcrError::RecognitionFailed(m) => {
                out = "Failed to recognize text: ".to_owned();
                out.append(m.as_str());
            },
        }
        out
    }
}

impl ResolveError {
    /// The human-readable message for this error: a cause prefix followed by
    /// the wrapped diagnostic, matching the messages the driver shows.
    pub open spec fn spec_message(&self) -> Seq<char> {
        match self {
            ResolveError::NoUsableContent => {
                "Unhandled clipboard content: neither text nor image"@
            },
            ResolveError::TextRetrievalFailed(m) => "Failed to get text from clipboard: "@ + m@,
            ResolveError::ImageRetrievalFailed(m) => "Failed to get image from clipboard: "@ + m@,
            ResolveError::ImageDecodeFailed(m) => {
                "Failed to convert image data to dynamic image: "@ + m@
            },
            ResolveError::ExtractionFailed(e) => {
                "Failed to extract text from image: "@ + e.spec_message()
            },
        }
    }

    /// Render the error as a display string for the driver.
    pub fn message(&self) -> (r: String)
        ensures
            r@ == self.spec_message(),
    {
        let mut out: String;
        match self {
            ResolveError::NoUsableContent => {
                out = "Unhandled clipboard content: neither text nor image".to_owned();
            },
            ResolveError::TextRetrievalFailed(m) => {
                out = "Failed to get text from clipboard: ".to_owned();
                out.append(m.as_str());
            },
            ResolveError::ImageRetrievalFailed(m) => {
                out = "Failed to get image from clipboard: ".to_owned();
                out.append(m.as_str());
            },
            ResolveError::ImageDecodeFailed(m) => {
                out = "Failed to convert image data to dynamic image: ".to_owned();
                out.append(m.as_str());
            },
            ResolveError::ExtractionFailed(e) => {
                out = "Failed to extract text from image: ".to_owned();
                let cause = e.message();
                out.append(cause.as_str());
            },
        }
        out
    }
}

} // verus!
