use crate::assemble::assembled;
use crate::assemble::MIN_LINE_CHARS;
use crate::errors::ResolveError;
use crate::ocr::extract;
use vstd::prelude::*;

verus! {

/// Why the image side of a clipboard snapshot holds no decoded image even
/// though the image format was present: retrieving the image data failed, or
/// the retrieved data could not be decoded.
pub enum ImageFailure {
    Retrieval(String),
    Decode(String),
}

/// The clipboard's state at resolution time, as the pipeline sees it: per
/// format, whether the format is present and what its retrieval yielded.
/// `None` means the format was absent. A present format may still carry a
/// failed retrieval: the clipboard can change between the presence check and
/// the retrieval, so retrieval fails independently.
pub struct ClipboardSnapshot {
    /// The text format: absent, or the outcome of retrieving the text.
    pub text: Option<Result<String, String>>,
    /// The image format: absent, or the outcome of retrieving and decoding
    /// the image.
    pub image: Option<Result<image::DynamicImage, ImageFailure>>,
}

/// Resolve clipboard content to a single string. Text takes priority: when
/// the text format is present its retrieval outcome decides the result, and
/// OCR is not attempted even if an image is also present. Otherwise a
/// present image is extracted through the OCR pipeline. A clipboard with
/// neither format has no usable content.
pub fn resolve(engine: &ocrs::OcrEngine, snapshot: ClipboardSnapshot) -> (r: Result<
    String,
    ResolveError,
>)
    ensures
        snapshot.text matches Some(Ok(t)) ==> (r matches Ok(s) && s@ == t@),
        snapshot.text matches Some(Err(m)) ==> (r matches Err(
            ResolveError::TextRetrievalFailed(w),
        ) && w@ == m@),
        (snapshot.text is None && snapshot.image is None) ==> (r matches Err(e)
            && e is NoUsableContent),
        snapshot.text is None ==> (snapshot.image matches Some(Err(ImageFailure::Retrieval(m)))
            ==> (r matches Err(ResolveError::ImageRetrievalFailed(w)) && w@ == m@)),
        snapshot.text is None ==> (snapshot.image matches Some(Err(ImageFailure::Decode(m)))
            ==> (r matches Err(ResolveError::ImageDecodeFailed(w)) && w@ == m@)),
        snapshot.text is None ==> (snapshot.image matches Some(Ok(_)) ==> (r matches Err(e)
            ==> e is ExtractionFailed)),
        snapshot.text is None ==> (r matches Ok(s) ==> exists|texts: Seq<Option<Seq<char>>>|
            s@ == assembled(texts, MIN_LINE_CHARS)),
{
    match snapshot.text {
        Some(Ok(text)) => {
            return Ok(text);
        },
        Some(Err(m)) => {
            return Err(ResolveError::TextRetrievalFailed(m));
        },
        None => {},
    }
    match snapshot.image {
        Some(Ok(img)) => match extract(engine, &img) {
            Ok(s) => Ok(s),
            Err(e) => Err(ResolveError::ExtractionFailed(e)),
        },
        Some(Err(ImageFailure::Retrieval(m))) => Err(ResolveError::ImageRetrievalFailed(m)),
        Some(Err(ImageFailure::Decode(m))) => Err(ResolveError::ImageDecodeFailed(m)),
        None => Err(ResolveError::NoUsableContent),
    }
}

} // verus!
