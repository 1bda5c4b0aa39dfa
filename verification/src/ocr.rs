use crate::assemble::assemble_lines;
use crate::assemble::assembled;
use crate::assemble::MIN_LINE_CHARS;
use crate::errors::OcrError;
use crate::raster::NormalizedImage;
use crate::raster::CHANNELS;
use vstd::prelude::*;

verus! {

#[verifier::external_type_specification]
#[verifier::external_body]
pub struct ExOcrEngine(ocrs::OcrEngine);

#[verifier::external_type_specification]
#[verifier::external_body]
pub struct ExOcrInput(ocrs::OcrInput);

#[verifier::external_type_specification]
#[verifier::external_body]
pub struct ExImageSource<'a>(ocrs::ImageSource<'a>);

#[verifier::external_type_specification]
#[verifier::external_body]
pub struct ExRotatedRect(rten_imageproc::RotatedRect);

/// Relies on ocrs::ImageSource::from_bytes: a buffer of exactly three bytes
/// per pixel for a nonzero number of pixels is accepted as a three-channel
/// image source.
#[verifier::external_body]
fn image_source_of<'a>(pixels: &'a Vec<u8>, width: u32, height: u32) -> (r: Result<
    ocrs::ImageSource<'a>,
    String,
>)
    requires
        width > 0,
        height > 0,
        width * height <= u32::MAX,
        pixels@.len() == width * height * CHANNELS,
    ensures
        r is Ok,
{
    ocrs::ImageSource::from_bytes(pixels.as_slice(), (width, height)).map_err(|e| e.to_string())
}

/// Relies on ocrs::OcrEngine::prepare_input: preprocesses an image source
/// into the engine's input representation.
#[verifier::external_body]
fn prepare_input_raw(engine: &ocrs::OcrEngine, source: ocrs::ImageSource<'_>) -> (r: Result<
    ocrs::OcrInput,
    String,
>) {
    engine.prepare_input(source).map_err(|e| e.to_string())
}

/// Relies on ocrs::OcrEngine::detect_words: runs word-level detection over a
/// prepared input, returning the bounding regions of the words found.
#[verifier::external_body]
fn detect_words_raw(engine: &ocrs::OcrEngine, input: &ocrs::OcrInput) -> (r: Result<
    Vec<rten_imageproc::RotatedRect>,
    String,
>) {
    engine.detect_words(input).map_err(|e| e.to_string())
}

/// Word regions produced by the detection stage. The regions are kept in a
/// field with no public access: a value holds either what `detect` found or
/// no regions at all, so the layout stage below only ever receives
/// rectangles of the engine's own making, never arbitrary coordinates.
pub struct DetectedWords {
    words: Vec<rten_imageproc::RotatedRect>,
}

impl DetectedWords {
    /// How many word regions were detected.
    pub closed spec fn spec_len(&self) -> nat {
        self.words@.len()
    }
}

impl Default for DetectedWords {
    /// A detection result with no word regions.
    fn default() -> (r: DetectedWords)
        ensures
            r.spec_len() == 0,
    {
        DetectedWords { words: Vec::new() }
    }
}

/// Relies on ocrs::OcrEngine::find_text_lines: groups detected words into
/// lines in reading order. Its source shows that no words give no lines, and
/// that every returned line groups at least one word. The layout arithmetic
/// is not total over arbitrary coordinates, so this wrapper takes only
/// `DetectedWords`: regions the engine's own detection produced, or none.
#[verifier::external_body]
fn find_text_lines_raw(
    engine: &ocrs::OcrEngine,
    input: &ocrs::OcrInput,
    words: &DetectedWords,
) -> (r: Vec<Vec<rten_imageproc::RotatedRect>>)
    ensures
        words.spec_len() == 0 ==> r@.len() == 0,
        forall|i: int| 0 <= i < r@.len() ==> #[trigger] r@[i]@.len() > 0,
{
    engine.find_text_lines(input, words.words.as_slice())
}

/// Relies on ocrs::OcrEngine::recognize_text: recognizes each non-empty line
/// of grouped words, returning one optional text per input line, aligned
/// index for index with the input.
#[verifier::external_body]
fn recognize_text_raw(
    engine: &ocrs::OcrEngine,
    input: &ocrs::OcrInput,
    lines: &Vec<Vec<rten_imageproc::RotatedRect>>,
) -> (r: Result<Vec<Option<String>>, String>)
    requires
        forall|i: int| 0 <= i < lines@.len() ==> #[trigger] lines@[i]@.len() > 0,
    ensures
        r matches Ok(texts) ==> texts@.len() == lines@.len(),
{
    match engine.recognize_text(input, lines.as_slice()) {
        Ok(recognized) => Ok(
            recognized.into_iter().map(|line| line.map(|l| l.to_string())).collect(),
        ),
        Err(e) => Err(e.to_string()),
    }
}

/// Wrap a well-formed normalized image into the OCR capability's input
/// representation. The only failure is the capability rejecting the image.
pub fn prepare(engine: &ocrs::OcrEngine, img: &NormalizedImage) -> (r: Result<
    ocrs::OcrInput,
    OcrError,
>)
    requires
        img.wf(),
    ensures
        r matches Err(e) ==> e is PrepareFailed,
{
    let source = match image_source_of(&img.pixels, img.width, img.height) {
        Ok(source) => source,
        Err(m) => {
            return Err(OcrError::PrepareFailed(m));
        },
    };
    match prepare_input_raw(engine, source) {
        Ok(input) => Ok(input),
        Err(m) => Err(OcrError::PrepareFailed(m)),
    }
}

/// Run word-level detection over a prepared input. Finding no words is not a
/// failure: an image with no text is a legitimate outcome. The only failure
/// is the detection stage reporting an error.
pub fn detect(engine: &ocrs::OcrEngine, input: &ocrs::OcrInput) -> (r: Result<
    DetectedWords,
    OcrError,
>)
    ensures
        r matches Err(e) ==> e is DetectionFailed,
{
    match detect_words_raw(engine, input) {
        Ok(words) => Ok(DetectedWords { words }),
        Err(m) => Err(OcrError::DetectionFailed(m)),
    }
}

/// Run the tail of the pipeline on already-detected words: group them into
/// lines, recognize each line, and assemble the output. No detected words is
/// not an error: it yields the empty string. The only failure is the
/// recognition stage reporting an error.
pub fn extract_from_words(
    engine: &ocrs::OcrEngine,
    input: &ocrs::OcrInput,
    words: DetectedWords,
) -> (r: Result<String, OcrError>)
    ensures
        words.spec_len() == 0 ==> (r matches Ok(s) && s@ == Seq::<char>::empty()),
        r matches Err(e) ==> e is RecognitionFailed,
        r matches Ok(s) ==> exists|texts: Seq<Option<Seq<char>>>|
            s@ == assembled(texts, MIN_LINE_CHARS),
{
    let lines = find_text_lines_raw(engine, input, &words);
    if lines.len() == 0 {
        let empty = String::new();
        proof {
            assert(Seq::<Option<Seq<char>>>::empty().filter_map(
                |line: Option<Seq<char>>| crate::assemble::kept_text(line, MIN_LINE_CHARS),
            ) =~= Seq::<Seq<char>>::empty());
            assert(empty@ == assembled(Seq::<Option<Seq<char>>>::empty(), MIN_LINE_CHARS));
        }
        return Ok(empty);
    }
    match recognize_text_raw(engine, input, &lines) {
        Ok(texts) => {
            let joined = assemble_lines(&texts, MIN_LINE_CHARS);
            proof {
                assert(joined@ == assembled(texts.deep_view(), MIN_LINE_CHARS));
            }
            Ok(joined)
        },
        Err(m) => Err(OcrError::RecognitionFailed(m)),
    }
}

/// Extract text from a well-formed normalized image: prepare the OCR input,
/// detect words, then group, recognize and assemble. Each stage failure is
/// surfaced as the matching error variant; a well-formed image is never
/// rejected as invalid.
pub fn extract_normalized(engine: &ocrs::OcrEngine, img: &NormalizedImage) -> (r: Result<
    String,
    OcrError,
>)
    requires
        img.wf(),
    ensures
        r matches Err(e) ==> (e is PrepareFailed || e is DetectionFailed
            || e is RecognitionFailed),
        r matches Ok(s) ==> exists|texts: Seq<Option<Seq<char>>>|
            s@ == assembled(texts, MIN_LINE_CHARS),
{
    let input = match prepare(engine, img) {
        Ok(input) => input,
        Err(e) => {
            return Err(e);
        },
    };
    let words = match detect(engine, &input) {
        Ok(words) => words,
        Err(e) => {
            return Err(e);
        },
    };
    extract_from_words(engine, &input, words)
}

/// Extract text from a decoded image: normalize it, then run the staged OCR
/// pipeline. Any stage failure aborts the pipeline and is surfaced with its
/// cause; no partial text is returned on failure.
pub fn extract(engine: &ocrs::OcrEngine, image: &image::DynamicImage) -> (r: Result<
    String,
    OcrError,
>)
    ensures
        r matches Ok(s) ==> exists|texts: Seq<Option<Seq<char>>>|
            s@ == assembled(texts, MIN_LINE_CHARS),
{
    let normalized = match crate::raster::normalize(image) {
        Ok(normalized) => normalized,
        Err(e) => {
            return Err(e);
        },
    };
    extract_normalized(engine, &normalized)
}

} // verus!
