use cliptext::errors::OcrError;
use cliptext::errors::ResolveError;
use cliptext::resolve::resolve;
use cliptext::resolve::ClipboardSnapshot;
use cliptext::resolve::ImageFailure;

/// An OCR engine with no models loaded: any snapshot that reaches the OCR
/// pipeline fails at the detection stage, so a successful resolution proves
/// OCR was never invoked.
fn modelless_engine() -> ocrs::OcrEngine {
    ocrs::OcrEngine::new(ocrs::OcrEngineParams::default()).unwrap()
}

#[test]
fn text_only_returns_text_unchanged() {
    let engine = modelless_engine();
    let snapshot = ClipboardSnapshot { text: Some(Ok("Copied!".to_string())), image: None };
    assert_eq!(resolve(&engine, snapshot).unwrap(), "Copied!");
}

#[test]
fn text_takes_priority_over_image() {
    let engine = modelless_engine();
    let snapshot = ClipboardSnapshot {
        text: Some(Ok("Copied!".to_string())),
        image: Some(Ok(image::DynamicImage::new_rgb8(4, 4))),
    };
    assert_eq!(resolve(&engine, snapshot).unwrap(), "Copied!");
}

#[test]
fn empty_clipboard_has_no_usable_content() {
    let engine = modelless_engine();
    let snapshot = ClipboardSnapshot { text: None, image: None };
    let err = resolve(&engine, snapshot).unwrap_err();
    assert!(matches!(err, ResolveError::NoUsableContent));
    assert_eq!(err.message(), "Unhandled clipboard content: neither text nor image");
}

#[test]
fn text_retrieval_failure_is_wrapped() {
    let engine = modelless_engine();
    let snapshot =
        ClipboardSnapshot { text: Some(Err("permission denied".to_string())), image: None };
    let err = resolve(&engine, snapshot).unwrap_err();
    match err {
        ResolveError::TextRetrievalFailed(m) => assert_eq!(m, "permission denied"),
        other => panic!("expected a text retrieval failure, got {:?}", other),
    }
}

#[test]
fn text_retrieval_failure_message_names_the_clipboard() {
    let err = ResolveError::TextRetrievalFailed("permission denied".to_string());
    assert_eq!(err.message(), "Failed to get text from clipboard: permission denied");
}

#[test]
fn image_retrieval_failure_is_wrapped() {
    let engine = modelless_engine();
    let snapshot = ClipboardSnapshot {
        text: None,
        image: Some(Err(ImageFailure::Retrieval("no image data".to_string()))),
    };
    let err = resolve(&engine, snapshot).unwrap_err();
    match err {
        ResolveError::ImageRetrievalFailed(m) => assert_eq!(m, "no image data"),
        other => panic!("expected an image retrieval failure, got {:?}", other),
    }
    let err = ResolveError::ImageRetrievalFailed("no image data".to_string());
    assert_eq!(err.message(), "Failed to get image from clipboard: no image data");
}

#[test]
fn image_decode_failure_is_wrapped() {
    let engine = modelless_engine();
    let snapshot = ClipboardSnapshot {
        text: None,
        image: Some(Err(ImageFailure::Decode("corrupt data".to_string()))),
    };
    let err = resolve(&engine, snapshot).unwrap_err();
    match err {
        ResolveError::ImageDecodeFailed(m) => assert_eq!(m, "corrupt data"),
        other => panic!("expected an image decode failure, got {:?}", other),
    }
    let err = ResolveError::ImageDecodeFailed("corrupt data".to_string());
    assert_eq!(err.message(), "Failed to convert image data to dynamic image: corrupt data");
}

#[test]
fn extraction_failure_is_forwarded_wrapped() {
    let engine = modelless_engine();
    let snapshot =
        ClipboardSnapshot { text: None, image: Some(Ok(image::DynamicImage::new_rgb8(4, 4))) };
    let err = resolve(&engine, snapshot).unwrap_err();
    match err {
        ResolveError::ExtractionFailed(OcrError::DetectionFailed(m)) => {
            assert_eq!(m, "Detection model not loaded");
        },
        other => panic!("expected a wrapped detection failure, got {:?}", other),
    }
}

#[test]
fn extraction_failure_message_chains_the_causes() {
    let err = ResolveError::ExtractionFailed(
        OcrError::DetectionFailed("Detection model not loaded".to_string()),
    );
    assert_eq!(
        err.message(),
        "Failed to extract text from image: Failed to detect words: Detection model not loaded"
    );
}
