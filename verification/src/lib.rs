//! Resolves clipboard content — plain text or a raster image — into a single
//! plain-text string, applying optical character recognition when the
//! clipboard holds an image.
//!
//! The resolver dispatches on the formats a clipboard snapshot exposes, with
//! text taking priority over an image. The extractor runs a staged OCR
//! pipeline over a decoded image — normalize, prepare, detect, group,
//! recognize, assemble — where any stage failure aborts the pipeline and is
//! surfaced with its cause. Assembly discards unreliable single-character
//! lines and joins the rest in reading order with single spaces.

pub mod assemble;
pub mod errors;
pub mod ocr;
pub mod raster;
pub mod resolve;
