//! Backend logic of a screenshot-capture utility.
//!
//! The library covers the decision-making core of the tool: resolving the
//! configured save directory from layered settings, validating destination
//! paths against escape from that directory, building the arguments for the
//! OS capture tool and classifying its outcome, ingesting the captured image
//! (dimensions and transport encoding), and advising the caller on window
//! geometry. All filesystem and process side effects stay with the caller;
//! the functions here compute over plain values.

use vstd::prelude::*;

pub mod capture;
pub mod codec;
pub mod errors;
pub mod geometry;
pub mod ingest;
pub mod paths;
pub mod persist;
pub mod settings;
pub mod strutil;

verus! {

/// The outcome of one successful capture: pixel dimensions of the image,
/// its bytes in transport (base64) form, and the absolute path of the
/// saved file.
#[derive(Debug)]
pub struct ScreenshotResult {
    pub width: usize,
    pub height: usize,
    /// The PNG bytes, base64 encoded for transport.
    pub data: String,
    /// Absolute path of the saved screenshot file.
    pub file_path: String,
}

} // verus!
