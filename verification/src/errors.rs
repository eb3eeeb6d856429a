//! The error taxonomy of the capture subsystem.
//!
//! Every failure is a terminal outcome for the single request that raised
//! it; nothing is retried. Settings-lookup misses are not errors at all —
//! they degrade to defaults inside the settings resolver.

use vstd::prelude::*;

verus! {

/// Why a capture or write request failed.
#[derive(Debug)]
pub enum ScreenshotError {
    /// The user aborted the capture, or the capture tool reported
    /// non-success. A normal outcome, not a crash.
    CaptureCancelled,
    /// The capture tool could not be started at all: a broken
    /// environment, distinct from a user cancellation.
    ProcessLaunchFailed,
    /// The requested write target falls outside the authorized save
    /// directory. Both canonical paths are carried for diagnosis.
    PathEscape { target: String, save_dir: String },
    /// The captured file vanished between the existence check and the read.
    FileNotFound { path: String },
    /// Reading the captured file failed.
    ReadFailed { path: String },
    /// Writing the validated destination failed.
    WriteFailed { path: String },
    /// Malformed image bytes or malformed transport encoding.
    DecodeFailed,
}

impl ScreenshotError {
    /// The user-readable description of this error.
    pub open spec fn spec_message(self) -> Seq<char> {
        match self {
            ScreenshotError::CaptureCancelled => "Screenshot was cancelled"@,
            ScreenshotError::ProcessLaunchFailed => "Failed to run screencapture"@,
            ScreenshotError::PathEscape { target, save_dir } => "Path '"@ + target@
                + "' is outside the save directory '"@ + save_dir@ + "'"@,
            ScreenshotError::FileNotFound { path } => "Screenshot file not found: "@ + path@,
            ScreenshotError::ReadFailed { path } => "Failed to read screenshot: "@ + path@,
            ScreenshotError::WriteFailed { path } => "Failed to write file: "@ + path@,
            ScreenshotError::DecodeFailed => "Failed to decode image data"@,
        }
    }

    /// Renders the user-readable message for this error.
    pub fn message(&self) -> (r: String)
        ensures
            r@ == self.spec_message(),
    {
        match self {
            ScreenshotError::CaptureCancelled => String::from_str("Screenshot was cancelled"),
            ScreenshotError::ProcessLaunchFailed => String::from_str("Failed to run screencapture"),
            ScreenshotError::PathEscape { target, save_dir } => {
                let mut m = String::from_str("Path '");
                m.append(target.as_str());
                m.append("' is outside the save directory '");
                m.append(save_dir.as_str());
                m.append("'");
                m
            },
            ScreenshotError::FileNotFound { path } => {
                let mut m = String::from_str("Screenshot file not found: ");
                m.append(path.as_str());
                m
            },
            ScreenshotError::ReadFailed { path } => {
                let mut m = String::from_str("Failed to read screenshot: ");
                m.append(path.as_str());
                m
            },
            ScreenshotError::WriteFailed { path } => {
                let mut m = String::from_str("Failed to write file: ");
                m.append(path.as_str());
                m
            },
            ScreenshotError::DecodeFailed => String::from_str("Failed to decode image data"),
        }
    }
}

} // verus!
