//! The capture orchestration logic: the timestamped destination name,
//! the argument list for the OS capture tool, and the classification of
//! its outcome.
//!
//! The capture tool itself runs as a subprocess under the caller's
//! control; this module decides what to run and what the result means.
//! A cancelled capture is a normal outcome, reported once and never
//! retried.

use vstd::prelude::*;

use crate::errors::ScreenshotError;
use crate::paths::join_path;
use crate::paths::join_seq;
use crate::strutil::spec_decimal;
use crate::strutil::spec_pad2;
use crate::strutil::spec_pad4;
use crate::strutil::u64_to_decimal;
use crate::strutil::u64_to_pad2;
use crate::strutil::u64_to_pad4;

verus! {

/// The per-invocation capture configuration, read fresh from the
/// settings on every request. Captures are always interactive.
#[derive(Debug, Clone, Copy, PartialEq, Eq, Structural)]
pub struct CaptureConfig {
    /// Exclude the drop shadow when a window is captured.
    pub exclude_shadow: bool,
    /// Seconds to wait before a timer capture begins.
    pub timer_delay_seconds: u32,
}

/// A wall-clock timestamp split into calendar fields, used to build the
/// per-second collision-resistant file name.
#[derive(Debug, Clone, Copy, PartialEq, Eq, Structural)]
pub struct Timestamp {
    pub year: u32,
    pub month: u32,
    pub day: u32,
    pub hour: u32,
    pub minute: u32,
    pub second: u32,
}

impl Timestamp {
    /// Calendar bounds; they keep every field within its digit budget.
    pub open spec fn wf(self) -> bool {
        &&& self.year < 10000
        &&& 1 <= self.month <= 12
        &&& 1 <= self.day <= 31
        &&& self.hour < 24
        &&& self.minute < 60
        &&& self.second < 60
    }
}

/// The sortable, second-unique screenshot file name:
/// `flashcap-` then `YYYYMMDD`, a dash, `HHMMSS`, and `.png`.
pub open spec fn spec_screenshot_filename(ts: Timestamp) -> Seq<char> {
    "flashcap-"@ + spec_pad4(ts.year as nat) + spec_pad2(ts.month as nat) + spec_pad2(
        ts.day as nat,
    ) + "-"@ + spec_pad2(ts.hour as nat) + spec_pad2(ts.minute as nat) + spec_pad2(
        ts.second as nat,
    ) + ".png"@
}

/// Renders the timestamped screenshot file name for `ts`.
pub fn screenshot_filename(ts: &Timestamp) -> (r: String)
    requires
        ts.wf(),
    ensures
        r@ == spec_screenshot_filename(*ts),
{
    let mut s = String::from_str("flashcap-");
    let year = u64_to_pad4(ts.year as u64);
    s.append(year.as_str());
    let month = u64_to_pad2(ts.month as u64);
    s.append(month.as_str());
    let day = u64_to_pad2(ts.day as u64);
    s.append(day.as_str());
    s.append("-");
    let hour = u64_to_pad2(ts.hour as u64);
    s.append(hour.as_str());
    let minute = u64_to_pad2(ts.minute as u64);
    s.append(minute.as_str());
    let second = u64_to_pad2(ts.second as u64);
    s.append(second.as_str());
    s.append(".png");
    proof {
        assert(s@ =~= spec_screenshot_filename(*ts));
    }
    s
}

/// The timestamped destination path inside the save directory.
pub fn screenshot_destination(save_dir: &str, ts: &Timestamp) -> (r: String)
    requires
        ts.wf(),
    ensures
        r@ == join_seq(save_dir@, spec_screenshot_filename(*ts)),
{
    let name = screenshot_filename(ts);
    join_path(save_dir, name.as_str())
}

/// The argument list handed to the capture tool: the interactive flag
/// always, the shadow-exclusion flag when configured, the timer flag
/// with its second count for a timer capture, and the destination last.
pub open spec fn spec_capture_args(
    exclude_shadow: bool,
    timer_delay: Option<u32>,
    destination: Seq<char>,
) -> Seq<Seq<char>> {
    seq!["-i"@] + (if exclude_shadow {
        seq!["-o"@]
    } else {
        Seq::empty()
    }) + (match timer_delay {
        Some(d) => seq!["-T"@, spec_decimal(d as nat)],
        None => Seq::empty(),
    }) + seq![destination]
}

fn build_capture_args(exclude_shadow: bool, timer_delay: Option<u32>, destination: &str) -> (r:
    Vec<String>)
    ensures
        r.deep_view() == spec_capture_args(exclude_shadow, timer_delay, destination@),
{
    let mut args: Vec<String> = Vec::new();
    args.push(String::from_str("-i"));
    if exclude_shadow {
        args.push(String::from_str("-o"));
    }
    if let Some(d) = timer_delay {
        args.push(String::from_str("-T"));
        args.push(u64_to_decimal(d as u64));
    }
    args.push(String::from_str(destination));
    proof {
        assert(args.deep_view() =~= spec_capture_args(exclude_shadow, timer_delay, destination@));
    }
    args
}

/// The arguments for an interactive capture of `config` saving to
/// `destination`.
pub fn capture_args_interactive(config: &CaptureConfig, destination: &str) -> (r: Vec<String>)
    ensures
        r.deep_view() == spec_capture_args(config.exclude_shadow, None, destination@),
{
    build_capture_args(config.exclude_shadow, None, destination)
}

/// The arguments for a timer capture of `config` saving to
/// `destination`: as the interactive ones, with the delay inserted
/// before the destination.
pub fn capture_args_timer(config: &CaptureConfig, destination: &str) -> (r: Vec<String>)
    ensures
        r.deep_view() == spec_capture_args(
            config.exclude_shadow,
            Some(config.timer_delay_seconds),
            destination@,
        ),
{
    build_capture_args(config.exclude_shadow, Some(config.timer_delay_seconds), destination)
}

/// Classifies what the capture subprocess left behind.
///
/// A tool that could not be started is a broken environment. A tool
/// that exited non-zero, or exited zero without producing the
/// destination file (an interactive selection the user abandoned), is a
/// cancellation. Only a zero exit with the file present is a success.
pub fn classify_capture_outcome(launched: bool, exit_success: bool, file_present: bool) -> (r:
    Result<(), ScreenshotError>)
    ensures
        r is Ok <==> (launched && exit_success && file_present),
        !launched ==> r == Err::<(), ScreenshotError>(ScreenshotError::ProcessLaunchFailed),
        launched && !(exit_success && file_present) ==> r == Err::<(), ScreenshotError>(
            ScreenshotError::CaptureCancelled,
        ),
{
    if !launched {
        Err(ScreenshotError::ProcessLaunchFailed)
    } else if exit_success && file_present {
        Ok(())
    } else {
        Err(ScreenshotError::CaptureCancelled)
    }
}

} // verus!
