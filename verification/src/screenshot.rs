//! What a run of the screen capture tool means.
//!
//! The tool is run by the caller, on a path of the caller's choosing. It lets the
//! user pick a region or a window, and writes the image there unless the user
//! gives up.
use crate::text::{copy_text, texts};
use vstd::prelude::*;

verus! {

/// The name of the file that a capture is written to.
pub const SCREENSHOT_FILE: &'static str = "screenshot.png";

/// What a capture gave.
#[derive(Debug)]
pub enum CaptureResult {
    /// The image is in the file at this path.
    Path(String),
    /// The user gave up: there is no image.
    Cancelled,
}

/// Why a capture failed.
#[derive(Debug)]
pub enum CaptureError {
    /// The tool could not be run; the text says why.
    ToolNotStarted(String),
    /// The tool ran and ended in failure.
    ToolFailed,
}

/// What came of running the capture tool.
#[derive(Debug)]
pub enum CaptureRun {
    /// The tool could not be run at all; the text says why.
    NotStarted(String),
    /// The tool ran to its end.
    Exited { success: bool },
}

/// What a run of the capture tool on `path` means, given whether the file is
/// there afterwards. A tool that ended well without writing the file was
/// cancelled by the user, which is no error.
pub open spec fn capture_of(path: String, run: CaptureRun, file_exists: bool) -> Result<
    CaptureResult,
    CaptureError,
> {
    match run {
        CaptureRun::NotStarted(why) => Err(CaptureError::ToolNotStarted(why)),
        CaptureRun::Exited { success } => if !success {
            Err(CaptureError::ToolFailed)
        } else if !file_exists {
            Ok(CaptureResult::Cancelled)
        } else {
            Ok(CaptureResult::Path(path))
        },
    }
}

/// Reads a run of the capture tool on `path`, given whether the file is there
/// afterwards.
pub fn capture(path: String, run: CaptureRun, file_exists: bool) -> (r: Result<
    CaptureResult,
    CaptureError,
>)
    ensures
        r == capture_of(path, run, file_exists),
{
    match run {
        CaptureRun::NotStarted(why) => Err(CaptureError::ToolNotStarted(why)),
        CaptureRun::Exited { success } => {
            if !success {
                Err(CaptureError::ToolFailed)
            } else if !file_exists {
                Ok(CaptureResult::Cancelled)
            } else {
                Ok(CaptureResult::Path(path))
            }
        },
    }
}

/// The arguments with which the capture tool is run to write to `path`:
/// interactive selection, no window shadow, then the path.
pub fn capture_arguments(path: &str) -> (arguments: Vec<String>)
    ensures
        texts(arguments@) == seq!["-i"@, "-o"@, path@],
{
    let mut arguments: Vec<String> = Vec::new();
    arguments.push(copy_text("-i"));
    arguments.push(copy_text("-o"));
    arguments.push(copy_text(path));
    assert(texts(arguments@) == seq!["-i"@, "-o"@, path@]);
    arguments
}

} // verus!
