pub mod animated_image;
pub mod audio;
pub mod audio_native;
pub mod generic;
pub mod gif;
pub mod image;
pub mod mp4_native;
pub mod ogg_native;
pub mod video;
pub mod webm_native;

use vstd::prelude::*;

use crate::error::DefenderError;
use crate::types::{DefenseAlert, PipelineStageReport};

verus! {

/// What a handler produces: the candidate bytes, their MIME type, and what
/// the handler reported on the way.
#[derive(Debug)]
pub struct HandlerResult {
    pub mime: String,
    pub output_bytes: Vec<u8>,
    pub alerts: Vec<DefenseAlert>,
    pub stages: Vec<PipelineStageReport>,
}

/// What a media handler asks of its caller next. Starting ffmpeg is the
/// caller's part; the handler decides when it is needed.
pub enum MediaRebuildStep {
    /// The handler is done.
    Done(Result<HandlerResult, DefenderError>),
    /// Transcode with ffmpeg; when `strict`, every ffmpeg failure is an error
    /// rather than a pass-through of the input.
    Transcode { input_bytes: Vec<u8>, strict: bool },
    /// Find out whether ffmpeg can be started, and report it to the handler.
    CheckTranscoder { input_bytes: Vec<u8> },
}

/// How an ffmpeg run ended.
pub enum TranscodeRun {
    /// The process could not be run (or timed out).
    ExecFailed { error: String },
    /// The process exited unsuccessfully.
    Failed { stderr: String },
    /// The process succeeded and wrote these bytes.
    Produced { output_bytes: Vec<u8> },
}

} // verus!
