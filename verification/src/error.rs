//! The error type of the defense pipeline.
use vstd::prelude::*;

verus! {

/// Why the pipeline refused to produce a result at all.
///
/// Ratios are carried in thousandths (`_milli`) so that the value stays an
/// exact integer.
#[derive(Debug, Clone, PartialEq, Eq)]
pub enum DefenderError {
    Io(String),
    Image(String),
    Gif(String),
    Video(String),
    Audio(String),
    BlockedExtension { extension: String },
    FileTooLarge { limit: u64, actual: u64 },
    OutputTooLarge { limit: u64, actual: u64 },
    OutputExpansionTooHigh { limit_milli: u64, actual_milli: u64 },
    FileTypeMismatch,
    HandlerPanic { kind: String, message: String },
    AnimatedImage(String),
    UnsupportedReconstructionLevel,
    Cancelled,
    Timeout,
}

} // verus!
