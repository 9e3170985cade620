//! The interface of a pluggable media handler.
use vstd::prelude::*;

verus! {

/// The media family a handler serves.
#[derive(Debug, Clone, Copy, PartialEq, Eq, Structural)]
pub enum HandlerKind {
    Image,
    Gif,
    Video,
    Audio,
}

/// The outcome of a handler's probe.
#[derive(Debug, Clone, Copy, PartialEq, Eq, Structural)]
pub enum ProbeDecision {
    Success,
    Warning,
    Blocked,
}

/// A media handler, for users of the library to implement.
pub trait MediaHandler {
    fn kind(&self) -> HandlerKind;

    fn probe(&self, input: &[u8]) -> ProbeDecision;
}

} // verus!
