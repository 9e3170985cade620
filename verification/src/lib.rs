pub mod bytes;
pub mod defender;
pub mod digest;
pub mod error;
pub mod ffi;
pub mod handlers;
pub mod media;
pub mod mime;
pub mod mime_laws;
pub mod kind_laws;
pub mod observability;
pub mod payload_laws;
pub mod pipeline;
pub mod policy;
pub mod protobuf;
pub mod registry;
pub mod signatures;
pub mod sniff;
pub mod tenant;
pub mod tenant_registry;
pub mod text;
pub mod types;
pub mod validation;
pub mod wire;

pub use defender::FileDefender;
pub use error::DefenderError;
pub use signatures::{SignatureLocation, SignatureRule};
pub use types::{
    AlertSeverity, CancellationToken, DefendResult, DefendedArtifact, DefenseAlert, DefenseContext,
    DefenseDiagnostics, DefenseVerdict, FileKind, PipelineStage, PipelineStageReport,
    PipelineStageStatus,
};
