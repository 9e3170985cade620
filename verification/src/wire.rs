//! The names the foreign-function schema gives the FFI wire types: the
//! same messages and codes, under the schema's own names.
use vstd::prelude::*;

verus! {

/// The verdict of a run.
pub type Verdict = crate::ffi::FfiVerdictEnum;

/// The kind of a file.
pub type FileKind = crate::ffi::FfiFileKindEnum;

/// A stage of the pipeline.
pub type Stage = crate::ffi::FfiStageEnum;

/// The status of a stage.
pub type StageStatus = crate::ffi::FfiStageStatusEnum;

/// An alert.
pub type Alert = crate::ffi::FfiAlertProto;

/// A stage report.
pub type PipelineStage = crate::ffi::FfiPipelineStageProto;

/// The metadata of a result.
pub type Metadata = crate::ffi::FfiMetadataProto;

} // verus!
