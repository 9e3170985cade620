//! The handler for `FileKind::Other`: files that are not media are never
//! rebuilt, and the pipeline blocks them with a full report.
use vstd::prelude::*;

use crate::error::DefenderError;
use crate::handlers::HandlerResult;
use crate::policy::OtherPolicy;
use crate::types::{alert_is, stage_is, AlertSeverity, DefenseAlert, DefenseContext, PipelineStage,
    PipelineStageReport, PipelineStageStatus};

verus! {

/// The message of the blocking alert, with the entropy already formatted.
pub open spec fn unsupported_message(entropy_label: Seq<char>) -> Seq<char> {
    "Non-media file type is not supported by the defense pipeline. Entropy: "@ + entropy_label
        + ". File was not rebuilt and must not be delivered."@
}

/// The detail of the blocked probe stage.
pub open spec fn generic_detail(entropy_label: Seq<char>) -> Seq<char> {
    "generic handler blocked: entropy="@ + entropy_label
}

/// What `rebuild` returns: the bytes unchanged, blocked.
pub open spec fn generic_outcome(input: Seq<u8>, entropy_label: Seq<char>, res: Result<HandlerResult, DefenderError>) -> bool {
    res matches Ok(r) && {
        &&& r.mime@ == "application/octet-stream"@
        &&& r.output_bytes@ == input
        &&& r.alerts@.len() == 1
        &&& alert_is(r.alerts@[0], "unsupported_file_kind"@, unsupported_message(entropy_label), AlertSeverity::Blocking)
        &&& r.stages@.len() == 1
        &&& stage_is(r.stages@[0], PipelineStage::OtherProbe, PipelineStageStatus::Blocked, generic_detail(entropy_label))
    }
}

/// Handles the files no media handler accepts.
#[derive(Debug, Clone)]
pub struct GenericHandler {
    policy: OtherPolicy,
}

impl GenericHandler {
    pub closed spec fn spec_policy(&self) -> OtherPolicy {
        self.policy
    }

    pub fn new(policy: OtherPolicy) -> (res: Self)
        ensures
            res.spec_policy() == policy,
    {
        GenericHandler { policy }
    }

    /// Hand the bytes back unchanged as `application/octet-stream`, with a
    /// blocking `unsupported_file_kind` alert and a blocked probe stage.
    /// `entropy_label` is the Shannon entropy of the bytes in bits per byte,
    /// formatted with three decimals (`0.000` for no bytes).
    pub fn rebuild(&self, input_bytes: Vec<u8>, context: DefenseContext, entropy_label: &str) -> (res: Result<
        HandlerResult,
        DefenderError,
    >)
        ensures
            res matches Ok(r) && {
                &&& r.mime@ == "application/octet-stream"@
                &&& r.output_bytes@ == input_bytes@
                &&& r.alerts@.len() == 1
                &&& alert_is(
                    r.alerts@[0],
                    "unsupported_file_kind"@,
                    unsupported_message(entropy_label@),
                    AlertSeverity::Blocking,
                )
                &&& r.stages@.len() == 1
                &&& stage_is(
                    r.stages@[0],
                    PipelineStage::OtherProbe,
                    PipelineStageStatus::Blocked,
                    generic_detail(entropy_label@),
                )
            },
    {
        let mut message = "Non-media file type is not supported by the defense pipeline. Entropy: ".to_owned();
        message.append(entropy_label);
        message.append(". File was not rebuilt and must not be delivered.");
        let mut detail = "generic handler blocked: entropy=".to_owned();
        detail.append(entropy_label);
        let mut alerts: Vec<DefenseAlert> = Vec::new();
        alerts.push(
            DefenseAlert { code: "unsupported_file_kind".to_owned(), message, severity: AlertSeverity::Blocking },
        );
        let mut stages: Vec<PipelineStageReport> = Vec::new();
        stages.push(
            PipelineStageReport { stage: PipelineStage::OtherProbe, status: PipelineStageStatus::Blocked, detail },
        );
        Ok(HandlerResult { mime: "application/octet-stream".to_owned(), output_bytes: input_bytes, alerts, stages })
    }
}

} // verus!
