//! A defense run, step by step.
//!
//! `begin_defense` checks the input and detects its kind; the caller then
//! runs the handler of that kind (`start_rebuild`, with ffmpeg as the
//! caller's part for audio and video); `after_rebuild` falls back on a
//! decoder failure and reviews the candidate; the caller reads the
//! candidate back with a separate decoder; `finish_defense` derives the
//! verdict and releases bytes only for `Clean`.
use std::time::Instant;
use vstd::prelude::*;
use vstd::string::StringSliceAdditionalSpecFns;

use crate::defender::{
    file_kind_name, kind_name, level_label, level_label_exec, level_report, output_alerts, probe_report, AlertTriple, alerts_status, blocked_extension, detection_status, file_kind_label, file_kind_label_optional, kind_label,
    kinds_compatible, metadata_alerts, metadata_disagrees, opt_kind_label, signature_alerts_are,
    stage_status_from_alerts, FileDefender,
};
use crate::bytes::{lower, path_extension};
use crate::digest::{hex_of, sha256_spec};
use crate::error::DefenderError;
use crate::handlers::audio::opt_string_chars;
use crate::policy::{
    AudioMode, AudioPolicy, DecoderFailureMode, DefensePolicy, EnforcementMode, ReconstructionLevel, SignatureScanMode,
    UnknownKindMode, VideoMode, VideoPolicy,
};
use crate::handlers::animated_image::{apng_outcome, AnimatedImageHandler};
use crate::handlers::audio::AudioHandler;
use crate::handlers::generic::{generic_outcome, GenericHandler};
use crate::handlers::gif::{gif_outcome, GifHandler};
use crate::handlers::image::{image_outcome, ImageHandler};
use crate::handlers::video::VideoHandler;
use crate::handlers::HandlerResult;
use crate::sniff::infer_mime;
use crate::text::{decimal, milli_text};
use crate::types::{
    alert_triple, alert_triples, append_alerts, append_stages, opt_alert_triples, push_alert_t, push_opt_alert, push_stage_t,
    stage_triple, stage_triples, AlertSeverity, alerts_are, opt_bytes, opt_chars_bytes, spec_classify, spec_from_mime, spec_from_name, stage_is, DefendResult,
    DefendedArtifact, DefenseAlert, DefenseContext, DefenseDiagnostics, DefenseVerdict, FileKind, PipelineStage,
    PipelineStageReport, PipelineStageStatus,
};

verus! {

/// What the run knows when it hands the input to a handler.
pub struct Prepared {
    pub file_kind: FileKind,
    pub kind_from_name: Option<FileKind>,
    pub kind_from_mime: Option<FileKind>,
    pub mime_guess: Option<String>,
    pub alerts: Vec<DefenseAlert>,
    pub stages: Vec<PipelineStageReport>,
}

/// How the checks before the rebuild ended.
pub enum Preparation {
    /// The input scan found a signature and the policy blocks on it: the
    /// run is over.
    Blocked(DefendResult),
    /// Go on with the rebuild.
    Ready(Prepared),
}

/// The detail of the input scan stage.
pub open spec fn prescan_detail(n: nat) -> Seq<char> {
    "pre_scan_alerts="@ + decimal(n)
}

/// The detail of the detection stage.
pub open spec fn detect_detail(
    by_name: Option<FileKind>,
    by_mime: Option<FileKind>,
    kind: FileKind,
    declared: Option<Seq<char>>,
) -> Seq<char> {
    "kind_from_name="@ + opt_kind_label(by_name) + ", kind_from_mime="@ + opt_kind_label(by_mime) + ", selected="@
        + kind_label(kind) + ", declared_mime="@ + match declared {
        Some(d) => d,
        None => "unavailable"@,
    }
}

/// The input is scanned for signatures before the rebuild.
pub open spec fn prescan_on(d: FileDefender) -> bool {
    d.spec_policy().signature_scan_mode == SignatureScanMode::InputAndOutput
}

/// A signature in the input ends the run.
pub open spec fn prescan_blocks(d: FileDefender) -> bool {
    d.spec_policy().block_on_pre_scan_match && d.spec_policy().enforcement_mode == EnforcementMode::Enforce
}

/// `pre` is what the signature scan reports on `input`.
pub open spec fn scan_result(d: FileDefender, input: Seq<u8>, pre: Seq<DefenseAlert>) -> bool {
    if d.signatures_armed() {
        signature_alerts_are(pre, d.signature_rules(), input)
    } else {
        pre.len() == 0
    }
}

/// The input is refused before any scan: too large, or a blocked extension.
pub open spec fn refused_up_front(d: FileDefender, input: Seq<u8>, name: Option<&str>) -> bool {
    ||| input.len() > d.spec_policy().max_input_size_bytes
    ||| (name matches Some(n) && blocked_extension(d.spec_policy(), n.spec_bytes()))
}

/// The name and the content disagree in a way the policy refuses.
pub open spec fn refused_on_kind(
    d: FileDefender,
    name: Option<Seq<u8>>,
    sniffed: Option<Seq<char>>,
    declared: Option<Seq<char>>,
) -> bool {
    let by_name = spec_from_name(name);
    let by_mime = spec_from_mime(opt_chars_bytes(sniffed));
    &&& d.spec_policy().block_kind_mismatch
    &&& {
        ||| (by_name matches Some(l) && by_mime matches Some(r) && !kinds_compatible(l, r))
        ||| metadata_disagrees(name, sniffed, declared)
    }
}

/// The error for an input refused up front.
pub open spec fn up_front_error(d: FileDefender, input: Seq<u8>, name: Option<&str>, e: DefenderError) -> bool {
    if input.len() > d.spec_policy().max_input_size_bytes {
        e == DefenderError::FileTooLarge { limit: d.spec_policy().max_input_size_bytes, actual: input.len() as u64 }
    } else {
        e matches DefenderError::BlockedExtension { extension } && (name matches Some(n) && path_extension(
            n.spec_bytes(),
        ) matches Some(x) && vstd::utf8::encode_utf8(extension@) == lower(x))
    }
}

/// The stages before the rebuild: the input scan's, when it runs, then the
/// detection stage.
pub open spec fn stages_before_rebuild(
    d: FileDefender,
    stages: Seq<PipelineStageReport>,
    pre: Seq<DefenseAlert>,
    by_name: Option<FileKind>,
    by_mime: Option<FileKind>,
    kind: FileKind,
    declared: Option<Seq<char>>,
) -> bool {
    let k: int = if prescan_on(d) {
        1
    } else {
        0
    };
    &&& stages.len() == k + 1
    &&& prescan_on(d) ==> stage_is(stages[0], PipelineStage::PreScan, alerts_status(pre), prescan_detail(pre.len()))
    &&& stage_is(
        stages[k],
        PipelineStage::Detect,
        detection_status(d.spec_policy(), by_name, by_mime),
        detect_detail(by_name, by_mime, kind, declared),
    )
}

impl FileDefender {
    fn detect_stage(
        &self,
        kind_from_name: Option<FileKind>,
        kind_from_mime: Option<FileKind>,
        file_kind: FileKind,
        declared: &Option<String>,
    ) -> (res: PipelineStageReport)
        ensures
            stage_is(
                res,
                PipelineStage::Detect,
                detection_status(self.spec_policy(), kind_from_name, kind_from_mime),
                detect_detail(kind_from_name, kind_from_mime, file_kind, opt_string_chars(*declared)),
            ),
    {
        let status = self.detection_stage_status(kind_from_name, kind_from_mime);
        let mut detail = crate::text::concat2("kind_from_name=", file_kind_label_optional(kind_from_name));
        detail.append(", kind_from_mime=");
        detail.append(file_kind_label_optional(kind_from_mime));
        detail.append(", selected=");
        detail.append(file_kind_label(file_kind));
        detail.append(", declared_mime=");
        match declared {
            Some(m) => detail.append(m.as_str()),
            None => detail.append("unavailable"),
        }
        PipelineStageReport { stage: PipelineStage::Detect, status, detail }
    }

    fn prescan_stage(pre: &Vec<DefenseAlert>) -> (res: PipelineStageReport)
        ensures
            stage_is(res, PipelineStage::PreScan, alerts_status(pre@), prescan_detail(pre@.len())),
    {
        let status = stage_status_from_alerts(pre.as_slice());
        let count = pre.len() as u64;
        let mut detail = "pre_scan_alerts=".to_owned();
        crate::text::push_decimal(&mut detail, count);
        PipelineStageReport { stage: PipelineStage::PreScan, status, detail }
    }

    /// The result of a run that the input scan blocked: nothing is
    /// released, and the digest is the input's.
    fn prescan_blocked_result(
        &self,
        input_bytes: &[u8],
        file_kind: FileKind,
        mime_guess: &Option<String>,
        pre: Vec<DefenseAlert>,
        started: &Instant,
    ) -> (res: DefendResult)
        ensures
            res.verdict == DefenseVerdict::Blocked,
            res.alerts@ == pre@,
            res.stages@.len() == 2,
            stage_is(res.stages@[0], PipelineStage::PreScan, alerts_status(pre@), prescan_detail(pre@.len())),
            stage_is(
                res.stages@[1],
                PipelineStage::OutputValidation,
                PipelineStageStatus::Blocked,
                "blocked on input signature pre-scan"@,
            ),
            res.artifact.file_kind == file_kind,
            res.artifact.mime@ == match opt_string_chars(*mime_guess) {
                Some(m) => m,
                None => "application/octet-stream"@,
            },
            res.artifact.original_size == input_bytes@.len(),
            res.artifact.output_size == 0,
            res.artifact.sha256@ == hex_of(sha256_spec(input_bytes@)),
            res.artifact.output_bytes@.len() == 0,
            res.diagnostics.input_bytes == input_bytes@.len(),
            res.diagnostics.output_bytes == 0,
            res.diagnostics.stripped_metadata_count == 0,
            res.diagnostics.stripped_bytes == 0,
            res.diagnostics.parser_used@ == "pre_scan_blocked"@,
    {
        let mut stages: Vec<PipelineStageReport> = Vec::new();
        stages.push(Self::prescan_stage(&pre));
        stages.push(
            PipelineStageReport::new(
                PipelineStage::OutputValidation,
                PipelineStageStatus::Blocked,
                "blocked on input signature pre-scan",
            ),
        );
        let mime = match mime_guess {
            Some(m) => m.clone(),
            None => "application/octet-stream".to_owned(),
        };
        let original_size = input_bytes.len() as u64;
        let duration_ms = crate::types::elapsed_millis(started);
        DefendResult {
            verdict: DefenseVerdict::Blocked,
            alerts: pre,
            stages,
            artifact: DefendedArtifact {
                file_kind,
                mime,
                original_size,
                output_size: 0,
                sha256: crate::digest::sha256_hex(input_bytes),
                output_bytes: Vec::new(),
            },
            diagnostics: DefenseDiagnostics {
                duration_ms,
                input_bytes: original_size,
                output_bytes: 0,
                stripped_metadata_count: 0,
                stripped_bytes: 0,
                parser_used: "pre_scan_blocked".to_owned(),
            },
        }
    }

    /// The checks before the rebuild: the size and extension limits, the
    /// input signature scan when the policy asks for it, and the agreement
    /// of the file name, the declared and the sniffed MIME type. Returns
    /// the detected kind with the alerts and stages so far, or a finished
    /// `Blocked` result when the input scan found a signature and the
    /// policy enforces blocking on it.
    pub fn begin_defense(
        &self,
        input_bytes: &[u8],
        file_name: Option<&str>,
        context: &DefenseContext,
        started: &Instant,
    ) -> (res: Result<Preparation, DefenderError>)
        requires
            self.wf(),
        ensures
            ({
                let name = opt_bytes(file_name);
                let sniffed = infer_mime(input_bytes@);
                let declared = opt_string_chars(context.declared_mime);
                let by_name = spec_from_name(name);
                let by_mime = spec_from_mime(opt_chars_bytes(sniffed));
                let kind = spec_classify(input_bytes@, name, opt_chars_bytes(sniffed));
                match res {
                    Err(e) => {
                        ||| refused_up_front(*self, input_bytes@, file_name) && up_front_error(
                            *self,
                            input_bytes@,
                            file_name,
                            e,
                        )
                        ||| {
                            &&& !refused_up_front(*self, input_bytes@, file_name)
                            &&& refused_on_kind(*self, name, sniffed, declared)
                            &&& e is FileTypeMismatch
                            &&& exists|pre: Seq<DefenseAlert>| #[trigger]
                                scan_result(*self, input_bytes@, pre) && !(prescan_on(*self) && prescan_blocks(*self)
                                    && pre.len() > 0)
                        }
                    },
                    Ok(Preparation::Blocked(r)) => {
                        &&& !refused_up_front(*self, input_bytes@, file_name)
                        &&& prescan_on(*self) && prescan_blocks(*self)
                        &&& scan_result(*self, input_bytes@, r.alerts@) && r.alerts@.len() > 0
                        &&& r.verdict == DefenseVerdict::Blocked
                        &&& r.artifact.file_kind == kind
                        &&& r.artifact.output_bytes@.len() == 0
                        &&& r.artifact.output_size == 0
                        &&& r.artifact.original_size == input_bytes@.len()
                        &&& r.artifact.sha256@ == hex_of(sha256_spec(input_bytes@))
                        &&& r.diagnostics.parser_used@ == "pre_scan_blocked"@
                        &&& r.diagnostics.output_bytes == 0
                    },
                    Ok(Preparation::Ready(p)) => {
                        &&& !refused_up_front(*self, input_bytes@, file_name)
                        &&& !refused_on_kind(*self, name, sniffed, declared)
                        &&& p.file_kind == kind
                        &&& p.kind_from_name == by_name
                        &&& p.kind_from_mime == by_mime
                        &&& opt_string_chars(p.mime_guess) == sniffed
                        &&& exists|pre: Seq<DefenseAlert>| #[trigger]
                            scan_result(*self, input_bytes@, pre) && {
                                let shown = if prescan_on(*self) {
                                    pre
                                } else {
                                    Seq::empty()
                                };
                                &&& !(prescan_on(*self) && prescan_blocks(*self) && pre.len() > 0)
                                &&& p.alerts@.len() >= shown.len()
                                &&& p.alerts@.subrange(0, shown.len() as int) == shown
                                &&& alerts_are(
                                    p.alerts@.subrange(shown.len() as int, p.alerts@.len() as int),
                                    metadata_alerts(name, sniffed, declared),
                                )
                                &&& stages_before_rebuild(*self, p.stages@, pre, by_name, by_mime, kind, declared)
                            }
                    },
                }
            }),
    {
        let mime_guess = self.guess_mime(input_bytes);
        let mime_ref: Option<&str> = match &mime_guess {
            Some(m) => Some(m.as_str()),
            None => None,
        };
        let kind_from_name = FileKind::from_name(file_name);
        let kind_from_mime = FileKind::from_mime(mime_ref);
        let file_kind = FileKind::classify(input_bytes, file_name, mime_ref);
        let original_size = input_bytes.len() as u64;
        let mut stages: Vec<PipelineStageReport> = Vec::new();
        let mut alerts: Vec<DefenseAlert> = Vec::new();
        match self.validate_before_rebuild(file_name, original_size) {
            Ok(()) => {},
            Err(e) => {
                return Err(e);
            },
        }
        let pre = self.scan_signatures(input_bytes);
        let ghost pre_view = pre@;
        proof {
            assert(scan_result(*self, input_bytes@, pre_view));
        }
        match self.policy().signature_scan_mode {
            SignatureScanMode::OutputOnly => {},
            SignatureScanMode::InputAndOutput => {
                let blocking = crate::defender::any_with_severity(pre.as_slice(), crate::types::AlertSeverity::Blocking);
                proof {
                    if pre_view.len() > 0 {
                        assert(pre_view[0].severity == crate::types::AlertSeverity::Blocking);
                    }
                }
                if blocking && self.policy().block_on_pre_scan_match && self.policy().enforcement_mode
                    == EnforcementMode::Enforce {
                    let r = self.prescan_blocked_result(input_bytes, file_kind, &mime_guess, pre, started);
                    return Ok(Preparation::Blocked(r));
                }
                stages.push(Self::prescan_stage(&pre));
                alerts = pre;
            },
        }
        let ghost shown = alerts@;
        match self.validate_kind_consistency(kind_from_name, kind_from_mime) {
            Ok(()) => {},
            Err(e) => {
                return Err(e);
            },
        }
        let declared_ref: Option<&str> = match &context.declared_mime {
            Some(m) => Some(m.as_str()),
            None => None,
        };
        let meta = match self.validate_input_metadata(file_name, mime_ref, declared_ref) {
            Ok(v) => v,
            Err(e) => {
                return Err(e);
            },
        };
        let ghost meta_view = meta@;
        let mut meta = meta;
        alerts.append(&mut meta);
        stages.push(self.detect_stage(kind_from_name, kind_from_mime, file_kind, &context.declared_mime));
        proof {
            assert(alerts@.subrange(0, shown.len() as int) =~= shown);
            assert(alerts@.subrange(shown.len() as int, alerts@.len() as int) =~= meta_view);
        }
        Ok(
            Preparation::Ready(
                Prepared { file_kind, kind_from_name, kind_from_mime, mime_guess, alerts, stages },
            ),
        )
    }
}

} // verus!

verus! {

/// What the review of the candidate hands to the last step.
pub struct Reviewed {
    pub file_kind: FileKind,
    pub mime: String,
    pub output_bytes: Vec<u8>,
    pub output_size: u64,
    pub alerts: Vec<DefenseAlert>,
    pub stages: Vec<PipelineStageReport>,
}

/// The alerts for a name or content that names no kind.
pub open spec fn unknown_kind_triples(p: DefensePolicy, by_name: Option<FileKind>, by_mime: Option<FileKind>) -> Seq<
    AlertTriple,
> {
    let warn = p.unknown_kind_mode == UnknownKindMode::Warn;
    let sev = if warn {
        AlertSeverity::Warning
    } else {
        AlertSeverity::Blocking
    };
    let by_ext: Seq<AlertTriple> = if by_name is None {
        seq![
            (
                "unknown_extension"@,
                if warn {
                    "Unknown extension. Decoder selected from content sniffing only."@
                } else {
                    "Unknown extension is blocked by policy."@
                },
                sev,
            ),
        ]
    } else {
        Seq::empty()
    };
    let by_content: Seq<AlertTriple> = if by_mime is None {
        seq![
            (
                "unknown_mime"@,
                if warn {
                    "Unknown binary signature. File may use unsupported container."@
                } else {
                    "Unknown binary signature is blocked by policy."@
                },
                sev,
            ),
        ]
    } else {
        Seq::empty()
    };
    by_ext + by_content
}

/// The structured probe runs for `Other` only.
pub open spec fn probe_alerts_for(p: DefensePolicy, kind: FileKind, name: Option<Seq<u8>>, output: Seq<u8>) -> Seq<
    AlertTriple,
> {
    if kind == FileKind::Other {
        probe_report(p, name, output).1
    } else {
        Seq::empty()
    }
}

pub open spec fn probe_stages_for(p: DefensePolicy, kind: FileKind, name: Option<Seq<u8>>, output: Seq<u8>) -> Seq<
    (PipelineStage, PipelineStageStatus, Seq<char>),
> {
    if kind == FileKind::Other {
        seq![probe_report(p, name, output).0]
    } else {
        Seq::empty()
    }
}

/// The candidate is larger, relative to the input, than the policy's
/// expansion limit (kept in thousandths).
pub open spec fn expansion_too_high(p: DefensePolicy, original: int, output: int) -> bool {
    original > 0 && output * 1000 > p.max_output_expansion_ratio_milli * original
}

/// The output/input ratio in thousandths, rounded down and capped at
/// `u64::MAX`.
pub open spec fn ratio_milli(original: int, output: int) -> u64 {
    let q = output * 1000 / original;
    if q > u64::MAX {
        u64::MAX
    } else {
        q as u64
    }
}

/// The detail of the rebuild stage.
pub open spec fn rebuild_detail(p: DefensePolicy, mime: Seq<char>) -> Seq<char> {
    "rebuild_mime="@ + mime + " required_reconstruction="@ + level_label(p.minimum_reconstruction_level)
}

/// The detail of the signature stage: the number of alerts so far.
pub open spec fn signature_detail(n: nat) -> Seq<char> {
    "signature_alerts="@ + decimal(n)
}

/// The alerts of the review before the output signature scan.
pub open spec fn review_alerts(
    d: FileDefender,
    prepared_alerts: Seq<DefenseAlert>,
    kind: FileKind,
    by_name: Option<FileKind>,
    by_mime: Option<FileKind>,
    name: Option<Seq<u8>>,
    art: HandlerResult,
) -> Seq<AlertTriple> {
    let p = d.spec_policy();
    alert_triples(prepared_alerts) + level_report(p, kind, art.mime@, art.stages@).1 + alert_triples(art.alerts@)
        + output_alerts(p, kind, art.mime@, art.output_bytes@) + unknown_kind_triples(p, by_name, by_mime)
        + probe_alerts_for(p, kind, name, art.output_bytes@)
}

/// `Some(ratio)` when the candidate expands too much.
fn expansion_check(limit_milli: u64, original: u64, output: u64) -> (res: Option<u64>)
    ensures
        res is Some <==> (original > 0 && output * 1000 > limit_milli * original),
        res matches Some(a) ==> a == ratio_milli(original as int, output as int),
{
    if original == 0 {
        return None;
    }
    proof {
        vstd::arithmetic::mul::lemma_mul_upper_bound(
            limit_milli as int,
            u64::MAX as int,
            original as int,
            u64::MAX as int,
        );
    }
    let lhs: u128 = (output as u128) * 1000;
    let rhs: u128 = (limit_milli as u128) * (original as u128);
    if lhs > rhs {
        let q: u128 = lhs / (original as u128);
        if q > u64::MAX as u128 {
            Some(u64::MAX)
        } else {
            Some(q as u64)
        }
    } else {
        None
    }
}

impl FileDefender {
    /// On a handler error, either give up (`Block`) or fall back on the
    /// generic handler and mark the result as a quarantined decoder
    /// failure (`QuarantineAsOther`).
    pub fn recover_rebuild(
        &self,
        file_kind: FileKind,
        rebuilt: Result<HandlerResult, DefenderError>,
        raw: Vec<u8>,
        context: DefenseContext,
        entropy_label: &str,
    ) -> (res: Result<HandlerResult, DefenderError>)
        ensures
            rebuilt is Ok ==> res == rebuilt,
            rebuilt is Err && self.spec_policy().decoder_failure_mode == DecoderFailureMode::Block ==> res == rebuilt,
            rebuilt is Err && self.spec_policy().decoder_failure_mode == DecoderFailureMode::QuarantineAsOther ==> (
            res matches Ok(r) && {
                &&& r.mime@ == "application/octet-stream"@
                &&& r.output_bytes@ == raw@
                &&& alert_triples(r.alerts@) == seq![
                    (
                        "unsupported_file_kind"@,
                        crate::handlers::generic::unsupported_message(entropy_label@),
                        AlertSeverity::Blocking,
                    ),
                    (
                        "decoder_failure_quarantine"@,
                        "Decoder failed for "@ + kind_name(file_kind) + ", quarantined as binary."@,
                        AlertSeverity::Blocking,
                    ),
                ]
                &&& stage_triples(r.stages@) == seq![
                    (
                        PipelineStage::OtherProbe,
                        PipelineStageStatus::Blocked,
                        crate::handlers::generic::generic_detail(entropy_label@),
                    ),
                ]
            }),
    {
        match rebuilt {
            Ok(v) => Ok(v),
            Err(err) => match self.policy().decoder_failure_mode {
                DecoderFailureMode::Block => Err(err),
                DecoderFailureMode::QuarantineAsOther => {
                    let handler = crate::handlers::generic::GenericHandler::new(self.policy().other.clone());
                    let value = handler.rebuild(raw, context, entropy_label);
                    let mut value = match value {
                        Ok(v) => v,
                        Err(e) => {
                            return Err(e);
                        },
                    };
                    let mut message = crate::text::concat2("Decoder failed for ", file_kind_name(file_kind));
                    message.append(", quarantined as binary.");
                    let ghost a0 = value.alerts@;
                    crate::types::push_alert_t(
                        &mut value.alerts,
                        DefenseAlert {
                            code: "decoder_failure_quarantine".to_owned(),
                            message,
                            severity: AlertSeverity::Blocking,
                        },
                    );
                    proof {
                        assert(alert_triples(a0) =~= seq![alert_triple(a0[0])]);
                        assert(stage_triples(value.stages@) =~= seq![stage_triple(value.stages@[0])]);
                    }
                    Ok(value)
                },
            },
        }
    }

    /// Append the alerts for a name or content that names no kind.
    fn push_unknown_kind_alerts(
        &self,
        alerts: &mut Vec<DefenseAlert>,
        kind_from_name: Option<FileKind>,
        kind_from_mime: Option<FileKind>,
    )
        ensures
            alert_triples(final(alerts)@) == alert_triples(old(alerts)@) + unknown_kind_triples(
                self.spec_policy(),
                kind_from_name,
                kind_from_mime,
            ),
    {
        let warn = self.policy().unknown_kind_mode == UnknownKindMode::Warn;
        if kind_from_name.is_none() {
            if warn {
                push_alert_t(
                    alerts,
                    DefenseAlert::warning(
                        "unknown_extension",
                        "Unknown extension. Decoder selected from content sniffing only.",
                    ),
                );
            } else {
                push_alert_t(alerts, DefenseAlert::blocking("unknown_extension", "Unknown extension is blocked by policy."));
            }
        }
        if kind_from_mime.is_none() {
            if warn {
                push_alert_t(
                    alerts,
                    DefenseAlert::warning(
                        "unknown_mime",
                        "Unknown binary signature. File may use unsupported container.",
                    ),
                );
            } else {
                push_alert_t(
                    alerts,
                    DefenseAlert::blocking("unknown_mime", "Unknown binary signature is blocked by policy."),
                );
            }
        }
        proof {
            assert(alert_triples(alerts@) =~= alert_triples(old(alerts)@) + unknown_kind_triples(
                self.spec_policy(),
                kind_from_name,
                kind_from_mime,
            ));
        }
    }

    /// The checks of the review that come before the output signature scan.
    fn review_checks(&self, prepared: Prepared, file_name: Option<&str>, artifact: HandlerResult) -> (res: (
        Vec<DefenseAlert>,
        Vec<PipelineStageReport>,
        String,
        Vec<u8>,
    ))
        requires
            self.wf(),
        ensures
            alert_triples(res.0@) == review_alerts(
                *self,
                prepared.alerts@,
                prepared.file_kind,
                prepared.kind_from_name,
                prepared.kind_from_mime,
                opt_bytes(file_name),
                artifact,
            ),
            stage_triples(res.1@) == stage_triples(prepared.stages@) + seq![
                level_report(self.spec_policy(), prepared.file_kind, artifact.mime@, artifact.stages@).0,
            ] + stage_triples(artifact.stages@) + probe_stages_for(
                self.spec_policy(),
                prepared.file_kind,
                opt_bytes(file_name),
                artifact.output_bytes@,
            ),
            res.2@ == artifact.mime@,
            res.3@ == artifact.output_bytes@,
    {
        let ghost p = self.spec_policy();
        let file_kind = prepared.file_kind;
        let mut alerts = prepared.alerts;
        let mut stages = prepared.stages;
        let (level_stage, level_alert) = self.validate_reconstruction_level(file_kind, &artifact);
        let HandlerResult { mime, output_bytes, alerts: art_alerts, stages: art_stages } = artifact;
        push_stage_t(&mut stages, level_stage);
        push_opt_alert(&mut alerts, level_alert);
        append_alerts(&mut alerts, art_alerts);
        append_stages(&mut stages, art_stages);
        let out = self.validate_output_artifact(file_kind, mime.as_str(), output_bytes.as_slice());
        proof {
            crate::types::lemma_alerts_are_triples(out@, output_alerts(p, file_kind, mime@, output_bytes@));
        }
        append_alerts(&mut alerts, out);
        self.push_unknown_kind_alerts(&mut alerts, prepared.kind_from_name, prepared.kind_from_mime);
        let ghost before_probe_alerts = alert_triples(alerts@);
        let ghost before_probe_stages = stage_triples(stages@);
        if file_kind == FileKind::Other {
            let (probe_stage, probe_alert) = self.structured_probe_other(file_name, output_bytes.as_slice());
            push_stage_t(&mut stages, probe_stage);
            push_opt_alert(&mut alerts, probe_alert);
            proof {
                assert(before_probe_stages.push(stage_triple(probe_stage)) =~= before_probe_stages + seq![
                    stage_triple(probe_stage),
                ]);
            }
        } else {
            proof {
                assert(before_probe_alerts + Seq::<AlertTriple>::empty() =~= before_probe_alerts);
                assert(before_probe_stages + Seq::<(PipelineStage, PipelineStageStatus, Seq<char>)>::empty()
                    =~= before_probe_stages);
            }
        }
        (alerts, stages, mime, output_bytes)
    }

    /// Review the candidate: the reconstruction level, the handler's own
    /// alerts and stages, the output checks, the unknown-kind alerts, the
    /// structured probe of non-media files, and the output signature scan;
    /// then refuse a candidate over the size or expansion limits.
    pub fn review_candidate(
        &self,
        prepared: Prepared,
        file_name: Option<&str>,
        artifact: HandlerResult,
        original_size: u64,
    ) -> (res: Result<Reviewed, DefenderError>)
        requires
            self.wf(),
        ensures
            ({
                let p = self.spec_policy();
                let kind = prepared.file_kind;
                let size = artifact.output_bytes@.len();
                let before = review_alerts(
                    *self,
                    prepared.alerts@,
                    kind,
                    prepared.kind_from_name,
                    prepared.kind_from_mime,
                    opt_bytes(file_name),
                    artifact,
                );
                match res {
                    Err(e) => {
                        ||| size > p.max_output_size_bytes && e == DefenderError::OutputTooLarge {
                            limit: p.max_output_size_bytes,
                            actual: size as u64,
                        }
                        ||| size <= p.max_output_size_bytes && expansion_too_high(p, original_size as int, size as int)
                            && e == DefenderError::OutputExpansionTooHigh {
                            limit_milli: p.max_output_expansion_ratio_milli,
                            actual_milli: ratio_milli(original_size as int, size as int),
                        }
                    },
                    Ok(r) => {
                        &&& size <= p.max_output_size_bytes
                        &&& !expansion_too_high(p, original_size as int, size as int)
                        &&& r.file_kind == kind
                        &&& r.mime@ == artifact.mime@
                        &&& r.output_bytes@ == artifact.output_bytes@
                        &&& r.output_size == size
                        &&& r.alerts@.len() >= before.len()
                        &&& alert_triples(r.alerts@.subrange(0, before.len() as int)) == before
                        &&& scan_result(
                            *self,
                            artifact.output_bytes@,
                            r.alerts@.subrange(before.len() as int, r.alerts@.len() as int),
                        )
                        &&& stage_triples(r.stages@) == stage_triples(prepared.stages@) + seq![
                            level_report(p, kind, artifact.mime@, artifact.stages@).0,
                        ] + stage_triples(artifact.stages@) + probe_stages_for(
                            p,
                            kind,
                            opt_bytes(file_name),
                            artifact.output_bytes@,
                        ) + seq![
                            (
                                PipelineStage::Rebuild,
                                alerts_status(r.alerts@.subrange(0, before.len() as int)),
                                rebuild_detail(p, artifact.mime@),
                            ),
                            (
                                PipelineStage::SignatureScan,
                                alerts_status(r.alerts@),
                                signature_detail(r.alerts@.len()),
                            ),
                        ]
                    },
                }
            }),
    {
        let file_kind = prepared.file_kind;
        let ghost prepared_stages = prepared.stages@;
        let (mut alerts, mut stages, mime, output_bytes) = self.review_checks(prepared, file_name, artifact);
        let ghost before_len = alerts@.len();
        let ghost before_alerts = alerts@;
        let ghost mid_stages = stage_triples(stages@);
        let mut detail = crate::text::concat2("rebuild_mime=", mime.as_str());
        detail.append(" required_reconstruction=");
        detail.append(level_label_exec(self.policy().minimum_reconstruction_level));
        let rebuild_status = stage_status_from_alerts(alerts.as_slice());
        let rebuild_stage = PipelineStageReport { stage: PipelineStage::Rebuild, status: rebuild_status, detail };
        let ghost rebuild_triple = stage_triple(rebuild_stage);
        push_stage_t(&mut stages, rebuild_stage);
        let sig = self.scan_signatures(output_bytes.as_slice());
        let ghost sig_view = sig@;
        append_alerts(&mut alerts, sig);
        let sig_status = stage_status_from_alerts(alerts.as_slice());
        let mut sig_detail = "signature_alerts=".to_owned();
        crate::text::push_decimal(&mut sig_detail, alerts.len() as u64);
        let sig_stage = PipelineStageReport { stage: PipelineStage::SignatureScan, status: sig_status, detail: sig_detail };
        let ghost sig_triple = stage_triple(sig_stage);
        push_stage_t(&mut stages, sig_stage);
        proof {
            assert(alerts@.subrange(0, before_len as int) =~= before_alerts);
            assert(alerts@.subrange(before_len as int, alerts@.len() as int) =~= sig_view);
            assert(scan_result(*self, output_bytes@, sig_view));
            assert(mid_stages.push(rebuild_triple).push(sig_triple) =~= mid_stages + seq![rebuild_triple, sig_triple]);
        }
        let output_size = output_bytes.len() as u64;
        if output_size > self.policy().max_output_size_bytes {
            return Err(
                DefenderError::OutputTooLarge { limit: self.policy().max_output_size_bytes, actual: output_size },
            );
        }
        match expansion_check(self.policy().max_output_expansion_ratio_milli, original_size, output_size) {
            Some(actual_milli) => {
                return Err(
                    DefenderError::OutputExpansionTooHigh {
                        limit_milli: self.policy().max_output_expansion_ratio_milli,
                        actual_milli,
                    },
                );
            },
            None => {},
        }
        Ok(Reviewed { file_kind, mime, output_bytes, output_size, alerts, stages })
    }
}

} // verus!

verus! {

// ── The verdict ──────────────────────────────────────────────────────────

/// Some triple has this severity.
pub open spec fn triples_have(t: Seq<AlertTriple>, severity: AlertSeverity) -> bool {
    exists|i: int| 0 <= i < t.len() && (#[trigger] t[i]).2 == severity
}

/// Blocked by any blocking alert, else suspicious by any warning, else
/// clean; informational alerts never change it.
pub open spec fn verdict_of(t: Seq<AlertTriple>) -> DefenseVerdict {
    if triples_have(t, AlertSeverity::Blocking) {
        DefenseVerdict::Blocked
    } else if triples_have(t, AlertSeverity::Warning) {
        DefenseVerdict::Suspicious
    } else {
        DefenseVerdict::Clean
    }
}

/// The stage status that alerts with these triples give.
pub open spec fn triples_status(t: Seq<AlertTriple>) -> PipelineStageStatus {
    if triples_have(t, AlertSeverity::Blocking) {
        PipelineStageStatus::Blocked
    } else if triples_have(t, AlertSeverity::Warning) {
        PipelineStageStatus::Warning
    } else {
        PipelineStageStatus::Success
    }
}

/// A dry run turns a blocking alert into a warning that says so.
pub open spec fn dry_run_triple(t: AlertTriple) -> AlertTriple {
    if t.2 == AlertSeverity::Blocking {
        (t.0, t.1 + " [dry-run: would block]"@, AlertSeverity::Warning)
    } else {
        t
    }
}

pub open spec fn dry_run_triples(t: Seq<AlertTriple>) -> Seq<AlertTriple> {
    t.map_values(|x: AlertTriple| dry_run_triple(x))
}

pub type StageTriple = (PipelineStage, PipelineStageStatus, Seq<char>);

/// A dry run turns a blocked stage into a warning that says so.
pub open spec fn dry_run_stage_triple(t: StageTriple) -> StageTriple {
    if t.1 == PipelineStageStatus::Blocked {
        (t.0, PipelineStageStatus::Warning, t.2 + " [dry-run]"@)
    } else {
        t
    }
}

pub open spec fn dry_run_stage_triples(t: Seq<StageTriple>) -> Seq<StageTriple> {
    t.map_values(|x: StageTriple| dry_run_stage_triple(x))
}

/// The alert of the independent read of the candidate, if it failed.
pub open spec fn read_alerts(read: Result<String, String>) -> Seq<AlertTriple> {
    match read {
        Ok(_) => Seq::empty(),
        Err(d) => seq![("output_read_failed"@, d@, AlertSeverity::Blocking)],
    }
}

/// The stage of the independent read of the candidate.
pub open spec fn read_stage(read: Result<String, String>) -> StageTriple {
    match read {
        Ok(d) => (PipelineStage::OutputValidation, PipelineStageStatus::Success, "independent_read: "@ + d@),
        Err(d) => (PipelineStage::OutputValidation, PipelineStageStatus::Blocked, "independent_read_failed: "@ + d@),
    }
}

/// The detail of the output-validation stage.
pub open spec fn output_detail(p: DefensePolicy, output_size: u64) -> Seq<char> {
    "output_size="@ + decimal(output_size as nat) + " max_output_size="@ + decimal(p.max_output_size_bytes as nat)
        + " max_expansion_ratio="@ + milli_text(p.max_output_expansion_ratio_milli as nat)
}

/// The final alerts of a run whose review produced `reviewed` and whose
/// independent read ended as `read`.
pub open spec fn final_alerts(p: DefensePolicy, reviewed: Seq<DefenseAlert>, read: Result<String, String>) -> Seq<
    AlertTriple,
> {
    let t = alert_triples(reviewed) + read_alerts(read);
    if p.enforcement_mode == EnforcementMode::DryRun {
        dry_run_triples(t)
    } else {
        t
    }
}

/// The final stages of such a run, before the quarantine stage.
pub open spec fn final_stages(
    p: DefensePolicy,
    reviewed_alerts: Seq<DefenseAlert>,
    reviewed_stages: Seq<PipelineStageReport>,
    read: Result<String, String>,
    output_size: u64,
) -> Seq<StageTriple> {
    let t = stage_triples(reviewed_stages) + seq![
        read_stage(read),
        (
            PipelineStage::OutputValidation,
            triples_status(alert_triples(reviewed_alerts) + read_alerts(read)),
            output_detail(p, output_size),
        ),
    ];
    if p.enforcement_mode == EnforcementMode::DryRun {
        dry_run_stage_triples(t)
    } else {
        t
    }
}

/// The detail of the quarantine stage of a blocked run.
pub open spec fn quarantine_detail(reason: Seq<char>, digest: Seq<char>) -> Seq<char> {
    "quarantine_ready reason="@ + reason + " sha256="@ + digest
}

pub proof fn lemma_status_triples(v: Seq<DefenseAlert>)
    ensures
        alerts_status(v) == triples_status(alert_triples(v)),
        crate::defender::has_severity(v, AlertSeverity::Blocking) == triples_have(
            alert_triples(v),
            AlertSeverity::Blocking,
        ),
        crate::defender::has_severity(v, AlertSeverity::Warning) == triples_have(
            alert_triples(v),
            AlertSeverity::Warning,
        ),
{
    let t = alert_triples(v);
    assert forall|sev: AlertSeverity| crate::defender::has_severity(v, sev) == triples_have(t, sev) by {
        if crate::defender::has_severity(v, sev) {
            let i = choose|i: int| 0 <= i < v.len() && (#[trigger] v[i]).severity == sev;
            assert(t[i].2 == sev);
        }
        if triples_have(t, sev) {
            let i = choose|i: int| 0 <= i < t.len() && (#[trigger] t[i]).2 == sev;
            assert(v[i].severity == sev);
        }
    }
}

proof fn lemma_dry_run_triples(before: Seq<DefenseAlert>, after: Seq<DefenseAlert>)
    requires
        crate::defender::dry_run_alerts(before, after),
    ensures
        alert_triples(after) == dry_run_triples(alert_triples(before)),
{
    assert(alert_triples(after) =~= dry_run_triples(alert_triples(before)));
}

proof fn lemma_dry_run_stage_triples(before: Seq<PipelineStageReport>, after: Seq<PipelineStageReport>)
    requires
        crate::defender::dry_run_stages(before, after),
    ensures
        stage_triples(after) == dry_run_stage_triples(stage_triples(before)),
{
    assert(stage_triples(after) =~= dry_run_stage_triples(stage_triples(before)));
}

fn verdict_exec(alerts: &Vec<DefenseAlert>) -> (res: DefenseVerdict)
    ensures
        res == verdict_of(alert_triples(alerts@)),
{
    proof {
        lemma_status_triples(alerts@);
    }
    if crate::defender::any_with_severity(alerts.as_slice(), AlertSeverity::Blocking) {
        DefenseVerdict::Blocked
    } else if crate::defender::any_with_severity(alerts.as_slice(), AlertSeverity::Warning) {
        DefenseVerdict::Suspicious
    } else {
        DefenseVerdict::Clean
    }
}

fn verdict_label(v: DefenseVerdict) -> (res: &'static str)
    ensures
        res@ == match v {
            DefenseVerdict::Clean => "clean"@,
            DefenseVerdict::Suspicious => "suspicious"@,
            DefenseVerdict::Blocked => "blocked"@,
        },
{
    match v {
        DefenseVerdict::Clean => "clean",
        DefenseVerdict::Suspicious => "suspicious",
        DefenseVerdict::Blocked => "blocked",
    }
}

/// The report of the independent read of a candidate: its stage, and, when
/// the read failed, the blocking alert that withholds the candidate.
pub fn read_outcome(read: Result<String, String>) -> (res: (PipelineStageReport, Option<DefenseAlert>))
    ensures
        stage_triple(res.0) == read_stage(read),
        opt_alert_triples(res.1) == read_alerts(read),
{
    match read {
        Ok(detail) => {
            let d = crate::text::concat2("independent_read: ", detail.as_str());
            (PipelineStageReport { stage: PipelineStage::OutputValidation, status: PipelineStageStatus::Success, detail: d }, None)
        },
        Err(detail) => {
            let d = crate::text::concat2("independent_read_failed: ", detail.as_str());
            (
                PipelineStageReport { stage: PipelineStage::OutputValidation, status: PipelineStageStatus::Blocked, detail: d },
                Some(DefenseAlert { code: "output_read_failed".to_owned(), message: detail, severity: AlertSeverity::Blocking }),
            )
        },
    }
}

impl FileDefender {
    /// Append the stage and the alert of the independent read.
    fn push_read_outcome(
        read: Result<String, String>,
        alerts: &mut Vec<DefenseAlert>,
        stages: &mut Vec<PipelineStageReport>,
    )
        ensures
            alert_triples(final(alerts)@) == alert_triples(old(alerts)@) + read_alerts(read),
            stage_triples(final(stages)@) == stage_triples(old(stages)@).push(read_stage(read)),
    {
        let ghost before = alert_triples(alerts@);
        let (stage, alert) = read_outcome(read);
        push_stage_t(stages, stage);
        match alert {
            Some(a) => {
                push_alert_t(alerts, a);
                proof {
                    assert(alert_triples(alerts@) =~= before + read_alerts(read));
                }
            },
            None => {
                proof {
                    assert(alert_triples(alerts@) =~= before + read_alerts(read));
                }
            },
        }
    }

    /// The last step of a run: record the independent read of the
    /// candidate, derive the verdict from the alerts (in a dry run blocking
    /// alerts and blocked stages are first turned into warnings), add the
    /// quarantine stage to a blocked run, and release the candidate's bytes
    /// only with a `Clean` verdict.
    pub fn finish_defense(
        &self,
        reviewed: Reviewed,
        read: Result<String, String>,
        original_size: u64,
        context: &DefenseContext,
        started: &Instant,
    ) -> (res: DefendResult)
        ensures
            ({
                let p = self.spec_policy();
                let fa = final_alerts(p, reviewed.alerts@, read);
                let fs = final_stages(p, reviewed.alerts@, reviewed.stages@, read, reviewed.output_size);
                let digest = hex_of(sha256_spec(reviewed.output_bytes@));
                &&& alert_triples(res.alerts@) == fa
                &&& res.verdict == verdict_of(fa)
                &&& res.verdict != DefenseVerdict::Blocked ==> stage_triples(res.stages@) == fs
                &&& res.verdict == DefenseVerdict::Blocked ==> stage_triples(res.stages@) == fs.push(
                    (
                        PipelineStage::OutputValidation,
                        PipelineStageStatus::Blocked,
                        quarantine_detail(crate::defender::quarantine_reason(res.alerts@), digest),
                    ),
                )
                &&& res.artifact.file_kind == reviewed.file_kind
                &&& res.artifact.mime@ == reviewed.mime@
                &&& res.artifact.original_size == original_size
                &&& res.artifact.output_size == reviewed.output_size
                &&& res.artifact.sha256@ == digest
                &&& res.artifact.output_bytes@ == if res.verdict == DefenseVerdict::Clean {
                    reviewed.output_bytes@
                } else {
                    Seq::empty()
                }
                &&& res.diagnostics.input_bytes == original_size
                &&& res.diagnostics.output_bytes == reviewed.output_size
                &&& res.diagnostics.stripped_metadata_count == 0
                &&& res.diagnostics.stripped_bytes == 0
                &&& res.diagnostics.parser_used@ == kind_label(reviewed.file_kind)
            }),
    {
        let ghost p = self.spec_policy();
        let Reviewed { file_kind, mime, output_bytes, output_size, alerts, stages } = reviewed;
        let mut alerts = alerts;
        let mut stages = stages;
        let ghost reviewed_alerts = alerts@;
        Self::push_read_outcome(read, &mut alerts, &mut stages);
        let status = stage_status_from_alerts(alerts.as_slice());
        proof {
            lemma_status_triples(alerts@);
        }
        let mut detail = "output_size=".to_owned();
        crate::text::push_decimal(&mut detail, output_size);
        detail.append(" max_output_size=");
        crate::text::push_decimal(&mut detail, self.policy().max_output_size_bytes);
        detail.append(" max_expansion_ratio=");
        crate::text::push_milli(&mut detail, self.policy().max_output_expansion_ratio_milli);
        let ghost st0 = stage_triples(stages@);
        let out_stage = PipelineStageReport { stage: PipelineStage::OutputValidation, status, detail };
        let ghost out_triple = stage_triple(out_stage);
        push_stage_t(&mut stages, out_stage);
        proof {
            assert(stage_triples(stages@) =~= stage_triples(reviewed.stages@) + seq![read_stage(read), out_triple]);
        }
        let digest = crate::digest::sha256_hex(output_bytes.as_slice());
        if self.policy().enforcement_mode == EnforcementMode::DryRun {
            let ghost a0 = alerts@;
            let ghost s0 = stages@;
            self.apply_dry_run_mode(&mut alerts, &mut stages);
            proof {
                lemma_dry_run_triples(a0, alerts@);
                lemma_dry_run_stage_triples(s0, stages@);
            }
        }
        let verdict = verdict_exec(&alerts);
        if verdict == DefenseVerdict::Blocked {
            let envelope = self.build_quarantine_envelope(&alerts, &stages, original_size, output_size, digest.as_str());
            let mut q = crate::text::concat2("quarantine_ready reason=", envelope.reason.as_str());
            q.append(" sha256=");
            q.append(envelope.sha256.as_str());
            push_stage_t(
                &mut stages,
                PipelineStageReport { stage: PipelineStage::OutputValidation, status: PipelineStageStatus::Blocked, detail: q },
            );
        }
        let source_label = match context.source {
            crate::types::SourceRole::Outgoing => "outgoing",
            crate::types::SourceRole::Incoming => "incoming",
        };
        let event = crate::observability::PipelineAuditEvent {
            tenant_id: context.tenant_id.clone(),
            source: source_label.to_owned(),
            verdict: verdict_label(verdict).to_owned(),
            alert_count: alerts.len(),
            stage_count: stages.len(),
        };
        self.emit_audit(&event);
        let duration_ms = crate::types::elapsed_millis(started);
        let diagnostics = DefenseDiagnostics {
            duration_ms,
            input_bytes: original_size,
            output_bytes: output_size,
            stripped_metadata_count: 0,
            stripped_bytes: 0,
            parser_used: file_kind_label(file_kind).to_owned(),
        };
        let released = if verdict == DefenseVerdict::Clean {
            output_bytes
        } else {
            Vec::new()
        };
        DefendResult {
            verdict,
            alerts,
            stages,
            artifact: DefendedArtifact { file_kind, mime, original_size, output_size, sha256: digest, output_bytes: released },
            diagnostics,
        }
    }
}

} // verus!

verus! {

// ── Laws of the verdict ──────────────────────────────────────────────────

/// A blocking alert anywhere makes the verdict `Blocked`.
pub proof fn law_blocking_alert_blocks(t: Seq<AlertTriple>, i: int)
    requires
        0 <= i < t.len(),
        t[i].2 == AlertSeverity::Blocking,
    ensures
        verdict_of(t) == DefenseVerdict::Blocked,
{
    assert(triples_have(t, AlertSeverity::Blocking));
}

/// An informational alert never changes the verdict.
pub proof fn law_info_alert_keeps_verdict(t: Seq<AlertTriple>, a: AlertTriple)
    requires
        a.2 == AlertSeverity::Info,
    ensures
        verdict_of(t.push(a)) == verdict_of(t),
{
    let u = t.push(a);
    assert forall|sev: AlertSeverity| sev != AlertSeverity::Info implies triples_have(u, sev) == triples_have(t, sev) by {
        if triples_have(u, sev) {
            let i = choose|i: int| 0 <= i < u.len() && (#[trigger] u[i]).2 == sev;
            assert(i < t.len());
            assert(t[i] == u[i]);
        }
        if triples_have(t, sev) {
            let i = choose|i: int| 0 <= i < t.len() && (#[trigger] t[i]).2 == sev;
            assert(u[i] == t[i]);
        }
    }
}

/// A dry run never blocks: after it no alert is blocking.
pub proof fn law_dry_run_never_blocks(t: Seq<AlertTriple>)
    ensures
        !triples_have(dry_run_triples(t), AlertSeverity::Blocking),
        verdict_of(dry_run_triples(t)) != DefenseVerdict::Blocked,
{
    let u = dry_run_triples(t);
    if triples_have(u, AlertSeverity::Blocking) {
        let i = choose|i: int| 0 <= i < u.len() && (#[trigger] u[i]).2 == AlertSeverity::Blocking;
        assert(u[i] == dry_run_triple(t[i]));
    }
}

/// A dry run keeps every would-be block visible as a warning: a run that
/// would have blocked is at least `Suspicious`.
pub proof fn law_dry_run_keeps_findings(t: Seq<AlertTriple>)
    requires
        verdict_of(t) != DefenseVerdict::Clean,
    ensures
        verdict_of(dry_run_triples(t)) == DefenseVerdict::Suspicious,
{
    let u = dry_run_triples(t);
    law_dry_run_never_blocks(t);
    let i = if triples_have(t, AlertSeverity::Blocking) {
        choose|i: int| 0 <= i < t.len() && (#[trigger] t[i]).2 == AlertSeverity::Blocking
    } else {
        choose|i: int| 0 <= i < t.len() && (#[trigger] t[i]).2 == AlertSeverity::Warning
    };
    assert(u[i] == dry_run_triple(t[i]));
    assert(u[i].2 == AlertSeverity::Warning);
    assert(triples_have(u, AlertSeverity::Warning));
}

/// A dry run leaves no stage blocked.
pub proof fn law_dry_run_unblocks_stages(t: Seq<StageTriple>)
    ensures
        forall|i: int| 0 <= i < t.len() ==> (#[trigger] dry_run_stage_triples(t)[i]).1 != PipelineStageStatus::Blocked,
{
}

/// When the independent read of the candidate fails, an enforcing run is
/// blocked.
pub proof fn law_failed_read_blocks(p: DefensePolicy, reviewed: Seq<DefenseAlert>, read: Result<String, String>)
    requires
        read is Err,
        p.enforcement_mode == EnforcementMode::Enforce,
    ensures
        verdict_of(final_alerts(p, reviewed, read)) == DefenseVerdict::Blocked,
{
    let t = final_alerts(p, reviewed, read);
    let n = alert_triples(reviewed).len();
    assert(t[n as int] == read_alerts(read)[0]);
    law_blocking_alert_blocks(t, n as int);
}

/// In an enforcing run every alert of the review reaches the result
/// unchanged, so any blocking finding blocks the run.
pub proof fn law_review_findings_reach_verdict(
    p: DefensePolicy,
    reviewed: Seq<DefenseAlert>,
    read: Result<String, String>,
    i: int,
)
    requires
        p.enforcement_mode == EnforcementMode::Enforce,
        0 <= i < reviewed.len(),
        reviewed[i].severity == AlertSeverity::Blocking,
    ensures
        verdict_of(final_alerts(p, reviewed, read)) == DefenseVerdict::Blocked,
{
    let t = final_alerts(p, reviewed, read);
    assert(t[i] == alert_triple(reviewed[i]));
    law_blocking_alert_blocks(t, i);
}

} // verus!

verus! {

// ── Dispatch to the handler of the kind ──────────────────────────────────

/// How the rebuild starts.
pub enum RebuildStart {
    /// The handler of the kind ran to its end.
    Done(Result<HandlerResult, DefenderError>),
    /// Video goes on with this handler; ffmpeg is the caller's part.
    Video(VideoHandler),
    /// Audio goes on with this handler; ffmpeg is the caller's part.
    Audio(AudioHandler),
}

/// A semantic minimum forces audio and video through ffmpeg.
pub open spec fn semantic_required(p: DefensePolicy) -> bool {
    p.minimum_reconstruction_level == ReconstructionLevel::Semantic
}

/// The video policy the run uses.
pub open spec fn video_policy_used(p: DefensePolicy, v: VideoPolicy) -> bool {
    &&& v.mode == if semantic_required(p) {
        VideoMode::RequireFfmpeg
    } else {
        p.video.mode
    }
    &&& v.ffmpeg_bin@ == p.video.ffmpeg_bin@
    &&& v.ffprobe_bin@ == p.video.ffprobe_bin@
    &&& v.ffmpeg_timeout_secs == p.video.ffmpeg_timeout_secs
    &&& v.max_duration_secs == p.video.max_duration_secs
    &&& v.max_bitrate_kbps == p.video.max_bitrate_kbps
    &&& v.probe_failure_mode == p.video.probe_failure_mode
}

/// The audio policy the run uses.
pub open spec fn audio_policy_used(p: DefensePolicy, a: AudioPolicy) -> bool {
    &&& a.mode == if semantic_required(p) {
        AudioMode::RequireFfmpeg
    } else {
        p.audio.mode
    }
    &&& a.ffmpeg_bin@ == p.audio.ffmpeg_bin@
    &&& a.ffprobe_bin@ == p.audio.ffprobe_bin@
    &&& a.ffmpeg_timeout_secs == p.audio.ffmpeg_timeout_secs
    &&& a.max_duration_secs == p.audio.max_duration_secs
    &&& a.max_bitrate_kbps == p.audio.max_bitrate_kbps
    &&& a.max_channels == p.audio.max_channels
    &&& a.output_codec == p.audio.output_codec
    &&& a.keep_original_mode == p.audio.keep_original_mode
    &&& a.probe_failure_mode == p.audio.probe_failure_mode
}

impl FileDefender {
    /// Start the handler of the kind. A semantic minimum cannot be met for
    /// animated images or other files, and makes audio and video require
    /// ffmpeg.
    pub fn start_rebuild(
        &self,
        file_kind: FileKind,
        input_bytes: Vec<u8>,
        context: DefenseContext,
        entropy_label: &str,
    ) -> (res: RebuildStart)
        ensures
            ({
                let p = self.spec_policy();
                if semantic_required(p) && (file_kind == FileKind::AnimatedImage || file_kind == FileKind::Other) {
                    res matches RebuildStart::Done(r) && r == Err::<HandlerResult, DefenderError>(
                        DefenderError::UnsupportedReconstructionLevel,
                    )
                } else {
                    match file_kind {
                        FileKind::Image => res matches RebuildStart::Done(r) && image_outcome(p.image, input_bytes@, r),
                        FileKind::AnimatedImage => res matches RebuildStart::Done(r) && apng_outcome(
                            p.animated_image,
                            input_bytes@,
                            context,
                            r,
                        ),
                        FileKind::Gif => res matches RebuildStart::Done(r) && gif_outcome(p.gif, context, r),
                        FileKind::Other => res matches RebuildStart::Done(r) && generic_outcome(
                            input_bytes@,
                            entropy_label@,
                            r,
                        ),
                        FileKind::Video => res matches RebuildStart::Video(h) && video_policy_used(p, h.spec_policy()),
                        FileKind::Audio => res matches RebuildStart::Audio(h) && audio_policy_used(p, h.spec_policy()),
                    }
                }
            }),
    {
        let semantic = self.policy().minimum_reconstruction_level == ReconstructionLevel::Semantic;
        if semantic && (file_kind == FileKind::AnimatedImage || file_kind == FileKind::Other) {
            return RebuildStart::Done(Err(DefenderError::UnsupportedReconstructionLevel));
        }
        match file_kind {
            FileKind::Image => {
                let handler = ImageHandler::new(self.policy().image);
                RebuildStart::Done(handler.rebuild(input_bytes, context))
            },
            FileKind::AnimatedImage => {
                let handler = AnimatedImageHandler::new(self.policy().animated_image);
                RebuildStart::Done(handler.rebuild(input_bytes, context))
            },
            FileKind::Gif => {
                let handler = GifHandler::new(self.policy().gif);
                RebuildStart::Done(handler.rebuild(input_bytes, context))
            },
            FileKind::Other => {
                let handler = GenericHandler::new(self.policy().other);
                RebuildStart::Done(handler.rebuild(input_bytes, context, entropy_label))
            },
            FileKind::Video => {
                let mut policy = self.policy().video.duplicate();
                if semantic {
                    policy.mode = VideoMode::RequireFfmpeg;
                }
                RebuildStart::Video(VideoHandler::new(policy))
            },
            FileKind::Audio => {
                let mut policy = self.policy().audio.duplicate();
                if semantic {
                    policy.mode = AudioMode::RequireFfmpeg;
                }
                RebuildStart::Audio(AudioHandler::new(policy))
            },
        }
    }
}

} // verus!
