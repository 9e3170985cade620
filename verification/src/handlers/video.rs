//! Video handler.
//!
//! MP4 and WebM are sanitized natively at the container level; anything
//! else, and everything when the policy demands a transcode, goes to ffmpeg.
//! Running ffmpeg and ffprobe is the caller's part: this module decides what
//! to run and what the outcome of each run means.
use vstd::prelude::*;
use vstd::string::StringSliceAdditionalSpecFns;

use crate::bytes::occurs_at;
use crate::error::DefenderError;
use crate::handlers::audio::{
    bps_limit, decimal_or_unknown, executable_magic, label_or_unknown, TranscodePreflight,
};
use crate::handlers::mp4_native::{mp4_plan, try_sanitize_mp4, Mp4Walk};
use crate::handlers::webm_native::{try_sanitize_webm, webm_plan, WebmWalk};
use crate::handlers::{HandlerResult, MediaRebuildStep, TranscodeRun};
use crate::policy::{ProbeFailureMode, VideoMode, VideoPolicy};
use crate::text::{decimal, push_decimal};
use crate::types::{
    alert_is, AlertSeverity, DefenseAlert, DefenseContext, PipelineStage, PipelineStageReport,
    PipelineStageStatus,
};

pub use crate::handlers::audio::has_executable_magic;

verus! {

/// At least 12 bytes, with `ftyp` as the type of the first box.
pub open spec fn mp4_container_shape(b: Seq<u8>) -> bool {
    b.len() >= 12 && occurs_at(b, "ftyp".spec_bytes(), 4)
}

/// Whether the bytes look like an MP4 container: at least 12 bytes with an
/// `ftyp` box first.
pub fn looks_like_mp4_container(bytes: &[u8]) -> (res: bool)
    ensures
        res == mp4_container_shape(bytes@),
{
    bytes.len() >= 12 && crate::bytes::matches_at(bytes, "ftyp".as_bytes(), 4)
}

/// The native MP4 result as the video handler reports it.
pub open spec fn mp4_video_result_is(r: HandlerResult, w: Mp4Walk) -> bool {
    &&& r.mime@ == "video/mp4"@
    &&& r.output_bytes@ == w.out
    &&& r.alerts@.len() == if w.stripped_count > 0 { 1int } else { 0int }
    &&& w.stripped_count > 0 ==> alert_is(
        r.alerts@[0],
        "video_mp4_metadata_stripped"@,
        "MP4 container CDR stripped "@ + decimal(w.stripped_count as nat) + " metadata atom(s), "@ + decimal(
            w.stripped_bytes as nat,
        ) + " bytes. Codec bitstream preserved."@,
        AlertSeverity::Info,
    )
    &&& crate::types::stages_are(
        r.stages@,
        seq![
            (
                PipelineStage::VideoProbe,
                PipelineStageStatus::Success,
                "native MP4 CDR: stripped="@ + decimal(w.stripped_count as nat),
            ),
            (PipelineStage::Rebuild, PipelineStageStatus::Success, "achieved_reconstruction=structural"@),
        ],
    )
}

/// The native WebM result as the video handler reports it.
pub open spec fn webm_video_result_is(r: HandlerResult, w: WebmWalk) -> bool {
    &&& r.mime@ == "video/webm"@
    &&& r.output_bytes@ == w.out
    &&& r.alerts@.len() == if w.stripped_count > 0 { 1int } else { 0int }
    &&& w.stripped_count > 0 ==> alert_is(
        r.alerts@[0],
        "video_webm_metadata_stripped"@,
        "WebM container CDR stripped "@ + decimal(w.stripped_count as nat) + " metadata element(s), "@ + decimal(
            w.stripped_bytes as nat,
        ) + " bytes. Codec bitstream preserved."@,
        AlertSeverity::Info,
    )
    &&& crate::types::stages_are(
        r.stages@,
        seq![
            (
                PipelineStage::VideoProbe,
                PipelineStageStatus::Success,
                "native WebM CDR: stripped="@ + decimal(w.stripped_count as nat),
            ),
            (PipelineStage::Rebuild, PipelineStageStatus::Success, "achieved_reconstruction=structural"@),
        ],
    )
}

/// The outcome of the native video path for `b`, when MP4 or WebM
/// recognises it.
pub open spec fn native_video_matches(d: Result<HandlerResult, DefenderError>, b: Seq<u8>) -> bool {
    match mp4_plan(b) {
        Some(Err(m)) => d matches Err(e) && (e matches DefenderError::Video(t) && t@ == m),
        Some(Ok(w)) => d matches Ok(r) && mp4_video_result_is(r, w),
        None => match webm_plan(b) {
            Some(Err(m)) => d matches Err(e) && (e matches DefenderError::Video(t) && t@ == m),
            Some(Ok(w)) => d matches Ok(r) && webm_video_result_is(r, w),
            None => false,
        },
    }
}

/// The native video path recognises the container of `b`.
pub open spec fn native_video_recognizes(b: Seq<u8>) -> bool {
    mp4_plan(b) is Some || webm_plan(b) is Some
}

fn two_stages(detail: String) -> (v: Vec<PipelineStageReport>)
    ensures
        crate::types::stages_are(
            v@,
            seq![
                (PipelineStage::VideoProbe, PipelineStageStatus::Success, detail@),
                (PipelineStage::Rebuild, PipelineStageStatus::Success, "achieved_reconstruction=structural"@),
            ],
        ),
{
    let mut v: Vec<PipelineStageReport> = Vec::new();
    v.push(PipelineStageReport { stage: PipelineStage::VideoProbe, status: PipelineStageStatus::Success, detail });
    v.push(
        PipelineStageReport {
            stage: PipelineStage::Rebuild,
            status: PipelineStageStatus::Success,
            detail: "achieved_reconstruction=structural".to_owned(),
        },
    );
    v
}

/// The stripped-metadata alert of a native video rebuild, when anything
/// was stripped.
fn native_video_alerts(prefix: &str, unit: &str, count: u32, bytes: u64, code: &str) -> (v: Vec<DefenseAlert>)
    ensures
        v@.len() == if count > 0 { 1int } else { 0int },
        count > 0 ==> alert_is(
            v@[0],
            code@,
            prefix@ + decimal(count as nat) + unit@ + decimal(bytes as nat) + " bytes. Codec bitstream preserved."@,
            AlertSeverity::Info,
        ),
{
    let mut alerts: Vec<DefenseAlert> = Vec::new();
    if count > 0 {
        let mut msg = prefix.to_owned();
        push_decimal(&mut msg, count as u64);
        msg.append(unit);
        push_decimal(&mut msg, bytes);
        msg.append(" bytes. Codec bitstream preserved.");
        alerts.push(DefenseAlert { code: code.to_owned(), message: msg, severity: AlertSeverity::Info });
    }
    alerts
}

/// The video handler.
#[derive(Debug)]
pub struct VideoHandler {
    policy: VideoPolicy,
}

/// What ffprobe reported. The duration is a decimal number of seconds that
/// the caller compares with the policy and formats with three decimals.
pub struct VideoProbeMetrics {
    pub duration_label: Option<String>,
    pub duration_over_limit: bool,
    pub bitrate_bps: Option<u64>,
}

/// The metrics break a limit of the policy: duration, then bitrate.
pub open spec fn video_metrics_violate(m: VideoProbeMetrics, p: VideoPolicy) -> bool {
    ||| m.duration_label is Some && m.duration_over_limit
    ||| (m.bitrate_bps matches Some(b) && b > bps_limit(p.max_bitrate_kbps))
}

/// The detail of a successful video probe.
pub open spec fn video_probe_detail(m: VideoProbeMetrics) -> Seq<char> {
    "video probe succeeded duration_secs="@ + label_or_unknown(m.duration_label) + " bitrate_bps="@
        + decimal_or_unknown(m.bitrate_bps)
}

/// The checks before the transcode stop with an error.
pub open spec fn video_preflight_fails(
    metrics: Result<VideoProbeMetrics, DefenderError>,
    video_probe_ok: bool,
    p: VideoPolicy,
) -> bool {
    match metrics {
        Err(_) => p.probe_failure_mode == ProbeFailureMode::Block,
        Ok(m) => video_metrics_violate(m, p) || (!video_probe_ok && p.probe_failure_mode == ProbeFailureMode::Block),
    }
}

/// The alerts gathered before a video transcode that goes ahead.
pub open spec fn video_preflight_alerts(metrics_failed: bool, video_probe_ok: bool) -> Seq<
    (Seq<char>, Seq<char>, AlertSeverity),
> {
    (if metrics_failed {
        seq![
            (
                "video_ffprobe_failed"@,
                "ffprobe metadata probe failed; continuing with ffmpeg transcode policy."@,
                AlertSeverity::Warning,
            ),
        ]
    } else {
        Seq::empty()
    }) + (if !video_probe_ok {
        seq![
            (
                "video_native_probe_failed"@,
                "Native video probe failed; continuing with ffmpeg transcode policy."@,
                AlertSeverity::Warning,
            ),
        ]
    } else {
        Seq::empty()
    })
}

/// The probe report gathered before a video transcode.
pub open spec fn video_preflight_stages(
    metrics: Result<VideoProbeMetrics, DefenderError>,
    video_probe_ok: bool,
) -> Seq<(PipelineStage, PipelineStageStatus, Seq<char>)> {
    match metrics {
        Ok(m) => if video_probe_ok {
            seq![(PipelineStage::VideoProbe, PipelineStageStatus::Success, video_probe_detail(m))]
        } else {
            seq![(PipelineStage::VideoProbe, PipelineStageStatus::Warning, "video probe warning"@)]
        },
        Err(_) => seq![(PipelineStage::VideoProbe, PipelineStageStatus::Warning, "video probe warning"@)],
    }
}

/// The verdict on an ffmpeg video run, as in the audio handler: 0 rejects,
/// 1 passes the input through with a warning, 2 accepts the output.
pub open spec fn video_transcode_verdict(strict: bool, run: TranscodeRun) -> (int, Seq<char>, Seq<char>) {
    let bypass_or_reject = |code: Seq<char>, message: Seq<char>| if strict { (0int, code, message) } else { (1int, code, message) };
    match run {
        TranscodeRun::ExecFailed { error } => bypass_or_reject(
            "ffmpeg_execution_failed_video"@,
            "ffmpeg video execution failed: "@ + error@,
        ),
        TranscodeRun::Failed { stderr } => bypass_or_reject("ffmpeg_failed"@, "ffmpeg failed; bypassing video rebuild"@),
        TranscodeRun::Produced { output_bytes } => {
            let out = output_bytes@;
            if out.len() == 0 {
                bypass_or_reject("ffmpeg_empty_output"@, "ffmpeg produced empty output; bypassing video rebuild"@)
            } else if !mp4_container_shape(out) {
                bypass_or_reject(
                    "ffmpeg_invalid_container_video"@,
                    "ffmpeg output failed mp4 container sanity check; bypassing video rebuild"@,
                )
            } else if executable_magic(out) {
                bypass_or_reject(
                    "ffmpeg_executable_magic_video"@,
                    "ffmpeg output has executable signature; bypassing video rebuild"@,
                )
            } else {
                (2int, "achieved_reconstruction=semantic"@, Seq::empty())
            }
        },
    }
}

/// The result handed out when the policy blocks video without ffmpeg and
/// ffmpeg is missing.
pub open spec fn video_ffmpeg_missing_result_is(r: HandlerResult) -> bool {
    &&& r.mime@ == "video/blocked"@
    &&& r.output_bytes@.len() == 0
    &&& crate::types::alerts_are(
        r.alerts@,
        seq![
            (
                "ffmpeg_missing"@,
                "ffmpeg is not installed and policy is BlockWhenUnavailable"@,
                AlertSeverity::Blocking,
            ),
        ],
    )
    &&& crate::types::stages_are(
        r.stages@,
        seq![
            (
                PipelineStage::VideoProbe,
                PipelineStageStatus::Blocked,
                "video probe blocked because ffmpeg is missing"@,
            ),
        ],
    )
}

impl VideoHandler {
    /// The policy the handler enforces.
    pub closed spec fn spec_policy(&self) -> VideoPolicy {
        self.policy
    }

    pub fn new(policy: VideoPolicy) -> (res: Self)
        ensures
            res.spec_policy() == policy,
    {
        Self { policy }
    }

    /// The policy the handler enforces.
    pub fn policy(&self) -> (res: &VideoPolicy)
        ensures
            *res == self.spec_policy(),
    {
        &self.policy
    }

    /// Decide how to rebuild a video: natively for MP4 and WebM unless the
    /// policy requires a transcode, else through ffmpeg, or after checking
    /// that ffmpeg is installed when the policy blocks without it.
    pub fn rebuild(&self, input_bytes: Vec<u8>, context: DefenseContext) -> (res: MediaRebuildStep)
        ensures
            match self.spec_policy().mode {
                VideoMode::RequireFfmpeg => res matches MediaRebuildStep::Transcode { input_bytes: b, strict }
                    && b@ == input_bytes@ && strict,
                mode => if native_video_recognizes(input_bytes@) {
                    res matches MediaRebuildStep::Done(d) && native_video_matches(d, input_bytes@)
                } else if mode == VideoMode::BypassWhenUnavailable {
                    res matches MediaRebuildStep::Transcode { input_bytes: b, strict } && b@ == input_bytes@ && !strict
                } else {
                    res matches MediaRebuildStep::CheckTranscoder { input_bytes: b } && b@ == input_bytes@
                },
            },
    {
        if self.policy.mode == VideoMode::RequireFfmpeg {
            return MediaRebuildStep::Transcode { input_bytes, strict: true };
        }
        if let Some(mp4_result) = try_sanitize_mp4(input_bytes.as_slice()) {
            return match mp4_result {
                Ok(native) => {
                    let alerts = native_video_alerts(
                        "MP4 container CDR stripped ",
                        " metadata atom(s), ",
                        native.stripped_count,
                        native.stripped_bytes,
                        "video_mp4_metadata_stripped",
                    );
                    let mut detail = "native MP4 CDR: stripped=".to_owned();
                    push_decimal(&mut detail, native.stripped_count as u64);
                    let stages = two_stages(detail);
                    MediaRebuildStep::Done(
                        Ok(HandlerResult { mime: "video/mp4".to_owned(), output_bytes: native.output_bytes, alerts, stages }),
                    )
                },
                Err(err) => MediaRebuildStep::Done(Err(err)),
            };
        }
        if let Some(webm_result) = try_sanitize_webm(input_bytes.as_slice()) {
            return match webm_result {
                Ok(native) => {
                    let alerts = native_video_alerts(
                        "WebM container CDR stripped ",
                        " metadata element(s), ",
                        native.stripped_count,
                        native.stripped_bytes,
                        "video_webm_metadata_stripped",
                    );
                    let mut detail = "native WebM CDR: stripped=".to_owned();
                    push_decimal(&mut detail, native.stripped_count as u64);
                    let stages = two_stages(detail);
                    MediaRebuildStep::Done(
                        Ok(HandlerResult { mime: "video/webm".to_owned(), output_bytes: native.output_bytes, alerts, stages }),
                    )
                },
                Err(err) => MediaRebuildStep::Done(Err(err)),
            };
        }
        if self.policy.mode == VideoMode::BypassWhenUnavailable {
            MediaRebuildStep::Transcode { input_bytes, strict: false }
        } else {
            MediaRebuildStep::CheckTranscoder { input_bytes }
        }
    }

    /// Continue after the ffmpeg check: transcode strictly when ffmpeg is
    /// installed, else hand out an empty, blocked result.
    pub fn after_ffmpeg_check(&self, input_bytes: Vec<u8>, ffmpeg_available: bool) -> (res: MediaRebuildStep)
        ensures
            ffmpeg_available ==> (res matches MediaRebuildStep::Transcode { input_bytes: b, strict } && b@
                == input_bytes@ && strict),
            !ffmpeg_available ==> (res matches MediaRebuildStep::Done(Ok(r)) && video_ffmpeg_missing_result_is(r)),
    {
        if ffmpeg_available {
            return MediaRebuildStep::Transcode { input_bytes, strict: true };
        }
        let mut alerts: Vec<DefenseAlert> = Vec::new();
        alerts.push(
            DefenseAlert::blocking("ffmpeg_missing", "ffmpeg is not installed and policy is BlockWhenUnavailable"),
        );
        let mut stages: Vec<PipelineStageReport> = Vec::new();
        stages.push(
            PipelineStageReport {
                stage: PipelineStage::VideoProbe,
                status: PipelineStageStatus::Blocked,
                detail: "video probe blocked because ffmpeg is missing".to_owned(),
            },
        );
        MediaRebuildStep::Done(Ok(HandlerResult { mime: "video/blocked".to_owned(), output_bytes: Vec::new(), alerts, stages }))
    }

    /// Start of the ffmpeg path: empty input cannot be rebuilt.
    pub fn ffmpeg_start(&self, input_bytes: &[u8]) -> (res: Result<(), DefenderError>)
        ensures
            res is Ok <==> input_bytes@.len() > 0,
            res matches Err(e) ==> e is Video,
    {
        if input_bytes.len() == 0 {
            return Err(DefenderError::Video("video input is empty and cannot be rebuilt".to_owned()));
        }
        Ok(())
    }

    /// The checks before the transcode, from the outcome of the decode probe
    /// and of ffprobe.
    pub fn preflight(&self, video_probe_ok: bool, metrics: Result<VideoProbeMetrics, DefenderError>) -> (res: Result<
        TranscodePreflight,
        DefenderError,
    >)
        ensures
            video_preflight_fails(metrics, video_probe_ok, self.spec_policy()) <==> res is Err,
            (metrics is Err && self.spec_policy().probe_failure_mode == ProbeFailureMode::Block) ==> res
                == Err::<TranscodePreflight, DefenderError>(metrics->Err_0),
            metrics is Ok ==> (res matches Err(e) ==> e is Video),
            res is Ok ==> (res matches Ok(TranscodePreflight::Proceed { alerts, stages }) && {
                &&& crate::types::alerts_are(alerts@, video_preflight_alerts(metrics is Err, video_probe_ok))
                &&& crate::types::stages_are(stages@, video_preflight_stages(metrics, video_probe_ok))
            }),
    {
        let mut alerts: Vec<DefenseAlert> = Vec::new();
        let mut stages: Vec<PipelineStageReport> = Vec::new();
        let metrics = match metrics {
            Ok(m) => Some(m),
            Err(e) => {
                if self.policy.probe_failure_mode == ProbeFailureMode::Block {
                    return Err(e);
                }
                alerts.push(
                    DefenseAlert {
                        code: "video_ffprobe_failed".to_owned(),
                        message: "ffprobe metadata probe failed; continuing with ffmpeg transcode policy.".to_owned(),
                        severity: AlertSeverity::Warning,
                    },
                );
                None
            },
        };
        let max_bps: u64 = if self.policy.max_bitrate_kbps > u64::MAX / 1000 {
            u64::MAX
        } else {
            self.policy.max_bitrate_kbps * 1000
        };
        if let Some(m) = &metrics {
            if m.duration_label.is_some() && m.duration_over_limit {
                let mut msg = "video duration exceeds max_duration_secs: ".to_owned();
                match &m.duration_label {
                    Some(l) => msg.append(l.as_str()),
                    None => {},
                }
                msg.append(" > ");
                push_decimal(&mut msg, self.policy.max_duration_secs);
                return Err(DefenderError::Video(msg));
            }
            if let Some(b) = m.bitrate_bps {
                if b > max_bps {
                    let mut msg = "video bitrate exceeds max_bitrate_kbps: ".to_owned();
                    push_decimal(&mut msg, b);
                    msg.append(" > ");
                    push_decimal(&mut msg, max_bps);
                    return Err(DefenderError::Video(msg));
                }
            }
        }
        match &metrics {
            Some(m) if video_probe_ok => {
                let mut detail = "video probe succeeded duration_secs=".to_owned();
                match &m.duration_label {
                    Some(l) => detail.append(l.as_str()),
                    None => detail.append("unknown"),
                }
                detail.append(" bitrate_bps=");
                match m.bitrate_bps {
                    Some(b) => push_decimal(&mut detail, b),
                    None => detail.append("unknown"),
                }
                stages.push(
                    PipelineStageReport { stage: PipelineStage::VideoProbe, status: PipelineStageStatus::Success, detail },
                );
            },
            _ => {
                if !video_probe_ok {
                    if self.policy.probe_failure_mode == ProbeFailureMode::Block {
                        return Err(DefenderError::Video("native video probe failed under block mode".to_owned()));
                    }
                    alerts.push(
                        DefenseAlert {
                            code: "video_native_probe_failed".to_owned(),
                            message: "Native video probe failed; continuing with ffmpeg transcode policy.".to_owned(),
                            severity: AlertSeverity::Warning,
                        },
                    );
                }
                stages.push(
                    PipelineStageReport {
                        stage: PipelineStage::VideoProbe,
                        status: PipelineStageStatus::Warning,
                        detail: "video probe warning".to_owned(),
                    },
                );
            },
        }
        Ok(TranscodePreflight::Proceed { alerts, stages })
    }

    /// Judge an ffmpeg run: accept its output when it is non-empty, shaped
    /// like MP4 and not an executable; otherwise fail when `strict`, or pass
    /// the input through with a warning.
    pub fn finish_transcode(
        &self,
        strict: bool,
        run: TranscodeRun,
        input_bytes: Vec<u8>,
        alerts: Vec<DefenseAlert>,
        stages: Vec<PipelineStageReport>,
    ) -> (res: Result<HandlerResult, DefenderError>)
        ensures
            crate::handlers::audio::transcode_result_is(
                res,
                video_transcode_verdict(strict, run),
                "video/raw"@,
                "video/mp4"@,
                run,
                input_bytes@,
                alerts@,
                stages@,
            ),
            res matches Err(e) ==> e is Video,
    {
        let output_bytes = match run {
            TranscodeRun::ExecFailed { error } => {
                let mut msg = "ffmpeg video execution failed: ".to_owned();
                msg.append(error.as_str());
                if strict {
                    return Err(DefenderError::Video(msg));
                }
                return Ok(video_pass_through(input_bytes, alerts, stages, "ffmpeg_execution_failed_video", msg));
            },
            TranscodeRun::Failed { stderr } => {
                if strict {
                    let mut msg = "ffmpeg failed in strict mode: ".to_owned();
                    msg.append(stderr.as_str());
                    return Err(DefenderError::Video(msg));
                }
                return Ok(
                    video_pass_through(
                        input_bytes,
                        alerts,
                        stages,
                        "ffmpeg_failed",
                        "ffmpeg failed; bypassing video rebuild".to_owned(),
                    ),
                );
            },
            TranscodeRun::Produced { output_bytes } => output_bytes,
        };
        if output_bytes.len() == 0 {
            if strict {
                return Err(DefenderError::Video("ffmpeg produced empty output in strict mode".to_owned()));
            }
            return Ok(
                video_pass_through(
                    input_bytes,
                    alerts,
                    stages,
                    "ffmpeg_empty_output",
                    "ffmpeg produced empty output; bypassing video rebuild".to_owned(),
                ),
            );
        }
        if !looks_like_mp4_container(output_bytes.as_slice()) {
            if strict {
                return Err(DefenderError::Video("ffmpeg output does not look like a valid mp4 container".to_owned()));
            }
            return Ok(
                video_pass_through(
                    input_bytes,
                    alerts,
                    stages,
                    "ffmpeg_invalid_container_video",
                    "ffmpeg output failed mp4 container sanity check; bypassing video rebuild".to_owned(),
                ),
            );
        }
        if has_executable_magic(output_bytes.as_slice()) {
            if strict {
                return Err(DefenderError::Video("ffmpeg output looks like executable payload".to_owned()));
            }
            return Ok(
                video_pass_through(
                    input_bytes,
                    alerts,
                    stages,
                    "ffmpeg_executable_magic_video",
                    "ffmpeg output has executable signature; bypassing video rebuild".to_owned(),
                ),
            );
        }
        let mut stages = stages;
        let ghost before = stages@;
        stages.push(
            PipelineStageReport {
                stage: PipelineStage::Rebuild,
                status: PipelineStageStatus::Success,
                detail: "achieved_reconstruction=semantic".to_owned(),
            },
        );
        proof {
            assert(stages@.subrange(0, before.len() as int) =~= before);
        }
        Ok(HandlerResult { mime: "video/mp4".to_owned(), output_bytes, alerts, stages })
    }
}

fn video_pass_through(
    input_bytes: Vec<u8>,
    alerts: Vec<DefenseAlert>,
    stages: Vec<PipelineStageReport>,
    code: &str,
    message: String,
) -> (r: HandlerResult)
    ensures
        r.mime@ == "video/raw"@,
        r.output_bytes@ == input_bytes@,
        crate::types::alerts_then(r.alerts@, alerts@, code@, message@, AlertSeverity::Warning),
        r.stages@ == stages@,
{
    let mut alerts = alerts;
    let ghost before = alerts@;
    alerts.push(DefenseAlert { code: code.to_owned(), message, severity: AlertSeverity::Warning });
    proof {
        assert(alerts@.subrange(0, before.len() as int) =~= before);
    }
    HandlerResult { mime: "video/raw".to_owned(), output_bytes: input_bytes, alerts, stages }
}

} // verus!
