//! Audio handler.
//!
//! OGG, MP4/M4A, MP3, WAV and FLAC are sanitized natively at the container
//! level. Anything else, and everything when the policy demands a transcode,
//! goes to ffmpeg. Running ffmpeg and ffprobe is the caller's part: this
//! module decides what to run and what the outcome of each run means.
use vstd::prelude::*;
use vstd::string::StringSliceAdditionalSpecFns;

use crate::bytes::{bytes_eq, is_one_of, matches_any};
use crate::error::DefenderError;
use crate::handlers::audio_native::{
    flac_view, mp3_view, native_result_matches, try_sanitize_flac, try_sanitize_mp3, try_sanitize_wav, wav_view,
    NativeAudioResult,
};
use crate::handlers::mp4_native::{mp4_plan, mp4_sanitized, try_sanitize_mp4, Mp4SanitizeResult, Mp4Walk};
use crate::handlers::ogg_native::{codec_name, ogg_plan, ogg_sanitized, try_sanitize_ogg, OggSanitizeResult, OggWalk};
use crate::handlers::{HandlerResult, MediaRebuildStep, TranscodeRun};
use crate::policy::{AudioKeepOriginalMode, AudioMode, AudioOutputCodec, AudioPolicy, ProbeFailureMode};
use crate::text::{decimal, push_decimal};
use crate::types::{
    alert_is, opt_bytes, stage_is, AlertSeverity, DefenseAlert, DefenseContext, PipelineStage,
    PipelineStageReport, PipelineStageStatus,
};

verus! {

// ── Byte and MIME checks ──────────────────────────────────────────────────

/// The bytes start with a PE (`MZ`), ELF or Mach-O header.
pub open spec fn executable_magic(b: Seq<u8>) -> bool {
    ||| b.len() >= 2 && b[0] == 0x4D && b[1] == 0x5A
    ||| b.len() >= 4 && b[0] == 0x7F && b[1] == 0x45 && b[2] == 0x4C && b[3] == 0x46
    ||| b.len() >= 4 && b[0] == 0xFE && b[1] == 0xED && b[2] == 0xFA && (b[3] == 0xCE || b[3] == 0xCF)
    ||| b.len() >= 4 && (b[0] == 0xCE || b[0] == 0xCF) && b[1] == 0xFA && b[2] == 0xED && b[3] == 0xFE
}

/// Whether the bytes start with a PE, ELF or Mach-O header.
pub fn has_executable_magic(bytes: &[u8]) -> (res: bool)
    ensures
        res == executable_magic(bytes@),
{
    let n = bytes.len();
    if n >= 2 && bytes[0] == 0x4D && bytes[1] == 0x5A {
        return true;
    }
    if n >= 4 && bytes[0] == 0x7F && bytes[1] == 0x45 && bytes[2] == 0x4C && bytes[3] == 0x46 {
        return true;
    }
    if n >= 4 && bytes[0] == 0xFE && bytes[1] == 0xED && bytes[2] == 0xFA && (bytes[3] == 0xCE || bytes[3] == 0xCF) {
        return true;
    }
    if n >= 4 && (bytes[0] == 0xCE || bytes[0] == 0xCF) && bytes[1] == 0xFA && bytes[2] == 0xED && bytes[3] == 0xFE {
        return true;
    }
    false
}

/// The MIME types accepted as audio output.
pub open spec fn audio_mimes() -> Seq<&'static str> {
    seq!["audio/mpeg", "audio/aac", "audio/opus", "audio/flac", "audio/wav", "audio/x-wav", "audio/ogg"]
}

/// Whether `mime` is one of the accepted audio MIME types.
pub fn is_audio_mime(mime: &str) -> (res: bool)
    ensures
        res == is_one_of(mime.spec_bytes(), audio_mimes()),
{
    let accepted: [&str; 7] = [
        "audio/mpeg",
        "audio/aac",
        "audio/opus",
        "audio/flac",
        "audio/wav",
        "audio/x-wav",
        "audio/ogg",
    ];
    assert(accepted@ == audio_mimes());
    matches_any(mime.as_bytes(), &accepted)
}

/// The canonical name of an audio MIME type: Ogg and Opus are one family,
/// `audio/x-wav` is `audio/wav`, anything unknown is `audio/unknown`.
pub open spec fn canonical_audio(m: Seq<u8>) -> Seq<char> {
    if m == "audio/ogg".spec_bytes() || m == "audio/opus".spec_bytes() {
        "audio/opus"@
    } else if m == "audio/x-wav".spec_bytes() || m == "audio/wav".spec_bytes() {
        "audio/wav"@
    } else if m == "audio/mpeg".spec_bytes() {
        "audio/mpeg"@
    } else if m == "audio/aac".spec_bytes() {
        "audio/aac"@
    } else if m == "audio/flac".spec_bytes() {
        "audio/flac"@
    } else {
        "audio/unknown"@
    }
}

/// The canonical name of an audio MIME type.
pub fn canonical_audio_mime(mime: &str) -> (res: &'static str)
    ensures
        res@ == canonical_audio(mime.spec_bytes()),
{
    let m = mime.as_bytes();
    if bytes_eq(m, "audio/ogg".as_bytes()) || bytes_eq(m, "audio/opus".as_bytes()) {
        "audio/opus"
    } else if bytes_eq(m, "audio/x-wav".as_bytes()) || bytes_eq(m, "audio/wav".as_bytes()) {
        "audio/wav"
    } else if bytes_eq(m, "audio/mpeg".as_bytes()) {
        "audio/mpeg"
    } else if bytes_eq(m, "audio/aac".as_bytes()) {
        "audio/aac"
    } else if bytes_eq(m, "audio/flac".as_bytes()) {
        "audio/flac"
    } else {
        "audio/unknown"
    }
}

// ── Transcode plan ────────────────────────────────────────────────────────

/// The ffmpeg codec argument, the MIME type and the file suffix of a
/// transcode.
#[derive(Debug, Clone, Copy)]
pub struct AudioTranscodePlan {
    pub codec_arg: &'static str,
    pub mime: &'static str,
    pub suffix: &'static str,
}

/// The plan for an output codec and the sniffed input MIME type, as (codec
/// argument, MIME, suffix, whether the original stream is kept). Keeping the
/// original copies the stream for MPEG, AAC, FLAC, WAV and Ogg/Opus input
/// and falls back to MP3 otherwise.
pub open spec fn transcode_plan(codec: AudioOutputCodec, input_mime: Option<Seq<u8>>) -> (
    Seq<char>,
    Seq<char>,
    Seq<char>,
    bool,
) {
    match codec {
        AudioOutputCodec::KeepOriginalWhenPossible => match input_mime {
            Some(m) => if m == "audio/mpeg".spec_bytes() {
                ("copy"@, "audio/mpeg"@, ".mp3"@, true)
            } else if m == "audio/aac".spec_bytes() {
                ("copy"@, "audio/aac"@, ".aac"@, true)
            } else if m == "audio/flac".spec_bytes() {
                ("copy"@, "audio/flac"@, ".flac"@, true)
            } else if m == "audio/wav".spec_bytes() {
                ("copy"@, "audio/wav"@, ".wav"@, true)
            } else if m == "audio/ogg".spec_bytes() || m == "audio/opus".spec_bytes() {
                ("copy"@, "audio/opus"@, ".opus"@, true)
            } else {
                ("libmp3lame"@, "audio/mpeg"@, ".mp3"@, false)
            },
            None => ("libmp3lame"@, "audio/mpeg"@, ".mp3"@, false),
        },
        AudioOutputCodec::Mp3 => ("libmp3lame"@, "audio/mpeg"@, ".mp3"@, false),
        AudioOutputCodec::Aac => ("aac"@, "audio/aac"@, ".aac"@, false),
        AudioOutputCodec::Opus => ("libopus"@, "audio/opus"@, ".opus"@, false),
        AudioOutputCodec::Flac => ("flac"@, "audio/flac"@, ".flac"@, false),
        AudioOutputCodec::Wav => ("pcm_s16le"@, "audio/wav"@, ".wav"@, false),
    }
}

pub open spec fn plan_view(p: AudioTranscodePlan, kept: bool) -> (Seq<char>, Seq<char>, Seq<char>, bool) {
    (p.codec_arg@, p.mime@, p.suffix@, kept)
}

/// The transcode plan for an output codec and the sniffed input MIME type,
/// and whether it keeps the original stream.
pub fn resolve_transcode_plan(output_codec: AudioOutputCodec, input_mime: Option<&str>) -> (res: (
    AudioTranscodePlan,
    bool,
))
    ensures
        plan_view(res.0, res.1) == transcode_plan(output_codec, opt_bytes(input_mime)),
{
    let mp3_fallback = (AudioTranscodePlan { codec_arg: "libmp3lame", mime: "audio/mpeg", suffix: ".mp3" }, false);
    match output_codec {
        AudioOutputCodec::KeepOriginalWhenPossible => match input_mime {
            Some(m) => {
                let b = m.as_bytes();
                if bytes_eq(b, "audio/mpeg".as_bytes()) {
                    (AudioTranscodePlan { codec_arg: "copy", mime: "audio/mpeg", suffix: ".mp3" }, true)
                } else if bytes_eq(b, "audio/aac".as_bytes()) {
                    (AudioTranscodePlan { codec_arg: "copy", mime: "audio/aac", suffix: ".aac" }, true)
                } else if bytes_eq(b, "audio/flac".as_bytes()) {
                    (AudioTranscodePlan { codec_arg: "copy", mime: "audio/flac", suffix: ".flac" }, true)
                } else if bytes_eq(b, "audio/wav".as_bytes()) {
                    (AudioTranscodePlan { codec_arg: "copy", mime: "audio/wav", suffix: ".wav" }, true)
                } else if bytes_eq(b, "audio/ogg".as_bytes()) || bytes_eq(b, "audio/opus".as_bytes()) {
                    (AudioTranscodePlan { codec_arg: "copy", mime: "audio/opus", suffix: ".opus" }, true)
                } else {
                    mp3_fallback
                }
            },
            None => mp3_fallback,
        },
        AudioOutputCodec::Mp3 => mp3_fallback,
        AudioOutputCodec::Aac => (AudioTranscodePlan { codec_arg: "aac", mime: "audio/aac", suffix: ".aac" }, false),
        AudioOutputCodec::Opus => (
            AudioTranscodePlan { codec_arg: "libopus", mime: "audio/opus", suffix: ".opus" },
            false,
        ),
        AudioOutputCodec::Flac => (
            AudioTranscodePlan { codec_arg: "flac", mime: "audio/flac", suffix: ".flac" },
            false,
        ),
        AudioOutputCodec::Wav => (
            AudioTranscodePlan { codec_arg: "pcm_s16le", mime: "audio/wav", suffix: ".wav" },
            false,
        ),
    }
}

// ── Native container sanitizers ───────────────────────────────────────────

/// The result of the native OGG sanitizer, as the handler reports it.
pub open spec fn ogg_audio_result_is(r: HandlerResult, w: OggWalk) -> bool {
    let name = codec_name(w.codec);
    &&& r.mime@ == if w.codec == 1 { "audio/opus"@ } else { "audio/ogg"@ }
    &&& r.output_bytes@ == w.out
    &&& r.alerts@.len() == if w.stripped_bytes > 0 { 1int } else { 0int }
    &&& w.stripped_bytes > 0 ==> alert_is(
        r.alerts@[0],
        "audio_ogg_metadata_stripped"@,
        "OGG/"@ + name + " container CDR replaced comment header, stripped "@ + decimal(w.stripped_bytes as nat)
            + " bytes of metadata."@,
        AlertSeverity::Info,
    )
    &&& r.stages@.len() == 1
    &&& stage_is(
        r.stages@[0],
        PipelineStage::AudioProbe,
        PipelineStageStatus::Success,
        "native OGG/"@ + name + " CDR: stripped_bytes="@ + decimal(w.stripped_bytes as nat),
    )
}

/// The result of the native MP4/M4A sanitizer, as the handler reports it.
pub open spec fn mp4_audio_result_is(r: HandlerResult, w: Mp4Walk) -> bool {
    &&& r.mime@ == "audio/mp4"@
    &&& r.output_bytes@ == w.out
    &&& r.alerts@.len() == if w.stripped_count > 0 { 1int } else { 0int }
    &&& w.stripped_count > 0 ==> alert_is(
        r.alerts@[0],
        "audio_mp4_metadata_stripped"@,
        "MP4/M4A container CDR stripped "@ + decimal(w.stripped_count as nat) + " metadata atom(s), "@ + decimal(
            w.stripped_bytes as nat,
        ) + " bytes."@,
        AlertSeverity::Info,
    )
    &&& r.stages@.len() == 1
    &&& stage_is(
        r.stages@[0],
        PipelineStage::AudioProbe,
        PipelineStageStatus::Success,
        "native MP4/M4A CDR: stripped="@ + decimal(w.stripped_count as nat),
    )
}

/// The result of the MP3, WAV or FLAC sanitizer (output, stripped count,
/// stripped bytes), as the handler reports it.
pub open spec fn simple_audio_result_is(r: HandlerResult, v: (Seq<u8>, int, int), mime: Seq<char>) -> bool {
    &&& r.mime@ == mime
    &&& r.output_bytes@ == v.0
    &&& r.alerts@.len() == if v.1 > 0 { 1int } else { 0int }
    &&& v.1 > 0 ==> alert_is(
        r.alerts@[0],
        "audio_metadata_stripped"@,
        "Native audio CDR stripped "@ + decimal(v.1 as nat) + " metadata region(s), "@ + decimal(v.2 as nat)
            + " bytes."@,
        AlertSeverity::Info,
    )
    &&& r.stages@.len() == 1
    &&& stage_is(
        r.stages@[0],
        PipelineStage::AudioProbe,
        PipelineStageStatus::Success,
        "native audio CDR: mime="@ + mime + " stripped="@ + decimal(v.1 as nat),
    )
}

pub open spec fn simple_audio_matches(
    res: Option<Result<HandlerResult, DefenderError>>,
    v: Result<(Seq<u8>, int, int), Seq<char>>,
    mime: Seq<char>,
) -> bool {
    match v {
        Err(m) => res matches Some(Err(e)) && (e matches DefenderError::Audio(t) && t@ == m),
        Ok(t) => res matches Some(Ok(r)) && simple_audio_result_is(r, t, mime),
    }
}

/// What the native audio path gives for `b`: the first of OGG, MP4/M4A, MP3,
/// WAV and FLAC that recognises the container decides; `None` when none does.
pub open spec fn native_audio_matches(res: Option<Result<HandlerResult, DefenderError>>, b: Seq<u8>) -> bool {
    match ogg_plan(b) {
        Some(Err(m)) => res matches Some(Err(e)) && (e matches DefenderError::Audio(t) && t@ == m),
        Some(Ok(w)) => res matches Some(Ok(r)) && ogg_audio_result_is(r, w),
        None => match mp4_plan(b) {
            Some(Err(m)) => res matches Some(Err(e)) && (e matches DefenderError::Video(t) && t@ == m),
            Some(Ok(w)) => res matches Some(Ok(r)) && mp4_audio_result_is(r, w),
            None => match mp3_view(b) {
                Some(v) => simple_audio_matches(res, v, "audio/mpeg"@),
                None => match wav_view(b) {
                    Some(v) => simple_audio_matches(res, v, "audio/wav"@),
                    None => match flac_view(b) {
                        Some(v) => simple_audio_matches(res, v, "audio/flac"@),
                        None => res is None,
                    },
                },
            },
        },
    }
}

fn one_stage(stage: PipelineStage, status: PipelineStageStatus, detail: String) -> (v: Vec<PipelineStageReport>)
    ensures
        v@.len() == 1,
        stage_is(v@[0], stage, status, detail@),
{
    let mut v: Vec<PipelineStageReport> = Vec::new();
    v.push(PipelineStageReport { stage, status, detail });
    v
}

fn simple_audio_result(native: NativeAudioResult) -> (r: HandlerResult)
    ensures
        simple_audio_result_is(
            r,
            (native.output_bytes@, native.stripped_count as int, native.stripped_bytes as int),
            native.mime@,
        ),
{
    let mut alerts: Vec<DefenseAlert> = Vec::new();
    if native.stripped_count > 0 {
        let mut msg = "Native audio CDR stripped ".to_owned();
        push_decimal(&mut msg, native.stripped_count as u64);
        msg.append(" metadata region(s), ");
        push_decimal(&mut msg, native.stripped_bytes);
        msg.append(" bytes.");
        alerts.push(DefenseAlert { code: "audio_metadata_stripped".to_owned(), message: msg, severity: AlertSeverity::Info });
    }
    let mut detail = "native audio CDR: mime=".to_owned();
    detail.append(native.mime);
    detail.append(" stripped=");
    push_decimal(&mut detail, native.stripped_count as u64);
    let stages = one_stage(PipelineStage::AudioProbe, PipelineStageStatus::Success, detail);
    HandlerResult { mime: native.mime.to_owned(), output_bytes: native.output_bytes, alerts, stages }
}

fn simple_audio_outcome(
    res: Option<Result<NativeAudioResult, DefenderError>>,
    view: Ghost<Option<Result<(Seq<u8>, int, int), Seq<char>>>>,
    mime: Ghost<Seq<char>>,
) -> (out: Option<Result<HandlerResult, DefenderError>>)
    requires
        crate::handlers::audio_native::native_result_matches(res, view@, mime@),
    ensures
        match view@ {
            Some(v) => simple_audio_matches(out, v, mime@),
            None => out is None,
        },
{
    match res {
        None => None,
        Some(Err(e)) => Some(Err(e)),
        Some(Ok(native)) => Some(Ok(simple_audio_result(native))),
    }
}

impl AudioHandler {
/// Sanitize natively when the container is one the library knows: the
/// first of OGG, MP4/M4A, MP3, WAV and FLAC whose sanitizer recognises the
/// input decides, and later ones are not consulted.
pub fn try_native_rebuild(&self, input_bytes: &[u8]) -> (res: Option<Result<HandlerResult, DefenderError>>)
    ensures
        native_audio_matches(res, input_bytes@),
{
    proof {
        reveal_strlit("opus");
        reveal_strlit("vorbis");
        reveal_strlit("unknown");
    }
    if let Some(ogg_result) = try_sanitize_ogg(input_bytes) {
        return match ogg_result {
            Ok(native) => {
                let is_opus = native.codec.to_owned() == "opus".to_owned();
                let mut alerts: Vec<DefenseAlert> = Vec::new();
                if native.stripped_bytes > 0 {
                    let mut msg = "OGG/".to_owned();
                    msg.append(native.codec);
                    msg.append(" container CDR replaced comment header, stripped ");
                    push_decimal(&mut msg, native.stripped_bytes);
                    msg.append(" bytes of metadata.");
                    alerts.push(
                        DefenseAlert {
                            code: "audio_ogg_metadata_stripped".to_owned(),
                            message: msg,
                            severity: AlertSeverity::Info,
                        },
                    );
                }
                let mut detail = "native OGG/".to_owned();
                detail.append(native.codec);
                detail.append(" CDR: stripped_bytes=");
                push_decimal(&mut detail, native.stripped_bytes);
                let stages = one_stage(PipelineStage::AudioProbe, PipelineStageStatus::Success, detail);
                let mime = if is_opus { "audio/opus".to_owned() } else { "audio/ogg".to_owned() };
                Some(Ok(HandlerResult { mime, output_bytes: native.output_bytes, alerts, stages }))
            },
            Err(err) => Some(Err(err)),
        };
    }
    if let Some(mp4_result) = try_sanitize_mp4(input_bytes) {
        return match mp4_result {
            Ok(native) => {
                let mut alerts: Vec<DefenseAlert> = Vec::new();
                if native.stripped_count > 0 {
                    let mut msg = "MP4/M4A container CDR stripped ".to_owned();
                    push_decimal(&mut msg, native.stripped_count as u64);
                    msg.append(" metadata atom(s), ");
                    push_decimal(&mut msg, native.stripped_bytes);
                    msg.append(" bytes.");
                    alerts.push(
                        DefenseAlert {
                            code: "audio_mp4_metadata_stripped".to_owned(),
                            message: msg,
                            severity: AlertSeverity::Info,
                        },
                    );
                }
                let mut detail = "native MP4/M4A CDR: stripped=".to_owned();
                push_decimal(&mut detail, native.stripped_count as u64);
                let stages = one_stage(PipelineStage::AudioProbe, PipelineStageStatus::Success, detail);
                Some(Ok(HandlerResult { mime: "audio/mp4".to_owned(), output_bytes: native.output_bytes, alerts, stages }))
            },
            Err(err) => Some(Err(err)),
        };
    }
    let mp3 = try_sanitize_mp3(input_bytes);
    if mp3.is_some() {
        return simple_audio_outcome(mp3, Ghost(mp3_view(input_bytes@)), Ghost("audio/mpeg"@));
    }
    let wav = try_sanitize_wav(input_bytes);
    if wav.is_some() {
        return simple_audio_outcome(wav, Ghost(wav_view(input_bytes@)), Ghost("audio/wav"@));
    }
    let flac = try_sanitize_flac(input_bytes);
    simple_audio_outcome(flac, Ghost(flac_view(input_bytes@)), Ghost("audio/flac"@))
}

}

/// Two media errors are the same: the same kind, with the same message.
pub open spec fn same_media_error(a: DefenderError, b: DefenderError) -> bool {
    match (a, b) {
        (DefenderError::Audio(x), DefenderError::Audio(y)) => x@ == y@,
        (DefenderError::Video(x), DefenderError::Video(y)) => x@ == y@,
        _ => false,
    }
}

/// The native audio path is the first of the OGG, MP4, MP3, WAV and FLAC
/// sanitizers, in that order, that recognises the input: it answers `None`
/// exactly when none does; otherwise it fails with the error of the first
/// that recognises the input, or keeps that sanitizer's output bytes. Later
/// sanitizers are not consulted.
pub proof fn law_native_audio_dispatch(
    b: Seq<u8>,
    res: Option<Result<HandlerResult, DefenderError>>,
    ogg: Option<Result<OggSanitizeResult, DefenderError>>,
    mp4: Option<Result<Mp4SanitizeResult, DefenderError>>,
    mp3: Option<Result<NativeAudioResult, DefenderError>>,
    wav: Option<Result<NativeAudioResult, DefenderError>>,
    flac: Option<Result<NativeAudioResult, DefenderError>>,
)
    requires
        native_audio_matches(res, b),
        ogg_sanitized(ogg, b),
        mp4_sanitized(mp4, b),
        native_result_matches(mp3, mp3_view(b), "audio/mpeg"@),
        native_result_matches(wav, wav_view(b), "audio/wav"@),
        native_result_matches(flac, flac_view(b), "audio/flac"@),
    ensures
        res is None <==> (ogg is None && mp4 is None && mp3 is None && wav is None && flac is None),
        ogg matches Some(Err(e)) ==> (res matches Some(Err(f)) && same_media_error(e, f)),
        ogg matches Some(Ok(n)) ==> (res matches Some(Ok(r)) && r.output_bytes@ == n.output_bytes@),
        ogg is None ==> {
            &&& mp4 matches Some(Err(e)) ==> (res matches Some(Err(f)) && same_media_error(e, f))
            &&& mp4 matches Some(Ok(n)) ==> (res matches Some(Ok(r)) && r.output_bytes@ == n.output_bytes@)
        },
        ogg is None && mp4 is None ==> {
            &&& mp3 matches Some(Err(e)) ==> (res matches Some(Err(f)) && same_media_error(e, f))
            &&& mp3 matches Some(Ok(n)) ==> (res matches Some(Ok(r)) && r.output_bytes@ == n.output_bytes@)
        },
        ogg is None && mp4 is None && mp3 is None ==> {
            &&& wav matches Some(Err(e)) ==> (res matches Some(Err(f)) && same_media_error(e, f))
            &&& wav matches Some(Ok(n)) ==> (res matches Some(Ok(r)) && r.output_bytes@ == n.output_bytes@)
        },
        ogg is None && mp4 is None && mp3 is None && wav is None ==> {
            &&& flac matches Some(Err(e)) ==> (res matches Some(Err(f)) && same_media_error(e, f))
            &&& flac matches Some(Ok(n)) ==> (res matches Some(Ok(r)) && r.output_bytes@ == n.output_bytes@)
        },
{
}

// ── The handler ───────────────────────────────────────────────────────────

/// The audio handler.
#[derive(Debug)]
pub struct AudioHandler {
    policy: AudioPolicy,
}

/// The native path recognises the container of `b`.
pub open spec fn native_audio_recognizes(b: Seq<u8>) -> bool {
    ogg_plan(b) is Some || mp4_plan(b) is Some || mp3_view(b) is Some || wav_view(b) is Some || flac_view(b) is Some
}

/// `d` is the native result `n` with the reconstruction stage appended.
pub open spec fn with_structural_stage(
    n: Result<HandlerResult, DefenderError>,
    d: Result<HandlerResult, DefenderError>,
) -> bool {
    match (n, d) {
        (Ok(r0), Ok(r)) => {
            &&& r.mime == r0.mime
            &&& r.output_bytes == r0.output_bytes
            &&& r.alerts == r0.alerts
            &&& crate::types::stages_then(
                r.stages@,
                r0.stages@,
                PipelineStage::Rebuild,
                PipelineStageStatus::Success,
                "achieved_reconstruction=structural"@,
            )
        },
        (Err(e0), Err(e)) => e == e0,
        _ => false,
    }
}

/// The result handed out when the policy blocks audio without ffmpeg and
/// ffmpeg is missing.
pub open spec fn ffmpeg_missing_result_is(r: HandlerResult) -> bool {
    &&& r.mime@ == "audio/blocked"@
    &&& r.output_bytes@.len() == 0
    &&& crate::types::alerts_are(
        r.alerts@,
        seq![
            (
                "ffmpeg_missing"@,
                "ffmpeg is not installed and audio policy is BlockWhenUnavailable"@,
                AlertSeverity::Blocking,
            ),
        ],
    )
    &&& crate::types::stages_are(
        r.stages@,
        seq![
            (
                PipelineStage::AudioProbe,
                PipelineStageStatus::Blocked,
                "audio probe blocked because ffmpeg is missing"@,
            ),
        ],
    )
}

/// The first step of an audio rebuild under `policy`: a strict transcode when
/// ffmpeg is required; else the native result, with the reconstruction stage
/// appended, when the container is recognised; else a lenient transcode when
/// the policy bypasses, or a check for ffmpeg.
pub open spec fn audio_rebuild_step(policy: AudioPolicy, input: Seq<u8>, res: MediaRebuildStep) -> bool {
    match policy.mode {
        AudioMode::RequireFfmpeg => res matches MediaRebuildStep::Transcode { input_bytes: b, strict } && b@ == input
            && strict,
        mode => if native_audio_recognizes(input) {
            res matches MediaRebuildStep::Done(d) && exists|n: Result<HandlerResult, DefenderError>|
                native_audio_matches(Some(n), input) && #[trigger] with_structural_stage(n, d)
        } else if mode == AudioMode::BypassWhenUnavailable {
            res matches MediaRebuildStep::Transcode { input_bytes: b, strict } && b@ == input && !strict
        } else {
            res matches MediaRebuildStep::CheckTranscoder { input_bytes: b } && b@ == input
        },
    }
}

/// The step after the ffmpeg check: a strict transcode when ffmpeg is
/// installed, else an empty, blocked result.
pub open spec fn after_ffmpeg_check_step(input: Seq<u8>, ffmpeg_available: bool, res: MediaRebuildStep) -> bool {
    &&& ffmpeg_available ==> (res matches MediaRebuildStep::Transcode { input_bytes: b, strict } && b@ == input
        && strict)
    &&& !ffmpeg_available ==> (res matches MediaRebuildStep::Done(Ok(r)) && ffmpeg_missing_result_is(r))
}

/// With ffmpeg required the native route is never taken, whatever the
/// input: the rebuild step is the strict transcode of the input, the same
/// step the ffmpeg check gives when ffmpeg is installed.
pub proof fn law_required_ffmpeg_never_native(
    policy: AudioPolicy,
    input: Seq<u8>,
    step: MediaRebuildStep,
    checked: MediaRebuildStep,
)
    requires
        policy.mode == AudioMode::RequireFfmpeg,
        audio_rebuild_step(policy, input, step),
        after_ffmpeg_check_step(input, true, checked),
    ensures
        step !is Done,
        step matches MediaRebuildStep::Transcode { input_bytes: b, strict } && b@ == input && strict,
        checked matches MediaRebuildStep::Transcode { input_bytes: c, strict } && c@ == input && strict,
{
}

impl AudioHandler {
    /// The policy the handler enforces.
    pub closed spec fn spec_policy(&self) -> AudioPolicy {
        self.policy
    }

    pub fn new(policy: AudioPolicy) -> (res: Self)
        ensures
            res.spec_policy() == policy,
    {
        Self { policy }
    }

    /// The policy the handler enforces.
    pub fn policy(&self) -> (res: &AudioPolicy)
        ensures
            *res == self.spec_policy(),
    {
        &self.policy
    }

    /// Decide how to rebuild an audio file: natively when the container is
    /// known and the policy allows it, else through ffmpeg (strictly when the
    /// policy requires ffmpeg), or after checking that ffmpeg is installed
    /// when the policy blocks without it.
    pub fn rebuild(&self, input_bytes: Vec<u8>, context: DefenseContext) -> (res: MediaRebuildStep)
        ensures
            audio_rebuild_step(self.spec_policy(), input_bytes@, res),
    {
        if self.policy.mode == AudioMode::RequireFfmpeg {
            return MediaRebuildStep::Transcode { input_bytes, strict: true };
        }
        let native = self.try_native_rebuild(input_bytes.as_slice());
        match native {
            Some(n) => {
                let ghost n0 = n;
                let done = match n {
                    Ok(mut result) => {
                        let ghost before = result.stages@;
                        result.stages.push(
                            PipelineStageReport {
                                stage: PipelineStage::Rebuild,
                                status: PipelineStageStatus::Success,
                                detail: "achieved_reconstruction=structural".to_owned(),
                            },
                        );
                        proof {
                            assert(result.stages@.subrange(0, before.len() as int) =~= before);
                        }
                        Ok(result)
                    },
                    Err(e) => Err(e),
                };
                proof {
                    assert(with_structural_stage(n0, done));
                }
                MediaRebuildStep::Done(done)
            },
            None => {
                if self.policy.mode == AudioMode::BypassWhenUnavailable {
                    MediaRebuildStep::Transcode { input_bytes, strict: false }
                } else {
                    MediaRebuildStep::CheckTranscoder { input_bytes }
                }
            },
        }
    }

    /// Continue after the ffmpeg check: transcode strictly when ffmpeg is
    /// installed, else hand out an empty, blocked result.
    pub fn after_ffmpeg_check(&self, input_bytes: Vec<u8>, ffmpeg_available: bool) -> (res: MediaRebuildStep)
        ensures
            after_ffmpeg_check_step(input_bytes@, ffmpeg_available, res),
    {
        if ffmpeg_available {
            return MediaRebuildStep::Transcode { input_bytes, strict: true };
        }
        let mut alerts: Vec<DefenseAlert> = Vec::new();
        alerts.push(
            DefenseAlert::blocking(
                "ffmpeg_missing",
                "ffmpeg is not installed and audio policy is BlockWhenUnavailable",
            ),
        );
        let stages = one_stage(
            PipelineStage::AudioProbe,
            PipelineStageStatus::Blocked,
            "audio probe blocked because ffmpeg is missing".to_owned(),
        );
        MediaRebuildStep::Done(Ok(HandlerResult { mime: "audio/blocked".to_owned(), output_bytes: Vec::new(), alerts, stages }))
    }
}

// ── The ffmpeg path ───────────────────────────────────────────────────────

/// What the ffmpeg path works from: the transcode plan, whether it keeps
/// the original stream, the output codec asked for, and the sniffed input
/// MIME type.
pub struct AudioFfmpegPlan {
    pub plan: AudioTranscodePlan,
    pub kept_original: bool,
    pub output_codec: AudioOutputCodec,
    pub input_mime: Option<String>,
}

/// What ffprobe reported. The duration is a decimal number of seconds that
/// the caller compares with the policy and formats with three decimals.
pub struct AudioProbeMetrics {
    pub duration_label: Option<String>,
    pub duration_over_limit: bool,
    pub bitrate_bps: Option<u64>,
    pub channels: Option<u64>,
}

/// What the checks before the transcode decided.
pub enum TranscodePreflight {
    /// Run the transcode; its result starts from these alerts and stages.
    Proceed { alerts: Vec<DefenseAlert>, stages: Vec<PipelineStageReport> },
    /// The handler is done without running it.
    Finished(HandlerResult),
}

/// The output codec of the ffmpeg path: keeping the original is not an
/// option when the policy requires a transcode.
pub open spec fn effective_output_codec(p: AudioPolicy) -> AudioOutputCodec {
    if p.mode == AudioMode::RequireFfmpeg && p.output_codec == AudioOutputCodec::KeepOriginalWhenPossible {
        AudioOutputCodec::Mp3
    } else {
        p.output_codec
    }
}

pub open spec fn opt_string_chars(o: Option<String>) -> Option<Seq<char>> {
    match o {
        Some(s) => Some(s@),
        None => None,
    }
}

/// `kbps * 1000`, saturating.
pub open spec fn bps_limit(kbps: u64) -> int {
    if kbps * 1000 > u64::MAX { u64::MAX as int } else { kbps * 1000 }
}

/// The metrics break a limit of the policy: duration, then bitrate, then
/// channels.
pub open spec fn audio_metrics_violate(m: AudioProbeMetrics, p: AudioPolicy) -> bool {
    ||| m.duration_label is Some && m.duration_over_limit
    ||| (m.bitrate_bps matches Some(b) && b > bps_limit(p.max_bitrate_kbps))
    ||| (m.channels matches Some(c) && c > p.max_channels)
}

pub open spec fn label_or_unknown(o: Option<String>) -> Seq<char> {
    match o {
        Some(s) => s@,
        None => "unknown"@,
    }
}

pub open spec fn decimal_or_unknown(o: Option<u64>) -> Seq<char> {
    match o {
        Some(v) => decimal(v as nat),
        None => "unknown"@,
    }
}

/// The detail of a successful audio probe.
pub open spec fn audio_probe_detail(m: AudioProbeMetrics) -> Seq<char> {
    "audio probe succeeded duration_secs="@ + label_or_unknown(m.duration_label) + " bitrate_bps="@
        + decimal_or_unknown(m.bitrate_bps) + " channels="@ + decimal_or_unknown(m.channels)
}

/// The alerts gathered before an audio transcode that goes ahead.
pub open spec fn audio_preflight_alerts(
    metrics_failed: bool,
    native_probe_failed: bool,
    p: AudioPolicy,
    plan: AudioFfmpegPlan,
) -> Seq<(Seq<char>, Seq<char>, AlertSeverity)> {
    (if metrics_failed {
        seq![
            (
                "audio_ffprobe_failed"@,
                "ffprobe metadata probe failed; proceeding with ffmpeg fallback behavior."@,
                AlertSeverity::Warning,
            ),
        ]
    } else {
        Seq::empty()
    }) + (if native_probe_failed {
        seq![
            (
                "audio_native_decoder_probe_failed"@,
                "Audio decoder probe failed; proceeding with ffmpeg fallback behavior."@,
                AlertSeverity::Warning,
            ),
        ]
    } else {
        Seq::empty()
    }) + (if plan.output_codec == AudioOutputCodec::KeepOriginalWhenPossible && !plan.kept_original
        && p.keep_original_mode == AudioKeepOriginalMode::FallbackToMp3 {
        seq![
            (
                "audio_keep_original_fallback"@,
                "Could not detect original codec/container reliably; used mp3 fallback."@,
                AlertSeverity::Warning,
            ),
        ]
    } else {
        Seq::empty()
    })
}

/// The probe report gathered before an audio transcode.
pub open spec fn audio_preflight_stages(
    metrics: Result<AudioProbeMetrics, DefenderError>,
    native_probe_failed: bool,
) -> Seq<(PipelineStage, PipelineStageStatus, Seq<char>)> {
    match metrics {
        Ok(m) => if !native_probe_failed {
            seq![(PipelineStage::AudioProbe, PipelineStageStatus::Success, audio_probe_detail(m))]
        } else {
            seq![(PipelineStage::AudioProbe, PipelineStageStatus::Warning, "audio probe warning"@)]
        },
        Err(_) => seq![(PipelineStage::AudioProbe, PipelineStageStatus::Warning, "audio probe warning"@)],
    }
}

/// The checks before the transcode stop with an error: a failed ffprobe or
/// decoder probe under `Block`, or metrics beyond the policy.
pub open spec fn audio_preflight_fails(
    metrics: Result<AudioProbeMetrics, DefenderError>,
    native_probe_failed: bool,
    p: AudioPolicy,
) -> bool {
    match metrics {
        Err(_) => p.probe_failure_mode == ProbeFailureMode::Block,
        Ok(m) => audio_metrics_violate(m, p) || (native_probe_failed && p.probe_failure_mode
            == ProbeFailureMode::Block),
    }
}

/// The verdict on an ffmpeg run, as (kind, code or detail, message): kind 0
/// rejects, 1 passes the input through with a warning, 2 accepts the output
/// with a reconstruction stage, 3 accepts it as it is.
pub open spec fn audio_transcode_verdict(
    strict: bool,
    run: TranscodeRun,
    plan: AudioFfmpegPlan,
) -> (int, Seq<char>, Seq<char>) {
    let bypass_or_reject = |code: Seq<char>, message: Seq<char>| if strict { (0int, code, message) } else { (1int, code, message) };
    match run {
        TranscodeRun::ExecFailed { error } => bypass_or_reject(
            "ffmpeg_execution_failed_audio"@,
            "ffmpeg audio execution failed: "@ + error@,
        ),
        TranscodeRun::Failed { stderr } => bypass_or_reject("ffmpeg_failed_audio"@, "ffmpeg failed; bypassing audio rebuild"@),
        TranscodeRun::Produced { output_bytes } => {
            let out = output_bytes@;
            if out.len() == 0 {
                bypass_or_reject(
                    "ffmpeg_empty_output_audio"@,
                    "ffmpeg produced empty audio output; bypassing audio rebuild"@,
                )
            } else if executable_magic(out) {
                bypass_or_reject(
                    "ffmpeg_executable_magic_audio"@,
                    "ffmpeg audio output has executable signature; bypassing audio rebuild"@,
                )
            } else {
                match crate::sniff::infer_mime(out) {
                    None => bypass_or_reject(
                        "ffmpeg_unknown_mime_audio"@,
                        "ffmpeg output mime is unknown; bypassing audio rebuild"@,
                    ),
                    Some(sniffed) => {
                        let sb = vstd::utf8::encode_utf8(sniffed);
                        if !is_one_of(sb, audio_mimes()) {
                            bypass_or_reject(
                                "ffmpeg_non_audio_mime_audio"@,
                                "ffmpeg output mime is not audio; bypassing audio rebuild"@,
                            )
                        } else if canonical_audio(sb) != canonical_audio(plan.plan.mime.spec_bytes()) {
                            bypass_or_reject(
                                "ffmpeg_audio_mime_mismatch"@,
                                "ffmpeg output mime does not match declared codec plan; bypassing audio rebuild"@,
                            )
                        } else if plan.kept_original && plan.input_mime is None {
                            (3int, Seq::empty(), Seq::empty())
                        } else if plan.kept_original && canonical_audio(
                            vstd::utf8::encode_utf8(plan.input_mime->Some_0@),
                        ) != canonical_audio(sb) {
                            bypass_or_reject(
                                "audio_keep_original_mime_mismatch"@,
                                "keep-original output mime does not match input mime; bypassing audio rebuild"@,
                            )
                        } else if plan.plan.codec_arg@ == "copy"@ {
                            (2int, "achieved_reconstruction=structural"@, Seq::empty())
                        } else {
                            (2int, "achieved_reconstruction=semantic"@, Seq::empty())
                        }
                    },
                }
            }
        },
    }
}

fn warning_alert(code: &str, message: String) -> (a: DefenseAlert)
    ensures
        alert_is(a, code@, message@, AlertSeverity::Warning),
{
    DefenseAlert { code: code.to_owned(), message, severity: AlertSeverity::Warning }
}

/// The input handed back with a warning when a non-strict transcode fails.
fn pass_through(
    mime: &str,
    input_bytes: Vec<u8>,
    alerts: Vec<DefenseAlert>,
    stages: Vec<PipelineStageReport>,
    code: &str,
    message: String,
) -> (r: HandlerResult)
    ensures
        r.mime@ == mime@,
        r.output_bytes@ == input_bytes@,
        crate::types::alerts_then(r.alerts@, alerts@, code@, message@, AlertSeverity::Warning),
        r.stages@ == stages@,
{
    let mut alerts = alerts;
    let ghost before = alerts@;
    alerts.push(warning_alert(code, message));
    proof {
        assert(alerts@.subrange(0, before.len() as int) =~= before);
    }
    HandlerResult { mime: mime.to_owned(), output_bytes: input_bytes, alerts, stages }
}

fn concat_str(a: &str, b: &str) -> (s: String)
    ensures
        s@ == a@ + b@,
{
    let mut s = a.to_owned();
    s.append(b);
    s
}

impl AudioHandler {
    /// Start of the ffmpeg path: refuse empty input, sniff the input, and
    /// fix the transcode plan.
    pub fn ffmpeg_plan(&self, input_bytes: &[u8]) -> (res: Result<AudioFfmpegPlan, DefenderError>)
        ensures
            match res {
                Err(e) => input_bytes@.len() == 0 && (e matches DefenderError::Audio(m) && m@ == "audio input is empty and cannot be rebuilt"@),
                Ok(p) => {
                    &&& input_bytes@.len() > 0
                    &&& opt_string_chars(p.input_mime) == crate::sniff::infer_mime(input_bytes@)
                    &&& p.output_codec == effective_output_codec(self.spec_policy())
                    &&& plan_view(p.plan, p.kept_original) == transcode_plan(
                        p.output_codec,
                        crate::types::opt_chars_bytes(opt_string_chars(p.input_mime)),
                    )
                },
            },
    {
        if input_bytes.len() == 0 {
            proof {
                reveal_strlit("audio input is empty and cannot be rebuilt");
            }
            return Err(DefenderError::Audio("audio input is empty and cannot be rebuilt".to_owned()));
        }
        let input_mime = crate::sniff::sniff_mime(input_bytes);
        let output_codec = if self.policy.mode == AudioMode::RequireFfmpeg && self.policy.output_codec
            == AudioOutputCodec::KeepOriginalWhenPossible {
            AudioOutputCodec::Mp3
        } else {
            self.policy.output_codec
        };
        let (plan, kept_original) = match &input_mime {
            Some(m) => resolve_transcode_plan(output_codec, Some(m.as_str())),
            None => resolve_transcode_plan(output_codec, None),
        };
        Ok(AudioFfmpegPlan { plan, kept_original, output_codec, input_mime })
    }

    /// The checks before the transcode, from the outcome of the decoder
    /// probe and of ffprobe.
    pub fn preflight(
        &self,
        native_probe_failed: bool,
        metrics: Result<AudioProbeMetrics, DefenderError>,
        plan: &AudioFfmpegPlan,
    ) -> (res: Result<TranscodePreflight, DefenderError>)
        ensures
            audio_preflight_fails(metrics, native_probe_failed, self.spec_policy()) <==> res is Err,
            (metrics is Err && self.spec_policy().probe_failure_mode == ProbeFailureMode::Block) ==> res
                == Err::<TranscodePreflight, DefenderError>(metrics->Err_0),
            metrics is Ok ==> (res matches Err(e) ==> e is Audio),
            res matches Ok(TranscodePreflight::Proceed { alerts, stages }) ==> {
                &&& !(plan.output_codec == AudioOutputCodec::KeepOriginalWhenPossible && !plan.kept_original
                    && self.spec_policy().keep_original_mode == AudioKeepOriginalMode::Block)
                &&& crate::types::alerts_are(
                    alerts@,
                    audio_preflight_alerts(metrics is Err, native_probe_failed, self.spec_policy(), *plan),
                )
                &&& crate::types::stages_are(stages@, audio_preflight_stages(metrics, native_probe_failed))
            },
            res matches Ok(TranscodePreflight::Finished(r)) ==> {
                &&& plan.output_codec == AudioOutputCodec::KeepOriginalWhenPossible && !plan.kept_original
                    && self.spec_policy().keep_original_mode == AudioKeepOriginalMode::Block
                &&& r.mime@ == "audio/blocked"@
                &&& r.output_bytes@.len() == 0
                &&& crate::types::alerts_are(
                    r.alerts@,
                    seq![
                        (
                            "audio_keep_original_blocked"@,
                            "Original audio codec/container cannot be trusted and fallback is blocked by policy."@,
                            AlertSeverity::Blocking,
                        ),
                    ],
                )
                &&& crate::types::stages_are(r.stages@, audio_preflight_stages(metrics, native_probe_failed))
            },
    {
        let ghost m0 = metrics;
        let mut alerts: Vec<DefenseAlert> = Vec::new();
        let mut stages: Vec<PipelineStageReport> = Vec::new();
        let metrics_failed = metrics.is_err();
        let metrics = match metrics {
            Ok(m) => Some(m),
            Err(e) => {
                if self.policy.probe_failure_mode == ProbeFailureMode::Block {
                    return Err(e);
                }
                alerts.push(
                    warning_alert(
                        "audio_ffprobe_failed",
                        "ffprobe metadata probe failed; proceeding with ffmpeg fallback behavior.".to_owned(),
                    ),
                );
                None
            },
        };
        let ghost after_metrics = alerts@;
        let max_bps: u64 = if self.policy.max_bitrate_kbps > u64::MAX / 1000 {
            u64::MAX
        } else {
            self.policy.max_bitrate_kbps * 1000
        };
        if let Some(m) = &metrics {
            if m.duration_label.is_some() && m.duration_over_limit {
                let mut msg = "audio duration exceeds max_duration_secs: ".to_owned();
                match &m.duration_label {
                    Some(l) => msg.append(l.as_str()),
                    None => {},
                }
                msg.append(" > ");
                push_decimal(&mut msg, self.policy.max_duration_secs);
                return Err(DefenderError::Audio(msg));
            }
            if let Some(b) = m.bitrate_bps {
                if b > max_bps {
                    let mut msg = "audio bitrate exceeds max_bitrate_kbps: ".to_owned();
                    push_decimal(&mut msg, b);
                    msg.append(" > ");
                    push_decimal(&mut msg, max_bps);
                    return Err(DefenderError::Audio(msg));
                }
            }
            if let Some(c) = m.channels {
                if c > self.policy.max_channels {
                    let mut msg = "audio channels exceed max_channels: ".to_owned();
                    push_decimal(&mut msg, c);
                    msg.append(" > ");
                    push_decimal(&mut msg, self.policy.max_channels);
                    return Err(DefenderError::Audio(msg));
                }
            }
        }
        match &metrics {
            Some(m) if !native_probe_failed => {
                let mut detail = "audio probe succeeded duration_secs=".to_owned();
                match &m.duration_label {
                    Some(l) => detail.append(l.as_str()),
                    None => detail.append("unknown"),
                }
                detail.append(" bitrate_bps=");
                match m.bitrate_bps {
                    Some(b) => push_decimal(&mut detail, b),
                    None => detail.append("unknown"),
                }
                detail.append(" channels=");
                match m.channels {
                    Some(c) => push_decimal(&mut detail, c),
                    None => detail.append("unknown"),
                }
                stages.push(
                    PipelineStageReport { stage: PipelineStage::AudioProbe, status: PipelineStageStatus::Success, detail },
                );
            },
            _ => {
                if native_probe_failed {
                    if self.policy.probe_failure_mode == ProbeFailureMode::Block {
                        return Err(DefenderError::Audio("audio decoder probe failed under block mode".to_owned()));
                    }
                    alerts.push(
                        warning_alert(
                            "audio_native_decoder_probe_failed",
                            "Audio decoder probe failed; proceeding with ffmpeg fallback behavior.".to_owned(),
                        ),
                    );
                }
                stages.push(
                    PipelineStageReport {
                        stage: PipelineStage::AudioProbe,
                        status: PipelineStageStatus::Warning,
                        detail: "audio probe warning".to_owned(),
                    },
                );
            },
        }
        if plan.output_codec == AudioOutputCodec::KeepOriginalWhenPossible && !plan.kept_original {
            if self.policy.keep_original_mode == AudioKeepOriginalMode::Block {
                let mut blocked: Vec<DefenseAlert> = Vec::new();
                blocked.push(
                    DefenseAlert::blocking(
                        "audio_keep_original_blocked",
                        "Original audio codec/container cannot be trusted and fallback is blocked by policy.",
                    ),
                );
                return Ok(
                    TranscodePreflight::Finished(
                        HandlerResult { mime: "audio/blocked".to_owned(), output_bytes: Vec::new(), alerts: blocked, stages },
                    ),
                );
            }
            alerts.push(
                warning_alert(
                    "audio_keep_original_fallback",
                    "Could not detect original codec/container reliably; used mp3 fallback.".to_owned(),
                ),
            );
        }
        proof {
            let expected = audio_preflight_alerts(metrics_failed, native_probe_failed, self.spec_policy(), *plan);
            assert(alerts@.len() == expected.len());
        }
        Ok(TranscodePreflight::Proceed { alerts, stages })
    }
}

/// The handler result for an ffmpeg run judged `verdict`, from the alerts
/// and stages gathered before it.
pub open spec fn transcode_result_is(
    res: Result<HandlerResult, DefenderError>,
    verdict: (int, Seq<char>, Seq<char>),
    raw_mime: Seq<char>,
    plan_mime: Seq<char>,
    run: TranscodeRun,
    input_bytes: Seq<u8>,
    alerts: Seq<DefenseAlert>,
    stages: Seq<PipelineStageReport>,
) -> bool {
    if verdict.0 == 0 {
        res is Err
    } else if verdict.0 == 1 {
        res matches Ok(r) && {
            &&& r.mime@ == raw_mime
            &&& r.output_bytes@ == input_bytes
            &&& crate::types::alerts_then(r.alerts@, alerts, verdict.1, verdict.2, AlertSeverity::Warning)
            &&& r.stages@ == stages
        }
    } else {
        res matches Ok(r) && {
            &&& run matches TranscodeRun::Produced { output_bytes } && r.output_bytes@ == output_bytes@
            &&& r.mime@ == plan_mime
            &&& r.alerts@ == alerts
            &&& if verdict.0 == 2 {
                crate::types::stages_then(
                    r.stages@,
                    stages,
                    PipelineStage::Rebuild,
                    PipelineStageStatus::Success,
                    verdict.1,
                )
            } else {
                r.stages@ == stages
            }
        }
    }
}

impl AudioHandler {
    /// Judge an ffmpeg run: accept its output when it is non-empty, not an
    /// executable, sniffed as audio of the planned family (and of the input's
    /// family when the original stream was kept); otherwise fail when
    /// `strict`, or pass the input through with a warning.
    pub fn finish_transcode(
        &self,
        strict: bool,
        run: TranscodeRun,
        input_bytes: Vec<u8>,
        plan: &AudioFfmpegPlan,
        alerts: Vec<DefenseAlert>,
        stages: Vec<PipelineStageReport>,
    ) -> (res: Result<HandlerResult, DefenderError>)
        ensures
            transcode_result_is(
                res,
                audio_transcode_verdict(strict, run, *plan),
                "audio/raw"@,
                plan.plan.mime@,
                run,
                input_bytes@,
                alerts@,
                stages@,
            ),
            res matches Err(e) ==> e is Audio,
    {
        proof {
            reveal_strlit("copy");
        }
        let ghost run0 = run;
        let output_bytes = match run {
            TranscodeRun::ExecFailed { error } => {
                let msg = concat_str("ffmpeg audio execution failed: ", error.as_str());
                if strict {
                    return Err(DefenderError::Audio(msg));
                }
                return Ok(pass_through("audio/raw", input_bytes, alerts, stages, "ffmpeg_execution_failed_audio", msg));
            },
            TranscodeRun::Failed { stderr } => {
                if strict {
                    return Err(DefenderError::Audio(concat_str("ffmpeg audio encode failed in strict mode: ", stderr.as_str())));
                }
                return Ok(
                    pass_through(
                        "audio/raw",
                        input_bytes,
                        alerts,
                        stages,
                        "ffmpeg_failed_audio",
                        "ffmpeg failed; bypassing audio rebuild".to_owned(),
                    ),
                );
            },
            TranscodeRun::Produced { output_bytes } => output_bytes,
        };
        if output_bytes.len() == 0 {
            if strict {
                return Err(DefenderError::Audio("ffmpeg produced empty audio output in strict mode".to_owned()));
            }
            return Ok(
                pass_through(
                    "audio/raw",
                    input_bytes,
                    alerts,
                    stages,
                    "ffmpeg_empty_output_audio",
                    "ffmpeg produced empty audio output; bypassing audio rebuild".to_owned(),
                ),
            );
        }
        if has_executable_magic(output_bytes.as_slice()) {
            if strict {
                return Err(DefenderError::Audio("ffmpeg audio output looks like executable payload".to_owned()));
            }
            return Ok(
                pass_through(
                    "audio/raw",
                    input_bytes,
                    alerts,
                    stages,
                    "ffmpeg_executable_magic_audio",
                    "ffmpeg audio output has executable signature; bypassing audio rebuild".to_owned(),
                ),
            );
        }
        let sniffed = crate::sniff::sniff_mime(output_bytes.as_slice());
        let sniffed_mime = match sniffed {
            Some(m) => m,
            None => {
                if strict {
                    return Err(DefenderError::Audio("ffmpeg output mime is unknown for audio payload".to_owned()));
                }
                return Ok(
                    pass_through(
                        "audio/raw",
                        input_bytes,
                        alerts,
                        stages,
                        "ffmpeg_unknown_mime_audio",
                        "ffmpeg output mime is unknown; bypassing audio rebuild".to_owned(),
                    ),
                );
            },
        };
        if !is_audio_mime(sniffed_mime.as_str()) {
            if strict {
                return Err(DefenderError::Audio(concat_str("ffmpeg audio output has non-audio mime: ", sniffed_mime.as_str())));
            }
            return Ok(
                pass_through(
                    "audio/raw",
                    input_bytes,
                    alerts,
                    stages,
                    "ffmpeg_non_audio_mime_audio",
                    "ffmpeg output mime is not audio; bypassing audio rebuild".to_owned(),
                ),
            );
        }
        let output_canonical = canonical_audio_mime(sniffed_mime.as_str());
        let declared_canonical = canonical_audio_mime(plan.plan.mime);
        if output_canonical.to_owned() != declared_canonical.to_owned() {
            if strict {
                let mut m = concat_str("ffmpeg output mime mismatch: sniffed=", sniffed_mime.as_str());
                m.append(", declared=");
                m.append(plan.plan.mime);
                return Err(DefenderError::Audio(m));
            }
            return Ok(
                pass_through(
                    "audio/raw",
                    input_bytes,
                    alerts,
                    stages,
                    "ffmpeg_audio_mime_mismatch",
                    "ffmpeg output mime does not match declared codec plan; bypassing audio rebuild".to_owned(),
                ),
            );
        }
        if plan.kept_original {
            match &plan.input_mime {
                None => {
                    return Ok(HandlerResult { mime: plan.plan.mime.to_owned(), output_bytes, alerts, stages });
                },
                Some(input_mime) => {
                    let input_canonical = canonical_audio_mime(input_mime.as_str());
                    if input_canonical.to_owned() != output_canonical.to_owned() {
                        if strict {
                            let mut m = concat_str("keep-original mime mismatch: input=", input_mime.as_str());
                            m.append(", output=");
                            m.append(sniffed_mime.as_str());
                            return Err(DefenderError::Audio(m));
                        }
                        return Ok(
                            pass_through(
                                "audio/raw",
                                input_bytes,
                                alerts,
                                stages,
                                "audio_keep_original_mime_mismatch",
                                "keep-original output mime does not match input mime; bypassing audio rebuild".to_owned(),
                            ),
                        );
                    }
                },
            }
        }
        let mut stages = stages;
        let ghost before = stages@;
        let is_copy = plan.plan.codec_arg.to_owned() == "copy".to_owned();
        let detail = if is_copy {
            "achieved_reconstruction=structural".to_owned()
        } else {
            "achieved_reconstruction=semantic".to_owned()
        };
        stages.push(PipelineStageReport { stage: PipelineStage::Rebuild, status: PipelineStageStatus::Success, detail });
        proof {
            assert(stages@.subrange(0, before.len() as int) =~= before);
        }
        Ok(HandlerResult { mime: plan.plan.mime.to_owned(), output_bytes, alerts, stages })
    }
}

} // verus!
