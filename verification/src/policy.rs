//! Defense policies and the named profiles.
//!
//! Ratios and entropy bounds are fixed-point integers in thousandths
//! (`_milli`): `12_000` stands for a ratio of 12.
use vstd::prelude::*;

use crate::signatures::SignatureRule;

verus! {

/// The views of a sequence of strings.
pub open spec fn views(v: Seq<String>) -> Seq<Seq<char>> {
    v.map_values(|s: String| s@)
}

/// The views of a sequence of string literals.
pub open spec fn lit_views(v: Seq<&str>) -> Seq<Seq<char>> {
    v.map_values(|s: &str| s@)
}

/// Owned copies of a list of string literals.
pub fn strings(list: &[&str]) -> (res: Vec<String>)
    ensures
        views(res@) == lit_views(list@),
{
    let mut out: Vec<String> = Vec::new();
    let mut i: usize = 0;
    while i < list.len()
        invariant
            i <= list@.len(),
            out@.len() == i,
            forall|j: int| 0 <= j < i ==> out@[j]@ == list@[j]@,
        decreases list@.len() - i,
    {
        let s: &str = list[i];
        out.push(s.to_owned());
        i = i + 1;
    }
    assert(views(out@) =~= lit_views(list@));
    out
}

/// Minimum transformation required before a result may be released.
#[derive(Debug, Clone, Copy, PartialEq, Eq, PartialOrd, Ord, Structural)]
pub enum ReconstructionLevel {
    Structure,
    Semantic,
}

#[derive(Debug, Clone, Copy, PartialEq, Eq, Structural)]
pub enum UnknownKindMode {
    Warn,
    Block,
}

#[derive(Debug, Clone, Copy, PartialEq, Eq, Structural)]
pub enum DecoderFailureMode {
    Block,
    QuarantineAsOther,
}

#[derive(Debug, Clone, Copy, PartialEq, Eq, Structural)]
pub enum SignatureScanMode {
    OutputOnly,
    InputAndOutput,
}

#[derive(Debug, Clone, Copy, PartialEq, Eq, Structural)]
pub enum ProbeFailureMode {
    Warn,
    Block,
}

#[derive(Debug, Clone, Copy, PartialEq, Eq, Structural)]
pub enum EnforcementMode {
    Enforce,
    DryRun,
}

#[derive(Debug, Clone, Copy, PartialEq, Eq, Structural)]
pub enum ImageOutputFormat {
    Png,
    Jpeg,
    Webp,
}

#[derive(Debug, Clone, Copy, PartialEq, Eq, Structural)]
pub enum VideoMode {
    RequireFfmpeg,
    BypassWhenUnavailable,
    BlockWhenUnavailable,
}

#[derive(Debug, Clone, Copy, PartialEq, Eq, Structural)]
pub enum AudioMode {
    RequireFfmpeg,
    BypassWhenUnavailable,
    BlockWhenUnavailable,
}

#[derive(Debug, Clone, Copy, PartialEq, Eq, Structural)]
pub enum AudioOutputCodec {
    KeepOriginalWhenPossible,
    Mp3,
    Aac,
    Opus,
    Flac,
    Wav,
}

#[derive(Debug, Clone, Copy, PartialEq, Eq, Structural)]
pub enum AudioKeepOriginalMode {
    FallbackToMp3,
    Block,
}

/// Allowed output MIME types per file kind.
#[derive(Debug)]
pub struct OutputMimeWhitelist {
    pub image: Vec<String>,
    pub gif: Vec<String>,
    pub video: Vec<String>,
    pub audio: Vec<String>,
    pub other: Vec<String>,
}

/// The whitelist as plain sequences.
pub open spec fn whitelist_is(
    w: OutputMimeWhitelist,
    image: Seq<&str>,
    gif: Seq<&str>,
    video: Seq<&str>,
    audio: Seq<&str>,
    other: Seq<&str>,
) -> bool {
    &&& views(w.image@) == lit_views(image)
    &&& views(w.gif@) == lit_views(gif)
    &&& views(w.video@) == lit_views(video)
    &&& views(w.audio@) == lit_views(audio)
    &&& views(w.other@) == lit_views(other)
}

impl Default for OutputMimeWhitelist {
    fn default() -> (res: Self)
        ensures
            whitelist_is(
                res,
                seq!["image/png", "image/jpeg", "image/webp"],
                seq!["image/gif"],
                seq!["video/mp4", "video/raw"],
                seq!["audio/mpeg", "audio/aac", "audio/opus", "audio/flac", "audio/wav", "audio/raw"],
                seq!["application/octet-stream"],
            ),
    {
        let image: [&str; 3] = ["image/png", "image/jpeg", "image/webp"];
        assert(image@ == seq!["image/png", "image/jpeg", "image/webp"]);
        let gif: [&str; 1] = ["image/gif"];
        assert(gif@ == seq!["image/gif"]);
        let video: [&str; 2] = ["video/mp4", "video/raw"];
        assert(video@ == seq!["video/mp4", "video/raw"]);
        let audio: [&str; 6] = ["audio/mpeg", "audio/aac", "audio/opus", "audio/flac", "audio/wav", "audio/raw"];
        assert(audio@ == seq!["audio/mpeg", "audio/aac", "audio/opus", "audio/flac", "audio/wav", "audio/raw"]);
        let other: [&str; 1] = ["application/octet-stream"];
        assert(other@ == seq!["application/octet-stream"]);
        OutputMimeWhitelist {
            image: strings(&image),
            gif: strings(&gif),
            video: strings(&video),
            audio: strings(&audio),
            other: strings(&other),
        }
    }
}

impl OutputMimeWhitelist {
    pub fn strict() -> (res: Self)
        ensures
            whitelist_is(
                res,
                seq!["image/png", "image/jpeg"],
                seq!["image/gif"],
                seq!["video/mp4"],
                seq!["audio/mpeg", "audio/aac", "audio/opus", "audio/flac", "audio/wav"],
                seq!["application/octet-stream"],
            ),
    {
        let image: [&str; 2] = ["image/png", "image/jpeg"];
        assert(image@ == seq!["image/png", "image/jpeg"]);
        let gif: [&str; 1] = ["image/gif"];
        assert(gif@ == seq!["image/gif"]);
        let video: [&str; 1] = ["video/mp4"];
        assert(video@ == seq!["video/mp4"]);
        let audio: [&str; 5] = ["audio/mpeg", "audio/aac", "audio/opus", "audio/flac", "audio/wav"];
        assert(audio@ == seq!["audio/mpeg", "audio/aac", "audio/opus", "audio/flac", "audio/wav"]);
        let other: [&str; 1] = ["application/octet-stream"];
        assert(other@ == seq!["application/octet-stream"]);
        OutputMimeWhitelist {
            image: strings(&image),
            gif: strings(&gif),
            video: strings(&video),
            audio: strings(&audio),
            other: strings(&other),
        }
    }

    pub fn paranoid() -> (res: Self)
        ensures
            whitelist_is(
                res,
                seq!["image/png"],
                seq!["image/gif"],
                seq!["video/mp4"],
                seq!["audio/mpeg", "audio/flac"],
                seq!["application/octet-stream"],
            ),
    {
        let image: [&str; 1] = ["image/png"];
        assert(image@ == seq!["image/png"]);
        let gif: [&str; 1] = ["image/gif"];
        assert(gif@ == seq!["image/gif"]);
        let video: [&str; 1] = ["video/mp4"];
        assert(video@ == seq!["video/mp4"]);
        let audio: [&str; 2] = ["audio/mpeg", "audio/flac"];
        assert(audio@ == seq!["audio/mpeg", "audio/flac"]);
        let other: [&str; 1] = ["application/octet-stream"];
        assert(other@ == seq!["application/octet-stream"]);
        OutputMimeWhitelist {
            image: strings(&image),
            gif: strings(&gif),
            video: strings(&video),
            audio: strings(&audio),
            other: strings(&other),
        }
    }
}

pub open spec fn denylist_literals() -> Seq<&'static str> {
    seq![
        "application/x-msdownload",
        "application/x-dosexec",
        "application/java-archive",
        "application/x-sh",
        "application/javascript",
        "text/javascript",
        "application/x-mach-binary",
        "application/x-elf",
    ]
}

/// Output MIME types denied by the strict and paranoid profiles.
pub fn default_output_mime_denylist() -> (res: Vec<String>)
    ensures
        views(res@) == lit_views(denylist_literals()),
{
    let list: [&str; 8] = [
        "application/x-msdownload",
        "application/x-dosexec",
        "application/java-archive",
        "application/x-sh",
        "application/javascript",
        "text/javascript",
        "application/x-mach-binary",
        "application/x-elf",
    ];
        assert(list@ == seq![
        "application/x-msdownload",
        "application/x-dosexec",
        "application/java-archive",
        "application/x-sh",
        "application/javascript",
        "text/javascript",
        "application/x-mach-binary",
        "application/x-elf",
    ]);
    strings(&list)
}

pub open spec fn base_blocked_extension_literals() -> Seq<&'static str> {
    seq![
        "exe", "dll", "js", "bat", "cmd", "msi", "scr", "vbs", "vbe", "ps1", "psc1", "jar", "apk",
        "com", "pif", "hta", "cpl", "wsf", "wsh", "reg", "inf", "lnk", "py", "rb", "sh", "php",
        "class", "dex", "wasm",
    ]
}

pub open spec fn archive_extension_literals() -> Seq<&'static str> {
    seq!["zip", "rar", "7z", "tar", "gz", "bz2", "iso", "cab", "dmg"]
}

fn base_blocked_extensions() -> (res: Vec<String>)
    ensures
        views(res@) == lit_views(base_blocked_extension_literals()),
{
    let list: [&str; 29] = [
        "exe", "dll", "js", "bat", "cmd", "msi", "scr", "vbs", "vbe", "ps1", "psc1", "jar", "apk",
        "com", "pif", "hta", "cpl", "wsf", "wsh", "reg", "inf", "lnk", "py", "rb", "sh", "php",
        "class", "dex", "wasm",
    ];
        assert(list@ == seq![
        "exe", "dll", "js", "bat", "cmd", "msi", "scr", "vbs", "vbe", "ps1", "psc1", "jar", "apk",
        "com", "pif", "hta", "cpl", "wsf", "wsh", "reg", "inf", "lnk", "py", "rb", "sh", "php",
        "class", "dex", "wasm",
    ]);
    strings(&list)
}

fn paranoid_blocked_extensions() -> (res: Vec<String>)
    ensures
        views(res@) == lit_views(base_blocked_extension_literals() + archive_extension_literals()),
{
    let list: [&str; 38] = [
        "exe", "dll", "js", "bat", "cmd", "msi", "scr", "vbs", "vbe", "ps1", "psc1", "jar", "apk",
        "com", "pif", "hta", "cpl", "wsf", "wsh", "reg", "inf", "lnk", "py", "rb", "sh", "php",
        "class", "dex", "wasm", "zip", "rar", "7z", "tar", "gz", "bz2", "iso", "cab", "dmg",
    ];
        assert(list@ == seq![
        "exe", "dll", "js", "bat", "cmd", "msi", "scr", "vbs", "vbe", "ps1", "psc1", "jar", "apk",
        "com", "pif", "hta", "cpl", "wsf", "wsh", "reg", "inf", "lnk", "py", "rb", "sh", "php",
        "class", "dex", "wasm", "zip", "rar", "7z", "tar", "gz", "bz2", "iso", "cab", "dmg",
    ]);
    assert(list@ =~= base_blocked_extension_literals() + archive_extension_literals());
    strings(&list)
}

#[derive(Debug, Clone, Copy)]
pub struct ImagePolicy {
    pub output_format: ImageOutputFormat,
    pub max_pixels: u64,
    pub probe_failure_mode: ProbeFailureMode,
}

impl Default for ImagePolicy {
    fn default() -> (res: Self)
        ensures
            res == (ImagePolicy { output_format: ImageOutputFormat::Png, max_pixels: 30_000_000, probe_failure_mode: ProbeFailureMode::Warn }),
    {
        ImagePolicy { output_format: ImageOutputFormat::Png, max_pixels: 30_000_000, probe_failure_mode: ProbeFailureMode::Warn }
    }
}

/// Bounds for the animated-image container re-mux.
#[derive(Debug, Clone, Copy)]
pub struct AnimatedImagePolicy {
    /// Maximum number of PNG chunks walked.
    pub max_chunks: u32,
    /// Maximum single chunk payload size (bytes).
    pub max_chunk_size: u64,
    /// Maximum animation frames.
    pub max_frames: u32,
    /// Maximum pixels in a single frame.
    pub max_pixels_per_frame: u64,
    /// Upper bound on width or height independently.
    pub max_side: u32,
    /// Maximum aggregate pixel count across all frames.
    pub max_total_pixels: u64,
}

impl Default for AnimatedImagePolicy {
    fn default() -> (res: Self)
        ensures
            res == (AnimatedImagePolicy {
                max_chunks: 4_096,
                max_chunk_size: 8_388_608,
                max_frames: 300,
                max_pixels_per_frame: 8_000_000,
                max_side: 16_384,
                max_total_pixels: 200_000_000,
            }),
    {
        AnimatedImagePolicy {
            max_chunks: 4_096,
            max_chunk_size: 8_388_608,
            max_frames: 300,
            max_pixels_per_frame: 8_000_000,
            max_side: 16_384,
            max_total_pixels: 200_000_000,
        }
    }
}

impl AnimatedImagePolicy {
    pub fn strict() -> (res: Self)
        ensures
            res == (AnimatedImagePolicy {
                max_chunks: 2_048,
                max_chunk_size: 4_194_304,
                max_frames: 200,
                max_pixels_per_frame: 4_000_000,
                max_side: 8_192,
                max_total_pixels: 100_000_000,
            }),
    {
        AnimatedImagePolicy {
            max_chunks: 2_048,
            max_chunk_size: 4_194_304,
            max_frames: 200,
            max_pixels_per_frame: 4_000_000,
            max_side: 8_192,
            max_total_pixels: 100_000_000,
        }
    }

    pub fn paranoid() -> (res: Self)
        ensures
            res == (AnimatedImagePolicy {
                max_chunks: 1_024,
                max_chunk_size: 2_097_152,
                max_frames: 100,
                max_pixels_per_frame: 2_000_000,
                max_side: 4_096,
                max_total_pixels: 40_000_000,
            }),
    {
        AnimatedImagePolicy {
            max_chunks: 1_024,
            max_chunk_size: 2_097_152,
            max_frames: 100,
            max_pixels_per_frame: 2_000_000,
            max_side: 4_096,
            max_total_pixels: 40_000_000,
        }
    }
}

#[derive(Debug, Clone, Copy)]
pub struct GifPolicy {
    pub max_frames: usize,
    pub max_pixels_per_frame: u64,
    pub probe_failure_mode: ProbeFailureMode,
}

impl Default for GifPolicy {
    fn default() -> (res: Self)
        ensures
            res == (GifPolicy { max_frames: 500, max_pixels_per_frame: 16_000_000, probe_failure_mode: ProbeFailureMode::Warn }),
    {
        GifPolicy { max_frames: 500, max_pixels_per_frame: 16_000_000, probe_failure_mode: ProbeFailureMode::Warn }
    }
}

#[derive(Debug)]
pub struct VideoPolicy {
    pub mode: VideoMode,
    pub ffmpeg_bin: String,
    pub ffprobe_bin: String,
    pub ffmpeg_timeout_secs: u64,
    pub max_duration_secs: u64,
    pub max_bitrate_kbps: u64,
    pub probe_failure_mode: ProbeFailureMode,
}

/// The video policy has these values, with the default tool names.
pub open spec fn video_policy_is(
    v: VideoPolicy,
    mode: VideoMode,
    timeout: int,
    duration: int,
    bitrate: int,
    probe: ProbeFailureMode,
) -> bool {
    &&& v.mode == mode
    &&& v.ffmpeg_bin@ == "ffmpeg"@
    &&& v.ffprobe_bin@ == "ffprobe"@
    &&& v.ffmpeg_timeout_secs == timeout
    &&& v.max_duration_secs == duration
    &&& v.max_bitrate_kbps == bitrate
    &&& v.probe_failure_mode == probe
}

impl VideoPolicy {
    fn with_values(mode: VideoMode, timeout: u64, duration: u64, bitrate: u64, probe: ProbeFailureMode) -> (res: Self)
        ensures
            video_policy_is(res, mode, timeout as int, duration as int, bitrate as int, probe),
    {
        VideoPolicy {
            mode,
            ffmpeg_bin: "ffmpeg".to_owned(),
            ffprobe_bin: "ffprobe".to_owned(),
            ffmpeg_timeout_secs: timeout,
            max_duration_secs: duration,
            max_bitrate_kbps: bitrate,
            probe_failure_mode: probe,
        }
    }

    /// A field-by-field copy.
    pub fn duplicate(&self) -> (res: Self)
        ensures
            res.mode == self.mode,
            res.ffmpeg_bin@ == self.ffmpeg_bin@,
            res.ffprobe_bin@ == self.ffprobe_bin@,
            res.ffmpeg_timeout_secs == self.ffmpeg_timeout_secs,
            res.max_duration_secs == self.max_duration_secs,
            res.max_bitrate_kbps == self.max_bitrate_kbps,
            res.probe_failure_mode == self.probe_failure_mode,
    {
        VideoPolicy {
            mode: self.mode,
            ffmpeg_bin: self.ffmpeg_bin.clone(),
            ffprobe_bin: self.ffprobe_bin.clone(),
            ffmpeg_timeout_secs: self.ffmpeg_timeout_secs,
            max_duration_secs: self.max_duration_secs,
            max_bitrate_kbps: self.max_bitrate_kbps,
            probe_failure_mode: self.probe_failure_mode,
        }
    }
}

impl Default for VideoPolicy {
    /// Fail-closed: without ffmpeg a video that no native rewrite handles is blocked.
    fn default() -> (res: Self)
        ensures
            video_policy_is(res, VideoMode::BlockWhenUnavailable, 25, 3600, 20_000, ProbeFailureMode::Warn),
    {
        VideoPolicy::with_values(VideoMode::BlockWhenUnavailable, 25, 3600, 20_000, ProbeFailureMode::Warn)
    }
}

#[derive(Debug)]
pub struct AudioPolicy {
    pub mode: AudioMode,
    pub ffmpeg_bin: String,
    pub ffprobe_bin: String,
    pub ffmpeg_timeout_secs: u64,
    pub max_duration_secs: u64,
    pub max_bitrate_kbps: u64,
    pub max_channels: u64,
    pub output_codec: AudioOutputCodec,
    pub keep_original_mode: AudioKeepOriginalMode,
    pub probe_failure_mode: ProbeFailureMode,
}

/// The audio policy has these values, with the default tool names.
pub open spec fn audio_policy_is(
    a: AudioPolicy,
    mode: AudioMode,
    timeout: int,
    duration: int,
    bitrate: int,
    channels: int,
    codec: AudioOutputCodec,
    keep: AudioKeepOriginalMode,
    probe: ProbeFailureMode,
) -> bool {
    &&& a.mode == mode
    &&& a.ffmpeg_bin@ == "ffmpeg"@
    &&& a.ffprobe_bin@ == "ffprobe"@
    &&& a.ffmpeg_timeout_secs == timeout
    &&& a.max_duration_secs == duration
    &&& a.max_bitrate_kbps == bitrate
    &&& a.max_channels == channels
    &&& a.output_codec == codec
    &&& a.keep_original_mode == keep
    &&& a.probe_failure_mode == probe
}

impl AudioPolicy {
    fn with_values(
        mode: AudioMode,
        timeout: u64,
        duration: u64,
        bitrate: u64,
        channels: u64,
        codec: AudioOutputCodec,
        keep: AudioKeepOriginalMode,
        probe: ProbeFailureMode,
    ) -> (res: Self)
        ensures
            audio_policy_is(res, mode, timeout as int, duration as int, bitrate as int, channels as int, codec, keep, probe),
    {
        AudioPolicy {
            mode,
            ffmpeg_bin: "ffmpeg".to_owned(),
            ffprobe_bin: "ffprobe".to_owned(),
            ffmpeg_timeout_secs: timeout,
            max_duration_secs: duration,
            max_bitrate_kbps: bitrate,
            max_channels: channels,
            output_codec: codec,
            keep_original_mode: keep,
            probe_failure_mode: probe,
        }
    }

    /// A field-by-field copy.
    pub fn duplicate(&self) -> (res: Self)
        ensures
            res.mode == self.mode,
            res.ffmpeg_bin@ == self.ffmpeg_bin@,
            res.ffprobe_bin@ == self.ffprobe_bin@,
            res.ffmpeg_timeout_secs == self.ffmpeg_timeout_secs,
            res.max_duration_secs == self.max_duration_secs,
            res.max_bitrate_kbps == self.max_bitrate_kbps,
            res.max_channels == self.max_channels,
            res.output_codec == self.output_codec,
            res.keep_original_mode == self.keep_original_mode,
            res.probe_failure_mode == self.probe_failure_mode,
    {
        AudioPolicy {
            mode: self.mode,
            ffmpeg_bin: self.ffmpeg_bin.clone(),
            ffprobe_bin: self.ffprobe_bin.clone(),
            ffmpeg_timeout_secs: self.ffmpeg_timeout_secs,
            max_duration_secs: self.max_duration_secs,
            max_bitrate_kbps: self.max_bitrate_kbps,
            max_channels: self.max_channels,
            output_codec: self.output_codec,
            keep_original_mode: self.keep_original_mode,
            probe_failure_mode: self.probe_failure_mode,
        }
    }
}

impl Default for AudioPolicy {
    /// Fail-closed: audio is never passed through unprocessed.
    fn default() -> (res: Self)
        ensures
            audio_policy_is(
                res,
                AudioMode::BlockWhenUnavailable,
                20,
                3600,
                1_536,
                6,
                AudioOutputCodec::Mp3,
                AudioKeepOriginalMode::FallbackToMp3,
                ProbeFailureMode::Warn,
            ),
    {
        AudioPolicy::with_values(
            AudioMode::BlockWhenUnavailable,
            20,
            3600,
            1_536,
            6,
            AudioOutputCodec::Mp3,
            AudioKeepOriginalMode::FallbackToMp3,
            ProbeFailureMode::Warn,
        )
    }
}

/// Policy for non-media inputs. The entropy bound is in thousandths of a
/// bit per byte.
#[derive(Debug, Clone, Copy)]
pub struct OtherPolicy {
    pub max_entropy_milli: u32,
    pub structured_probe_mode: ProbeFailureMode,
}

impl Default for OtherPolicy {
    fn default() -> (res: Self)
        ensures
            res == (OtherPolicy { max_entropy_milli: 7_980, structured_probe_mode: ProbeFailureMode::Warn }),
    {
        OtherPolicy { max_entropy_milli: 7_980, structured_probe_mode: ProbeFailureMode::Warn }
    }
}

/// The complete policy of a defender.
#[derive(Debug)]
pub struct DefensePolicy {
    pub minimum_reconstruction_level: ReconstructionLevel,
    pub max_handler_duration_ms: u64,
    pub max_input_size_bytes: u64,
    pub max_output_size_bytes: u64,
    /// Largest allowed output/input size ratio, in thousandths.
    pub max_output_expansion_ratio_milli: u64,
    pub enforce_output_kind_match: bool,
    pub block_on_unknown_output_mime: bool,
    pub enforce_output_mime_whitelist: bool,
    pub output_mime_whitelist: OutputMimeWhitelist,
    pub output_mime_denylist: Vec<String>,
    pub enforcement_mode: EnforcementMode,
    pub block_kind_mismatch: bool,
    pub unknown_kind_mode: UnknownKindMode,
    pub decoder_failure_mode: DecoderFailureMode,
    pub signature_scan_mode: SignatureScanMode,
    pub block_on_pre_scan_match: bool,
    pub blocked_extensions: Vec<String>,
    pub signature_rules: Vec<SignatureRule>,
    pub image: ImagePolicy,
    pub animated_image: AnimatedImagePolicy,
    pub gif: GifPolicy,
    pub video: VideoPolicy,
    pub audio: AudioPolicy,
    pub other: OtherPolicy,
}

/// The values of the standard (staging) profile.
pub open spec fn is_standard_profile(p: DefensePolicy) -> bool {
    &&& p.minimum_reconstruction_level == ReconstructionLevel::Structure
    &&& p.max_handler_duration_ms == 10_000
    &&& p.max_input_size_bytes == 209_715_200
    &&& p.max_output_size_bytes == 262_144_000
    &&& p.max_output_expansion_ratio_milli == 12_000
    &&& p.enforce_output_kind_match
    &&& !p.block_on_unknown_output_mime
    &&& p.enforce_output_mime_whitelist
    &&& whitelist_is(
        p.output_mime_whitelist,
        seq!["image/png", "image/jpeg", "image/webp"],
        seq!["image/gif"],
        seq!["video/mp4", "video/raw"],
        seq!["audio/mpeg", "audio/aac", "audio/opus", "audio/flac", "audio/wav", "audio/raw"],
        seq!["application/octet-stream"],
    )
    &&& p.output_mime_denylist@.len() == 0
    &&& p.enforcement_mode == EnforcementMode::Enforce
    &&& p.block_kind_mismatch
    &&& p.unknown_kind_mode == UnknownKindMode::Warn
    &&& p.decoder_failure_mode == DecoderFailureMode::QuarantineAsOther
    &&& p.signature_scan_mode == SignatureScanMode::InputAndOutput
    &&& p.block_on_pre_scan_match
    &&& views(p.blocked_extensions@) == lit_views(base_blocked_extension_literals())
    &&& p.signature_rules@.len() == 0
    &&& p.image == (ImagePolicy { output_format: ImageOutputFormat::Png, max_pixels: 30_000_000, probe_failure_mode: ProbeFailureMode::Warn })
    &&& p.animated_image == (AnimatedImagePolicy {
        max_chunks: 4_096,
        max_chunk_size: 8_388_608,
        max_frames: 300,
        max_pixels_per_frame: 8_000_000,
        max_side: 16_384,
        max_total_pixels: 200_000_000,
    })
    &&& p.gif == (GifPolicy { max_frames: 500, max_pixels_per_frame: 16_000_000, probe_failure_mode: ProbeFailureMode::Warn })
    &&& video_policy_is(p.video, VideoMode::BlockWhenUnavailable, 25, 3600, 20_000, ProbeFailureMode::Warn)
    &&& audio_policy_is(
        p.audio,
        AudioMode::BlockWhenUnavailable,
        20,
        3600,
        1_536,
        6,
        AudioOutputCodec::Mp3,
        AudioKeepOriginalMode::FallbackToMp3,
        ProbeFailureMode::Warn,
    )
    &&& p.other == (OtherPolicy { max_entropy_milli: 7_980, structured_probe_mode: ProbeFailureMode::Warn })
}

/// The values of the strict profile.
pub open spec fn is_strict_profile(p: DefensePolicy) -> bool {
    &&& p.minimum_reconstruction_level == ReconstructionLevel::Semantic
    &&& p.max_handler_duration_ms == 8_000
    &&& p.max_input_size_bytes == 104_857_600
    &&& p.max_output_size_bytes == 125_829_120
    &&& p.max_output_expansion_ratio_milli == 8_000
    &&& p.enforce_output_kind_match
    &&& p.block_on_unknown_output_mime
    &&& p.enforce_output_mime_whitelist
    &&& whitelist_is(
        p.output_mime_whitelist,
        seq!["image/png", "image/jpeg"],
        seq!["image/gif"],
        seq!["video/mp4"],
        seq!["audio/mpeg", "audio/aac", "audio/opus", "audio/flac", "audio/wav"],
        seq!["application/octet-stream"],
    )
    &&& views(p.output_mime_denylist@) == lit_views(denylist_literals())
    &&& p.enforcement_mode == EnforcementMode::Enforce
    &&& p.block_kind_mismatch
    &&& p.unknown_kind_mode == UnknownKindMode::Block
    &&& p.decoder_failure_mode == DecoderFailureMode::Block
    &&& p.signature_scan_mode == SignatureScanMode::InputAndOutput
    &&& p.block_on_pre_scan_match
    &&& views(p.blocked_extensions@) == lit_views(base_blocked_extension_literals())
    &&& p.signature_rules@.len() == 0
    &&& p.image == (ImagePolicy { output_format: ImageOutputFormat::Png, max_pixels: 30_000_000, probe_failure_mode: ProbeFailureMode::Block })
    &&& p.animated_image == (AnimatedImagePolicy {
        max_chunks: 2_048,
        max_chunk_size: 4_194_304,
        max_frames: 200,
        max_pixels_per_frame: 4_000_000,
        max_side: 8_192,
        max_total_pixels: 100_000_000,
    })
    &&& p.gif == (GifPolicy { max_frames: 500, max_pixels_per_frame: 16_000_000, probe_failure_mode: ProbeFailureMode::Block })
    &&& video_policy_is(p.video, VideoMode::RequireFfmpeg, 20, 1800, 15_000, ProbeFailureMode::Block)
    &&& audio_policy_is(
        p.audio,
        AudioMode::RequireFfmpeg,
        15,
        1200,
        1_024,
        2,
        AudioOutputCodec::Mp3,
        AudioKeepOriginalMode::Block,
        ProbeFailureMode::Block,
    )
    &&& p.other == (OtherPolicy { max_entropy_milli: 7_700, structured_probe_mode: ProbeFailureMode::Block })
}

/// The values of the paranoid profile.
pub open spec fn is_paranoid_profile(p: DefensePolicy) -> bool {
    &&& p.minimum_reconstruction_level == ReconstructionLevel::Semantic
    &&& p.max_handler_duration_ms == 5_000
    &&& p.max_input_size_bytes == 52_428_800
    &&& p.max_output_size_bytes == 62_914_560
    &&& p.max_output_expansion_ratio_milli == 4_000
    &&& p.enforce_output_kind_match
    &&& p.block_on_unknown_output_mime
    &&& p.enforce_output_mime_whitelist
    &&& whitelist_is(
        p.output_mime_whitelist,
        seq!["image/png"],
        seq!["image/gif"],
        seq!["video/mp4"],
        seq!["audio/mpeg", "audio/flac"],
        seq!["application/octet-stream"],
    )
    &&& views(p.output_mime_denylist@) == lit_views(denylist_literals())
    &&& p.enforcement_mode == EnforcementMode::Enforce
    &&& p.block_kind_mismatch
    &&& p.unknown_kind_mode == UnknownKindMode::Block
    &&& p.decoder_failure_mode == DecoderFailureMode::Block
    &&& p.signature_scan_mode == SignatureScanMode::InputAndOutput
    &&& p.block_on_pre_scan_match
    &&& views(p.blocked_extensions@) == lit_views(base_blocked_extension_literals() + archive_extension_literals())
    &&& p.signature_rules@.len() == 0
    &&& p.image == (ImagePolicy { output_format: ImageOutputFormat::Png, max_pixels: 20_000_000, probe_failure_mode: ProbeFailureMode::Block })
    &&& p.animated_image == (AnimatedImagePolicy {
        max_chunks: 1_024,
        max_chunk_size: 2_097_152,
        max_frames: 100,
        max_pixels_per_frame: 2_000_000,
        max_side: 4_096,
        max_total_pixels: 40_000_000,
    })
    &&& p.gif == (GifPolicy { max_frames: 200, max_pixels_per_frame: 8_000_000, probe_failure_mode: ProbeFailureMode::Block })
    &&& video_policy_is(p.video, VideoMode::RequireFfmpeg, 12, 900, 8_000, ProbeFailureMode::Block)
    &&& audio_policy_is(
        p.audio,
        AudioMode::RequireFfmpeg,
        10,
        600,
        512,
        2,
        AudioOutputCodec::Mp3,
        AudioKeepOriginalMode::Block,
        ProbeFailureMode::Block,
    )
    &&& p.other == (OtherPolicy { max_entropy_milli: 7_400, structured_probe_mode: ProbeFailureMode::Block })
}

impl Default for DefensePolicy {
    fn default() -> (res: Self)
        ensures
            is_standard_profile(res),
    {
        DefensePolicy {
            minimum_reconstruction_level: ReconstructionLevel::Structure,
            max_handler_duration_ms: 10_000,
            max_input_size_bytes: 209_715_200,
            max_output_size_bytes: 262_144_000,
            max_output_expansion_ratio_milli: 12_000,
            enforce_output_kind_match: true,
            block_on_unknown_output_mime: false,
            enforce_output_mime_whitelist: true,
            output_mime_whitelist: OutputMimeWhitelist::default(),
            output_mime_denylist: Vec::new(),
            enforcement_mode: EnforcementMode::Enforce,
            block_kind_mismatch: true,
            unknown_kind_mode: UnknownKindMode::Warn,
            decoder_failure_mode: DecoderFailureMode::QuarantineAsOther,
            signature_scan_mode: SignatureScanMode::InputAndOutput,
            block_on_pre_scan_match: true,
            blocked_extensions: base_blocked_extensions(),
            signature_rules: Vec::new(),
            image: ImagePolicy::default(),
            animated_image: AnimatedImagePolicy::default(),
            gif: GifPolicy::default(),
            video: VideoPolicy::default(),
            audio: AudioPolicy::default(),
            other: OtherPolicy::default(),
        }
    }
}

impl DefensePolicy {
    /// The profile of the dissertation demonstration: the strict profile.
    pub fn dissertation_profile() -> (res: Self)
        ensures
            is_strict_profile(res),
    {
        Self::strict_profile()
    }

    pub fn staging_profile() -> (res: Self)
        ensures
            is_standard_profile(res),
    {
        Self::default()
    }

    pub fn strict_profile() -> (res: Self)
        ensures
            is_strict_profile(res),
    {
        DefensePolicy {
            minimum_reconstruction_level: ReconstructionLevel::Semantic,
            max_handler_duration_ms: 8_000,
            max_input_size_bytes: 104_857_600,
            max_output_size_bytes: 125_829_120,
            max_output_expansion_ratio_milli: 8_000,
            enforce_output_kind_match: true,
            block_on_unknown_output_mime: true,
            enforce_output_mime_whitelist: true,
            output_mime_whitelist: OutputMimeWhitelist::strict(),
            output_mime_denylist: default_output_mime_denylist(),
            enforcement_mode: EnforcementMode::Enforce,
            block_kind_mismatch: true,
            unknown_kind_mode: UnknownKindMode::Block,
            decoder_failure_mode: DecoderFailureMode::Block,
            signature_scan_mode: SignatureScanMode::InputAndOutput,
            block_on_pre_scan_match: true,
            blocked_extensions: base_blocked_extensions(),
            signature_rules: Vec::new(),
            image: ImagePolicy { output_format: ImageOutputFormat::Png, max_pixels: 30_000_000, probe_failure_mode: ProbeFailureMode::Block },
            animated_image: AnimatedImagePolicy::strict(),
            gif: GifPolicy { max_frames: 500, max_pixels_per_frame: 16_000_000, probe_failure_mode: ProbeFailureMode::Block },
            video: VideoPolicy::with_values(VideoMode::RequireFfmpeg, 20, 1800, 15_000, ProbeFailureMode::Block),
            audio: AudioPolicy::with_values(
                AudioMode::RequireFfmpeg,
                15,
                1200,
                1_024,
                2,
                AudioOutputCodec::Mp3,
                AudioKeepOriginalMode::Block,
                ProbeFailureMode::Block,
            ),
            other: OtherPolicy { max_entropy_milli: 7_700, structured_probe_mode: ProbeFailureMode::Block },
        }
    }

    pub fn paranoid_profile() -> (res: Self)
        ensures
            is_paranoid_profile(res),
    {
        DefensePolicy {
            minimum_reconstruction_level: ReconstructionLevel::Semantic,
            max_handler_duration_ms: 5_000,
            max_input_size_bytes: 52_428_800,
            max_output_size_bytes: 62_914_560,
            max_output_expansion_ratio_milli: 4_000,
            enforce_output_kind_match: true,
            block_on_unknown_output_mime: true,
            enforce_output_mime_whitelist: true,
            output_mime_whitelist: OutputMimeWhitelist::paranoid(),
            output_mime_denylist: default_output_mime_denylist(),
            enforcement_mode: EnforcementMode::Enforce,
            block_kind_mismatch: true,
            unknown_kind_mode: UnknownKindMode::Block,
            decoder_failure_mode: DecoderFailureMode::Block,
            signature_scan_mode: SignatureScanMode::InputAndOutput,
            block_on_pre_scan_match: true,
            blocked_extensions: paranoid_blocked_extensions(),
            signature_rules: Vec::new(),
            image: ImagePolicy { output_format: ImageOutputFormat::Png, max_pixels: 20_000_000, probe_failure_mode: ProbeFailureMode::Block },
            animated_image: AnimatedImagePolicy::paranoid(),
            gif: GifPolicy { max_frames: 200, max_pixels_per_frame: 8_000_000, probe_failure_mode: ProbeFailureMode::Block },
            video: VideoPolicy::with_values(VideoMode::RequireFfmpeg, 12, 900, 8_000, ProbeFailureMode::Block),
            audio: AudioPolicy::with_values(
                AudioMode::RequireFfmpeg,
                10,
                600,
                512,
                2,
                AudioOutputCodec::Mp3,
                AudioKeepOriginalMode::Block,
                ProbeFailureMode::Block,
            ),
            other: OtherPolicy { max_entropy_milli: 7_400, structured_probe_mode: ProbeFailureMode::Block },
        }
    }

    pub fn public_profile() -> (res: Self)
        ensures
            is_standard_profile(res),
    {
        Self::staging_profile()
    }

    pub fn enterprise_profile() -> (res: Self)
        ensures
            is_strict_profile(res),
    {
        Self::strict_profile()
    }

    pub fn high_risk_profile() -> (res: Self)
        ensures
            is_paranoid_profile(res),
    {
        Self::paranoid_profile()
    }

    /// The same policy in dry-run mode: blocks are reported, not enforced.
    pub fn with_dry_run(self) -> (res: Self)
        ensures
            res == (DefensePolicy { enforcement_mode: EnforcementMode::DryRun, ..self }),
    {
        let mut p = self;
        p.enforcement_mode = EnforcementMode::DryRun;
        p
    }
}

} // verus!

verus! {

/// The fields of a policy that a tenant's media limits may replace.
pub open spec fn media_fields(p: DefensePolicy) -> (u64, u64, u64, u64, u64) {
    (
        p.video.max_duration_secs,
        p.video.max_bitrate_kbps,
        p.audio.max_duration_secs,
        p.audio.max_bitrate_kbps,
        p.audio.max_channels,
    )
}

/// Two policies agree on every field but the media limits.
pub open spec fn policy_same_but_media(a: DefensePolicy, b: DefensePolicy) -> bool {
    &&& a.minimum_reconstruction_level == b.minimum_reconstruction_level
    &&& a.max_handler_duration_ms == b.max_handler_duration_ms
    &&& a.max_input_size_bytes == b.max_input_size_bytes
    &&& a.max_output_size_bytes == b.max_output_size_bytes
    &&& a.max_output_expansion_ratio_milli == b.max_output_expansion_ratio_milli
    &&& a.enforce_output_kind_match == b.enforce_output_kind_match
    &&& a.block_on_unknown_output_mime == b.block_on_unknown_output_mime
    &&& a.enforce_output_mime_whitelist == b.enforce_output_mime_whitelist
    &&& views(a.output_mime_whitelist.image@) == views(b.output_mime_whitelist.image@)
    &&& views(a.output_mime_whitelist.gif@) == views(b.output_mime_whitelist.gif@)
    &&& views(a.output_mime_whitelist.video@) == views(b.output_mime_whitelist.video@)
    &&& views(a.output_mime_whitelist.audio@) == views(b.output_mime_whitelist.audio@)
    &&& views(a.output_mime_whitelist.other@) == views(b.output_mime_whitelist.other@)
    &&& views(a.output_mime_denylist@) == views(b.output_mime_denylist@)
    &&& a.enforcement_mode == b.enforcement_mode
    &&& a.block_kind_mismatch == b.block_kind_mismatch
    &&& a.unknown_kind_mode == b.unknown_kind_mode
    &&& a.decoder_failure_mode == b.decoder_failure_mode
    &&& a.signature_scan_mode == b.signature_scan_mode
    &&& a.block_on_pre_scan_match == b.block_on_pre_scan_match
    &&& views(a.blocked_extensions@) == views(b.blocked_extensions@)
    &&& crate::signatures::rule_views(a.signature_rules@) == crate::signatures::rule_views(b.signature_rules@)
    &&& a.image == b.image
    &&& a.animated_image == b.animated_image
    &&& a.gif == b.gif
    &&& a.video.mode == b.video.mode
    &&& a.video.ffmpeg_bin@ == b.video.ffmpeg_bin@
    &&& a.video.ffprobe_bin@ == b.video.ffprobe_bin@
    &&& a.video.ffmpeg_timeout_secs == b.video.ffmpeg_timeout_secs
    &&& a.video.probe_failure_mode == b.video.probe_failure_mode
    &&& a.audio.mode == b.audio.mode
    &&& a.audio.ffmpeg_bin@ == b.audio.ffmpeg_bin@
    &&& a.audio.ffprobe_bin@ == b.audio.ffprobe_bin@
    &&& a.audio.ffmpeg_timeout_secs == b.audio.ffmpeg_timeout_secs
    &&& a.audio.output_codec == b.audio.output_codec
    &&& a.audio.keep_original_mode == b.audio.keep_original_mode
    &&& a.audio.probe_failure_mode == b.audio.probe_failure_mode
    &&& a.other == b.other
}

/// Two policies agree on every field.
pub open spec fn policy_same(a: DefensePolicy, b: DefensePolicy) -> bool {
    policy_same_but_media(a, b) && media_fields(a) == media_fields(b)
}

/// A copy of a list of strings.
pub fn duplicate_strings(v: &Vec<String>) -> (res: Vec<String>)
    ensures
        views(res@) == views(v@),
{
    let mut out: Vec<String> = Vec::new();
    let mut i: usize = 0;
    while i < v.len()
        invariant
            i <= v@.len(),
            out@.len() == i,
            forall|j: int| 0 <= j < i ==> (#[trigger] out@[j])@ == v@[j]@,
        decreases v@.len() - i,
    {
        out.push(v[i].clone());
        i = i + 1;
    }
    assert(views(out@) =~= views(v@));
    out
}

impl DefensePolicy {
    /// A field-by-field copy.
    pub fn duplicate(&self) -> (res: Self)
        ensures
            policy_same(res, *self),
    {
        DefensePolicy {
            minimum_reconstruction_level: self.minimum_reconstruction_level,
            max_handler_duration_ms: self.max_handler_duration_ms,
            max_input_size_bytes: self.max_input_size_bytes,
            max_output_size_bytes: self.max_output_size_bytes,
            max_output_expansion_ratio_milli: self.max_output_expansion_ratio_milli,
            enforce_output_kind_match: self.enforce_output_kind_match,
            block_on_unknown_output_mime: self.block_on_unknown_output_mime,
            enforce_output_mime_whitelist: self.enforce_output_mime_whitelist,
            output_mime_whitelist: OutputMimeWhitelist {
                image: duplicate_strings(&self.output_mime_whitelist.image),
                gif: duplicate_strings(&self.output_mime_whitelist.gif),
                video: duplicate_strings(&self.output_mime_whitelist.video),
                audio: duplicate_strings(&self.output_mime_whitelist.audio),
                other: duplicate_strings(&self.output_mime_whitelist.other),
            },
            output_mime_denylist: duplicate_strings(&self.output_mime_denylist),
            enforcement_mode: self.enforcement_mode,
            block_kind_mismatch: self.block_kind_mismatch,
            unknown_kind_mode: self.unknown_kind_mode,
            decoder_failure_mode: self.decoder_failure_mode,
            signature_scan_mode: self.signature_scan_mode,
            block_on_pre_scan_match: self.block_on_pre_scan_match,
            blocked_extensions: duplicate_strings(&self.blocked_extensions),
            signature_rules: crate::signatures::duplicate_rule_list(&self.signature_rules),
            image: self.image,
            animated_image: self.animated_image,
            gif: self.gif,
            video: self.video.duplicate(),
            audio: self.audio.duplicate(),
            other: self.other,
        }
    }
}

/// Every entry of `a` is an entry of `b`.
pub open spec fn within(a: Seq<Seq<char>>, b: Seq<Seq<char>>) -> bool {
    forall|x: Seq<char>| #[trigger] a.contains(x) ==> b.contains(x)
}

/// Each list of whitelist `a` is within the same list of `b`.
pub open spec fn whitelist_within(a: OutputMimeWhitelist, b: OutputMimeWhitelist) -> bool {
    &&& within(views(a.image@), views(b.image@))
    &&& within(views(a.gif@), views(b.gif@))
    &&& within(views(a.video@), views(b.video@))
    &&& within(views(a.audio@), views(b.audio@))
    &&& within(views(a.other@), views(b.other@))
}

/// Literals each found in `b` give views within those of `b`.
proof fn lemma_lits_within(a: Seq<&str>, b: Seq<&str>)
    requires
        forall|i: int| 0 <= i < a.len() ==> exists|j: int| 0 <= j < b.len() && #[trigger] b[j] == #[trigger] a[i],
    ensures
        within(lit_views(a), lit_views(b)),
{
    assert forall|x: Seq<char>| #[trigger] lit_views(a).contains(x) implies lit_views(b).contains(x) by {
        let i = choose|i: int| 0 <= i < lit_views(a).len() && lit_views(a)[i] == x;
        let j = choose|j: int| 0 <= j < b.len() && b[j] == a[i];
        assert(lit_views(b)[j] == x);
    }
}

/// The output whitelists narrow from profile to profile: every MIME type
/// the paranoid whitelist admits, the strict one admits, and every type the
/// strict one admits, the default one admits.
pub proof fn law_whitelists_narrow(paranoid: OutputMimeWhitelist, strict: OutputMimeWhitelist, default_list: OutputMimeWhitelist)
    requires
        whitelist_is(
            paranoid,
            seq!["image/png"],
            seq!["image/gif"],
            seq!["video/mp4"],
            seq!["audio/mpeg", "audio/flac"],
            seq!["application/octet-stream"],
        ),
        whitelist_is(
            strict,
            seq!["image/png", "image/jpeg"],
            seq!["image/gif"],
            seq!["video/mp4"],
            seq!["audio/mpeg", "audio/aac", "audio/opus", "audio/flac", "audio/wav"],
            seq!["application/octet-stream"],
        ),
        whitelist_is(
            default_list,
            seq!["image/png", "image/jpeg", "image/webp"],
            seq!["image/gif"],
            seq!["video/mp4", "video/raw"],
            seq!["audio/mpeg", "audio/aac", "audio/opus", "audio/flac", "audio/wav", "audio/raw"],
            seq!["application/octet-stream"],
        ),
    ensures
        whitelist_within(paranoid, strict),
        whitelist_within(strict, default_list),
{
    let pi = seq!["image/png"];
    let si = seq!["image/png", "image/jpeg"];
    let di = seq!["image/png", "image/jpeg", "image/webp"];
    let g = seq!["image/gif"];
    let pv = seq!["video/mp4"];
    let dv = seq!["video/mp4", "video/raw"];
    let pa = seq!["audio/mpeg", "audio/flac"];
    let sa = seq!["audio/mpeg", "audio/aac", "audio/opus", "audio/flac", "audio/wav"];
    let da = seq!["audio/mpeg", "audio/aac", "audio/opus", "audio/flac", "audio/wav", "audio/raw"];
    let o = seq!["application/octet-stream"];
    assert(si[0] == pi[0]);
    lemma_lits_within(pi, si);
    assert(di[0] == si[0] && di[1] == si[1]);
    lemma_lits_within(si, di);
    assert(g[0] == g[0]);
    lemma_lits_within(g, g);
    assert(pv[0] == pv[0]);
    lemma_lits_within(pv, pv);
    assert(dv[0] == pv[0]);
    lemma_lits_within(pv, dv);
    assert(sa[0] == pa[0] && sa[3] == pa[1]);
    lemma_lits_within(pa, sa);
    assert(da[0] == sa[0] && da[1] == sa[1] && da[2] == sa[2] && da[3] == sa[3] && da[4] == sa[4]);
    lemma_lits_within(sa, da);
    assert(o[0] == o[0]);
    lemma_lits_within(o, o);
}

} // verus!
