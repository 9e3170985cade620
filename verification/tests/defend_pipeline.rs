use std::time::Instant;

use mdo_cdr::pipeline::{read_outcome, Preparation, RebuildStart};
use mdo_cdr::policy::{
    AudioKeepOriginalMode, DecoderFailureMode, DefensePolicy, EnforcementMode, OtherPolicy, ProbeFailureMode,
    SignatureScanMode, UnknownKindMode,
};
use mdo_cdr::types::limits_outcome;
use mdo_cdr::validation::{read_candidate, verify_animation, OutputRead};
use mdo_cdr::{
    DefendResult, DefenderError, DefenseContext, DefenseVerdict, FileDefender, FileKind, PipelineStage,
    PipelineStageStatus, SignatureRule,
};

fn entropy_label(bytes: &[u8]) -> String {
    let mut frequencies = [0usize; 256];
    for byte in bytes {
        frequencies[*byte as usize] += 1;
    }
    let length = bytes.len() as f64;
    let mut entropy = 0.0f64;
    for frequency in frequencies {
        if frequency > 0 {
            let probability = frequency as f64 / length;
            entropy -= probability * probability.log2();
        }
    }
    format!("{entropy:.3}")
}

/// One run of the pipeline for files that need no external runtime, step by
/// step as a caller drives it.
fn defend(
    defender: &FileDefender,
    input: Vec<u8>,
    file_name: Option<&str>,
    context: DefenseContext,
) -> Result<DefendResult, DefenderError> {
    let started = Instant::now();
    let original_size = input.len() as u64;
    let prepared = match defender.begin_defense(&input, file_name, &context, &started)? {
        Preparation::Blocked(result) => return Ok(result),
        Preparation::Ready(prepared) => prepared,
    };
    let mut rebuild_context = context.clone();
    rebuild_context.started_at = Some(Instant::now());
    rebuild_context.timeout_ms = defender.policy().max_handler_duration_ms;
    let entropy = entropy_label(&input);
    let kind = prepared.file_kind;
    let rebuilt = match defender.start_rebuild(kind, input.clone(), rebuild_context.clone(), &entropy) {
        RebuildStart::Done(rebuilt) => rebuilt,
        _ => panic!("this run needs an external media runtime"),
    };
    let artifact = defender.recover_rebuild(kind, rebuilt, input, rebuild_context.clone(), &entropy)?;
    let reviewed = defender.review_candidate(prepared, file_name, artifact, original_size)?;
    let read = match read_candidate(reviewed.file_kind, &reviewed.output_bytes, defender.policy(), &rebuild_context) {
        OutputRead::Finished(read) => read,
        _ => panic!("this run needs an external media reader"),
    };
    Ok(defender.finish_defense(reviewed, read, original_size, &context, &started))
}

const CLEAN_GIF: [u8; 43] = [
    71, 73, 70, 56, 57, 97, 1, 0, 1, 0, 128, 0, 0, 255, 255, 255, 0, 0, 0, 33, 249, 4, 1, 0, 0, 1, 0, 44, 0, 0, 0,
    0, 1, 0, 1, 0, 0, 2, 2, 68, 1, 0, 59,
];

const TINY_PNG: [u8; 67] = [
    137, 80, 78, 71, 13, 10, 26, 10, 0, 0, 0, 13, 73, 72, 68, 82, 0, 0, 0, 1, 0, 0, 0, 1, 8, 6, 0, 0, 0, 31, 21,
    196, 137, 0, 0, 0, 13, 73, 68, 65, 84, 8, 153, 99, 96, 0, 0, 0, 2, 0, 1, 229, 39, 212, 162, 0, 0, 0, 0, 73, 69,
    78, 68, 174, 66, 96, 130,
];

fn png_fixture(width: u32, height: u32) -> Vec<u8> {
    let img = image::RgbImage::from_pixel(width, height, image::Rgb([10, 20, 30]));
    let mut out = Vec::new();
    image::DynamicImage::ImageRgb8(img)
        .write_to(&mut std::io::Cursor::new(&mut out), image::ImageFormat::Png)
        .expect("encode fixture");
    out
}

fn counting_bytes() -> Vec<u8> {
    (0u16..1024u16).map(|value| (value % 256) as u8).collect()
}

#[test]
fn blocks_file_by_signature() {
    let mut policy = DefensePolicy::default();
    policy.signature_rules.push(SignatureRule::anywhere("eicar-like", b"EICAR-STANDARD-ANTIVIRUS-TEST-FILE".to_vec()));
    let defender = FileDefender::new(policy);
    let result = defend(
        &defender,
        b"hello EICAR-STANDARD-ANTIVIRUS-TEST-FILE world".to_vec(),
        Some("note.txt"),
        DefenseContext::default(),
    )
    .expect("defend should succeed");
    assert_eq!(result.verdict, DefenseVerdict::Blocked);
    assert!(result.artifact.output_bytes.is_empty());
}

#[test]
fn blocks_by_extension_before_rebuild() {
    let defender = FileDefender::new(DefensePolicy::default());
    let result = defend(&defender, b"fake-binary".to_vec(), Some("run.exe"), DefenseContext::default());
    assert!(result.is_err());
}

#[test]
fn marks_high_entropy_other_files_as_blocked() {
    let defender = FileDefender::new(DefensePolicy::default());
    let result = defend(&defender, counting_bytes(), Some("blob.bin"), DefenseContext::default())
        .expect("defend should succeed");
    assert_eq!(result.verdict, DefenseVerdict::Blocked);
    assert!(result.alerts.iter().any(|a| a.code == "unsupported_file_kind"));
}

#[test]
fn generic_handler_reports_the_entropy_of_the_payload() {
    let defender = FileDefender::new(DefensePolicy::default());
    let result = defend(&defender, counting_bytes(), Some("blob.bin"), DefenseContext::default())
        .expect("defend should succeed");
    let alert = result.alerts.iter().find(|a| a.code == "unsupported_file_kind").expect("alert");
    assert!(alert.message.contains("Entropy: 8.000."));
}

#[test]
fn high_entropy_other_can_be_blocked_in_strict_other_mode() {
    let mut policy = DefensePolicy::default();
    policy.other = OtherPolicy { max_entropy_milli: 400, structured_probe_mode: ProbeFailureMode::Block };
    let defender = FileDefender::new(policy);
    let result = defend(&defender, counting_bytes(), Some("blob.bin"), DefenseContext::default())
        .expect("defend should succeed");
    assert_eq!(result.verdict, DefenseVerdict::Blocked);
}

#[test]
fn empty_other_payload_is_blocked() {
    let defender = FileDefender::new(DefensePolicy::default());
    let result = defend(&defender, Vec::new(), Some("blob.bin"), DefenseContext::default())
        .expect("defend should return a structured result");
    assert_eq!(result.verdict, DefenseVerdict::Blocked);
}

#[test]
fn blocks_mismatch_between_extension_and_mime() {
    let defender = FileDefender::new(DefensePolicy::default());
    let png_header = vec![137, 80, 78, 71, 13, 10, 26, 10, 0, 0, 0, 0];
    let result = defend(&defender, png_header, Some("movie.mp4"), DefenseContext::default());
    assert!(result.is_err());
}

#[test]
fn quarantine_on_decoder_failure_with_default_policy() {
    let defender = FileDefender::new(DefensePolicy::default());
    let result = defend(&defender, b"not-a-real-gif".to_vec(), Some("broken.gif"), DefenseContext::default())
        .expect("decoder failure should quarantine in default mode");
    assert_eq!(result.verdict, DefenseVerdict::Blocked);
    assert!(result.alerts.iter().any(|a| a.code == "decoder_failure_quarantine"
        && a.message == "Decoder failed for Gif, quarantined as binary."));
}

#[test]
fn profile_modes_are_set_as_expected() {
    let staging = DefensePolicy::staging_profile();
    assert_eq!(staging.unknown_kind_mode, UnknownKindMode::Warn);
    assert_eq!(staging.decoder_failure_mode, DecoderFailureMode::QuarantineAsOther);
    assert_eq!(staging.signature_scan_mode, SignatureScanMode::InputAndOutput);
    assert_eq!(staging.audio.keep_original_mode, AudioKeepOriginalMode::FallbackToMp3);
    assert_eq!(staging.audio.probe_failure_mode, ProbeFailureMode::Warn);
    assert_eq!(staging.video.probe_failure_mode, ProbeFailureMode::Warn);
    assert_eq!(staging.other.structured_probe_mode, ProbeFailureMode::Warn);
    assert_eq!(staging.image.probe_failure_mode, ProbeFailureMode::Warn);
    assert_eq!(staging.gif.probe_failure_mode, ProbeFailureMode::Warn);
    assert!(!staging.block_on_unknown_output_mime);
    assert!(staging.enforce_output_mime_whitelist);
    assert_eq!(staging.output_mime_denylist.len(), 0);
    assert_eq!(staging.enforcement_mode, EnforcementMode::Enforce);

    let strict = DefensePolicy::strict_profile();
    assert_eq!(strict.unknown_kind_mode, UnknownKindMode::Block);
    assert_eq!(strict.decoder_failure_mode, DecoderFailureMode::Block);
    assert_eq!(strict.signature_scan_mode, SignatureScanMode::InputAndOutput);
    assert_eq!(strict.audio.keep_original_mode, AudioKeepOriginalMode::Block);
    assert_eq!(strict.audio.probe_failure_mode, ProbeFailureMode::Block);
    assert_eq!(strict.video.probe_failure_mode, ProbeFailureMode::Block);
    assert_eq!(strict.other.structured_probe_mode, ProbeFailureMode::Block);
    assert_eq!(strict.image.probe_failure_mode, ProbeFailureMode::Block);
    assert_eq!(strict.gif.probe_failure_mode, ProbeFailureMode::Block);
    assert!(strict.block_on_unknown_output_mime);
    assert!(strict.enforce_output_mime_whitelist);
    assert!(!strict.output_mime_denylist.is_empty());
    assert!(!strict.output_mime_whitelist.video.contains(&"video/raw".to_string()));
    assert_eq!(strict.enforcement_mode, EnforcementMode::Enforce);

    let paranoid = DefensePolicy::paranoid_profile();
    assert_eq!(paranoid.unknown_kind_mode, UnknownKindMode::Block);
    assert_eq!(paranoid.decoder_failure_mode, DecoderFailureMode::Block);
    assert_eq!(paranoid.signature_scan_mode, SignatureScanMode::InputAndOutput);
    assert_eq!(paranoid.audio.keep_original_mode, AudioKeepOriginalMode::Block);
    assert_eq!(paranoid.audio.probe_failure_mode, ProbeFailureMode::Block);
    assert_eq!(paranoid.video.probe_failure_mode, ProbeFailureMode::Block);
    assert_eq!(paranoid.other.structured_probe_mode, ProbeFailureMode::Block);
    assert_eq!(paranoid.image.probe_failure_mode, ProbeFailureMode::Block);
    assert_eq!(paranoid.gif.probe_failure_mode, ProbeFailureMode::Block);
    assert!(paranoid.block_on_unknown_output_mime);
    assert!(paranoid.enforce_output_mime_whitelist);
    assert!(!paranoid.output_mime_denylist.is_empty());
    assert!(!paranoid.output_mime_whitelist.image.contains(&"image/jpeg".to_string()));
    assert_eq!(paranoid.enforcement_mode, EnforcementMode::Enforce);
}

#[test]
fn pre_scan_can_block_before_decode() {
    let mut policy = DefensePolicy::default();
    policy.signature_rules.push(SignatureRule::anywhere("before-decode", b"BAD_MARKER".to_vec()));
    policy.block_on_pre_scan_match = true;
    let defender = FileDefender::new(policy);
    let result = defend(&defender, b"BAD_MARKER in payload".to_vec(), Some("asset.gif"), DefenseContext::default())
        .expect("pre-scan should return a result");
    assert_eq!(result.verdict, DefenseVerdict::Blocked);
    let last = result.stages.last().expect("stages");
    assert_eq!(last.stage, PipelineStage::OutputValidation);
    assert_eq!(last.status, PipelineStageStatus::Blocked);
    assert_eq!(last.detail, "blocked on input signature pre-scan");
    assert_eq!(result.diagnostics.parser_used, "pre_scan_blocked");
    assert_eq!(result.artifact.output_size, 0);
}

#[test]
fn output_expansion_limit_is_enforced() {
    let mut policy = DefensePolicy::default();
    policy.max_output_expansion_ratio_milli = 500;
    let defender = FileDefender::new(policy);
    let result = defend(&defender, CLEAN_GIF.to_vec(), Some("clean.gif"), DefenseContext::default());
    assert!(result.is_err());
}

#[test]
fn gif_frame_limit_fails_fast_without_partial_output() {
    let mut policy = DefensePolicy::default();
    policy.decoder_failure_mode = DecoderFailureMode::Block;
    policy.gif.max_frames = 0;
    let defender = FileDefender::new(policy);
    let result = defend(&defender, CLEAN_GIF.to_vec(), Some("clean.gif"), DefenseContext::default());
    assert!(result.is_err());
}

#[test]
fn image_pixel_limit_fails_fast_before_rebuild() {
    let mut policy = DefensePolicy::default();
    policy.decoder_failure_mode = DecoderFailureMode::Block;
    policy.image.max_pixels = 0;
    let defender = FileDefender::new(policy);
    let result = defend(&defender, TINY_PNG.to_vec(), Some("tiny.png"), DefenseContext::default());
    assert!(result.is_err());
}

#[test]
fn clean_png_is_reread_and_released() {
    let defender = FileDefender::new(DefensePolicy::default());
    let result = defend(&defender, png_fixture(2, 3), Some("tiny.png"), DefenseContext::default())
        .expect("a clean png is rebuilt");
    assert_eq!(result.verdict, DefenseVerdict::Clean, "{:?} {:?}", result.alerts, result.stages);
    assert_eq!(result.artifact.mime, "image/png");
    assert!(!result.artifact.output_bytes.is_empty());
    assert_eq!(result.artifact.output_size, result.artifact.output_bytes.len() as u64);
    assert_eq!(result.artifact.sha256.len(), 64);
    assert!(result.stages.iter().any(|s| s.stage == PipelineStage::OutputValidation
        && s.detail == "independent_read: image decoded completely, 2x3"));
}

#[test]
fn clean_gif_is_reread_frame_by_frame() {
    let defender = FileDefender::new(DefensePolicy::default());
    let result = defend(&defender, CLEAN_GIF.to_vec(), Some("clean.gif"), DefenseContext::default())
        .expect("a clean gif is rebuilt");
    assert!(result.stages.iter().any(|s| s.detail == "independent_read: all 1 animation frames decoded"));
    assert_ne!(result.verdict, DefenseVerdict::Blocked);
}

#[test]
fn structured_probe_for_other_can_block_invalid_pdf() {
    let mut policy = DefensePolicy::default();
    policy.unknown_kind_mode = UnknownKindMode::Warn;
    policy.other.structured_probe_mode = ProbeFailureMode::Block;
    let defender = FileDefender::new(policy);
    let result = defend(&defender, b"not_a_pdf".to_vec(), Some("report.pdf"), DefenseContext::default())
        .expect("structured probe block should return a structured result");
    assert_eq!(result.verdict, DefenseVerdict::Blocked);
    assert!(result.stages.iter().any(|value| value.stage == PipelineStage::OtherProbe));
}

#[test]
fn unknown_output_mime_can_be_blocked() {
    let mut policy = DefensePolicy::default();
    policy.block_on_unknown_output_mime = true;
    let defender = FileDefender::new(policy);
    let result = defend(
        &defender,
        b"plain-text-without-known-signature".to_vec(),
        Some("note.txt"),
        DefenseContext::default(),
    )
    .expect("should return a structured result");
    assert_eq!(result.verdict, DefenseVerdict::Blocked);
}

#[test]
fn output_mime_whitelist_can_block_declared_mime() {
    let mut policy = DefensePolicy::default();
    policy.output_mime_whitelist.other.clear();
    let defender = FileDefender::new(policy);
    let result = defend(&defender, b"abc".to_vec(), Some("blob.bin"), DefenseContext::default())
        .expect("should return a structured result");
    assert_eq!(result.verdict, DefenseVerdict::Blocked);
}

#[test]
fn output_mime_denylist_can_block_declared_mime() {
    let mut policy = DefensePolicy::default();
    policy.output_mime_denylist.push("application/octet-stream".to_string());
    let defender = FileDefender::new(policy);
    let result = defend(&defender, b"abc".to_vec(), Some("blob.bin"), DefenseContext::default())
        .expect("should return a structured result");
    assert_eq!(result.verdict, DefenseVerdict::Blocked);
}

#[test]
fn tenant_presets_map_to_expected_profiles() {
    assert_eq!(
        DefensePolicy::public_profile().unknown_kind_mode,
        DefensePolicy::staging_profile().unknown_kind_mode
    );
    assert_eq!(
        DefensePolicy::enterprise_profile().unknown_kind_mode,
        DefensePolicy::strict_profile().unknown_kind_mode
    );
    assert_eq!(
        DefensePolicy::high_risk_profile().unknown_kind_mode,
        DefensePolicy::paranoid_profile().unknown_kind_mode
    );
}

#[test]
fn blocks_double_extension_exe_png() {
    let defender = FileDefender::new(DefensePolicy::default());
    let result = defend(&defender, vec![0u8; 64], Some("invoice.exe.png"), DefenseContext::default())
        .expect("should return a result");
    assert_eq!(result.verdict, DefenseVerdict::Blocked);
}

#[test]
fn blocks_double_extension_bat_jpg() {
    let defender = FileDefender::new(DefensePolicy::default());
    let result = defend(&defender, vec![0u8; 64], Some("readme.bat.jpg"), DefenseContext::default())
        .expect("should return a result");
    assert_eq!(result.verdict, DefenseVerdict::Blocked);
}

#[test]
fn svg_classified_as_other_and_blocked() {
    let defender = FileDefender::new(DefensePolicy::default());
    let result = defend(
        &defender,
        b"<svg xmlns='http://www.w3.org/2000/svg'></svg>".to_vec(),
        Some("logo.svg"),
        DefenseContext::default(),
    );
    if let Ok(value) = result {
        assert_eq!(value.verdict, DefenseVerdict::Blocked);
    }
}

#[test]
fn output_executable_magic_blocked_even_without_output_kind_enforcement() {
    let mut policy = DefensePolicy::default();
    policy.enforce_output_kind_match = false;
    let defender = FileDefender::new(policy);
    let result = defend(&defender, b"\x7fELF\x02\x01\x01\x00".to_vec(), Some("binary.bin"), DefenseContext::default())
        .expect("should return a result");
    assert_eq!(result.verdict, DefenseVerdict::Blocked);
}

#[test]
fn blocked_extension_list_covers_common_threats() {
    let policy = DefensePolicy::default();
    let expected = &[
        "exe", "dll", "js", "bat", "cmd", "msi", "scr", "vbs", "ps1", "jar", "apk", "hta", "py", "sh", "php", "class",
        "dex", "wasm",
    ];
    for ext in expected {
        assert!(policy.blocked_extensions.contains(&ext.to_string()), "default policy should block .{ext}");
    }
}

#[test]
fn other_files_have_no_output_reader() {
    let policy = DefensePolicy::default();
    let read = read_candidate(FileKind::Other, b"abc", &policy, &DefenseContext::default());
    match read {
        OutputRead::Finished(Err(message)) => {
            assert_eq!(message, "No full output reader is implemented for this object type")
        },
        _ => panic!("other files must fail the read"),
    }
    assert!(matches!(
        read_candidate(FileKind::Audio, b"abc", &policy, &DefenseContext::default()),
        OutputRead::NeedsAudioReader
    ));
    assert!(matches!(
        read_candidate(FileKind::Video, b"abc", &policy, &DefenseContext::default()),
        OutputRead::NeedsVideoReader
    ));
}

#[test]
fn dry_run_reports_blocks_as_warnings_under_the_default_profile() {
    let mut policy = DefensePolicy::default().with_dry_run();
    policy.signature_rules.push(SignatureRule::anywhere("block-me", b"EICAR-STANDARD-ANTIVIRUS-TEST-FILE".to_vec()));
    let defender = FileDefender::new(policy);
    let result = defend(
        &defender,
        b"EICAR-STANDARD-ANTIVIRUS-TEST-FILE".to_vec(),
        Some("note.txt"),
        DefenseContext::default(),
    )
    .expect("dry-run should not hard block");
    assert_eq!(result.verdict, DefenseVerdict::Suspicious);
    assert!(result.alerts.iter().any(|value| value.message.contains("[dry-run")));
    assert!(result.stages.iter().all(|value| value.status != PipelineStageStatus::Blocked));
    assert!(result.artifact.output_bytes.is_empty());
}

#[test]
fn strict_profile_refuses_other_files_at_the_semantic_level() {
    let defender = FileDefender::new(DefensePolicy::strict_profile());
    let result = defend(&defender, b"hello".to_vec(), Some("file.abcxyz"), DefenseContext::default());
    assert!(matches!(result, Err(DefenderError::UnsupportedReconstructionLevel)));
}

#[test]
fn image_read_refuses_a_candidate_over_the_pixel_budget() {
    let mut policy = DefensePolicy::default();
    policy.image.max_pixels = 5;
    let read = read_candidate(FileKind::Image, &png_fixture(2, 3), &policy, &DefenseContext::default());
    match read {
        OutputRead::Finished(Err(message)) => {
            assert_eq!(message, "Output dimensions exceed the pixel budget: 2x3")
        },
        _ => panic!("the read must refuse the candidate"),
    }
}

#[test]
fn animation_read_refuses_a_gif_over_the_frame_budget() {
    let mut policy = DefensePolicy::default();
    policy.gif.max_frames = 0;
    let read = read_candidate(FileKind::Gif, &CLEAN_GIF, &policy, &DefenseContext::default());
    match read {
        OutputRead::Finished(Err(message)) => assert_eq!(message, "Output animation exceeds the frame budget"),
        _ => panic!("the read must refuse the candidate"),
    }
}

#[test]
fn cancelled_context_stops_the_read() {
    let policy = DefensePolicy::default();
    let token = mdo_cdr::CancellationToken::new();
    token.cancel();
    let context = DefenseContext { cancel: Some(token), ..DefenseContext::default() };
    let read = read_candidate(FileKind::Image, &png_fixture(2, 3), &policy, &context);
    match read {
        OutputRead::Finished(Err(message)) => assert_eq!(message, "Defense cancelled by caller"),
        _ => panic!("a cancelled read must fail"),
    }
}

fn wav(samples: usize) -> Vec<u8> {
    let payload_size = (samples * 2) as u32;
    let mut bytes = Vec::new();
    bytes.extend_from_slice(b"RIFF");
    bytes.extend_from_slice(&(36 + payload_size).to_le_bytes());
    bytes.extend_from_slice(b"WAVEfmt ");
    bytes.extend_from_slice(&16u32.to_le_bytes());
    bytes.extend_from_slice(&1u16.to_le_bytes());
    bytes.extend_from_slice(&1u16.to_le_bytes());
    bytes.extend_from_slice(&8_000u32.to_le_bytes());
    bytes.extend_from_slice(&16_000u32.to_le_bytes());
    bytes.extend_from_slice(&2u16.to_le_bytes());
    bytes.extend_from_slice(&16u16.to_le_bytes());
    bytes.extend_from_slice(b"data");
    bytes.extend_from_slice(&payload_size.to_le_bytes());
    bytes.resize(44 + payload_size as usize, 0);
    bytes
}

/// The stage and alert of reading a candidate, for kinds read here.
fn verify_output(
    kind: FileKind,
    bytes: &[u8],
    policy: &DefensePolicy,
    context: &DefenseContext,
) -> (mdo_cdr::PipelineStageReport, Option<mdo_cdr::DefenseAlert>) {
    match read_candidate(kind, bytes, policy, context) {
        OutputRead::Finished(read) => read_outcome(read),
        _ => panic!("this read needs an external media reader"),
    }
}

#[test]
fn gif_reader_checks_the_second_frame_payload() {
    let mut bytes = Vec::new();
    {
        let mut encoder = gif::Encoder::new(&mut bytes, 2, 2, &[0, 0, 0, 255, 255, 255]).unwrap();
        let frame = gif::Frame { width: 2, height: 2, delay: 5, buffer: vec![0, 1, 0, 1].into(), ..Default::default() };
        encoder.write_frame(&frame).unwrap();
        encoder.write_frame(&frame).unwrap();
    }
    assert!(verify_animation(true, &bytes, &DefensePolicy::default(), &DefenseContext::default()).is_ok());
    bytes.truncate(bytes.len() - 5);
    assert!(verify_animation(true, &bytes, &DefensePolicy::default(), &DefenseContext::default()).is_err());
}

#[test]
fn output_read_cannot_be_disabled_with_signature_policy_flags() {
    let policy = DefensePolicy { enforce_output_kind_match: false, ..Default::default() };
    let (stage, alert) = verify_output(FileKind::Image, b"\x89PNG\r\n\x1a\n", &policy, &DefenseContext::default());
    assert_eq!(stage.status, PipelineStageStatus::Blocked);
    assert_eq!(alert.unwrap().code, "output_read_failed");
}

#[test]
fn cancellation_prevents_output_read_success() {
    let cancel = mdo_cdr::CancellationToken::new();
    cancel.cancel();
    let context = DefenseContext { cancel: Some(cancel), ..Default::default() };
    let (stage, _) = verify_output(FileKind::Audio, &wav(80), &DefensePolicy::default(), &context);
    assert_eq!(stage.status, PipelineStageStatus::Blocked);
}

#[test]
fn a_successful_read_reports_its_detail_and_no_alert() {
    let (stage, alert) = read_outcome(Ok("image decoded completely, 2x3".to_string()));
    assert_eq!(stage.stage, PipelineStage::OutputValidation);
    assert_eq!(stage.status, PipelineStageStatus::Success);
    assert_eq!(stage.detail, "independent_read: image decoded completely, 2x3");
    assert!(alert.is_none());
    let (stage, alert) = read_outcome(Err("broken".to_string()));
    assert_eq!(stage.detail, "independent_read_failed: broken");
    let alert = alert.expect("a failed read blocks");
    assert_eq!(alert.message, "broken");
    assert_eq!(alert.severity, mdo_cdr::AlertSeverity::Blocking);
}

#[test]
fn limits_decide_cancellation_first_then_an_elapsed_timeout() {
    assert!(matches!(limits_outcome(true, Some(5), 1), Err(DefenderError::Cancelled)));
    assert!(matches!(limits_outcome(false, Some(5), 1), Err(DefenderError::Timeout)));
    assert!(limits_outcome(false, Some(1), 1).is_ok());
    assert!(limits_outcome(false, Some(5), 0).is_ok());
    assert!(limits_outcome(false, None, 1).is_ok());
    assert!(DefenseContext::default().check_limits().is_ok());
}

#[test]
fn blocked_extension_error_names_the_lowered_extension() {
    let defender = FileDefender::new(DefensePolicy::default());
    let result = defend(&defender, b"fake-binary".to_vec(), Some("RUN.EXE"), DefenseContext::default());
    match result {
        Err(DefenderError::BlockedExtension { extension }) => assert_eq!(extension, "exe"),
        _ => panic!("the extension must be refused"),
    }
}
