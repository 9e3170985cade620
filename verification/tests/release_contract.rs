use std::io::Cursor;
use std::time::Instant;

use mdo_cdr::pipeline::{Preparation, RebuildStart};
use mdo_cdr::policy::{DefensePolicy, SignatureScanMode};
use mdo_cdr::validation::{read_candidate, OutputRead};
use mdo_cdr::{
    DefendResult, DefenderError, DefenseContext, DefenseVerdict, FileDefender, PipelineStage, PipelineStageStatus,
    SignatureRule,
};

fn entropy_label(bytes: &[u8]) -> String {
    let mut frequencies = [0usize; 256];
    for byte in bytes {
        frequencies[*byte as usize] += 1;
    }
    let length = bytes.len() as f64;
    let mut entropy = 0.0f64;
    for frequency in frequencies {
        if frequency > 0 {
            let probability = frequency as f64 / length;
            entropy -= probability * probability.log2();
        }
    }
    format!("{entropy:.3}")
}

/// One run of the pipeline for files that need no external runtime.
fn defend(
    defender: &FileDefender,
    input: Vec<u8>,
    file_name: Option<&str>,
    context: DefenseContext,
) -> Result<DefendResult, DefenderError> {
    let started = Instant::now();
    let original_size = input.len() as u64;
    let prepared = match defender.begin_defense(&input, file_name, &context, &started)? {
        Preparation::Blocked(result) => return Ok(result),
        Preparation::Ready(prepared) => prepared,
    };
    let mut rebuild_context = context.clone();
    rebuild_context.started_at = Some(Instant::now());
    rebuild_context.timeout_ms = defender.policy().max_handler_duration_ms;
    let entropy = entropy_label(&input);
    let kind = prepared.file_kind;
    let rebuilt = match defender.start_rebuild(kind, input.clone(), rebuild_context.clone(), &entropy) {
        RebuildStart::Done(rebuilt) => rebuilt,
        _ => panic!("this run needs an external media runtime"),
    };
    let artifact = defender.recover_rebuild(kind, rebuilt, input, rebuild_context.clone(), &entropy)?;
    let reviewed = defender.review_candidate(prepared, file_name, artifact, original_size)?;
    let read = match read_candidate(reviewed.file_kind, &reviewed.output_bytes, defender.policy(), &rebuild_context) {
        OutputRead::Finished(read) => read,
        _ => panic!("this run needs an external media reader"),
    };
    Ok(defender.finish_defense(reviewed, read, original_size, &context, &started))
}

fn png() -> Vec<u8> {
    let mut bytes = Vec::new();
    image::DynamicImage::new_rgb8(3, 2).write_to(&mut Cursor::new(&mut bytes), image::ImageFormat::Png).unwrap();
    bytes
}

fn gif(delay: u16) -> Vec<u8> {
    let mut bytes = Vec::new();
    {
        let mut encoder = gif::Encoder::new(&mut bytes, 1, 1, &[0, 0, 0, 255, 255, 255]).unwrap();
        let frame = gif::Frame { width: 1, height: 1, delay, buffer: vec![0].into(), ..Default::default() };
        encoder.write_frame(&frame).unwrap();
    }
    bytes
}

/// A zlib stream holding `data` in one stored block.
fn zlib_stored(data: &[u8]) -> Vec<u8> {
    let mut out = vec![0x78, 0x01, 0x01];
    let len = data.len() as u16;
    out.extend_from_slice(&len.to_le_bytes());
    out.extend_from_slice(&(!len).to_le_bytes());
    out.extend_from_slice(data);
    let (mut a, mut b) = (1u32, 0u32);
    for byte in data {
        a = (a + u32::from(*byte)) % 65521;
        b = (b + a) % 65521;
    }
    out.extend_from_slice(&((b << 16) | a).to_be_bytes());
    out
}

fn apng(valid_pixels: bool) -> Vec<u8> {
    fn chunk(bytes: &mut Vec<u8>, kind: &[u8; 4], data: &[u8]) {
        bytes.extend_from_slice(&(data.len() as u32).to_be_bytes());
        bytes.extend_from_slice(kind);
        bytes.extend_from_slice(data);
        let mut crc = 0xffff_ffffu32;
        for byte in kind.iter().chain(data.iter()) {
            crc ^= u32::from(*byte);
            for _ in 0..8 {
                crc = (crc >> 1) ^ (0xedb8_8320 & (0u32.wrapping_sub(crc & 1)));
            }
        }
        bytes.extend_from_slice(&(!crc).to_be_bytes());
    }
    let mut bytes = b"\x89PNG\r\n\x1a\n".to_vec();
    chunk(&mut bytes, b"IHDR", &[0, 0, 0, 1, 0, 0, 0, 1, 8, 6, 0, 0, 0]);
    chunk(&mut bytes, b"acTL", &[0, 0, 0, 1, 0, 0, 0, 0]);
    let mut frame = vec![0; 26];
    frame[7] = 1;
    frame[11] = 1;
    frame[21] = 1;
    frame[23] = 10;
    chunk(&mut bytes, b"fcTL", &frame);
    let payload = if valid_pixels { zlib_stored(&[0, 255, 0, 0, 255]) } else { b"invalid compressed pixels".to_vec() };
    chunk(&mut bytes, b"IDAT", &payload);
    chunk(&mut bytes, b"IEND", &[]);
    bytes
}

#[test]
fn clean_image_is_reread_then_released() {
    let defender = FileDefender::new(DefensePolicy::default());
    let result = defend(
        &defender,
        png(),
        Some("image.png"),
        DefenseContext { declared_mime: Some("Image/PNG; charset=binary".into()), ..Default::default() },
    )
    .unwrap();
    assert!(result.can_release());
    assert!(image::load_from_memory(&result.artifact.output_bytes).is_ok());
    assert!(result.stages.iter().any(|stage| stage.stage == PipelineStage::OutputValidation
        && stage.status == PipelineStageStatus::Success
        && stage.detail.starts_with("independent_read:")));
}

#[test]
fn input_signature_block_never_returns_original_bytes() {
    let bytes = b"#!/bin/sh\necho secret".to_vec();
    let defender = FileDefender::new(DefensePolicy::default());
    let result = defend(&defender, bytes, Some("note.txt"), DefenseContext::default()).unwrap();
    assert_eq!(result.verdict, DefenseVerdict::Blocked);
    assert!(!result.can_release());
    assert!(result.artifact.output_bytes.is_empty());
    assert_eq!(result.diagnostics.parser_used, "pre_scan_blocked");
}

#[test]
fn output_signature_block_never_returns_candidate_bytes() {
    let mut policy = DefensePolicy { signature_scan_mode: SignatureScanMode::OutputOnly, ..DefensePolicy::default() };
    policy.signature_rules.push(SignatureRule::anywhere("PNG canary", b"IHDR".to_vec()));
    let defender = FileDefender::new(policy);
    let result = defend(&defender, png(), Some("image.png"), DefenseContext::default()).unwrap();
    assert_eq!(result.verdict, DefenseVerdict::Blocked);
    assert!(result.artifact.output_bytes.is_empty());
    assert!(result.artifact.output_size > 0);
}

#[test]
fn suspicious_result_never_returns_candidate_bytes() {
    let defender = FileDefender::new(DefensePolicy::default());
    let result = defend(&defender, gif(0), Some("animation.gif"), DefenseContext::default()).unwrap();
    assert_eq!(result.verdict, DefenseVerdict::Suspicious);
    assert!(!result.can_release());
    assert!(result.artifact.output_bytes.is_empty());
}

#[test]
fn png_disguised_as_jpeg_is_rejected_even_within_the_image_family() {
    let defender = FileDefender::new(DefensePolicy::default());
    let result = defend(&defender, png(), Some("photo.jpg"), DefenseContext::default());
    assert!(matches!(result, Err(DefenderError::FileTypeMismatch)));
}

#[test]
fn false_declared_mime_is_rejected() {
    let defender = FileDefender::new(DefensePolicy::default());
    let result = defend(
        &defender,
        png(),
        Some("photo.png"),
        DefenseContext { declared_mime: Some("image/jpeg".into()), ..Default::default() },
    );
    assert!(matches!(result, Err(DefenderError::FileTypeMismatch)));
}

#[test]
fn valid_apng_can_pass_an_explicit_structural_profile_after_all_frames_are_read() {
    let mut policy = DefensePolicy::default();
    policy.output_mime_whitelist.image.push("image/apng".into());
    let defender = FileDefender::new(policy);
    let result = defend(
        &defender,
        apng(true),
        Some("animation.apng"),
        DefenseContext { declared_mime: Some("image/apng".into()), ..Default::default() },
    )
    .unwrap();
    assert!(result.can_release(), "{:?}", result.alerts);
    assert!(result.stages.iter().any(|stage| stage.detail.contains("all 1 animation frames decoded")));
}

#[test]
fn valid_apng_chunks_with_invalid_pixels_fail_the_separate_output_reader() {
    let mut policy = DefensePolicy::default();
    policy.output_mime_whitelist.image.push("image/apng".into());
    let defender = FileDefender::new(policy);
    let result = defend(&defender, apng(false), Some("animation.apng"), DefenseContext::default()).unwrap();
    assert_eq!(result.verdict, DefenseVerdict::Blocked);
    assert!(result.alerts.iter().any(|alert| alert.code == "output_read_failed"));
    assert!(result.artifact.output_bytes.is_empty());
}

#[test]
fn dissertation_profile_does_not_downgrade_animated_images_to_structural_rebuild() {
    let defender = FileDefender::new(DefensePolicy::dissertation_profile());
    let result = defend(&defender, apng(true), Some("animation.apng"), DefenseContext::default());
    assert!(matches!(result, Err(DefenderError::UnsupportedReconstructionLevel)));
}

#[test]
fn permissive_mismatch_policy_still_withholds_release() {
    let policy = DefensePolicy { block_kind_mismatch: false, ..Default::default() };
    let defender = FileDefender::new(policy);
    let result = defend(&defender, png(), Some("photo.jpg"), DefenseContext::default()).unwrap();
    assert_eq!(result.verdict, DefenseVerdict::Suspicious);
    assert!(!result.can_release());
    assert!(result.artifact.output_bytes.is_empty());
}
