use mdo_cdr::handlers::animated_image::{png_crc32, AnimatedImageHandler};
use mdo_cdr::policy::AnimatedImagePolicy;
use mdo_cdr::{AlertSeverity, DefenderError, DefenseContext};

const PNG_SIGNATURE: [u8; 8] = [0x89, b'P', b'N', b'G', b'\r', b'\n', 0x1a, b'\n'];

fn write_chunk(out: &mut Vec<u8>, kind: &[u8; 4], data: &[u8]) {
    out.extend_from_slice(&(data.len() as u32).to_be_bytes());
    out.extend_from_slice(kind);
    out.extend_from_slice(data);
    let mut crc_bytes = Vec::with_capacity(4 + data.len());
    crc_bytes.extend_from_slice(kind);
    crc_bytes.extend_from_slice(data);
    out.extend_from_slice(&png_crc32(&crc_bytes).to_be_bytes());
}

fn minimal_png_with_chunks(extra: &[(&[u8; 4], &[u8])]) -> Vec<u8> {
    let mut out = Vec::new();
    out.extend_from_slice(&PNG_SIGNATURE);
    let ihdr_data: [u8; 13] = [0, 0, 0, 1, 0, 0, 0, 1, 8, 2, 0, 0, 0];
    write_chunk(&mut out, b"IHDR", &ihdr_data);
    for (kind, data) in extra {
        write_chunk(&mut out, kind, data);
    }
    write_chunk(&mut out, b"IEND", &[]);
    out
}

#[test]
fn crc_matches_known_reference_zero_byte_input() {
    assert_eq!(png_crc32(&[]), 0);
}

#[test]
fn png_crc_of_reference_string() {
    // The standard check value of CRC-32/ISO-HDLC.
    assert_eq!(png_crc32(b"123456789"), 0xCBF4_3926);
    assert_eq!(png_crc32(b"IEND"), 0xAE42_6082);
}

#[test]
fn rebuild_strips_text_chunks() {
    let input = minimal_png_with_chunks(&[(b"tEXt", b"Comment\0evil")]);
    let handler = AnimatedImageHandler::new(AnimatedImagePolicy::default());
    let result = handler.rebuild(input.clone(), DefenseContext::default()).expect("rebuild succeeds");
    let output_has_text = result.output_bytes.windows(4).any(|w| w == b"tEXt");
    assert!(!output_has_text);
    assert!(result.alerts.iter().any(|a| a.code == "apng_metadata_stripped"));
}

#[test]
fn rebuild_reports_what_it_stripped() {
    let input = minimal_png_with_chunks(&[(b"tEXt", b"Comment\0evil")]);
    let handler = AnimatedImageHandler::new(AnimatedImagePolicy::default());
    let result = handler.rebuild(input.clone(), DefenseContext::default()).unwrap();
    assert_eq!(result.alerts.len(), 1);
    assert_eq!(result.alerts[0].message, "Stripped 1 non-critical PNG chunk(s), 24 bytes.");
    assert_eq!(result.alerts[0].severity, AlertSeverity::Info);
    assert_eq!(result.mime, "image/png");
    assert_eq!(result.stages.len(), 1);
    assert_eq!(result.stages[0].detail, "animated_image remux frames=static chunks_kept=2 chunks_stripped=1");
    assert_eq!(result.output_bytes.len(), input.len() - 24);
}

#[test]
fn rebuild_keeps_idat_and_iend() {
    let input = minimal_png_with_chunks(&[(b"IDAT", b"dummy")]);
    let handler = AnimatedImageHandler::new(AnimatedImagePolicy::default());
    let result = handler.rebuild(input, DefenseContext::default()).expect("rebuild succeeds");
    assert!(result.output_bytes.windows(4).any(|w| w == b"IDAT"), "IDAT must survive");
    assert!(result.output_bytes.windows(4).any(|w| w == b"IEND"), "IEND must survive");
}

#[test]
fn rebuild_detects_corrupted_crc() {
    let mut input = minimal_png_with_chunks(&[(b"tEXt", b"hello")]);
    let offset = input.windows(5).position(|w| w == b"hello").unwrap();
    input[offset] = b'H';
    let handler = AnimatedImageHandler::new(AnimatedImagePolicy::default());
    let result = handler.rebuild(input, DefenseContext::default());
    assert!(matches!(result, Err(DefenderError::AnimatedImage(_))));
}

#[test]
fn rebuild_rejects_bad_signature() {
    let handler = AnimatedImageHandler::new(AnimatedImagePolicy::default());
    let result = handler.rebuild(vec![0u8; 32], DefenseContext::default());
    assert!(matches!(result, Err(DefenderError::AnimatedImage(_))));
}

#[test]
fn rebuild_enforces_max_side() {
    let policy = AnimatedImagePolicy { max_side: 1, ..AnimatedImagePolicy::default() };
    let input = minimal_png_with_chunks(&[]);
    let handler = AnimatedImageHandler::new(policy);
    assert!(handler.rebuild(input, DefenseContext::default()).is_ok());
}

#[test]
fn rebuild_rejects_side_above_limit() {
    let mut out = Vec::new();
    out.extend_from_slice(&PNG_SIGNATURE);
    let ihdr_data: [u8; 13] = [0, 0, 0, 2, 0, 0, 0, 1, 8, 2, 0, 0, 0];
    write_chunk(&mut out, b"IHDR", &ihdr_data);
    write_chunk(&mut out, b"IEND", &[]);
    let policy = AnimatedImagePolicy { max_side: 1, ..AnimatedImagePolicy::default() };
    let handler = AnimatedImageHandler::new(policy);
    assert!(matches!(handler.rebuild(out, DefenseContext::default()), Err(DefenderError::AnimatedImage(_))));
}

#[test]
fn rebuild_detects_apng_via_actl() {
    let actl: [u8; 8] = [0, 0, 0, 2, 0, 0, 0, 0];
    let input = minimal_png_with_chunks(&[(b"acTL", &actl)]);
    let handler = AnimatedImageHandler::new(AnimatedImagePolicy::default());
    let result = handler.rebuild(input, DefenseContext::default()).expect("rebuild succeeds");
    assert_eq!(result.mime, "image/apng");
    assert_eq!(result.stages[0].detail, "animated_image remux frames=2 chunks_kept=3 chunks_stripped=0");
    assert!(result.alerts.is_empty());
}

#[test]
fn rebuild_blocks_frame_count_bomb() {
    let policy = AnimatedImagePolicy { max_frames: 5, ..AnimatedImagePolicy::default() };
    let actl: [u8; 8] = [0, 0, 0, 100, 0, 0, 0, 0];
    let input = minimal_png_with_chunks(&[(b"acTL", &actl)]);
    let handler = AnimatedImageHandler::new(policy);
    let result = handler.rebuild(input, DefenseContext::default());
    assert!(matches!(result, Err(DefenderError::AnimatedImage(_))));
}

#[test]
fn rebuild_rejects_zero_frames_and_bad_palette() {
    let handler = AnimatedImageHandler::new(AnimatedImagePolicy::default());
    let zero = minimal_png_with_chunks(&[(b"acTL", &[0u8; 8])]);
    assert!(matches!(handler.rebuild(zero, DefenseContext::default()), Err(DefenderError::AnimatedImage(_))));
    let plte = minimal_png_with_chunks(&[(b"PLTE", &[1, 2, 3, 4])]);
    assert!(matches!(handler.rebuild(plte, DefenseContext::default()), Err(DefenderError::AnimatedImage(_))));
}

#[test]
fn rebuild_requires_iend() {
    let mut out = Vec::new();
    out.extend_from_slice(&PNG_SIGNATURE);
    let ihdr_data: [u8; 13] = [0, 0, 0, 1, 0, 0, 0, 1, 8, 2, 0, 0, 0];
    write_chunk(&mut out, b"IHDR", &ihdr_data);
    let handler = AnimatedImageHandler::new(AnimatedImagePolicy::default());
    assert!(matches!(handler.rebuild(out, DefenseContext::default()), Err(DefenderError::AnimatedImage(_))));
}

fn animated_image_error(handler: &AnimatedImageHandler, input: Vec<u8>) -> String {
    match handler.rebuild(input, DefenseContext::default()) {
        Err(DefenderError::AnimatedImage(m)) => m,
        other => panic!("expected an animated image error, got ok={}", other.is_ok()),
    }
}

#[test]
fn rebuild_errors_say_which_check_failed() {
    let handler = AnimatedImageHandler::new(AnimatedImagePolicy::default());
    assert_eq!(animated_image_error(&handler, vec![0u8; 32]), "input is not a PNG (signature mismatch)");

    let mut corrupt = minimal_png_with_chunks(&[(b"tEXt", b"hello")]);
    let at = corrupt.windows(5).position(|w| w == b"hello").unwrap();
    corrupt[at] = b'H';
    assert_eq!(animated_image_error(&handler, corrupt), "CRC mismatch on chunk `tEXt`");

    let plte = minimal_png_with_chunks(&[(b"PLTE", &[1, 2, 3, 4])]);
    assert_eq!(animated_image_error(&handler, plte), "PLTE chunk length 4 is not divisible by 3");

    let zero = minimal_png_with_chunks(&[(b"acTL", &[0u8; 8])]);
    assert_eq!(animated_image_error(&handler, zero), "acTL declares zero frames");

    let mut no_iend = Vec::new();
    no_iend.extend_from_slice(&PNG_SIGNATURE);
    write_chunk(&mut no_iend, b"IHDR", &[0, 0, 0, 1, 0, 0, 0, 1, 8, 2, 0, 0, 0]);
    assert_eq!(animated_image_error(&handler, no_iend), "truncated chunk header");

    let mut wide = Vec::new();
    wide.extend_from_slice(&PNG_SIGNATURE);
    write_chunk(&mut wide, b"IHDR", &[0, 0, 0, 2, 0, 0, 0, 1, 8, 2, 0, 0, 0]);
    write_chunk(&mut wide, b"IEND", &[]);
    let narrow = AnimatedImageHandler::new(AnimatedImagePolicy { max_side: 1, ..AnimatedImagePolicy::default() });
    assert_eq!(animated_image_error(&narrow, wide), "IHDR dimension exceeds max_side: width=2 height=1 max=1");

    let few = AnimatedImageHandler::new(AnimatedImagePolicy { max_frames: 5, ..AnimatedImagePolicy::default() });
    let bomb = minimal_png_with_chunks(&[(b"acTL", &[0, 0, 0, 100, 0, 0, 0, 0])]);
    assert_eq!(animated_image_error(&few, bomb), "frame count 100 exceeds max_frames 5");
}
