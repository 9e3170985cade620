use mdo_cdr::handlers::audio::{canonical_audio_mime, has_executable_magic, is_audio_mime, resolve_transcode_plan};
use mdo_cdr::handlers::video::looks_like_mp4_container;
use mdo_cdr::policy::AudioOutputCodec;

#[test]
fn keep_original_uses_copy_for_mp3() {
    let (plan, kept) = resolve_transcode_plan(AudioOutputCodec::KeepOriginalWhenPossible, Some("audio/mpeg"));
    assert!(kept);
    assert_eq!(plan.codec_arg, "copy");
    assert_eq!(plan.suffix, ".mp3");
}

#[test]
fn keep_original_falls_back_for_unknown() {
    let (plan, kept) =
        resolve_transcode_plan(AudioOutputCodec::KeepOriginalWhenPossible, Some("application/octet-stream"));
    assert!(!kept);
    assert_eq!(plan.codec_arg, "libmp3lame");
    assert_eq!(plan.suffix, ".mp3");
}

#[test]
fn canonicalizes_audio_mime_aliases() {
    assert_eq!(canonical_audio_mime("audio/ogg"), "audio/opus");
    assert_eq!(canonical_audio_mime("audio/opus"), "audio/opus");
    assert_eq!(canonical_audio_mime("audio/x-wav"), "audio/wav");
}

#[test]
fn recognizes_allowed_audio_mimes() {
    assert!(is_audio_mime("audio/mpeg"));
    assert!(is_audio_mime("audio/x-wav"));
    assert!(!is_audio_mime("application/octet-stream"));
}

#[test]
fn audio_recognizes_executable_magic() {
    let bytes = vec![0x7F, 0x45, 0x4C, 0x46];
    assert!(has_executable_magic(&bytes));
}

#[test]
fn recognizes_mp4_ftyp_signature() {
    let mut bytes = vec![0, 0, 0, 24];
    bytes.extend_from_slice(b"ftyp");
    bytes.extend_from_slice(b"isom");
    assert!(looks_like_mp4_container(&bytes));
}

#[test]
fn rejects_non_mp4_signature() {
    let bytes = b"NOT_A_VALID_MP4_HEADER".to_vec();
    assert!(!looks_like_mp4_container(&bytes));
}

#[test]
fn video_recognizes_executable_magic() {
    let bytes = vec![0x4D, 0x5A, 0x90, 0x00];
    assert!(has_executable_magic(&bytes));
}

#[test]
fn explicit_codec_ignores_input_mime() {
    let (plan, kept) = resolve_transcode_plan(AudioOutputCodec::Flac, Some("audio/mpeg"));
    assert!(!kept);
    assert_eq!(plan.codec_arg, "flac");
    assert_eq!(plan.mime, "audio/flac");
    assert_eq!(plan.suffix, ".flac");
}

#[test]
fn plain_text_has_no_executable_magic() {
    assert!(!has_executable_magic(b"hello"));
    assert!(!has_executable_magic(&[]));
}
