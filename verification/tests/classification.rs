use mdo_cdr::FileKind;

#[test]
fn classify_svg_as_other() {
    assert_eq!(FileKind::classify(b"<svg></svg>", Some("icon.svg"), Some("image/svg+xml")), FileKind::Other);
}

#[test]
fn classifies_mp3_as_audio_kind() {
    let from_name = FileKind::from_name(Some("track.mp3"));
    assert_eq!(from_name, Some(FileKind::Audio));

    let from_mime = FileKind::from_mime(Some("audio/mpeg"));
    assert_eq!(from_mime, Some(FileKind::Audio));
}

#[test]
fn classify_detects_apng_extension() {
    assert_eq!(FileKind::from_name(Some("sticker.apng")), Some(FileKind::AnimatedImage));
}

#[test]
fn classify_normal_png_stays_image() {
    let png_sig: Vec<u8> = vec![
        0x89, b'P', b'N', b'G', b'\r', b'\n', 0x1a, b'\n', 0, 0, 0, 13, b'I', b'H', b'D', b'R', 0, 0, 0, 1, 0, 0, 0,
        1, 8, 2, 0, 0, 0, 0x90, 0x77, 0x53, 0xDE, 0, 0, 0, 0, b'I', b'E', b'N', b'D', 0xAE, 0x42, 0x60, 0x82,
    ];
    let kind = FileKind::classify(&png_sig, Some("photo.png"), Some("image/png"));
    assert_eq!(kind, FileKind::Image);
}

#[test]
fn double_extension_is_forced_to_other() {
    assert_eq!(FileKind::classify(b"MZ", Some("holiday.exe.jpg"), Some("image/png")), FileKind::Other);
}

#[test]
fn mime_wins_over_extension() {
    assert_eq!(FileKind::from_name_and_mime(Some("clip.mp4"), Some("image/png")), FileKind::Image);
    assert_eq!(FileKind::from_name_and_mime(Some("clip.mp4"), None), FileKind::Video);
    assert_eq!(FileKind::from_name_and_mime(None, None), FileKind::Other);
}
