use mdo_cdr::handlers::mp4_native::try_sanitize_mp4;
use mdo_cdr::handlers::webm_native::{read_vint_size, try_sanitize_webm, vint_length, write_vint_size};

// ── WebM ──

fn make_ebml_element(id_bytes: &[u8], data: &[u8]) -> Vec<u8> {
    let mut elem = Vec::new();
    elem.extend_from_slice(id_bytes);
    let size = data.len() as u64;
    if size < 0x7F {
        elem.push(0x80 | size as u8);
    } else if size < 0x3FFF {
        elem.push(0x40 | ((size >> 8) & 0x3F) as u8);
        elem.push((size & 0xFF) as u8);
    } else {
        panic!("test helper only supports small elements");
    }
    elem.extend_from_slice(data);
    elem
}

fn make_webm() -> Vec<u8> {
    let mut file = Vec::new();
    file.extend_from_slice(&make_ebml_element(&[0x1A, 0x45, 0xDF, 0xA3], &[0x42, 0x86, 0x81, 0x01]));
    let mut segment_data = Vec::new();
    segment_data.extend_from_slice(&make_ebml_element(&[0x15, 0x49, 0xA9, 0x66], b"duration-info"));
    segment_data.extend_from_slice(&make_ebml_element(&[0x16, 0x54, 0xAE, 0x6B], b"track-config"));
    segment_data.extend_from_slice(&make_ebml_element(&[0x12, 0x54, 0xC3, 0x67], b"ARTIST=Evil"));
    segment_data.extend_from_slice(&make_ebml_element(&[0x1F, 0x43, 0xB6, 0x75], b"video-audio-frames"));
    segment_data.extend_from_slice(&make_ebml_element(&[0x19, 0x41, 0xA4, 0x69], b"attached-thumbnail.jpg"));
    file.extend_from_slice(&make_ebml_element(&[0x18, 0x53, 0x80, 0x67], &segment_data));
    file
}

#[test]
fn strips_tags_and_attachments() {
    let input = make_webm();
    let result = try_sanitize_webm(&input).unwrap().unwrap();
    assert_eq!(result.stripped_count, 2);
    assert!(result.stripped_bytes > 0);
    let s = String::from_utf8_lossy(&result.output_bytes);
    assert!(!s.contains("Evil"), "Tags should be stripped");
    assert!(!s.contains("thumbnail"), "Attachments should be stripped");
}

#[test]
fn preserves_cluster_data() {
    let input = make_webm();
    let result = try_sanitize_webm(&input).unwrap().unwrap();
    let s = String::from_utf8_lossy(&result.output_bytes);
    assert!(s.contains("video-audio-frames"), "Cluster data must survive");
    assert!(s.contains("track-config"), "Tracks must survive");
    assert!(s.contains("duration-info"), "Info must survive");
}

#[test]
fn rejects_non_ebml() {
    assert!(try_sanitize_webm(b"not a webm file at all").is_none());
}

#[test]
fn handles_empty_segment() {
    let mut file = Vec::new();
    file.extend_from_slice(&make_ebml_element(&[0x1A, 0x45, 0xDF, 0xA3], &[0x42, 0x86, 0x81, 0x01]));
    file.extend_from_slice(&make_ebml_element(&[0x18, 0x53, 0x80, 0x67], &[]));
    let result = try_sanitize_webm(&file).unwrap().unwrap();
    assert_eq!(result.stripped_count, 0);
}

#[test]
fn vint_length_correctness() {
    assert_eq!(vint_length(0x80).unwrap(), 1);
    assert_eq!(vint_length(0xFF).unwrap(), 1);
    assert_eq!(vint_length(0x40).unwrap(), 2);
    assert_eq!(vint_length(0x20).unwrap(), 3);
    assert_eq!(vint_length(0x10).unwrap(), 4);
    assert_eq!(vint_length(0x08).unwrap(), 5);
    assert_eq!(vint_length(0x04).unwrap(), 6);
    assert_eq!(vint_length(0x02).unwrap(), 7);
    assert_eq!(vint_length(0x01).unwrap(), 8);
    assert!(vint_length(0x00).is_err());
}

#[test]
fn webm_segment_size_is_rewritten() {
    let input = make_webm();
    let result = try_sanitize_webm(&input).unwrap().unwrap();
    // EBML header (4 + 1 + 4) then the Segment ID and its 1-byte size.
    let seg = &result.output_bytes[9..];
    assert_eq!(&seg[..4], &[0x18, 0x53, 0x80, 0x67]);
    let kept = seg.len() - 5;
    assert_eq!(seg[4], 0x80 | kept as u8);
    let elems = 4 + 1;
    assert_eq!(result.stripped_bytes, (elems + 11 + elems + 22) as u64);
}

#[test]
fn webm_child_beyond_segment_is_an_error() {
    let mut file = Vec::new();
    file.extend_from_slice(&make_ebml_element(&[0x1A, 0x45, 0xDF, 0xA3], &[0x42, 0x86, 0x81, 0x01]));
    // Segment of 6 bytes whose child claims 100.
    file.extend_from_slice(&[0x18, 0x53, 0x80, 0x67, 0x86, 0xEC, 0xE4, 0, 0, 0, 0]);
    assert!(matches!(try_sanitize_webm(&file), Some(Err(mdo_cdr::DefenderError::Video(_)))));
}

#[test]
fn webm_errors_name_the_element_and_its_offset() {
    let mut file = Vec::new();
    file.extend_from_slice(&make_ebml_element(&[0x1A, 0x45, 0xDF, 0xA3], &[0x42, 0x86, 0x81, 0x01]));
    file.extend_from_slice(&[0x18, 0x53, 0x80, 0x67, 0x86, 0xEC, 0xE4, 0, 0, 0, 0]);
    match try_sanitize_webm(&file) {
        Some(Err(mdo_cdr::DefenderError::Video(m))) => {
            assert_eq!(m, "WebM element 0xEC at offset 14 extends past Segment boundary")
        },
        other => panic!("expected an error, got {:?}", other.map(|r| r.is_ok())),
    }

    let mut overrun = Vec::new();
    overrun.extend_from_slice(&make_ebml_element(&[0x1A, 0x45, 0xDF, 0xA3], &[0x42, 0x86, 0x81, 0x01]));
    overrun.extend_from_slice(&[0x18, 0x53, 0x80, 0x67, 0x90, 0xEC, 0x81, 0]);
    match try_sanitize_webm(&overrun) {
        Some(Err(mdo_cdr::DefenderError::Video(m))) => assert_eq!(m, "WebM Segment extends past end of file"),
        other => panic!("expected an error, got {:?}", other.map(|r| r.is_ok())),
    }

    let mut zero = Vec::new();
    zero.extend_from_slice(&make_ebml_element(&[0x1A, 0x45, 0xDF, 0xA3], &[0x42, 0x86, 0x81, 0x01]));
    zero.extend_from_slice(&[0x00, 0x81, 0x00]);
    match try_sanitize_webm(&zero) {
        Some(Err(mdo_cdr::DefenderError::Video(m))) => assert_eq!(m, "EBML VINT starts with 0x00 (invalid)"),
        other => panic!("expected an error, got {:?}", other.map(|r| r.is_ok())),
    }
}

#[test]
fn vint_size_round_trip_and_unknown_marker() {
    let mut out = Vec::new();
    write_vint_size(&mut out, 300, 2);
    assert_eq!(out, vec![0x41, 0x2C]);
    assert_eq!(read_vint_size(&out, 0).unwrap(), (300, 2));
    assert_eq!(read_vint_size(&[0xFF], 0).unwrap(), (u64::MAX, 1));
    assert_eq!(read_vint_size(&[0x81], 0).unwrap(), (1, 1));
    assert!(read_vint_size(&[0x40], 0).is_err());
}

// ── MP4 ──

fn make_atom(fourcc: &[u8; 4], payload: &[u8]) -> Vec<u8> {
    let size = (8 + payload.len()) as u32;
    let mut atom = Vec::with_capacity(size as usize);
    atom.extend_from_slice(&size.to_be_bytes());
    atom.extend_from_slice(fourcc);
    atom.extend_from_slice(payload);
    atom
}

fn make_container(fourcc: &[u8; 4], children: &[Vec<u8>]) -> Vec<u8> {
    let mut payload = Vec::new();
    for child in children {
        payload.extend_from_slice(child);
    }
    make_atom(fourcc, &payload)
}

#[test]
fn strips_top_level_free_and_udta() {
    let mut input = Vec::new();
    input.extend_from_slice(&make_atom(b"ftyp", b"isom\x00\x00\x00\x00"));
    input.extend_from_slice(&make_atom(b"free", &[0u8; 100]));
    input.extend_from_slice(&make_atom(b"udta", b"artist=evil"));
    input.extend_from_slice(&make_atom(b"mdat", b"audio-data-here"));

    let result = try_sanitize_mp4(&input).unwrap().unwrap();
    assert_eq!(result.stripped_count, 2);
    assert!(result.output_bytes.windows(4).any(|w| w == b"ftyp"));
    assert!(result.output_bytes.windows(4).any(|w| w == b"mdat"));
    assert!(!result.output_bytes.windows(4).any(|w| w == b"free"));
    assert!(!result.output_bytes.windows(4).any(|w| w == b"udta"));
}

#[test]
fn strips_udta_inside_moov() {
    let moov = make_container(
        b"moov",
        &[
            make_atom(b"mvhd", &[0u8; 28]),
            make_container(b"trak", &[make_atom(b"tkhd", &[0u8; 20])]),
            make_atom(b"udta", b"GPS=evil-location"),
        ],
    );
    let mut input = Vec::new();
    input.extend_from_slice(&make_atom(b"ftyp", b"isom\x00\x00\x00\x00"));
    input.extend_from_slice(&moov);
    input.extend_from_slice(&make_atom(b"mdat", b"stream-data"));

    let result = try_sanitize_mp4(&input).unwrap().unwrap();
    assert_eq!(result.stripped_count, 1);
    assert!(result.output_bytes.windows(4).any(|w| w == b"moov"));
    assert!(result.output_bytes.windows(4).any(|w| w == b"trak"));
    assert!(!result.output_bytes.windows(4).any(|w| w == b"udta"));
}

#[test]
fn preserves_mdat_bitperfect() {
    let mdat_data = b"codec-bitstream-must-survive-exactly";
    let mut input = Vec::new();
    input.extend_from_slice(&make_atom(b"ftyp", b"mp41"));
    input.extend_from_slice(&make_atom(b"mdat", mdat_data));

    let result = try_sanitize_mp4(&input).unwrap().unwrap();
    let mdat_pos = result.output_bytes.windows(4).position(|w| w == b"mdat").unwrap();
    let payload_start = mdat_pos + 4;
    let payload_end = payload_start + mdat_data.len();
    assert_eq!(&result.output_bytes[payload_start..payload_end], mdat_data);
}

#[test]
fn rejects_non_mp4() {
    assert!(try_sanitize_mp4(b"not an mp4 file at all").is_none());
}

#[test]
fn rejects_truncated_atom() {
    let mut input = make_atom(b"ftyp", b"isom");
    input.extend_from_slice(&100u32.to_be_bytes());
    input.extend_from_slice(b"mdat");

    let result = try_sanitize_mp4(&input).unwrap();
    assert!(result.is_err());
}

#[test]
fn handles_zero_size_final_atom() {
    let mut input = Vec::new();
    input.extend_from_slice(&make_atom(b"ftyp", b"isom"));
    input.extend_from_slice(&0u32.to_be_bytes());
    input.extend_from_slice(b"mdat");
    input.extend_from_slice(b"rest-of-file-is-mdat");

    let result = try_sanitize_mp4(&input).unwrap().unwrap();
    assert!(result.output_bytes.windows(4).any(|w| w == b"mdat"));
}

#[test]
fn strips_meta_inside_nested_trak() {
    let trak = make_container(
        b"trak",
        &[
            make_atom(b"tkhd", &[0u8; 20]),
            make_container(b"mdia", &[make_atom(b"mdhd", &[0u8; 20]), make_atom(b"meta", b"should-be-stripped")]),
        ],
    );
    let moov = make_container(b"moov", &[make_atom(b"mvhd", &[0u8; 28]), trak]);
    let mut input = make_atom(b"ftyp", b"isom");
    input.extend_from_slice(&moov);

    let result = try_sanitize_mp4(&input).unwrap().unwrap();
    assert!(result.stripped_count >= 1);
    assert!(!result.output_bytes.windows(4).any(|w| w == b"meta"));
}

#[test]
fn mp4_container_sizes_are_rewritten() {
    let moov = make_container(b"moov", &[make_atom(b"mvhd", &[0u8; 4]), make_atom(b"udta", &[1u8; 10])]);
    let mut input = make_atom(b"ftyp", b"isom");
    input.extend_from_slice(&moov);
    let result = try_sanitize_mp4(&input).unwrap().unwrap();
    assert_eq!(result.stripped_bytes, 18);
    let moov_out = &result.output_bytes[12..];
    assert_eq!(&moov_out[..8], &[0, 0, 0, 20, b'm', b'o', b'o', b'v']);
    assert_eq!(moov_out.len(), 20);
}

#[test]
fn mp4_chunk_offsets_follow_mdat() {
    // ftyp, free (stripped), moov with an stco of one entry, then mdat.
    let stco = {
        let mut p = vec![0u8, 0, 0, 0];
        p.extend_from_slice(&1u32.to_be_bytes());
        p.extend_from_slice(&1000u32.to_be_bytes());
        make_atom(b"stco", &p)
    };
    let moov = make_container(b"moov", &[stco]);
    let mut input = make_atom(b"ftyp", b"isom");
    input.extend_from_slice(&make_atom(b"free", &[0u8; 24]));
    input.extend_from_slice(&moov);
    input.extend_from_slice(&make_atom(b"mdat", b"frames"));
    let result = try_sanitize_mp4(&input).unwrap().unwrap();
    let pos = result.output_bytes.windows(4).position(|w| w == b"stco").unwrap();
    let entry = &result.output_bytes[pos + 12..pos + 16];
    assert_eq!(u32::from_be_bytes([entry[0], entry[1], entry[2], entry[3]]), 1000 - 32);
}

#[test]
fn mp4_zero_size_container_is_an_error() {
    let mut input = make_atom(b"ftyp", b"isom");
    input.extend_from_slice(&0u32.to_be_bytes());
    input.extend_from_slice(b"moov");
    input.extend_from_slice(&[0u8; 8]);
    assert!(matches!(try_sanitize_mp4(&input), Some(Err(mdo_cdr::DefenderError::Video(_)))));
}

#[test]
fn mp4_atom_beyond_its_data_names_type_offset_and_sizes() {
    let mut input = Vec::new();
    input.extend_from_slice(&16u32.to_be_bytes());
    input.extend_from_slice(b"ftyp");
    input.extend_from_slice(b"isom\x00\x00\x00\x00");
    input.extend_from_slice(&500u32.to_be_bytes());
    input.extend_from_slice(b"mdat");
    match try_sanitize_mp4(&input) {
        Some(Err(mdo_cdr::DefenderError::Video(m))) => {
            assert_eq!(m, "MP4 atom `mdat` at offset 16 declares size 500 but only 8 bytes remain")
        },
        other => panic!("expected an error, got {:?}", other.map(|r| r.is_ok())),
    }
}
