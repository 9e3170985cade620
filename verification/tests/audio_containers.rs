use mdo_cdr::handlers::audio_native::{try_sanitize_flac, try_sanitize_mp3, try_sanitize_wav, synchsafe_u32};
use mdo_cdr::handlers::ogg_native::{ogg_crc32, try_sanitize_ogg};

// ── MP3 ──

#[test]
fn mp3_strips_id3v2_header() {
    let mut input = Vec::new();
    input.extend_from_slice(b"ID3");
    input.extend_from_slice(&[4, 0, 0]);
    input.extend_from_slice(&[0, 0, 0, 4]);
    input.extend_from_slice(&[0u8; 4]);
    input.extend_from_slice(&[0xFF, 0xFB, 0x90, 0x00]);
    input.extend_from_slice(&[0u8; 100]);

    let result = try_sanitize_mp3(&input).unwrap().unwrap();
    assert_eq!(result.mime, "audio/mpeg");
    assert_eq!(result.stripped_count, 1);
    assert_eq!(result.stripped_bytes, 14);
    assert_eq!(&result.output_bytes[0..2], &[0xFF, 0xFB]);
}

#[test]
fn mp3_strips_id3v1_tail() {
    let mut input = vec![0xFF, 0xFB, 0x90, 0x00];
    input.extend_from_slice(&[0u8; 100]);
    let mut tag = vec![0u8; 128];
    tag[0] = b'T';
    tag[1] = b'A';
    tag[2] = b'G';
    input.extend_from_slice(&tag);

    let result = try_sanitize_mp3(&input).unwrap().unwrap();
    assert_eq!(result.stripped_count, 1);
    assert_eq!(result.output_bytes.len(), 104);
}

#[test]
fn mp3_rejects_non_mp3() {
    let input = b"this is not an mp3 file at all";
    assert!(try_sanitize_mp3(input).is_none());
}

#[test]
fn mp3_strips_both_footers_and_header() {
    let mut input = Vec::new();
    input.extend_from_slice(b"ID3");
    input.extend_from_slice(&[4, 0, 0, 0, 0, 0, 2]);
    input.extend_from_slice(&[7, 7]);
    input.extend_from_slice(&[0xFF, 0xFB, 1, 2, 3, 4]);
    let mut ext = vec![0u8; 227];
    ext[..4].copy_from_slice(b"TAG+");
    input.extend_from_slice(&ext);
    let mut tag = vec![0u8; 128];
    tag[..3].copy_from_slice(b"TAG");
    input.extend_from_slice(&tag);

    let result = try_sanitize_mp3(&input).unwrap().unwrap();
    assert_eq!(result.stripped_count, 3);
    assert_eq!(result.stripped_bytes, 12 + 128 + 227);
    assert_eq!(result.output_bytes, vec![0xFF, 0xFB, 1, 2, 3, 4]);
}

#[test]
fn mp3_header_beyond_end_is_an_error() {
    let mut input = Vec::new();
    input.extend_from_slice(b"ID3");
    input.extend_from_slice(&[4, 0, 0, 0, 0, 1, 0]);
    input.extend_from_slice(&[0xFF, 0xFB, 0, 0]);
    assert!(matches!(try_sanitize_mp3(&input), Some(Err(mdo_cdr::DefenderError::Audio(_)))));
}

#[test]
fn synchsafe_decodes_seven_bit_groups() {
    assert_eq!(synchsafe_u32(&[0, 0, 1, 0]), 128);
    assert_eq!(synchsafe_u32(&[0, 0, 0, 4]), 4);
    assert_eq!(synchsafe_u32(&[1, 0, 0, 0]), 1 << 21);
}

// ── WAV ──

fn wav_with_list() -> Vec<u8> {
    let mut input = Vec::new();
    input.extend_from_slice(b"RIFF");
    input.extend_from_slice(&[0u8; 4]);
    input.extend_from_slice(b"WAVE");
    input.extend_from_slice(b"fmt ");
    input.extend_from_slice(&16u32.to_le_bytes());
    input.extend_from_slice(&1u16.to_le_bytes());
    input.extend_from_slice(&1u16.to_le_bytes());
    input.extend_from_slice(&44100u32.to_le_bytes());
    input.extend_from_slice(&88200u32.to_le_bytes());
    input.extend_from_slice(&2u16.to_le_bytes());
    input.extend_from_slice(&16u16.to_le_bytes());
    input.extend_from_slice(b"LIST");
    input.extend_from_slice(&8u32.to_le_bytes());
    input.extend_from_slice(b"INFOtest");
    input.extend_from_slice(b"data");
    input.extend_from_slice(&4u32.to_le_bytes());
    input.extend_from_slice(&[0x80, 0x00, 0x80, 0x00]);
    let riff_size = (input.len() - 8) as u32;
    input[4..8].copy_from_slice(&riff_size.to_le_bytes());
    input
}

#[test]
fn wav_strips_list_chunk() {
    let input = wav_with_list();
    let result = try_sanitize_wav(&input).unwrap().unwrap();
    assert_eq!(result.mime, "audio/wav");
    assert_eq!(result.stripped_count, 1);
    assert!(result.stripped_bytes > 0);
    assert!(!result.output_bytes.windows(4).any(|w| w == b"LIST"));
    assert!(result.output_bytes.windows(4).any(|w| w == b"fmt "));
    assert!(result.output_bytes.windows(4).any(|w| w == b"data"));
}

#[test]
fn wav_rebuilt_header_counts_kept_chunks() {
    let input = wav_with_list();
    let result = try_sanitize_wav(&input).unwrap().unwrap();
    // WAVE + fmt (8 + 16) + data (8 + 4)
    assert_eq!(&result.output_bytes[4..8], &40u32.to_le_bytes());
    assert_eq!(result.output_bytes.len(), 48);
    assert_eq!(result.stripped_bytes, 16);
}

#[test]
fn wav_rejects_non_riff() {
    assert!(try_sanitize_wav(b"not a wav file").is_none());
}

#[test]
fn wav_without_data_chunk_is_an_error() {
    let mut input = Vec::new();
    input.extend_from_slice(b"RIFF");
    input.extend_from_slice(&20u32.to_le_bytes());
    input.extend_from_slice(b"WAVE");
    input.extend_from_slice(b"fmt ");
    input.extend_from_slice(&4u32.to_le_bytes());
    input.extend_from_slice(&[1, 2, 3, 4]);
    assert!(matches!(try_sanitize_wav(&input), Some(Err(mdo_cdr::DefenderError::Audio(_)))));
}

// ── FLAC ──

#[test]
fn flac_strips_vorbis_comment() {
    let mut input = Vec::new();
    input.extend_from_slice(b"fLaC");
    input.push(0x00);
    input.extend_from_slice(&[0, 0, 34]);
    input.extend_from_slice(&[0u8; 34]);
    input.push(0x84);
    input.extend_from_slice(&[0, 0, 10]);
    input.extend_from_slice(&[0u8; 10]);
    input.extend_from_slice(&[0xFF, 0xF8, 0x00, 0x00]);
    input.extend_from_slice(&[0u8; 50]);

    let result = try_sanitize_flac(&input).unwrap().unwrap();
    assert_eq!(result.mime, "audio/flac");
    assert_eq!(result.stripped_count, 1);
    assert_eq!(&result.output_bytes[0..4], b"fLaC");
    assert_eq!(result.output_bytes[4], 0x80);
}

#[test]
fn flac_rejects_non_flac() {
    assert!(try_sanitize_flac(b"not a flac file").is_none());
}

#[test]
fn flac_rejects_missing_streaminfo() {
    let mut input = Vec::new();
    input.extend_from_slice(b"fLaC");
    input.push(0x84);
    input.extend_from_slice(&[0, 0, 4]);
    input.extend_from_slice(&[0u8; 4]);
    input.extend_from_slice(&[0u8; 20]);

    let result = try_sanitize_flac(&input).unwrap();
    assert!(result.is_err());
}

// ── OGG ──

fn make_ogg_page(header_type: u8, serial: u32, seq: u32, granule: i64, data: &[u8]) -> Vec<u8> {
    let mut segments = Vec::new();
    let mut remaining = data.len();
    loop {
        if remaining >= 255 {
            segments.push(255u8);
            remaining -= 255;
        } else {
            segments.push(remaining as u8);
            break;
        }
    }
    let mut page = Vec::new();
    page.extend_from_slice(b"OggS");
    page.push(0);
    page.push(header_type);
    page.extend_from_slice(&granule.to_le_bytes());
    page.extend_from_slice(&serial.to_le_bytes());
    page.extend_from_slice(&seq.to_le_bytes());
    page.extend_from_slice(&[0u8; 4]);
    page.push(segments.len() as u8);
    page.extend_from_slice(&segments);
    page.extend_from_slice(data);
    let crc = ogg_crc32(&page);
    page[22..26].copy_from_slice(&crc.to_le_bytes());
    page
}

fn make_opus_ogg() -> Vec<u8> {
    let mut file = Vec::new();
    let mut opus_head = Vec::new();
    opus_head.extend_from_slice(b"OpusHead");
    opus_head.push(1);
    opus_head.push(1);
    opus_head.extend_from_slice(&0u16.to_le_bytes());
    opus_head.extend_from_slice(&48000u32.to_le_bytes());
    opus_head.extend_from_slice(&0i16.to_le_bytes());
    opus_head.push(0);
    file.extend_from_slice(&make_ogg_page(0x02, 1, 0, 0, &opus_head));
    let mut tags = Vec::new();
    tags.extend_from_slice(b"OpusTags");
    let vendor = b"test-vendor";
    tags.extend_from_slice(&(vendor.len() as u32).to_le_bytes());
    tags.extend_from_slice(vendor);
    tags.extend_from_slice(&1u32.to_le_bytes());
    let comment = b"ARTIST=Evil";
    tags.extend_from_slice(&(comment.len() as u32).to_le_bytes());
    tags.extend_from_slice(comment);
    file.extend_from_slice(&make_ogg_page(0x00, 1, 1, 0, &tags));
    file.extend_from_slice(&make_ogg_page(0x04, 1, 2, 48000, b"fake-opus-packets"));
    file
}

#[test]
fn strips_opus_tags_metadata() {
    let input = make_opus_ogg();
    let result = try_sanitize_ogg(&input).unwrap().unwrap();
    assert_eq!(result.codec, "opus");
    assert!(result.stripped_bytes > 0);
    let output_str = String::from_utf8_lossy(&result.output_bytes);
    assert!(!output_str.contains("Evil"));
    assert!(!output_str.contains("test-vendor"));
    assert!(result.output_bytes.windows(8).any(|w| w == b"OpusTags"));
    assert!(result.output_bytes.windows(8).any(|w| w == b"OpusHead"));
}

#[test]
fn preserves_audio_data_pages() {
    let input = make_opus_ogg();
    let result = try_sanitize_ogg(&input).unwrap().unwrap();
    assert!(result.output_bytes.windows(17).any(|w| w == b"fake-opus-packets"));
}

#[test]
fn ogg_crc_known_value() {
    let page = make_ogg_page(0x02, 42, 0, 0, b"test");
    let crc_bytes = &page[22..26];
    let stored_crc = u32::from_le_bytes([crc_bytes[0], crc_bytes[1], crc_bytes[2], crc_bytes[3]]);
    assert_ne!(stored_crc, 0);
    let mut check = page.clone();
    check[22] = 0;
    check[23] = 0;
    check[24] = 0;
    check[25] = 0;
    assert_eq!(ogg_crc32(&check), stored_crc);
}

#[test]
fn ogg_crc_of_reference_inputs() {
    assert_eq!(ogg_crc32(&[]), 0);
    // Non-reflected CRC-32 with polynomial 0x04C11DB7 and no xor: one 0x01
    // byte yields the polynomial itself.
    assert_eq!(ogg_crc32(&[0x01]), 0x04C1_1DB7);
}

#[test]
fn rejects_non_ogg() {
    assert!(try_sanitize_ogg(b"not an ogg file").is_none());
}

#[test]
fn rejects_truncated_page() {
    let input = make_opus_ogg();
    let first_page_end = {
        let num_segments = input[26] as usize;
        let data_size: usize = input[27..27 + num_segments].iter().map(|&v| v as usize).sum();
        27 + num_segments + data_size
    };
    let mut truncated = input[..first_page_end + 30].to_vec();
    if truncated.len() > first_page_end + 27 {
        truncated.truncate(first_page_end + 27);
    }
    let result = try_sanitize_ogg(&truncated);
    match result {
        Some(Err(_)) => {}
        Some(Ok(_)) => panic!("should not succeed on truncated input"),
        None => {}
    }
}

#[test]
fn ogg_replacement_page_carries_an_empty_comment() {
    let input = make_opus_ogg();
    let result = try_sanitize_ogg(&input).unwrap().unwrap();
    let first_len = {
        let n = result.output_bytes[26] as usize;
        let size: usize = result.output_bytes[27..27 + n].iter().map(|&v| v as usize).sum();
        27 + n + size
    };
    let page = &result.output_bytes[first_len..];
    assert_eq!(page[26], 1);
    assert_eq!(page[27], 16);
    assert_eq!(&page[28..36], b"OpusTags");
    assert_eq!(&page[36..44], &[0u8; 8]);
    let mut check = page[..44].to_vec();
    let stored = u32::from_le_bytes([check[22], check[23], check[24], check[25]]);
    check[22..26].copy_from_slice(&[0, 0, 0, 0]);
    assert_eq!(ogg_crc32(&check), stored);
}

#[test]
fn mp3_short_input_without_tag_or_sync_is_not_mp3() {
    assert!(try_sanitize_mp3(b"abc").is_none());
    assert!(try_sanitize_mp3(b"").is_none());
}

#[test]
fn mp3_short_frames_after_sync_or_tag_are_an_error() {
    assert!(matches!(try_sanitize_mp3(&[0xFF, 0xFB, 0x90]), Some(Err(mdo_cdr::DefenderError::Audio(_)))));
    let mut tagged = b"ID3\x04\x00\x00\x00\x00\x00\x00".to_vec();
    tagged.extend_from_slice(&[0xFF, 0xFB]);
    assert!(matches!(try_sanitize_mp3(&tagged), Some(Err(mdo_cdr::DefenderError::Audio(_)))));
}

fn empty_pages(count: usize) -> Vec<u8> {
    let mut out = Vec::new();
    for seq in 0..count {
        out.extend_from_slice(&make_ogg_page(0, 1, seq as u32, 0, &[]));
    }
    out
}

#[test]
fn ogg_walk_copies_every_page_up_to_the_page_limit() {
    let input = empty_pages(65536);
    let result = try_sanitize_ogg(&input).unwrap().unwrap();
    assert_eq!(result.output_bytes, input);
}

#[test]
fn ogg_stream_over_the_page_limit_is_refused_not_cut_short() {
    let input = empty_pages(65537);
    assert!(matches!(try_sanitize_ogg(&input), Some(Err(mdo_cdr::DefenderError::Audio(_)))));
}

#[test]
fn ogg_lost_sync_names_the_offset() {
    let mut input = make_ogg_page(0, 1, 0, 0, b"x");
    let offset = input.len();
    input.extend_from_slice(b"GARBAGE_NOT_OGGS_AT_ALL_MORE_BYTES");
    match try_sanitize_ogg(&input) {
        Some(Err(mdo_cdr::DefenderError::Audio(m))) => assert_eq!(m, format!("OGG sync lost at offset {offset}")),
        _ => panic!("lost sync must be an error"),
    }
}

// ── Native dispatch ──

#[test]
fn native_audio_path_answers_with_the_first_recognising_sanitizer() {
    let handler = mdo_cdr::handlers::audio::AudioHandler::new(mdo_cdr::policy::AudioPolicy::default());

    let mut mp4 = Vec::new();
    mp4.extend_from_slice(&16u32.to_be_bytes());
    mp4.extend_from_slice(b"ftyp");
    mp4.extend_from_slice(b"M4A \x00\x00\x00\x00");
    mp4.extend_from_slice(&500u32.to_be_bytes());
    mp4.extend_from_slice(b"mdat");
    let expected = match mdo_cdr::handlers::mp4_native::try_sanitize_mp4(&mp4) {
        Some(Err(mdo_cdr::DefenderError::Video(m))) => m,
        other => panic!("expected an MP4 error, got {:?}", other.map(|r| r.is_ok())),
    };
    match handler.try_native_rebuild(&mp4) {
        Some(Err(mdo_cdr::DefenderError::Video(m))) => assert_eq!(m, expected),
        other => panic!("expected the MP4 error, got {:?}", other.map(|r| r.is_ok())),
    }

    let mut wav = Vec::new();
    wav.extend_from_slice(b"RIFF");
    wav.extend_from_slice(&40u32.to_le_bytes());
    wav.extend_from_slice(b"WAVE");
    wav.extend_from_slice(b"fmt ");
    wav.extend_from_slice(&16u32.to_le_bytes());
    wav.extend_from_slice(&[1, 0, 1, 0, 0x44, 0xAC, 0, 0, 0x88, 0x58, 1, 0, 2, 0, 16, 0]);
    wav.extend_from_slice(b"data");
    wav.extend_from_slice(&4u32.to_le_bytes());
    wav.extend_from_slice(&[0, 0, 1, 0]);
    let direct = try_sanitize_wav(&wav).unwrap().unwrap();
    let native = handler.try_native_rebuild(&wav).unwrap().unwrap();
    assert_eq!(native.output_bytes, direct.output_bytes);
    assert_eq!(native.mime, "audio/wav");

    assert!(handler.try_native_rebuild(b"plain text, no container").is_none());
}
