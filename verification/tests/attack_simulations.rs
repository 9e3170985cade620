use std::io::Cursor;
use std::time::Instant;

use symphonia::default::{get_codecs, get_probe};

use mdo_cdr::handlers::MediaRebuildStep;
use mdo_cdr::pipeline::{Preparation, RebuildStart};
use mdo_cdr::policy::{AudioKeepOriginalMode, AudioOutputCodec, DefensePolicy};
use mdo_cdr::validation::{read_candidate, OutputRead};
use mdo_cdr::types::SourceRole;
use mdo_cdr::{CancellationToken, DefendResult, DefenderError, DefenseContext, DefenseVerdict, FileDefender};

fn entropy_label(bytes: &[u8]) -> String {
    let mut frequencies = [0usize; 256];
    for byte in bytes {
        frequencies[*byte as usize] += 1;
    }
    let length = bytes.len() as f64;
    let mut entropy = 0.0f64;
    for frequency in frequencies {
        if frequency > 0 {
            let probability = frequency as f64 / length;
            entropy -= probability * probability.log2();
        }
    }
    format!("{entropy:.3}")
}

/// One run of the pipeline for files that need no external runtime.
fn defend(
    defender: &FileDefender,
    input: Vec<u8>,
    file_name: Option<&str>,
    context: DefenseContext,
) -> Result<DefendResult, DefenderError> {
    let started = Instant::now();
    let original_size = input.len() as u64;
    let prepared = match defender.begin_defense(&input, file_name, &context, &started)? {
        Preparation::Blocked(result) => return Ok(result),
        Preparation::Ready(prepared) => prepared,
    };
    let mut rebuild_context = context.clone();
    rebuild_context.started_at = Some(Instant::now());
    rebuild_context.timeout_ms = defender.policy().max_handler_duration_ms;
    let entropy = entropy_label(&input);
    let kind = prepared.file_kind;
    let rebuilt = match defender.start_rebuild(kind, input.clone(), rebuild_context.clone(), &entropy) {
        RebuildStart::Done(rebuilt) => rebuilt,
        // ffmpeg is taken to be absent here.
        RebuildStart::Audio(handler) => match handler.rebuild(input.clone(), rebuild_context.clone()) {
            MediaRebuildStep::Done(rebuilt) => rebuilt,
            MediaRebuildStep::CheckTranscoder { input_bytes } => match handler.after_ffmpeg_check(input_bytes, false) {
                MediaRebuildStep::Done(rebuilt) => rebuilt,
                _ => panic!("without ffmpeg the check ends the rebuild"),
            },
            MediaRebuildStep::Transcode { .. } => panic!("this run needs ffmpeg"),
        },
        RebuildStart::Video(handler) => match handler.rebuild(input.clone(), rebuild_context.clone()) {
            MediaRebuildStep::Done(rebuilt) => rebuilt,
            _ => panic!("this run needs an external media runtime"),
        },
    };
    let artifact = defender.recover_rebuild(kind, rebuilt, input, rebuild_context.clone(), &entropy)?;
    let reviewed = defender.review_candidate(prepared, file_name, artifact, original_size)?;
    let read = match read_candidate(reviewed.file_kind, &reviewed.output_bytes, defender.policy(), &rebuild_context) {
        OutputRead::Finished(read) => read,
        OutputRead::NeedsAudioReader => read_audio(&reviewed.output_bytes, defender.policy()),
        // The video reader runs ffmpeg, which is taken to be absent here.
        OutputRead::NeedsVideoReader => Err("Output video reader unavailable: ffmpeg is not installed".to_owned()),
    };
    Ok(defender.finish_defense(reviewed, read, original_size, &context, &started))
}

/// Read an audio candidate to its end with symphonia: one track, every
/// packet decoded within the policy's channel and duration limits.
fn read_audio(bytes: &[u8], policy: &DefensePolicy) -> Result<String, String> {
    let source = symphonia::core::io::MediaSourceStream::new(Box::new(Cursor::new(bytes.to_vec())), Default::default());
    let mut reader = get_probe()
        .format(&Default::default(), source, &Default::default(), &Default::default())
        .map_err(|error| error.to_string())?
        .format;
    if reader.tracks().len() != 1 {
        return Err("Output must contain exactly one supported audio track".into());
    }
    let track = &reader.tracks()[0];
    let track_id = track.id;
    let mut decoder =
        get_codecs().make(&track.codec_params, &Default::default()).map_err(|error| error.to_string())?;
    let mut sample_frames = 0u64;
    let mut packets = 0u64;
    loop {
        let packet = match reader.next_packet() {
            Ok(packet) => packet,
            Err(symphonia::core::errors::Error::IoError(error)) if error.kind() == std::io::ErrorKind::UnexpectedEof => {
                break
            },
            Err(error) => return Err(error.to_string()),
        };
        if packet.track_id() != track_id {
            return Err("Unexamined output audio track encountered".into());
        }
        let audio = decoder.decode(&packet).map_err(|error| error.to_string())?;
        if audio.spec().channels.count() > policy.audio.max_channels as usize {
            return Err("Output audio channel limit exceeded".into());
        }
        sample_frames = sample_frames.saturating_add(audio.frames() as u64);
        packets += 1;
    }
    if packets == 0 || sample_frames == 0 {
        return Err("Output contains no decoded audio samples".into());
    }
    Ok(format!("all {packets} audio packets decoded, {sample_frames} sample frames"))
}

fn default_defender() -> FileDefender {
    FileDefender::new(DefensePolicy::default())
}

fn paranoid_defender() -> FileDefender {
    FileDefender::new(DefensePolicy::paranoid_profile())
}

fn write_png_chunk(out: &mut Vec<u8>, chunk_type: &[u8; 4], data: &[u8]) {
    out.extend_from_slice(&(data.len() as u32).to_be_bytes());
    out.extend_from_slice(chunk_type);
    out.extend_from_slice(data);
    let mut crc: u32 = 0xFFFF_FFFF;
    for &byte in chunk_type.iter().chain(data.iter()) {
        crc ^= byte as u32;
        for _ in 0..8 {
            let mask = 0u32.wrapping_sub(crc & 1);
            crc = (crc >> 1) ^ (0xEDB8_8320 & mask);
        }
    }
    out.extend_from_slice(&(!crc).to_be_bytes());
}

#[test]
fn bomb_oversized_image_dimensions_rejected() {
    let defender = default_defender();
    let mut fake_png = vec![0x89, b'P', b'N', b'G', 0x0D, 0x0A, 0x1A, 0x0A];
    let mut ihdr_data = Vec::new();
    ihdr_data.extend_from_slice(&50000u32.to_be_bytes());
    ihdr_data.extend_from_slice(&50000u32.to_be_bytes());
    ihdr_data.push(8);
    ihdr_data.push(2);
    ihdr_data.extend_from_slice(&[0, 0, 0]);
    fake_png.extend_from_slice(&(ihdr_data.len() as u32).to_be_bytes());
    fake_png.extend_from_slice(b"IHDR");
    fake_png.extend_from_slice(&ihdr_data);
    fake_png.extend_from_slice(&[0u8; 4]);
    let result = defend(&defender, fake_png, Some("bomb.png"), DefenseContext::default());
    assert!(result.is_err() || result.unwrap().verdict == DefenseVerdict::Blocked);
}

#[test]
fn bomb_gif_excessive_frames_rejected() {
    let defender = default_defender();
    let result = defend(
        &defender,
        b"GIF89a\x01\x00\x01\x00\x80\x00\x00\xFF\xFF\xFF\x00\x00\x00".to_vec(),
        Some("bomb.gif"),
        DefenseContext::default(),
    );
    assert!(result.is_err() || result.unwrap().verdict == DefenseVerdict::Blocked);
}

#[test]
fn bomb_apng_excessive_chunks_rejected() {
    let defender = paranoid_defender();
    let mut input = Vec::new();
    input.extend_from_slice(&[0x89, b'P', b'N', b'G', 0x0D, 0x0A, 0x1A, 0x0A]);
    let mut ihdr = vec![0u8; 13];
    ihdr[3] = 1;
    ihdr[7] = 1;
    ihdr[8] = 8;
    ihdr[9] = 2;
    write_png_chunk(&mut input, b"IHDR", &ihdr);
    for _ in 0..2000 {
        write_png_chunk(&mut input, b"tEXt", b"key\0value");
    }
    write_png_chunk(&mut input, b"IEND", &[]);
    let result = defend(&defender, input, Some("flood.apng"), DefenseContext::default());
    assert!(result.is_err());
}

#[test]
fn smuggle_exe_renamed_to_jpg_blocked() {
    let defender = default_defender();
    let result = defend(&defender, b"MZ\x90\x00PE\x00\x00".to_vec(), Some("photo.jpg"), DefenseContext::default());
    if let Ok(r) = result {
        assert_eq!(r.verdict, DefenseVerdict::Blocked);
    }
}

#[test]
fn smuggle_elf_renamed_to_png_blocked() {
    let defender = default_defender();
    let result = defend(&defender, b"\x7fELF\x02\x01\x01\x00".to_vec(), Some("image.png"), DefenseContext::default());
    if let Ok(r) = result {
        assert_eq!(r.verdict, DefenseVerdict::Blocked);
    }
}

#[test]
fn smuggle_double_extension_exe_png_blocked() {
    let defender = default_defender();
    let result = defend(&defender, vec![0u8; 100], Some("report.exe.png"), DefenseContext::default())
        .expect("should return result");
    assert_eq!(result.verdict, DefenseVerdict::Blocked);
}

#[test]
fn smuggle_double_extension_bat_mp3_blocked() {
    let defender = default_defender();
    let result = defend(&defender, vec![0u8; 100], Some("script.bat.mp3"), DefenseContext::default())
        .expect("should return result");
    assert_eq!(result.verdict, DefenseVerdict::Blocked);
}

#[test]
fn smuggle_java_class_as_bin_blocked() {
    let defender = default_defender();
    let mut input = vec![0xCA, 0xFE, 0xBA, 0xBE];
    input.extend_from_slice(&[0u8; 100]);
    let result = defend(&defender, input, Some("Exploit.bin"), DefenseContext::default()).expect("should return result");
    assert_eq!(result.verdict, DefenseVerdict::Blocked);
}

#[test]
fn smuggle_ole_doc_blocked() {
    let defender = default_defender();
    let mut input = vec![0xD0, 0xCF, 0x11, 0xE0, 0xA1, 0xB1, 0x1A, 0xE1];
    input.extend_from_slice(&[0u8; 100]);
    let result = defend(&defender, input, Some("doc.bin"), DefenseContext::default()).expect("should return result");
    assert_eq!(result.verdict, DefenseVerdict::Blocked);
}

#[test]
fn smuggle_shell_script_as_txt_blocked() {
    let defender = default_defender();
    let result = defend(&defender, b"#!/bin/bash\nrm -rf /".to_vec(), Some("readme.txt"), DefenseContext::default())
        .expect("should return result");
    assert_eq!(result.verdict, DefenseVerdict::Blocked);
}

#[test]
fn smuggle_php_payload_blocked() {
    let defender = default_defender();
    let result =
        defend(&defender, b"<?php system($_GET['cmd']); ?>".to_vec(), Some("image.bin"), DefenseContext::default())
            .expect("should return result");
    assert_eq!(result.verdict, DefenseVerdict::Blocked);
}

#[test]
fn smuggle_wasm_module_blocked() {
    let defender = default_defender();
    let mut input = vec![0x00, b'a', b's', b'm'];
    input.extend_from_slice(&[0u8; 50]);
    let result = defend(&defender, input, Some("module.bin"), DefenseContext::default()).expect("should return result");
    assert_eq!(result.verdict, DefenseVerdict::Blocked);
}

#[test]
fn smuggle_dex_android_blocked() {
    let defender = default_defender();
    let mut input = b"dex\n035\x00".to_vec();
    input.extend_from_slice(&[0u8; 100]);
    let result = defend(&defender, input, Some("classes.bin"), DefenseContext::default()).expect("should return result");
    assert_eq!(result.verdict, DefenseVerdict::Blocked);
}

#[test]
fn signature_eicar_in_text_file_blocked() {
    let defender = default_defender();
    let eicar = b"X5O!P%@AP[4\\PZX54(P^)7CC)7}$EICAR-STANDARD-ANTIVIRUS-TEST-FILE!$H+H*";
    let result = defend(&defender, eicar.to_vec(), Some("test.txt"), DefenseContext::default())
        .expect("should return result");
    assert_eq!(result.verdict, DefenseVerdict::Blocked);
}

#[test]
fn signature_pe_header_in_middle_of_data_detected() {
    let defender = default_defender();
    let mut data = vec![0u8; 100];
    data.extend_from_slice(b"PE\x00\x00");
    data.extend_from_slice(&[0u8; 100]);
    let result = defend(&defender, data, Some("data.bin"), DefenseContext::default()).expect("should return result");
    assert_eq!(result.verdict, DefenseVerdict::Blocked);
}

#[test]
fn cancellation_token_stops_processing() {
    let defender = default_defender();
    let token = CancellationToken::new();
    token.cancel();
    let context = DefenseContext { source: SourceRole::Outgoing, cancel: Some(token), ..DefenseContext::default() };
    let gif = vec![
        71, 73, 70, 56, 57, 97, 1, 0, 1, 0, 128, 0, 0, 255, 255, 255, 0, 0, 0, 33, 249, 4, 1, 10, 0, 1, 0, 44, 0, 0, 0,
        0, 1, 0, 1, 0, 0, 2, 2, 68, 1, 0, 59,
    ];
    let result = defend(&defender, gif, Some("anim.gif"), context);
    match result {
        Err(DefenderError::Cancelled) => {},
        Err(_) => {},
        Ok(r) => assert_ne!(r.verdict, DefenseVerdict::Clean),
    }
}

#[test]
fn policy_blocks_pdf() {
    let defender = default_defender();
    let result = defend(&defender, b"%PDF-1.4 fake".to_vec(), Some("doc.pdf"), DefenseContext::default())
        .expect("should return result");
    assert_eq!(result.verdict, DefenseVerdict::Blocked);
}

#[test]
fn policy_blocks_zip() {
    let defender = default_defender();
    let result = defend(&defender, b"PK\x03\x04fake-zip".to_vec(), Some("archive.zip"), DefenseContext::default());
    if let Ok(r) = result {
        assert_eq!(r.verdict, DefenseVerdict::Blocked);
    }
}

#[test]
fn policy_blocks_docx() {
    let defender = default_defender();
    let result =
        defend(&defender, b"PK\x03\x04word/document.xml".to_vec(), Some("report.docx"), DefenseContext::default())
            .expect("should return result");
    assert_eq!(result.verdict, DefenseVerdict::Blocked);
}

fn refused_by_extension(bytes: &[u8], name: &str) -> bool {
    let defender = default_defender();
    matches!(defend(&defender, bytes.to_vec(), Some(name), DefenseContext::default()), Err(DefenderError::BlockedExtension { .. }))
}

#[test]
fn policy_blocks_exe_extension() {
    assert!(refused_by_extension(b"anything", "payload.exe"));
}

#[test]
fn policy_blocks_bat_extension() {
    assert!(refused_by_extension(b"@echo off", "script.bat"));
}

#[test]
fn policy_blocks_ps1_extension() {
    assert!(refused_by_extension(b"Get-Process", "hack.ps1"));
}

#[test]
fn policy_blocks_jar_extension() {
    assert!(refused_by_extension(b"PK\x03\x04", "exploit.jar"));
}

#[test]
fn policy_blocks_apk_extension() {
    assert!(refused_by_extension(b"PK\x03\x04", "malware.apk"));
}

#[test]
fn policy_blocks_dex_extension() {
    assert!(refused_by_extension(b"dex\n035\x00", "classes.dex"));
}

#[test]
fn policy_blocks_wasm_extension() {
    assert!(refused_by_extension(b"\x00asm", "module.wasm"));
}

#[test]
fn paranoid_profile_blocks_zip_extension() {
    let defender = paranoid_defender();
    let result = defend(&defender, b"PK\x03\x04".to_vec(), Some("archive.zip"), DefenseContext::default());
    assert!(matches!(result, Err(DefenderError::BlockedExtension { .. })));
}

fn build_minimal_wav_with_list(list_data: &[u8]) -> Vec<u8> {
    let mut input = Vec::new();
    input.extend_from_slice(b"RIFF");
    input.extend_from_slice(&[0u8; 4]);
    input.extend_from_slice(b"WAVE");
    input.extend_from_slice(b"fmt ");
    input.extend_from_slice(&16u32.to_le_bytes());
    input.extend_from_slice(&1u16.to_le_bytes());
    input.extend_from_slice(&1u16.to_le_bytes());
    input.extend_from_slice(&44100u32.to_le_bytes());
    input.extend_from_slice(&88200u32.to_le_bytes());
    input.extend_from_slice(&2u16.to_le_bytes());
    input.extend_from_slice(&16u16.to_le_bytes());
    input.extend_from_slice(b"LIST");
    input.extend_from_slice(&(list_data.len() as u32).to_le_bytes());
    input.extend_from_slice(list_data);
    if list_data.len() % 2 != 0 {
        input.push(0);
    }
    input.extend_from_slice(b"data");
    input.extend_from_slice(&4u32.to_le_bytes());
    input.extend_from_slice(&[0x80, 0x00, 0x80, 0x00]);
    input
}

fn blocked_or_refused(result: Result<DefendResult, DefenderError>) -> bool {
    match result {
        Err(_) => true,
        Ok(r) => r.verdict == DefenseVerdict::Blocked,
    }
}

#[test]
fn metadata_wav_list_info_stripped() {
    let defender = default_defender();
    let mut input = build_minimal_wav_with_list(b"ARTIST\0Evil Hacker");
    let riff_size = (input.len() - 8) as u32;
    input[4..8].copy_from_slice(&riff_size.to_le_bytes());
    let result = defend(&defender, input, Some("audio.wav"), DefenseContext::default()).expect("should return result");
    let output_str = String::from_utf8_lossy(&result.artifact.output_bytes);
    assert!(!output_str.contains("Evil Hacker"), "LIST metadata must be stripped");
}

#[test]
fn metadata_flac_vorbis_comment_and_picture_stripped() {
    let defender = default_defender();
    let mut input = Vec::new();
    input.extend_from_slice(b"fLaC");
    input.push(0x00);
    input.extend_from_slice(&[0, 0, 34]);
    input.extend_from_slice(&[0u8; 34]);
    let comment = b"vendor\x00\x00\x00\x00\x01\x00\x00\x00\x0BARTIST=Evil\x00\x00\x00";
    input.push(0x04);
    input.push(0);
    input.extend_from_slice(&(comment.len() as u16).to_be_bytes());
    input.extend_from_slice(comment);
    let picture = b"fake-jpeg-album-art-data";
    input.push(0x86);
    input.push(0);
    input.extend_from_slice(&(picture.len() as u16).to_be_bytes());
    input.extend_from_slice(picture);
    input.extend_from_slice(&[0xFF, 0xF8, 0x00, 0x00]);
    input.extend_from_slice(&[0u8; 100]);
    let result = defend(&defender, input, Some("song.flac"), DefenseContext::default()).expect("should return result");
    let output_str = String::from_utf8_lossy(&result.artifact.output_bytes);
    assert!(!output_str.contains("Evil"), "VORBIS_COMMENT stripped");
    assert!(!output_str.contains("fake-jpeg"), "PICTURE stripped");
}

#[test]
fn malformed_ogg_bad_sync_rejected() {
    let defender = default_defender();
    let mut input = Vec::new();
    input.extend_from_slice(b"OggS");
    input.extend_from_slice(&[0u8; 23]);
    input.extend_from_slice(b"GARBAGE_NOT_OGGS");
    input.extend_from_slice(&[0u8; 100]);
    let result = defend(&defender, input, Some("broken.ogg"), DefenseContext::default());
    if let Ok(r) = result {
        assert_ne!(r.verdict, DefenseVerdict::Clean);
    }
}

#[test]
fn malformed_flac_no_streaminfo_rejected() {
    let defender = default_defender();
    let mut input = Vec::new();
    input.extend_from_slice(b"fLaC");
    input.push(0x84);
    input.extend_from_slice(&[0, 0, 4]);
    input.extend_from_slice(&[0u8; 4]);
    input.extend_from_slice(&[0u8; 20]);
    assert!(blocked_or_refused(defend(&defender, input, Some("broken.flac"), DefenseContext::default())));
}

#[test]
fn malformed_wav_missing_data_chunk_rejected() {
    let defender = default_defender();
    let mut input = Vec::new();
    input.extend_from_slice(b"RIFF");
    input.extend_from_slice(&28u32.to_le_bytes());
    input.extend_from_slice(b"WAVE");
    input.extend_from_slice(b"fmt ");
    input.extend_from_slice(&16u32.to_le_bytes());
    input.extend_from_slice(&[1, 0, 1, 0]);
    input.extend_from_slice(&44100u32.to_le_bytes());
    input.extend_from_slice(&88200u32.to_le_bytes());
    input.extend_from_slice(&[2, 0, 16, 0]);
    assert!(blocked_or_refused(defend(&defender, input, Some("broken.wav"), DefenseContext::default())));
}

fn make_mp4_atom(fourcc: &[u8; 4], payload: &[u8]) -> Vec<u8> {
    let size = (8 + payload.len()) as u32;
    let mut atom = Vec::with_capacity(size as usize);
    atom.extend_from_slice(&size.to_be_bytes());
    atom.extend_from_slice(fourcc);
    atom.extend_from_slice(payload);
    atom
}

#[test]
fn malformed_mp4_truncated_atom_rejected() {
    let defender = default_defender();
    let mut input = make_mp4_atom(b"ftyp", b"isom");
    input.extend_from_slice(&500u32.to_be_bytes());
    input.extend_from_slice(b"mdat");
    match defend(&defender, input, Some("broken.mp4"), DefenseContext::default()) {
        Err(_) => {},
        Ok(r) => assert_eq!(r.verdict, DefenseVerdict::Blocked),
    }
}

#[test]
fn malformed_webm_bad_vint_rejected() {
    let defender = default_defender();
    let mut input = Vec::new();
    input.extend_from_slice(&[0x1A, 0x45, 0xDF, 0xA3]);
    input.push(0x00);
    input.extend_from_slice(&[0u8; 50]);
    match defend(&defender, input, Some("broken.webm"), DefenseContext::default()) {
        Err(_) => {},
        Ok(r) => assert_eq!(r.verdict, DefenseVerdict::Blocked),
    }
}


#[test]
fn handles_audio_path_with_mp3_extension() {
    let defender = default_defender();
    match defend(&defender, b"fake-audio-content".to_vec(), Some("voice.mp3"), DefenseContext::default()) {
        Ok(value) => assert_eq!(value.verdict, DefenseVerdict::Blocked),
        Err(_) => {},
    }
}

#[test]
fn keep_original_unknown_audio_can_be_blocked_by_policy() {
    let mut policy = DefensePolicy::default();
    policy.audio.output_codec = AudioOutputCodec::KeepOriginalWhenPossible;
    policy.audio.keep_original_mode = AudioKeepOriginalMode::Block;
    let defender = FileDefender::new(policy);
    let result = defend(&defender, b"unrecognized audio bytes".to_vec(), Some("voice.mp3"), DefenseContext::default())
        .expect("blocked behavior should return structured result");
    assert_eq!(result.verdict, DefenseVerdict::Blocked);
}

#[test]
fn realworld_wav_strips_list_keeps_audio() {
    let d = default_defender();
    let mut input = Vec::new();
    input.extend_from_slice(b"RIFF\x00\x00\x00\x00WAVE");
    input.extend_from_slice(b"fmt ");
    input.extend_from_slice(&16u32.to_le_bytes());
    input.extend_from_slice(&1u16.to_le_bytes());
    input.extend_from_slice(&1u16.to_le_bytes());
    input.extend_from_slice(&44100u32.to_le_bytes());
    input.extend_from_slice(&88200u32.to_le_bytes());
    input.extend_from_slice(&2u16.to_le_bytes());
    input.extend_from_slice(&16u16.to_le_bytes());
    let list_payload = b"INFOIARTEvil Hax0r";
    input.extend_from_slice(b"LIST");
    input.extend_from_slice(&(list_payload.len() as u32).to_le_bytes());
    input.extend_from_slice(list_payload);
    let samples = vec![0x80u8; 1000];
    input.extend_from_slice(b"data");
    input.extend_from_slice(&(samples.len() as u32).to_le_bytes());
    input.extend_from_slice(&samples);
    let rs = (input.len() - 8) as u32;
    input[4..8].copy_from_slice(&rs.to_le_bytes());
    let result = defend(&d, input, Some("recording.wav"), DefenseContext::default()).expect("WAV should succeed");
    let out = &result.artifact.output_bytes;
    assert!(out.starts_with(b"RIFF"));
    assert!(!String::from_utf8_lossy(out).contains("Evil Hax0r"));
    assert!(out.windows(4).any(|w| w == b"data"));
}
