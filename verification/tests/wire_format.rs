use mdo_cdr::ffi::{
    error_payload, success_payload, FfiAlertProto, FfiMetadataProto, FfiPipelineStageProto, FFI_FILE_KIND_AUDIO,
    FFI_STAGE_AUDIO_PROBE, FFI_STAGE_STATUS_WARNING, FFI_VERDICT_BLOCKED, FFI_VERDICT_CLEAN,
};
use mdo_cdr::wire::{FileKind, Metadata, PipelineStage, Stage, StageStatus, Verdict};
use mdo_cdr::{DefendResult, DefendedArtifact, DefenseDiagnostics, DefenseVerdict};

#[test]
fn decodes_v0_payload_with_int_fields() {
    let old = Metadata {
        verdict: Verdict::Blocked as i32,
        file_kind: FileKind::Audio as i32,
        mime: "audio/mpeg".to_string(),
        original_size: 10,
        output_size: 20,
        sha256: "abc".to_string(),
        alerts: vec![],
        stages: vec![PipelineStage {
            stage: Stage::AudioProbe as i32,
            status: StageStatus::Warning as i32,
            detail: "compat".to_string(),
        }],
    };
    let bytes = old.encode_to_vec();
    let decoded = Metadata::decode(bytes.as_slice()).expect("decode should succeed");
    assert_eq!(decoded.verdict, Verdict::Blocked as i32);
    assert_eq!(decoded.file_kind, FileKind::Audio as i32);
    assert_eq!(decoded.stages.len(), 1);
}

#[test]
fn metadata_decodes_legacy_int_wire_format() {
    let legacy = FfiMetadataProto {
        verdict: FFI_VERDICT_BLOCKED,
        file_kind: FFI_FILE_KIND_AUDIO,
        mime: "audio/mpeg".to_string(),
        original_size: 7,
        output_size: 9,
        sha256: "hash".to_string(),
        alerts: vec![],
        stages: vec![FfiPipelineStageProto {
            stage: FFI_STAGE_AUDIO_PROBE,
            status: FFI_STAGE_STATUS_WARNING,
            detail: "legacy".to_string(),
        }],
    };
    let bytes = legacy.encode_to_vec();
    let decoded = FfiMetadataProto::decode(bytes.as_slice()).expect("decode");
    assert_eq!(decoded.verdict, FFI_VERDICT_BLOCKED);
    assert_eq!(decoded.file_kind, FFI_FILE_KIND_AUDIO);
    assert_eq!(decoded.stages.len(), 1);
}

#[test]
fn metadata_encoding_matches_protobuf_bytes() {
    let m = FfiMetadataProto {
        verdict: 2,
        file_kind: 0,
        mime: "a".to_string(),
        original_size: 300,
        output_size: 0,
        sha256: String::new(),
        alerts: vec![FfiAlertProto { code: "c".to_string(), message: String::new(), blocking: true }],
        stages: vec![],
    };
    let bytes = m.encode_to_vec();
    assert_eq!(
        bytes,
        vec![0x08, 0x02, 0x1A, 0x01, b'a', 0x20, 0xAC, 0x02, 0x3A, 0x05, 0x0A, 0x01, b'c', 0x18, 0x01]
    );
    let decoded = FfiMetadataProto::decode(&bytes).expect("decode");
    assert_eq!(decoded, m);
}

#[test]
fn negative_int32_round_trips_through_ten_byte_varint() {
    let m = FfiMetadataProto {
        verdict: -1,
        file_kind: 0,
        mime: String::new(),
        original_size: 0,
        output_size: 0,
        sha256: String::new(),
        alerts: vec![],
        stages: vec![],
    };
    let bytes = m.encode_to_vec();
    assert_eq!(bytes.len(), 11);
    assert_eq!(FfiMetadataProto::decode(&bytes).expect("decode").verdict, -1);
}

#[test]
fn decoder_skips_unknown_fields_and_rejects_truncation() {
    // field 15 (varint) is unknown and skipped; then verdict = 1
    let bytes = vec![0x78, 0x05, 0x08, 0x01];
    assert_eq!(FfiMetadataProto::decode(&bytes).expect("decode").verdict, 1);
    // a string field whose length runs past the end
    assert!(FfiMetadataProto::decode(&[0x1A, 0x05, b'a']).is_err());
    // tag 0 is invalid
    assert!(FfiMetadataProto::decode(&[0x00, 0x01]).is_err());
    // invalid UTF-8 in a string field
    assert!(FfiMetadataProto::decode(&[0x1A, 0x01, 0xFF]).is_err());
}

fn result_with(verdict: DefenseVerdict) -> DefendResult {
    DefendResult {
        verdict,
        alerts: vec![],
        stages: vec![],
        artifact: DefendedArtifact {
            file_kind: mdo_cdr::FileKind::Other,
            mime: "application/octet-stream".into(),
            original_size: 4,
            output_size: 4,
            sha256: "candidate-digest".into(),
            output_bytes: b"data".to_vec(),
        },
        diagnostics: DefenseDiagnostics::default(),
    }
}

#[test]
fn ffi_defensively_drops_nonclean_payloads() {
    for verdict in [DefenseVerdict::Blocked, DefenseVerdict::Suspicious] {
        let (code, metadata, output) = success_payload(result_with(verdict));
        assert!(output.is_empty());
        assert_ne!(code, FFI_VERDICT_CLEAN);
        let decoded = FfiMetadataProto::decode(&metadata).expect("decode");
        assert_eq!(decoded.sha256, "candidate-digest");
    }
    let (code, _, output) = success_payload(result_with(DefenseVerdict::Clean));
    assert_eq!(code, FFI_VERDICT_CLEAN);
    assert_eq!(output, b"data".to_vec());
}

#[test]
fn error_payload_is_field_one() {
    assert_eq!(error_payload("no".to_string()), vec![0x0A, 0x02, b'n', b'o']);
}

#[test]
fn metadata_with_alerts_and_stages_round_trips() {
    let original = FfiMetadataProto {
        verdict: 2,
        file_kind: 5,
        mime: "image/apng".to_string(),
        original_size: 300,
        output_size: 1 << 40,
        sha256: "ab".repeat(32),
        alerts: vec![
            FfiAlertProto { code: "a".to_string(), message: "Звіт ✓".to_string(), blocking: true },
            FfiAlertProto { code: String::new(), message: "m".to_string(), blocking: false },
        ],
        stages: vec![
            FfiPipelineStageProto { stage: 9, status: 2, detail: "x".repeat(200) },
            FfiPipelineStageProto { stage: 0, status: -3, detail: String::new() },
        ],
    };
    let decoded = FfiMetadataProto::decode(&original.encode_to_vec()).expect("decodes");
    assert_eq!(decoded, original);
}
