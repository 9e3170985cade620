use std::time::Instant;

use mdo_cdr::pipeline::{Preparation, RebuildStart};
use mdo_cdr::policy::{DefensePolicy, VideoPolicy};
use mdo_cdr::registry::TenantPolicySnapshot;
use mdo_cdr::tenant::{
    HmacKeyRing, HmacTenantMediaLimitsSnapshot, SignedTenantMediaLimitsSnapshot, TenantMediaLimitsOverride,
    TenantMediaLimitsSnapshot, TenantOverrideProvenance, TenantPolicyRemoveResult, TenantPolicyUpdateResult,
    TenantPolicyVersion, TenantSnapshotImportReport,
};
use mdo_cdr::tenant_registry::TenantDefenderRegistry;
use mdo_cdr::validation::{read_candidate, OutputRead};
use mdo_cdr::{DefendResult, DefenderError, DefenseContext, FileDefender};

fn entropy_label(bytes: &[u8]) -> String {
    let mut frequencies = [0usize; 256];
    for byte in bytes {
        frequencies[*byte as usize] += 1;
    }
    let length = bytes.len() as f64;
    let mut entropy = 0.0f64;
    for frequency in frequencies {
        if frequency > 0 {
            let probability = frequency as f64 / length;
            entropy -= probability * probability.log2();
        }
    }
    format!("{entropy:.3}")
}

/// One run of the pipeline for files that need no external runtime.
fn defend(
    defender: &FileDefender,
    input: Vec<u8>,
    file_name: Option<&str>,
    context: DefenseContext,
) -> Result<DefendResult, DefenderError> {
    let started = Instant::now();
    let original_size = input.len() as u64;
    let prepared = match defender.begin_defense(&input, file_name, &context, &started)? {
        Preparation::Blocked(result) => return Ok(result),
        Preparation::Ready(prepared) => prepared,
    };
    let mut rebuild_context = context.clone();
    rebuild_context.started_at = Some(Instant::now());
    rebuild_context.timeout_ms = defender.policy().max_handler_duration_ms;
    let entropy = entropy_label(&input);
    let kind = prepared.file_kind;
    let rebuilt = match defender.start_rebuild(kind, input.clone(), rebuild_context.clone(), &entropy) {
        RebuildStart::Done(rebuilt) => rebuilt,
        _ => panic!("this run needs an external media runtime"),
    };
    let artifact = defender.recover_rebuild(kind, rebuilt, input, rebuild_context.clone(), &entropy)?;
    let reviewed = defender.review_candidate(prepared, file_name, artifact, original_size)?;
    let read = match read_candidate(reviewed.file_kind, &reviewed.output_bytes, defender.policy(), &rebuild_context) {
        OutputRead::Finished(read) => read,
        _ => panic!("this run needs an external media reader"),
    };
    Ok(defender.finish_defense(reviewed, read, original_size, &context, &started))
}

/// A run for a tenant: its own defender when it has one, else the fallback.
fn defend_for_tenant(
    registry: &TenantDefenderRegistry,
    tenant_id: Option<&str>,
    input: Vec<u8>,
    file_name: Option<&str>,
) -> Result<DefendResult, DefenderError> {
    let mut context = DefenseContext::default();
    if let Some(tenant_id) = tenant_id {
        context.tenant_id = Some(tenant_id.to_string());
    }
    let defender = registry.resolve(tenant_id);
    defend(&defender, input, file_name, context)
}

fn blocking_txt() -> DefensePolicy {
    DefensePolicy { blocked_extensions: vec!["txt".to_string()], ..DefensePolicy::default() }
}

fn report(
    upsert_applied: usize,
    upsert_ignored_stale: usize,
    remove_applied: usize,
    remove_ignored_stale: usize,
    remove_already_removed: usize,
    rejected_invalid_signature: usize,
) -> TenantSnapshotImportReport {
    TenantSnapshotImportReport {
        upsert_applied,
        upsert_ignored_stale,
        remove_applied,
        remove_ignored_stale,
        remove_already_removed,
        rejected_invalid_signature,
    }
}

fn only_video_duration(secs: u64) -> TenantMediaLimitsOverride {
    TenantMediaLimitsOverride {
        video_max_duration_secs: Some(secs),
        video_max_bitrate_kbps: None,
        audio_max_duration_secs: None,
        audio_max_bitrate_kbps: None,
        audio_max_channels: None,
    }
}

fn expect_blocked_extension(result: Result<DefendResult, DefenderError>, expected: &str) {
    match result {
        Err(DefenderError::BlockedExtension { extension }) => assert_eq!(extension, expected),
        other => panic!("expected BlockedExtension, got {other:?}"),
    }
}

#[test]
fn tenant_registry_uses_tenant_snapshot_if_present() {
    let fallback = DefensePolicy::default();
    let tenant_policy = DefensePolicy { blocked_extensions: vec!["bin".to_string()], ..DefensePolicy::default() };
    let registry = TenantDefenderRegistry::with_seeded_tenants(fallback, vec![("enterprise".to_string(), tenant_policy)]);
    let result = defend_for_tenant(&registry, Some("enterprise"), b"payload".to_vec(), Some("sample.bin"));
    expect_blocked_extension(result, "bin");
}

#[test]
fn tenant_registry_falls_back_when_tenant_missing() {
    let fallback = DefensePolicy { blocked_extensions: vec!["bin".to_string()], ..DefensePolicy::default() };
    let registry = TenantDefenderRegistry::new(fallback);
    let result = defend_for_tenant(&registry, Some("missing-tenant"), b"payload".to_vec(), Some("sample.bin"));
    expect_blocked_extension(result, "bin");
}

#[test]
fn tenant_registry_upsert_and_remove_are_visible() {
    let registry = TenantDefenderRegistry::new(DefensePolicy::default());
    registry.upsert_tenant_policy("public", blocking_txt());
    let blocked = defend_for_tenant(&registry, Some("public"), b"payload".to_vec(), Some("note.txt"));
    expect_blocked_extension(blocked, "txt");

    registry.remove_tenant_policy("public");
    let unblocked = defend_for_tenant(&registry, Some("public"), b"payload".to_vec(), Some("note.txt"));
    assert!(unblocked.is_ok());
}

#[test]
fn tenant_registry_rejects_stale_versioned_upsert() {
    let registry = TenantDefenderRegistry::new(DefensePolicy::default());
    let applied = registry.upsert_tenant_policy_if_newer("streamed", TenantPolicyVersion(10), blocking_txt());
    assert_eq!(applied, TenantPolicyUpdateResult::Applied { version: TenantPolicyVersion(10) });

    let stale = registry.upsert_tenant_policy_if_newer("streamed", TenantPolicyVersion(9), DefensePolicy::default());
    assert_eq!(stale, TenantPolicyUpdateResult::IgnoredStale { current_version: TenantPolicyVersion(10) });

    let result = defend_for_tenant(&registry, Some("streamed"), b"payload".to_vec(), Some("note.txt"));
    expect_blocked_extension(result, "txt");
}

#[test]
fn tenant_registry_rejects_stale_versioned_remove() {
    let registry = TenantDefenderRegistry::new(DefensePolicy::default());
    let applied = registry.upsert_tenant_policy_if_newer("streamed", TenantPolicyVersion(12), blocking_txt());
    assert_eq!(applied, TenantPolicyUpdateResult::Applied { version: TenantPolicyVersion(12) });

    let stale_remove = registry.remove_tenant_policy_if_newer("streamed", TenantPolicyVersion(11));
    assert_eq!(stale_remove, TenantPolicyRemoveResult::IgnoredStale { current_version: TenantPolicyVersion(12) });

    let applied_remove = registry.remove_tenant_policy_if_newer("streamed", TenantPolicyVersion(13));
    assert_eq!(applied_remove, TenantPolicyRemoveResult::Applied { version: TenantPolicyVersion(13) });

    let stale_upsert =
        registry.upsert_tenant_policy_if_newer("streamed", TenantPolicyVersion(12), DefensePolicy::default());
    assert_eq!(stale_upsert, TenantPolicyUpdateResult::IgnoredStale { current_version: TenantPolicyVersion(13) });
}

#[test]
fn tenant_registry_can_export_and_import_snapshots() {
    let source = TenantDefenderRegistry::new(DefensePolicy::default());
    let applied = source.upsert_tenant_policy_if_newer("tenant-a", TenantPolicyVersion(21), blocking_txt());
    assert_eq!(applied, TenantPolicyUpdateResult::Applied { version: TenantPolicyVersion(21) });
    let remove = source.remove_tenant_policy_if_newer("tenant-b", TenantPolicyVersion(7));
    assert_eq!(remove, TenantPolicyRemoveResult::Applied { version: TenantPolicyVersion(7) });

    let snapshots = source.export_snapshots();
    let target = TenantDefenderRegistry::new(DefensePolicy::default());
    let imported = target.import_snapshots_if_newer(snapshots);
    assert_eq!(imported, report(1, 0, 1, 0, 0, 0));

    let blocked = defend_for_tenant(&target, Some("tenant-a"), b"payload".to_vec(), Some("note.txt"));
    expect_blocked_extension(blocked, "txt");

    let removed_fallback = defend_for_tenant(&target, Some("tenant-b"), b"payload".to_vec(), Some("note.txt"));
    match removed_fallback {
        Ok(_) => {},
        other => panic!("expected removed tenant to fall back, got {other:?}"),
    }
}

#[test]
fn tenant_registry_import_ignores_stale_snapshots() {
    let registry = TenantDefenderRegistry::new(DefensePolicy::default());
    let first = registry.upsert_tenant_policy_if_newer("tenant-x", TenantPolicyVersion(30), blocking_txt());
    assert_eq!(first, TenantPolicyUpdateResult::Applied { version: TenantPolicyVersion(30) });

    let stale = vec![
        TenantPolicySnapshot {
            tenant_id: "tenant-x".to_string(),
            version: TenantPolicyVersion(29),
            policy: Some(DefensePolicy::default()),
            provenance: None,
        },
        TenantPolicySnapshot {
            tenant_id: "tenant-y".to_string(),
            version: TenantPolicyVersion(5),
            policy: None,
            provenance: None,
        },
    ];
    let imported = registry.import_snapshots_if_newer(stale);
    assert_eq!(imported, report(0, 1, 1, 0, 0, 0));

    let still_blocked = defend_for_tenant(&registry, Some("tenant-x"), b"payload".to_vec(), Some("note.txt"));
    expect_blocked_extension(still_blocked, "txt");
}

#[test]
fn tenant_registry_imports_media_limit_overrides() {
    let registry = TenantDefenderRegistry::new(DefensePolicy::default());
    let applied = registry.upsert_tenant_policy_if_newer("tenant-media", TenantPolicyVersion(40), DefensePolicy::default());
    assert_eq!(applied, TenantPolicyUpdateResult::Applied { version: TenantPolicyVersion(40) });

    let overrides = vec![TenantMediaLimitsSnapshot {
        tenant_id: "tenant-media".to_string(),
        version: TenantPolicyVersion(41),
        limits: Some(TenantMediaLimitsOverride {
            video_max_duration_secs: Some(90),
            video_max_bitrate_kbps: Some(2500),
            audio_max_duration_secs: Some(70),
            audio_max_bitrate_kbps: Some(256),
            audio_max_channels: Some(1),
        }),
        provenance: None,
    }];
    let imported = registry.import_media_limits_snapshots_if_newer(overrides);
    assert_eq!(imported, report(1, 0, 0, 0, 0, 0));

    let snapshot = registry
        .export_snapshots()
        .into_iter()
        .find(|value| value.tenant_id == "tenant-media")
        .expect("expected tenant-media snapshot after override import");
    let policy = snapshot.policy.expect("expected tenant-media to remain active");
    assert_eq!(policy.video.max_duration_secs, 90);
    assert_eq!(policy.video.max_bitrate_kbps, 2500);
    assert_eq!(policy.audio.max_duration_secs, 70);
    assert_eq!(policy.audio.max_bitrate_kbps, 256);
    assert_eq!(policy.audio.max_channels, 1);
}

#[test]
fn tenant_registry_clears_media_limit_override_without_dropping_base_policy() {
    let registry = TenantDefenderRegistry::new(DefensePolicy::default());
    let base = DefensePolicy {
        blocked_extensions: vec!["txt".to_string()],
        video: VideoPolicy { max_duration_secs: 180, ..DefensePolicy::default().video },
        ..DefensePolicy::default()
    };
    let seed = registry.upsert_tenant_policy_if_newer("tenant-media-clear", TenantPolicyVersion(40), base.duplicate());
    assert_eq!(seed, TenantPolicyUpdateResult::Applied { version: TenantPolicyVersion(40) });

    let apply = registry.import_media_limits_snapshots_if_newer(vec![TenantMediaLimitsSnapshot {
        tenant_id: "tenant-media-clear".to_string(),
        version: TenantPolicyVersion(41),
        limits: Some(only_video_duration(90)),
        provenance: Some(TenantOverrideProvenance {
            actor: "secops".to_string(),
            source: "runtime-hardening".to_string(),
            reason: Some("incident".to_string()),
            updated_at_unix_ms: 1_715_555_100_000,
        }),
    }]);
    assert_eq!(apply, report(1, 0, 0, 0, 0, 0));

    let clear = registry.import_media_limits_snapshots_if_newer(vec![TenantMediaLimitsSnapshot {
        tenant_id: "tenant-media-clear".to_string(),
        version: TenantPolicyVersion(42),
        limits: None,
        provenance: Some(TenantOverrideProvenance {
            actor: "secops".to_string(),
            source: "runtime-hardening".to_string(),
            reason: Some("resolved".to_string()),
            updated_at_unix_ms: 1_715_555_200_000,
        }),
    }]);
    assert_eq!(clear, report(0, 0, 1, 0, 0, 0));

    let snapshot = registry
        .export_snapshots()
        .into_iter()
        .find(|value| value.tenant_id == "tenant-media-clear")
        .expect("expected tenant-media-clear snapshot after clearing override");
    let policy = snapshot.policy.expect("expected base tenant policy to remain after clearing override");
    assert_eq!(policy.video.max_duration_secs, 180);

    let result = defend_for_tenant(&registry, Some("tenant-media-clear"), b"payload".to_vec(), Some("note.txt"));
    expect_blocked_extension(result, "txt");
}

#[test]
fn tenant_registry_ignores_stale_media_limit_overrides() {
    let registry = TenantDefenderRegistry::new(DefensePolicy::default());
    let seed = registry.upsert_tenant_policy_if_newer("tenant-media", TenantPolicyVersion(50), DefensePolicy::default());
    assert_eq!(seed, TenantPolicyUpdateResult::Applied { version: TenantPolicyVersion(50) });

    let stale = vec![TenantMediaLimitsSnapshot {
        tenant_id: "tenant-media".to_string(),
        version: TenantPolicyVersion(49),
        limits: Some(only_video_duration(45)),
        provenance: None,
    }];
    let imported = registry.import_media_limits_snapshots_if_newer(stale);
    assert_eq!(imported, report(0, 1, 0, 0, 0, 0));
}

#[test]
fn tenant_registry_preserves_override_provenance_on_import() {
    let registry = TenantDefenderRegistry::new(DefensePolicy::default());
    let snapshots = vec![TenantPolicySnapshot {
        tenant_id: "tenant-prov".to_string(),
        version: TenantPolicyVersion(77),
        policy: Some(DefensePolicy::default()),
        provenance: Some(TenantOverrideProvenance {
            actor: "secops-bot".to_string(),
            source: "control-plane".to_string(),
            reason: Some("incident-123".to_string()),
            updated_at_unix_ms: 1_715_555_000_000,
        }),
    }];
    let imported = registry.import_snapshots_if_newer(snapshots);
    assert_eq!(imported, report(1, 0, 0, 0, 0, 0));

    let snapshot = registry
        .export_snapshots()
        .into_iter()
        .find(|value| value.tenant_id == "tenant-prov")
        .expect("expected tenant-prov snapshot");
    let provenance = snapshot.provenance.expect("expected provenance after import");
    assert_eq!(provenance.actor, "secops-bot");
    assert_eq!(provenance.source, "control-plane");
    assert_eq!(provenance.reason.as_deref(), Some("incident-123"));
    assert_eq!(provenance.updated_at_unix_ms, 1_715_555_000_000);
}

#[test]
fn tenant_registry_imports_signed_media_snapshots_and_rejects_tampered() {
    let registry = TenantDefenderRegistry::new(DefensePolicy::default());
    let seed =
        registry.upsert_tenant_policy_if_newer("tenant-media-signed", TenantPolicyVersion(100), DefensePolicy::default());
    assert_eq!(seed, TenantPolicyUpdateResult::Applied { version: TenantPolicyVersion(100) });

    let good = SignedTenantMediaLimitsSnapshot::sign(TenantMediaLimitsSnapshot {
        tenant_id: "tenant-media-signed".to_string(),
        version: TenantPolicyVersion(101),
        limits: Some(only_video_duration(44)),
        provenance: None,
    });
    let mut bad = SignedTenantMediaLimitsSnapshot::sign(TenantMediaLimitsSnapshot {
        tenant_id: "tenant-media-bad".to_string(),
        version: TenantPolicyVersion(102),
        limits: Some(only_video_duration(12)),
        provenance: None,
    });
    bad.sha256 = "badc0de".to_string();

    let imported = registry.import_signed_media_limits_snapshots_if_newer(vec![good, bad]);
    assert_eq!(imported, report(1, 0, 0, 0, 0, 1));

    let snapshot = registry
        .export_snapshots()
        .into_iter()
        .find(|value| value.tenant_id == "tenant-media-signed")
        .expect("expected signed media snapshot import");
    let policy = snapshot.policy.expect("expected active policy");
    assert_eq!(policy.video.max_duration_secs, 44);
}

#[test]
fn tenant_registry_imports_hmac_media_snapshots_and_rejects_wrong_secret() {
    let registry = TenantDefenderRegistry::new(DefensePolicy::default());
    let seed =
        registry.upsert_tenant_policy_if_newer("tenant-hmac-media", TenantPolicyVersion(300), DefensePolicy::default());
    assert_eq!(seed, TenantPolicyUpdateResult::Applied { version: TenantPolicyVersion(300) });
    let secret = b"media-secret";
    let good = HmacTenantMediaLimitsSnapshot::sign(
        TenantMediaLimitsSnapshot {
            tenant_id: "tenant-hmac-media".to_string(),
            version: TenantPolicyVersion(301),
            limits: Some(only_video_duration(33)),
            provenance: None,
        },
        secret,
    );
    let bad = HmacTenantMediaLimitsSnapshot::sign(
        TenantMediaLimitsSnapshot {
            tenant_id: "tenant-hmac-media-bad".to_string(),
            version: TenantPolicyVersion(302),
            limits: Some(only_video_duration(11)),
            provenance: None,
        },
        b"bad-media-secret",
    );

    let imported = registry.import_hmac_media_limits_snapshots_if_newer(vec![good, bad], secret);
    assert_eq!(imported, report(1, 0, 0, 0, 0, 1));
}

#[test]
fn tenant_registry_rejects_unknown_key_id_after_rotation() {
    let registry = TenantDefenderRegistry::new(DefensePolicy::default());
    let snapshot = HmacTenantMediaLimitsSnapshot::sign_with_key(
        TenantMediaLimitsSnapshot {
            tenant_id: "tenant-rotate-media".to_string(),
            version: TenantPolicyVersion(401),
            limits: Some(only_video_duration(10)),
            provenance: None,
        },
        "old-key",
        b"old-secret",
    );
    let keyring = HmacKeyRing::new("new-key", b"new-secret".to_vec());
    let imported = registry.import_hmac_media_limits_snapshots_with_keyring_if_newer(vec![snapshot], &keyring);
    assert_eq!(imported, report(0, 0, 0, 0, 0, 1));
}

#[test]
fn registry_counts_checked_snapshots_that_failed_as_rejected() {
    let registry = TenantDefenderRegistry::new(DefensePolicy::default());
    let checked = vec![
        (
            TenantPolicySnapshot {
                tenant_id: "checked".to_string(),
                version: TenantPolicyVersion(3),
                policy: Some(blocking_txt()),
                provenance: None,
            },
            true,
        ),
        (
            TenantPolicySnapshot {
                tenant_id: "forged".to_string(),
                version: TenantPolicyVersion(4),
                policy: Some(DefensePolicy::default()),
                provenance: None,
            },
            false,
        ),
    ];
    let imported = registry.import_checked_snapshots_if_newer(checked);
    assert_eq!(imported, report(1, 0, 0, 0, 0, 1));
    let exported = registry.export_snapshots();
    assert!(exported.iter().any(|s| s.tenant_id == "checked"));
    assert!(!exported.iter().any(|s| s.tenant_id == "forged"));
}

#[test]
fn keyring_accepts_previous_key_for_media_snapshots_during_rotation() {
    let registry = TenantDefenderRegistry::new(DefensePolicy::default());
    let snapshot = HmacTenantMediaLimitsSnapshot::sign_with_key(
        TenantMediaLimitsSnapshot {
            tenant_id: "tenant-rotate-media".to_string(),
            version: TenantPolicyVersion(402),
            limits: Some(only_video_duration(10)),
            provenance: None,
        },
        "old-key",
        b"old-secret",
    );
    let keyring = HmacKeyRing::new("new-key", b"new-secret".to_vec()).with_key("old-key", b"old-secret".to_vec());
    let imported = registry.import_hmac_media_limits_snapshots_with_keyring_at_if_newer(vec![snapshot], &keyring, 5_000);
    assert_eq!(imported, report(1, 0, 0, 0, 0, 0));
}

#[test]
fn resolving_without_a_tenant_gives_the_fallback() {
    let fallback = DefensePolicy { blocked_extensions: vec!["zzz".to_string()], ..DefensePolicy::default() };
    let registry = TenantDefenderRegistry::new(fallback);
    registry.upsert_tenant_policy("someone", DefensePolicy::default());
    let defender = registry.resolve(None);
    assert_eq!(defender.policy().blocked_extensions, vec!["zzz".to_string()]);
}
