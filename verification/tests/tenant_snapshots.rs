use mdo_cdr::policy::DefensePolicy;
use mdo_cdr::registry::{TenantPolicySnapshot, TenantSlots};
use mdo_cdr::tenant::{
    canonical_media_snapshot_payload, HmacKeyRing, HmacTenantMediaLimitsSnapshot, HmacVerificationOutcome,
    SignedTenantMediaLimitsSnapshot, TenantMediaLimitsOverride, TenantMediaLimitsSnapshot, TenantOverrideProvenance,
    TenantPolicyRemoveResult, TenantPolicyUpdateResult, TenantPolicyVersion,
};

fn media_snapshot(actor: &str, source: &str) -> TenantMediaLimitsSnapshot {
    TenantMediaLimitsSnapshot {
        tenant_id: "tenant-media-signing".to_string(),
        version: TenantPolicyVersion(103),
        limits: Some(TenantMediaLimitsOverride {
            video_max_duration_secs: Some(44),
            video_max_bitrate_kbps: None,
            audio_max_duration_secs: None,
            audio_max_bitrate_kbps: None,
            audio_max_channels: None,
        }),
        provenance: Some(TenantOverrideProvenance {
            actor: actor.to_string(),
            source: source.to_string(),
            reason: Some(String::new()),
            updated_at_unix_ms: 1,
        }),
    }
}

#[test]
fn tenant_media_signatures_distinguish_delimited_provenance_values() {
    let first = SignedTenantMediaLimitsSnapshot::sign(media_snapshot("a|b", "c"));
    let second = SignedTenantMediaLimitsSnapshot::sign(media_snapshot("a", "b|c"));
    assert_ne!(first.sha256, second.sha256);
}

#[test]
fn media_payload_is_compact_json() {
    let payload = canonical_media_snapshot_payload(&media_snapshot("a\"b", "c\n"));
    assert_eq!(
        payload,
        "{\"tenant_id\":\"tenant-media-signing\",\"version\":103,\"limits\":{\"video_max_duration_secs\":44,\"video_max_bitrate_kbps\":null,\"audio_max_duration_secs\":null,\"audio_max_bitrate_kbps\":null,\"audio_max_channels\":null},\"provenance\":{\"actor\":\"a\\\"b\",\"source\":\"c\\n\",\"reason\":\"\",\"updated_at_unix_ms\":1}}"
    );
}

#[test]
fn signed_media_snapshot_verifies_until_tampered() {
    let mut signed = SignedTenantMediaLimitsSnapshot::sign(media_snapshot("ops", "console"));
    assert!(signed.verify());
    assert_eq!(signed.sha256.len(), 64);
    signed.snapshot.version = TenantPolicyVersion(104);
    assert!(!signed.verify());
}

#[test]
fn hmac_media_snapshot_verifies_only_with_its_secret() {
    let signed = HmacTenantMediaLimitsSnapshot::sign(media_snapshot("ops", "console"), b"secret");
    assert_eq!(signed.key_id, "default");
    assert!(signed.verify(b"secret"));
    assert!(!signed.verify(b"other"));
}

#[test]
fn keyring_rotation_grace_and_usage() {
    let mut keyring = HmacKeyRing::new("new-key", b"new-secret".to_vec())
        .with_key("old-key", b"old-secret".to_vec())
        .with_grace_period_ms(10_000);
    assert_eq!(keyring.active_key_id(), "new-key");
    assert_eq!(keyring.secret_for("old-key"), Some(&b"old-secret"[..]));
    assert_eq!(keyring.secret_for("missing"), None);
    assert!(keyring.deprecate_key_at("old-key", 1_000));
    assert!(!keyring.deprecate_key_at("missing", 1_000));

    let old = HmacTenantMediaLimitsSnapshot::sign_with_key(media_snapshot("ops", "console"), "old-key", b"old-secret");
    assert_eq!(old.verify_with_keyring_outcome(&keyring, 9_000), HmacVerificationOutcome::VerifiedInGrace);
    assert!(!old.verify_with_keyring_at(&keyring, 11_001));
    let wrong = HmacTenantMediaLimitsSnapshot::sign_with_key(media_snapshot("ops", "console"), "new-key", b"wrong");
    assert_eq!(
        wrong.verify_with_keyring_outcome(&keyring, 0),
        HmacVerificationOutcome::RejectedInvalidSignature
    );
    let unknown = HmacTenantMediaLimitsSnapshot::sign_with_key(media_snapshot("ops", "console"), "gone", b"x");
    assert_eq!(unknown.verify_with_keyring_outcome(&keyring, 0), HmacVerificationOutcome::RejectedUnknownKey);

    let usage = keyring.usage_snapshot();
    let old_usage = usage.get("old-key").expect("old-key usage");
    assert_eq!(old_usage.seen, 2);
    assert_eq!(old_usage.verified_in_grace, 1);
    assert_eq!(old_usage.rejected_expired, 1);
    assert_eq!(usage.get("new-key").expect("new-key usage").rejected_invalid_signature, 1);
    assert_eq!(usage.get("gone").expect("gone usage").rejected_unknown_key, 1);
}

#[test]
fn version_next_saturates() {
    assert_eq!(TenantPolicyVersion::initial(), TenantPolicyVersion(1));
    assert_eq!(TenantPolicyVersion(7).next(), TenantPolicyVersion(8));
    assert_eq!(TenantPolicyVersion(u64::MAX).next(), TenantPolicyVersion(u64::MAX));
}

#[test]
fn stale_updates_and_removals_are_ignored() {
    let fallback = DefensePolicy::default();
    let mut slots = TenantSlots::new();
    let blocked = DefensePolicy { blocked_extensions: vec!["txt".to_string()], ..DefensePolicy::default() };
    assert_eq!(
        slots.upsert_if_newer("streamed", TenantPolicyVersion(10), blocked, None, &fallback),
        TenantPolicyUpdateResult::Applied { version: TenantPolicyVersion(10) }
    );
    assert_eq!(
        slots.upsert_if_newer("streamed", TenantPolicyVersion(9), DefensePolicy::default(), None, &fallback),
        TenantPolicyUpdateResult::IgnoredStale { current_version: TenantPolicyVersion(10) }
    );
    let defender = slots.resolve("streamed").expect("tenant defender");
    assert_eq!(defender.policy().blocked_extensions, vec!["txt".to_string()]);
    assert_eq!(
        slots.remove_if_newer("streamed", TenantPolicyVersion(9), &fallback),
        TenantPolicyRemoveResult::IgnoredStale { current_version: TenantPolicyVersion(10) }
    );
    assert_eq!(
        slots.remove_if_newer("streamed", TenantPolicyVersion(11), &fallback),
        TenantPolicyRemoveResult::Applied { version: TenantPolicyVersion(11) }
    );
    assert!(slots.resolve("streamed").is_none());
    assert_eq!(
        slots.remove_if_newer("streamed", TenantPolicyVersion(11), &fallback),
        TenantPolicyRemoveResult::AlreadyRemoved { version: TenantPolicyVersion(11) }
    );
}

#[test]
fn media_override_keeps_base_policy_and_exports() {
    let fallback = DefensePolicy::default();
    let mut slots = TenantSlots::new();
    let base = DefensePolicy { blocked_extensions: vec!["txt".to_string()], ..DefensePolicy::default() };
    slots.upsert("t", base, None, &fallback);
    let limits = TenantMediaLimitsOverride { video_max_duration_secs: Some(44), ..TenantMediaLimitsOverride::default() };
    assert_eq!(
        slots.upsert_media_limits_if_newer("t", TenantPolicyVersion(5), limits, None, &fallback),
        TenantPolicyUpdateResult::Applied { version: TenantPolicyVersion(5) }
    );
    let defender = slots.resolve("t").expect("defender");
    assert_eq!(defender.policy().video.max_duration_secs, 44);
    assert_eq!(defender.policy().blocked_extensions, vec!["txt".to_string()]);
    let exported = slots.export(&fallback);
    assert_eq!(exported.len(), 1);
    assert_eq!(exported[0].version, TenantPolicyVersion(5));

    let report = slots.import_snapshots(
        vec![
            TenantPolicySnapshot {
                tenant_id: "t".to_string(),
                version: TenantPolicyVersion(4),
                policy: None,
                provenance: None,
            },
            TenantPolicySnapshot {
                tenant_id: "u".to_string(),
                version: TenantPolicyVersion(1),
                policy: Some(DefensePolicy::default()),
                provenance: None,
            },
        ],
        &fallback,
    );
    assert_eq!(report.remove_ignored_stale, 1);
    assert_eq!(report.upsert_applied, 1);
    assert!(slots.resolve("u").is_some());
}
