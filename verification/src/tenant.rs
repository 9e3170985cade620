//! Per-tenant policies: versions, media-limit overrides, signed snapshots
//! for replication, and the HMAC key ring that checks them.
use std::collections::HashMap;
use std::sync::{Arc, Mutex};

use hmac::Mac;
use vstd::prelude::*;
use vstd::string::StrSliceExecFns;
use vstd::string::StringSliceAdditionalSpecFns;

use crate::digest::{hex_char, hex_of, sha256_spec};
use crate::text::decimal;

verus! {

// ── Versions ─────────────────────────────────────────────────────────────

/// The version of a tenant's override; newer versions win.
#[derive(Debug, Clone, Copy, PartialEq, Eq, Structural, PartialOrd, Ord, Hash)]
pub struct TenantPolicyVersion(pub u64);

impl TenantPolicyVersion {
    /// The version of a tenant's first override.
    pub fn initial() -> (res: Self)
        ensures
            res.0 == 1,
    {
        TenantPolicyVersion(1)
    }

    /// The version after this one, staying at `u64::MAX` once there.
    pub fn next(self) -> (res: Self)
        ensures
            res.0 == if self.0 == u64::MAX {
                u64::MAX
            } else {
                (self.0 + 1) as u64
            },
    {
        TenantPolicyVersion(self.0.saturating_add(1))
    }
}

/// The outcome of a versioned update.
#[derive(Debug, Clone, Copy, PartialEq, Eq, Structural)]
pub enum TenantPolicyUpdateResult {
    Applied { version: TenantPolicyVersion },
    IgnoredStale { current_version: TenantPolicyVersion },
}

/// The outcome of a versioned removal.
#[derive(Debug, Clone, Copy, PartialEq, Eq, Structural)]
pub enum TenantPolicyRemoveResult {
    Applied { version: TenantPolicyVersion },
    IgnoredStale { current_version: TenantPolicyVersion },
    AlreadyRemoved { version: TenantPolicyVersion },
}

/// Who changed a tenant's override, from where, why and when.
#[derive(Debug, Clone, PartialEq, Eq)]
pub struct TenantOverrideProvenance {
    pub actor: String,
    pub source: String,
    pub reason: Option<String>,
    pub updated_at_unix_ms: u64,
}

/// Per-tenant media limits laid over a policy; each `Some` replaces the
/// policy's value.
#[derive(Debug, Clone, Copy, PartialEq, Eq, Structural)]
pub struct TenantMediaLimitsOverride {
    pub video_max_duration_secs: Option<u64>,
    pub video_max_bitrate_kbps: Option<u64>,
    pub audio_max_duration_secs: Option<u64>,
    pub audio_max_bitrate_kbps: Option<u64>,
    pub audio_max_channels: Option<u64>,
}

impl Default for TenantMediaLimitsOverride {
    fn default() -> (res: Self)
        ensures
            res.video_max_duration_secs is None,
            res.video_max_bitrate_kbps is None,
            res.audio_max_duration_secs is None,
            res.audio_max_bitrate_kbps is None,
            res.audio_max_channels is None,
    {
        TenantMediaLimitsOverride {
            video_max_duration_secs: None,
            video_max_bitrate_kbps: None,
            audio_max_duration_secs: None,
            audio_max_bitrate_kbps: None,
            audio_max_channels: None,
        }
    }
}

/// A tenant's media-limit override as replicated between nodes; `None`
/// limits clear the override.
#[derive(Debug, Clone)]
pub struct TenantMediaLimitsSnapshot {
    pub tenant_id: String,
    pub version: TenantPolicyVersion,
    pub limits: Option<TenantMediaLimitsOverride>,
    pub provenance: Option<TenantOverrideProvenance>,
}

/// A media snapshot with the SHA-256 of its canonical payload.
#[derive(Debug, Clone)]
pub struct SignedTenantMediaLimitsSnapshot {
    pub snapshot: TenantMediaLimitsSnapshot,
    pub sha256: String,
}

/// A media snapshot with the HMAC-SHA256 of its canonical payload under a
/// named key.
#[derive(Debug, Clone)]
pub struct HmacTenantMediaLimitsSnapshot {
    pub snapshot: TenantMediaLimitsSnapshot,
    pub key_id: String,
    pub hmac_sha256: String,
}

/// How often each outcome was seen for a key.
#[derive(Debug, Clone, Copy, PartialEq, Eq, Structural)]
pub struct HmacKeyUsageStats {
    pub seen: u64,
    pub verified: u64,
    pub verified_in_grace: u64,
    pub rejected_unknown_key: u64,
    pub rejected_expired: u64,
    pub rejected_invalid_signature: u64,
}

impl Default for HmacKeyUsageStats {
    fn default() -> (res: Self)
        ensures
            res == (HmacKeyUsageStats {
                seen: 0,
                verified: 0,
                verified_in_grace: 0,
                rejected_unknown_key: 0,
                rejected_expired: 0,
                rejected_invalid_signature: 0,
            }),
    {
        HmacKeyUsageStats {
            seen: 0,
            verified: 0,
            verified_in_grace: 0,
            rejected_unknown_key: 0,
            rejected_expired: 0,
            rejected_invalid_signature: 0,
        }
    }
}

/// How checking an HMAC against a key ring ended.
#[derive(Debug, Clone, Copy, PartialEq, Eq, Structural)]
pub enum HmacVerificationOutcome {
    VerifiedCurrent,
    VerifiedInGrace,
    RejectedUnknownKey,
    RejectedExpired,
    RejectedInvalidSignature,
}

impl HmacVerificationOutcome {
    pub open spec fn spec_is_verified(self) -> bool {
        self is VerifiedCurrent || self is VerifiedInGrace
    }

    /// The payload was accepted, with a current key or one in its grace
    /// period.
    pub fn is_verified(self) -> (res: bool)
        ensures
            res == self.spec_is_verified(),
    {
        match self {
            HmacVerificationOutcome::VerifiedCurrent | HmacVerificationOutcome::VerifiedInGrace => true,
            _ => false,
        }
    }
}

/// What an import did with each snapshot.
#[derive(Debug, Clone, Copy, PartialEq, Eq, Structural)]
pub struct TenantSnapshotImportReport {
    pub upsert_applied: usize,
    pub upsert_ignored_stale: usize,
    pub remove_applied: usize,
    pub remove_ignored_stale: usize,
    pub remove_already_removed: usize,
    pub rejected_invalid_signature: usize,
}

/// A report of no snapshots.
pub fn empty_import_report() -> (res: TenantSnapshotImportReport)
    ensures
        res == (TenantSnapshotImportReport {
            upsert_applied: 0,
            upsert_ignored_stale: 0,
            remove_applied: 0,
            remove_ignored_stale: 0,
            remove_already_removed: 0,
            rejected_invalid_signature: 0,
        }),
{
    TenantSnapshotImportReport {
        upsert_applied: 0,
        upsert_ignored_stale: 0,
        remove_applied: 0,
        remove_ignored_stale: 0,
        remove_already_removed: 0,
        rejected_invalid_signature: 0,
    }
}

// ── The canonical payload of a media snapshot ────────────────────────────

/// A character inside a JSON string: quote, backslash and control
/// characters are escaped, with the short forms where JSON has them and
/// `\u00XX` in lower-case hexadecimal otherwise.
pub open spec fn json_escape(c: char) -> Seq<char> {
    if c == '"' {
        seq!['\\', '"']
    } else if c == '\\' {
        seq!['\\', '\\']
    } else if c == '\u{8}' {
        seq!['\\', 'b']
    } else if c == '\u{c}' {
        seq!['\\', 'f']
    } else if c == '\n' {
        seq!['\\', 'n']
    } else if c == '\r' {
        seq!['\\', 'r']
    } else if c == '\t' {
        seq!['\\', 't']
    } else if (c as u32) < 0x20 {
        seq!['\\', 'u', '0', '0', hex_char((c as u32) as int / 16), hex_char((c as u32) as int % 16)]
    } else {
        seq![c]
    }
}

pub open spec fn json_escaped(s: Seq<char>) -> Seq<char>
    decreases s.len(),
{
    if s.len() == 0 {
        Seq::empty()
    } else {
        json_escaped(s.drop_last()) + json_escape(s.last())
    }
}

/// A JSON string literal.
pub open spec fn json_string(s: Seq<char>) -> Seq<char> {
    seq!['"'] + json_escaped(s) + seq!['"']
}

pub open spec fn json_opt_u64(v: Option<u64>) -> Seq<char> {
    match v {
        Some(n) => decimal(n as nat),
        None => "null"@,
    }
}

pub open spec fn json_opt_string(v: Option<String>) -> Seq<char> {
    match v {
        Some(s) => json_string(s@),
        None => "null"@,
    }
}

/// The JSON object of a media-limit override, fields in declaration order.
pub open spec fn limits_json(l: TenantMediaLimitsOverride) -> Seq<char> {
    "{\"video_max_duration_secs\":"@ + json_opt_u64(l.video_max_duration_secs) + ",\"video_max_bitrate_kbps\":"@
        + json_opt_u64(l.video_max_bitrate_kbps) + ",\"audio_max_duration_secs\":"@ + json_opt_u64(
        l.audio_max_duration_secs,
    ) + ",\"audio_max_bitrate_kbps\":"@ + json_opt_u64(l.audio_max_bitrate_kbps) + ",\"audio_max_channels\":"@
        + json_opt_u64(l.audio_max_channels) + "}"@
}

/// The JSON object of a provenance record.
pub open spec fn provenance_json(p: TenantOverrideProvenance) -> Seq<char> {
    "{\"actor\":"@ + json_string(p.actor@) + ",\"source\":"@ + json_string(p.source@) + ",\"reason\":"@
        + json_opt_string(p.reason) + ",\"updated_at_unix_ms\":"@ + decimal(p.updated_at_unix_ms as nat) + "}"@
}

pub open spec fn opt_provenance_json(p: Option<TenantOverrideProvenance>) -> Seq<char> {
    match p {
        Some(v) => provenance_json(v),
        None => "null"@,
    }
}

/// The canonical payload of a media snapshot: compact JSON of the tenant,
/// the version, the limits and the provenance, in that order. Every field
/// takes part, and strings are quoted, so values that only differ in where
/// a delimiter falls give different payloads.
pub open spec fn media_payload(s: TenantMediaLimitsSnapshot) -> Seq<char> {
    "{\"tenant_id\":"@ + json_string(s.tenant_id@) + ",\"version\":"@ + decimal(s.version.0 as nat) + ",\"limits\":"@
        + match s.limits {
        Some(l) => limits_json(l),
        None => "null"@,
    } + ",\"provenance\":"@ + opt_provenance_json(s.provenance) + "}"@
}

/// Append `v` as a JSON string literal.
fn push_json_string(out: &mut String, v: &str)
    ensures
        final(out)@ == old(out)@ + json_string(v@),
{
    out.append("\"");
    let n = v.unicode_len();
    let mut i: usize = 0;
    while i < n
        invariant
            n == v@.len(),
            i <= n,
            out@ == old(out)@ + "\""@ + json_escaped(v@.subrange(0, i as int)),
        decreases n - i,
    {
        let c = v.get_char(i);
        let ghost before = out@;
        if c == '"' {
            out.append("\\\"");
        } else if c == '\\' {
            out.append("\\\\");
        } else if c == '\u{8}' {
            out.append("\\b");
        } else if c == '\u{c}' {
            out.append("\\f");
        } else if c == '\n' {
            out.append("\\n");
        } else if c == '\r' {
            out.append("\\r");
        } else if c == '\t' {
            out.append("\\t");
        } else if (c as u32) < 0x20 {
            let code = c as u32;
            out.append("\\u00");
            out.append(crate::digest::hex_digit((code / 16) as u8));
            out.append(crate::digest::hex_digit((code % 16) as u8));
        } else {
            out.append(v.substring_char(i, i + 1));
        }
        proof {
            reveal_strlit("\\\"");
            reveal_strlit("\\\\");
            reveal_strlit("\\b");
            reveal_strlit("\\f");
            reveal_strlit("\\n");
            reveal_strlit("\\r");
            reveal_strlit("\\t");
            reveal_strlit("\\u00");
            let s = v@.subrange(0, i + 1);
            assert(s.drop_last() =~= v@.subrange(0, i as int));
            assert(s.last() == c);
            assert(out@ =~= before + json_escape(c));
        }
        i = i + 1;
    }
    out.append("\"");
    proof {
        reveal_strlit("\"");
        assert(v@.subrange(0, n as int) =~= v@);
        assert(out@ =~= old(out)@ + json_string(v@));
    }
}

fn push_opt_u64(out: &mut String, v: Option<u64>)
    ensures
        final(out)@ == old(out)@ + json_opt_u64(v),
{
    match v {
        Some(n) => crate::text::push_decimal(out, n),
        None => out.append("null"),
    }
}

fn push_limits(out: &mut String, l: &TenantMediaLimitsOverride)
    ensures
        final(out)@ == old(out)@ + limits_json(*l),
{
    out.append("{\"video_max_duration_secs\":");
    push_opt_u64(out, l.video_max_duration_secs);
    out.append(",\"video_max_bitrate_kbps\":");
    push_opt_u64(out, l.video_max_bitrate_kbps);
    out.append(",\"audio_max_duration_secs\":");
    push_opt_u64(out, l.audio_max_duration_secs);
    out.append(",\"audio_max_bitrate_kbps\":");
    push_opt_u64(out, l.audio_max_bitrate_kbps);
    out.append(",\"audio_max_channels\":");
    push_opt_u64(out, l.audio_max_channels);
    out.append("}");
    proof {
        assert(out@ =~= old(out)@ + limits_json(*l));
    }
}

fn push_provenance(out: &mut String, p: &Option<TenantOverrideProvenance>)
    ensures
        final(out)@ == old(out)@ + opt_provenance_json(*p),
{
    match p {
        Some(v) => {
            out.append("{\"actor\":");
            push_json_string(out, v.actor.as_str());
            out.append(",\"source\":");
            push_json_string(out, v.source.as_str());
            out.append(",\"reason\":");
            match &v.reason {
                Some(r) => push_json_string(out, r.as_str()),
                None => out.append("null"),
            }
            out.append(",\"updated_at_unix_ms\":");
            crate::text::push_decimal(out, v.updated_at_unix_ms);
            out.append("}");
            proof {
                assert(out@ =~= old(out)@ + opt_provenance_json(*p));
            }
        },
        None => out.append("null"),
    }
}

/// The canonical payload of a media snapshot, which its signatures cover.
pub fn canonical_media_snapshot_payload(snapshot: &TenantMediaLimitsSnapshot) -> (res: String)
    ensures
        res@ == media_payload(*snapshot),
{
    let mut out = "{\"tenant_id\":".to_owned();
    push_json_string(&mut out, snapshot.tenant_id.as_str());
    out.append(",\"version\":");
    crate::text::push_decimal(&mut out, snapshot.version.0);
    out.append(",\"limits\":");
    match &snapshot.limits {
        Some(l) => push_limits(&mut out, l),
        None => out.append("null"),
    }
    out.append(",\"provenance\":");
    push_provenance(&mut out, &snapshot.provenance);
    out.append("}");
    proof {
        assert(out@ =~= media_payload(*snapshot));
    }
    out
}

// ── Digests ──────────────────────────────────────────────────────────────

/// The HMAC-SHA256 of `payload` under `secret`.
pub uninterp spec fn hmac_sha256_spec(secret: Seq<u8>, payload: Seq<u8>) -> Seq<u8>;

/// Calls `hmac::Hmac::<sha2::Sha256>`: keyed with `secret` (any length is
/// accepted), fed `payload`, finalised to the 32-byte tag.
#[verifier::external_body]
fn hmac_sha256(secret: &[u8], payload: &[u8]) -> (res: Vec<u8>)
    ensures
        res@ == hmac_sha256_spec(secret@, payload@),
        res@.len() == 32,
{
    let mut mac = <hmac::Hmac<sha2::Sha256> as Mac>::new_from_slice(secret).expect("HMAC takes keys of any length");
    mac.update(payload);
    mac.finalize().into_bytes().to_vec()
}

/// The HMAC-SHA256 of `payload` under `secret` in lower-case hexadecimal.
pub fn hmac_sha256_hex(secret: &[u8], payload: &[u8]) -> (res: String)
    ensures
        res@ == hex_of(hmac_sha256_spec(secret@, payload@)),
{
    let tag = hmac_sha256(secret, payload);
    crate::digest::hex_encode(tag.as_slice())
}

/// The SHA-256 digest of a media snapshot's payload, in hexadecimal.
pub open spec fn media_digest(s: TenantMediaLimitsSnapshot) -> Seq<char> {
    hex_of(sha256_spec(vstd::utf8::encode_utf8(media_payload(s))))
}

/// The HMAC of a media snapshot's payload under `secret`, in hexadecimal.
pub open spec fn media_hmac(s: TenantMediaLimitsSnapshot, secret: Seq<u8>) -> Seq<char> {
    hex_of(hmac_sha256_spec(secret, vstd::utf8::encode_utf8(media_payload(s))))
}

impl SignedTenantMediaLimitsSnapshot {
    /// Sign with the SHA-256 of the canonical payload.
    pub fn sign(snapshot: TenantMediaLimitsSnapshot) -> (res: Self)
        ensures
            res.snapshot == snapshot,
            res.sha256@ == media_digest(snapshot),
    {
        let payload = canonical_media_snapshot_payload(&snapshot);
        let sha256 = crate::digest::sha256_hex(payload.as_str().as_bytes());
        SignedTenantMediaLimitsSnapshot { snapshot, sha256 }
    }

    /// The stored digest is the digest of the snapshot's payload.
    pub fn verify(&self) -> (res: bool)
        ensures
            res == (self.sha256@ == media_digest(self.snapshot)),
    {
        let payload = canonical_media_snapshot_payload(&self.snapshot);
        let digest = crate::digest::sha256_hex(payload.as_str().as_bytes());
        digest == self.sha256
    }
}

} // verus!

verus! {

// ── The key ring ─────────────────────────────────────────────────────────

#[verifier::external_type_specification]
#[verifier::external_body]
#[verifier::reject_recursive_types(T)]
pub struct ExMutex<T: ?Sized>(Mutex<T>);

/// One key of the ring.
#[derive(Debug, Clone)]
pub struct HmacKeyEntry {
    pub key_id: String,
    pub secret: Vec<u8>,
    pub deprecated_after_unix_ms: Option<u64>,
}

/// The HMAC keys a node accepts: an active key, older keys that may be
/// deprecated with a grace period, and counters of what each key saw.
#[derive(Debug, Clone)]
pub struct HmacKeyRing {
    active_key_id: String,
    keys: Vec<HmacKeyEntry>,
    grace_period_ms: u64,
    usage: Arc<Mutex<HashMap<String, HmacKeyUsageStats>>>,
}


/// A key as the ring sees it: its secret and when it was deprecated.
pub open spec fn entry_view(e: HmacKeyEntry) -> (Seq<u8>, Option<u64>) {
    (e.secret@, e.deprecated_after_unix_ms)
}

/// The last entry with this id; a later entry replaces an earlier one.
pub open spec fn find_key(keys: Seq<HmacKeyEntry>, k: Seq<char>) -> Option<(Seq<u8>, Option<u64>)>
    decreases keys.len(),
{
    if keys.len() == 0 {
        None
    } else if keys.last().key_id@ == k {
        Some(entry_view(keys.last()))
    } else {
        find_key(keys.drop_last(), k)
    }
}

/// `d + g`, saturating.
pub open spec fn sat_add(d: u64, g: u64) -> u64 {
    if d + g > u64::MAX {
        u64::MAX
    } else {
        (d + g) as u64
    }
}

/// How a key ring answers an HMAC over `payload` claimed to be `provided`:
/// an unknown key is rejected, a deprecated key is rejected once its grace
/// period is over, and otherwise the tag must match.
pub open spec fn hmac_outcome(
    key: Option<(Seq<u8>, Option<u64>)>,
    grace: u64,
    payload: Seq<u8>,
    provided: Seq<char>,
    now: u64,
) -> HmacVerificationOutcome {
    match key {
        None => HmacVerificationOutcome::RejectedUnknownKey,
        Some((secret, deprecated)) => if deprecated matches Some(d) && now > sat_add(d, grace) {
            HmacVerificationOutcome::RejectedExpired
        } else if hex_of(hmac_sha256_spec(secret, payload)) == provided {
            if deprecated is Some {
                HmacVerificationOutcome::VerifiedInGrace
            } else {
                HmacVerificationOutcome::VerifiedCurrent
            }
        } else {
            HmacVerificationOutcome::RejectedInvalidSignature
        },
    }
}

/// The counters after one more outcome: `seen` always, `verified` for both
/// accepting outcomes, and the counter of the outcome itself; all saturate.
pub open spec fn bumped(s: HmacKeyUsageStats, o: HmacVerificationOutcome) -> HmacKeyUsageStats {
    let seen = HmacKeyUsageStats { seen: sat_add(s.seen, 1), ..s };
    match o {
        HmacVerificationOutcome::VerifiedCurrent => HmacKeyUsageStats { verified: sat_add(s.verified, 1), ..seen },
        HmacVerificationOutcome::VerifiedInGrace => HmacKeyUsageStats {
            verified: sat_add(s.verified, 1),
            verified_in_grace: sat_add(s.verified_in_grace, 1),
            ..seen
        },
        HmacVerificationOutcome::RejectedUnknownKey => HmacKeyUsageStats {
            rejected_unknown_key: sat_add(s.rejected_unknown_key, 1),
            ..seen
        },
        HmacVerificationOutcome::RejectedExpired => HmacKeyUsageStats {
            rejected_expired: sat_add(s.rejected_expired, 1),
            ..seen
        },
        HmacVerificationOutcome::RejectedInvalidSignature => HmacKeyUsageStats {
            rejected_invalid_signature: sat_add(s.rejected_invalid_signature, 1),
            ..seen
        },
    }
}

/// Count one more outcome.
pub fn bump_usage(s: HmacKeyUsageStats, o: HmacVerificationOutcome) -> (res: HmacKeyUsageStats)
    ensures
        res == bumped(s, o),
{
    let mut r = s;
    r.seen = s.seen.saturating_add(1);
    match o {
        HmacVerificationOutcome::VerifiedCurrent => {
            r.verified = s.verified.saturating_add(1);
        },
        HmacVerificationOutcome::VerifiedInGrace => {
            r.verified = s.verified.saturating_add(1);
            r.verified_in_grace = s.verified_in_grace.saturating_add(1);
        },
        HmacVerificationOutcome::RejectedUnknownKey => {
            r.rejected_unknown_key = s.rejected_unknown_key.saturating_add(1);
        },
        HmacVerificationOutcome::RejectedExpired => {
            r.rejected_expired = s.rejected_expired.saturating_add(1);
        },
        HmacVerificationOutcome::RejectedInvalidSignature => {
            r.rejected_invalid_signature = s.rejected_invalid_signature.saturating_add(1);
        },
    }
    r
}

/// Adds one outcome to the counters of `key_id` under the usage lock,
/// starting from zero counters for a key not seen yet; does nothing if the
/// lock is poisoned. The counters are shared with other threads, so nothing
/// is stated of them.
#[verifier::external_body]
fn record_usage(usage: &Mutex<HashMap<String, HmacKeyUsageStats>>, key_id: &str, outcome: HmacVerificationOutcome) {
    if let Ok(mut map) = usage.lock() {
        map.entry(key_id.to_owned()).and_modify(|s| *s = bump_usage(*s, outcome)).or_insert_with(
            || bump_usage(HmacKeyUsageStats::default(), outcome),
        );
    }
}

/// A copy of the counters, through `Mutex::lock` and `HashMap::clone`; an
/// empty map if the lock is poisoned.
#[verifier::external_body]
fn usage_copy(usage: &Mutex<HashMap<String, HmacKeyUsageStats>>) -> (res: HashMap<String, HmacKeyUsageStats>) {
    match usage.lock() {
        Ok(map) => map.clone(),
        Err(_) => HashMap::new(),
    }
}

/// An empty counter table behind a fresh lock.
#[verifier::external_body]
fn new_usage() -> (res: Arc<Mutex<HashMap<String, HmacKeyUsageStats>>>) {
    Arc::new(Mutex::new(HashMap::new()))
}

/// Milliseconds since the Unix epoch by the system clock, or 0 if the clock
/// is before the epoch. The clock decides, so nothing is stated of it.
#[verifier::external_body]
pub(crate) fn current_unix_ms() -> (res: u64) {
    match std::time::SystemTime::now().duration_since(std::time::UNIX_EPOCH) {
        Ok(d) => d.as_millis() as u64,
        Err(_) => 0,
    }
}

/// Replacing the last entry with id `k` by one with the same id changes the
/// answer for `k` only.
proof fn lemma_find_key_set(a: Seq<HmacKeyEntry>, b: Seq<HmacKeyEntry>, i: int, k: Seq<char>, q: Seq<char>)
    requires
        a.len() == b.len(),
        0 <= i < a.len(),
        forall|j: int| 0 <= j < a.len() && j != i ==> b[j] == a[j],
        a[i].key_id@ == k,
        b[i].key_id@ == k,
        forall|j: int| i < j < a.len() ==> (#[trigger] a[j]).key_id@ != k,
    ensures
        find_key(b, q) == if q == k {
            Some(entry_view(b[i]))
        } else {
            find_key(a, q)
        },
    decreases a.len(),
{
    if a.len() == i + 1 {
        assert(a.drop_last() =~= b.drop_last());
    } else {
        lemma_find_key_set(a.drop_last(), b.drop_last(), i, k, q);
        assert(b.last() == a.last());
    }
}

impl HmacKeyRing {
    /// The key with this id, if the ring holds one.
    pub closed spec fn key(&self, k: Seq<char>) -> Option<(Seq<u8>, Option<u64>)> {
        find_key(self.keys@, k)
    }

    pub closed spec fn spec_active_key_id(&self) -> Seq<char> {
        self.active_key_id@
    }

    pub closed spec fn spec_grace_period_ms(&self) -> u64 {
        self.grace_period_ms
    }

    /// A ring holding only the active key.
    pub fn new(active_key_id: &str, active_secret: Vec<u8>) -> (res: Self)
        ensures
            res.spec_active_key_id() == active_key_id@,
            res.spec_grace_period_ms() == 0,
            forall|k: Seq<char>| #[trigger]
                res.key(k) == if k == active_key_id@ {
                    Some((active_secret@, None::<u64>))
                } else {
                    None
                },
    {
        let mut keys: Vec<HmacKeyEntry> = Vec::new();
        keys.push(
            HmacKeyEntry { key_id: active_key_id.to_owned(), secret: active_secret, deprecated_after_unix_ms: None },
        );
        let res = HmacKeyRing { active_key_id: active_key_id.to_owned(), keys, grace_period_ms: 0, usage: new_usage() };
        proof {
            assert forall|k: Seq<char>| #[trigger]
                res.key(k) == if k == active_key_id@ {
                    Some((active_secret@, None::<u64>))
                } else {
                    None
                } by {
                assert(res.keys@.drop_last() =~= Seq::<HmacKeyEntry>::empty());
                assert(find_key(Seq::<HmacKeyEntry>::empty(), k) is None);
            }
        }
        res
    }

    /// Add a key, or replace the key with that id (which is then no longer
    /// deprecated).
    pub fn insert_key(&mut self, key_id: &str, secret: Vec<u8>)
        ensures
            final(self).spec_active_key_id() == old(self).spec_active_key_id(),
            final(self).spec_grace_period_ms() == old(self).spec_grace_period_ms(),
            forall|k: Seq<char>| #[trigger]
                final(self).key(k) == if k == key_id@ {
                    Some((secret@, None::<u64>))
                } else {
                    old(self).key(k)
                },
    {
        let ghost before = self.keys@;
        self.keys.push(HmacKeyEntry { key_id: key_id.to_owned(), secret, deprecated_after_unix_ms: None });
        proof {
            assert(self.keys@.drop_last() =~= before);
        }
    }

    /// The ring with one more key.
    pub fn with_key(self, key_id: &str, secret: Vec<u8>) -> (res: Self)
        ensures
            res.spec_active_key_id() == self.spec_active_key_id(),
            res.spec_grace_period_ms() == self.spec_grace_period_ms(),
            forall|k: Seq<char>| #[trigger]
                res.key(k) == if k == key_id@ {
                    Some((secret@, None::<u64>))
                } else {
                    self.key(k)
                },
    {
        let mut ring = self;
        ring.insert_key(key_id, secret);
        ring
    }

    /// The id of the key new snapshots are signed with.
    pub fn active_key_id(&self) -> (res: &str)
        ensures
            res@ == self.spec_active_key_id(),
    {
        self.active_key_id.as_str()
    }

    /// Index of the entry `find_key` reads for `key_id`.
    fn position(&self, key_id: &str) -> (res: Option<usize>)
        ensures
            match res {
                Some(i) => i < self.keys@.len() && self.key(key_id@) == Some(entry_view(self.keys@[i as int]))
                    && self.keys@[i as int].key_id@ == key_id@ && find_key(
                    self.keys@.subrange(0, i as int + 1),
                    key_id@,
                ) == self.key(key_id@),
                None => self.key(key_id@) is None,
            },
            res matches Some(i) ==> forall|j: int| i < j < self.keys@.len() ==> (#[trigger] self.keys@[j]).key_id@ != key_id@,
    {
        let mut n = self.keys.len();
        proof {
            assert(self.keys@.subrange(0, n as int) =~= self.keys@);
        }
        while n > 0
            invariant
                n <= self.keys@.len(),
                find_key(self.keys@.subrange(0, n as int), key_id@) == self.key(key_id@),
                forall|j: int| n <= j < self.keys@.len() ==> (#[trigger] self.keys@[j]).key_id@ != key_id@,
            decreases n,
        {
            let ghost sub = self.keys@.subrange(0, n as int);
            proof {
                assert(sub.drop_last() =~= self.keys@.subrange(0, n - 1));
            }
            if crate::mime::eq_str(&self.keys[n - 1].key_id, key_id) {
                return Some(n - 1);
            }
            n = n - 1;
        }
        None
    }

    /// The secret of the key with this id.
    pub fn secret_for(&self, key_id: &str) -> (res: Option<&[u8]>)
        ensures
            match self.key(key_id@) {
                Some((secret, _)) => res matches Some(r) && r@ == secret,
                None => res is None,
            },
    {
        match self.position(key_id) {
            Some(i) => Some(self.keys[i].secret.as_slice()),
            None => None,
        }
    }

    /// How long after its deprecation a key is still accepted.
    pub fn set_grace_period_ms(&mut self, grace_period_ms: u64)
        ensures
            final(self).spec_grace_period_ms() == grace_period_ms,
            final(self).spec_active_key_id() == old(self).spec_active_key_id(),
            forall|k: Seq<char>| #[trigger] final(self).key(k) == old(self).key(k),
    {
        self.grace_period_ms = grace_period_ms;
    }

    /// The ring with this grace period.
    pub fn with_grace_period_ms(self, grace_period_ms: u64) -> (res: Self)
        ensures
            res.spec_grace_period_ms() == grace_period_ms,
            res.spec_active_key_id() == self.spec_active_key_id(),
            forall|k: Seq<char>| #[trigger] res.key(k) == self.key(k),
    {
        let mut ring = self;
        ring.set_grace_period_ms(grace_period_ms);
        ring
    }

    /// Mark a key as deprecated from this instant on; false if the ring has
    /// no such key.
    pub fn deprecate_key_at(&mut self, key_id: &str, deprecated_after_unix_ms: u64) -> (res: bool)
        ensures
            res == old(self).key(key_id@) is Some,
            final(self).spec_active_key_id() == old(self).spec_active_key_id(),
            final(self).spec_grace_period_ms() == old(self).spec_grace_period_ms(),
            forall|k: Seq<char>| #[trigger]
                final(self).key(k) == if k == key_id@ && res {
                    Some((old(self).key(k)->Some_0.0, Some(deprecated_after_unix_ms)))
                } else {
                    old(self).key(k)
                },
    {
        let i = match self.position(key_id) {
            Some(i) => i,
            None => {
                return false;
            },
        };
        let ghost before = self.keys@;
        let secret = self.keys[i].secret.clone();
        proof {
            assert(secret@ =~= before[i as int].secret@);
        }
        let entry = HmacKeyEntry {
            key_id: self.keys[i].key_id.clone(),
            secret,
            deprecated_after_unix_ms: Some(deprecated_after_unix_ms),
        };
        self.keys.set(i, entry);
        proof {
            assert forall|q: Seq<char>| #[trigger]
                find_key(self.keys@, q) == if q == key_id@ {
                    Some((before[i as int].secret@, Some(deprecated_after_unix_ms)))
                } else {
                    find_key(before, q)
                } by {
                lemma_find_key_set(before, self.keys@, i as int, key_id@, q);
            }
        }
        true
    }

    /// A copy of the usage counters of every key seen so far.
    pub fn usage_snapshot(&self) -> (res: HashMap<String, HmacKeyUsageStats>) {
        usage_copy(&self.usage)
    }

    /// Check `provided` as the HMAC of `payload` under the key `key_id` at
    /// `now_unix_ms`, and count the outcome for that key.
    pub fn verify_digest(&self, key_id: &str, payload: &[u8], provided_digest: &str, now_unix_ms: u64) -> (res:
        HmacVerificationOutcome)
        ensures
            res == hmac_outcome(self.key(key_id@), self.spec_grace_period_ms(), payload@, provided_digest@, now_unix_ms),
    {
        let i = match self.position(key_id) {
            Some(i) => i,
            None => {
                record_usage(&self.usage, key_id, HmacVerificationOutcome::RejectedUnknownKey);
                return HmacVerificationOutcome::RejectedUnknownKey;
            },
        };
        let entry = &self.keys[i];
        let state = match entry.deprecated_after_unix_ms {
            Some(d) => {
                let expires_at = d.saturating_add(self.grace_period_ms);
                if now_unix_ms > expires_at {
                    record_usage(&self.usage, key_id, HmacVerificationOutcome::RejectedExpired);
                    return HmacVerificationOutcome::RejectedExpired;
                }
                HmacVerificationOutcome::VerifiedInGrace
            },
            None => HmacVerificationOutcome::VerifiedCurrent,
        };
        let expected = hmac_sha256_hex(entry.secret.as_slice(), payload);
        if crate::mime::eq_str(&expected, provided_digest) {
            record_usage(&self.usage, key_id, state);
            return state;
        }
        record_usage(&self.usage, key_id, HmacVerificationOutcome::RejectedInvalidSignature);
        HmacVerificationOutcome::RejectedInvalidSignature
    }
}


impl HmacTenantMediaLimitsSnapshot {
    /// Sign under the key `default`.
    pub fn sign(snapshot: TenantMediaLimitsSnapshot, secret: &[u8]) -> (res: Self)
        ensures
            res.snapshot == snapshot,
            res.key_id@ == "default"@,
            res.hmac_sha256@ == media_hmac(snapshot, secret@),
    {
        Self::sign_with_key(snapshot, "default", secret)
    }

    /// Sign with the HMAC-SHA256 of the canonical payload under `secret`,
    /// recording the key's id.
    pub fn sign_with_key(snapshot: TenantMediaLimitsSnapshot, key_id: &str, secret: &[u8]) -> (res: Self)
        ensures
            res.snapshot == snapshot,
            res.key_id@ == key_id@,
            res.hmac_sha256@ == media_hmac(snapshot, secret@),
    {
        let payload = canonical_media_snapshot_payload(&snapshot);
        let hmac_sha256 = hmac_sha256_hex(secret, payload.as_str().as_bytes());
        HmacTenantMediaLimitsSnapshot { snapshot, key_id: key_id.to_owned(), hmac_sha256 }
    }

    /// The stored HMAC is the payload's HMAC under `secret`.
    pub fn verify(&self, secret: &[u8]) -> (res: bool)
        ensures
            res == (self.hmac_sha256@ == media_hmac(self.snapshot, secret@)),
    {
        let payload = canonical_media_snapshot_payload(&self.snapshot);
        let digest = hmac_sha256_hex(secret, payload.as_str().as_bytes());
        crate::mime::eq_str(&digest, self.hmac_sha256.as_str())
    }

    /// How the key ring answers this snapshot at `now_unix_ms`; the outcome
    /// is counted for the snapshot's key.
    pub fn verify_with_keyring_outcome(&self, keyring: &HmacKeyRing, now_unix_ms: u64) -> (res: HmacVerificationOutcome)
        ensures
            res == hmac_outcome(
                keyring.key(self.key_id@),
                keyring.spec_grace_period_ms(),
                vstd::utf8::encode_utf8(media_payload(self.snapshot)),
                self.hmac_sha256@,
                now_unix_ms,
            ),
    {
        let payload = canonical_media_snapshot_payload(&self.snapshot);
        keyring.verify_digest(self.key_id.as_str(), payload.as_str().as_bytes(), self.hmac_sha256.as_str(), now_unix_ms)
    }

    /// Whether the key ring accepts this snapshot at `now_unix_ms`.
    pub fn verify_with_keyring_at(&self, keyring: &HmacKeyRing, now_unix_ms: u64) -> (res: bool)
        ensures
            res == hmac_outcome(
                keyring.key(self.key_id@),
                keyring.spec_grace_period_ms(),
                vstd::utf8::encode_utf8(media_payload(self.snapshot)),
                self.hmac_sha256@,
                now_unix_ms,
            ).spec_is_verified(),
    {
        self.verify_with_keyring_outcome(keyring, now_unix_ms).is_verified()
    }

    /// Whether the key ring accepts this snapshot now, by the system clock.
    pub fn verify_with_keyring(&self, keyring: &HmacKeyRing) -> (res: bool)
        ensures
            exists|now: u64|
                res == #[trigger] hmac_outcome(
                    keyring.key(self.key_id@),
                    keyring.spec_grace_period_ms(),
                    vstd::utf8::encode_utf8(media_payload(self.snapshot)),
                    self.hmac_sha256@,
                    now,
                ).spec_is_verified(),
    {
        let now = current_unix_ms();
        self.verify_with_keyring_at(keyring, now)
    }
}

// ── Laws of signing ──────────────────────────────────────────────────────

/// A signed media snapshot verifies: `verify` accepts what `sign`
/// produced.
pub proof fn law_signed_media_snapshot_verifies(s: TenantMediaLimitsSnapshot, signed: SignedTenantMediaLimitsSnapshot)
    requires
        signed.snapshot == s,
        signed.sha256@ == media_digest(s),
    ensures
        signed.sha256@ == media_digest(signed.snapshot),
{
}

/// An HMAC-signed media snapshot verifies under the secret it was signed
/// with, and a key ring accepts it while the key is current or in grace.
pub proof fn law_hmac_media_snapshot_verifies(
    signed: HmacTenantMediaLimitsSnapshot,
    secret: Seq<u8>,
    grace: u64,
    deprecated: Option<u64>,
    now: u64,
)
    requires
        signed.hmac_sha256@ == media_hmac(signed.snapshot, secret),
        !(deprecated matches Some(d) && now > sat_add(d, grace)),
    ensures
        signed.hmac_sha256@ == media_hmac(signed.snapshot, secret),
        hmac_outcome(
            Some((secret, deprecated)),
            grace,
            vstd::utf8::encode_utf8(media_payload(signed.snapshot)),
            signed.hmac_sha256@,
            now,
        ).spec_is_verified(),
{
}

/// A key ring never accepts an unknown key, nor a deprecated key after its
/// grace period, whatever the tag.
pub proof fn law_keyring_rejects_unknown_and_expired(
    key: Option<(Seq<u8>, Option<u64>)>,
    grace: u64,
    payload: Seq<u8>,
    provided: Seq<char>,
    now: u64,
)
    requires
        key is None || (key matches Some((_, Some(d))) && now > sat_add(d, grace)),
    ensures
        !hmac_outcome(key, grace, payload, provided, now).spec_is_verified(),
{
}

/// Key rotation: once key `id` is deprecated at `t`, a payload signed with
/// its secret is accepted (in grace) up to `t` plus the grace period, and
/// refused as expired after it; every other key verifies as before.
pub proof fn law_deprecated_key_window(
    before: HmacKeyRing,
    after: HmacKeyRing,
    id: Seq<char>,
    t: u64,
    other: Seq<char>,
    payload: Seq<u8>,
    provided: Seq<char>,
    now: u64,
)
    requires
        before.key(id) is Some,
        after.spec_grace_period_ms() == before.spec_grace_period_ms(),
        forall|k: Seq<char>| #[trigger]
            after.key(k) == if k == id {
                Some((before.key(k)->Some_0.0, Some(t)))
            } else {
                before.key(k)
            },
    ensures
        hmac_outcome(
            after.key(id),
            after.spec_grace_period_ms(),
            payload,
            hex_of(hmac_sha256_spec(before.key(id)->Some_0.0, payload)),
            now,
        ) == if now <= sat_add(t, before.spec_grace_period_ms()) {
            HmacVerificationOutcome::VerifiedInGrace
        } else {
            HmacVerificationOutcome::RejectedExpired
        },
        other != id ==> hmac_outcome(after.key(other), after.spec_grace_period_ms(), payload, provided, now)
            == hmac_outcome(before.key(other), before.spec_grace_period_ms(), payload, provided, now),
{
    assert(after.key(id) == Some((before.key(id)->Some_0.0, Some(t))));
    assert(other != id ==> after.key(other) == before.key(other));
}

} // verus!
