//! The per-tenant state of a registry of defenders: a versioned slot per
//! tenant, with the rules by which updates, removals and media-limit
//! overrides are applied or ignored as stale. Every change here is a step
//! from one state to the next; `tenant_registry` shares the state between
//! threads.
use std::sync::Arc;

use vstd::prelude::*;

use crate::defender::FileDefender;
use crate::policy::{media_fields, policy_same, policy_same_but_media, DefensePolicy};
use crate::tenant::{
    empty_import_report, TenantMediaLimitsOverride, TenantOverrideProvenance, TenantPolicyRemoveResult,
    TenantPolicyUpdateResult, TenantPolicyVersion, TenantSnapshotImportReport,
};

verus! {

/// A tenant's policy as exported to or imported from another node; `None`
/// removes the tenant's override.
#[derive(Debug)]
pub struct TenantPolicySnapshot {
    pub tenant_id: String,
    pub version: TenantPolicyVersion,
    pub policy: Option<DefensePolicy>,
    pub provenance: Option<TenantOverrideProvenance>,
}

/// The state of one tenant: its version, its base policy and media-limit
/// override with their provenance, and the defender built from them.
#[derive(Debug)]
pub struct TenantPolicySlot {
    pub version: TenantPolicyVersion,
    pub defender: Option<Arc<FileDefender>>,
    pub policy: Option<DefensePolicy>,
    pub provenance: Option<TenantOverrideProvenance>,
    pub media_limits: Option<TenantMediaLimitsOverride>,
    pub media_provenance: Option<TenantOverrideProvenance>,
}

/// The media fields after an override: each `Some` replaces its field.
pub open spec fn apply_limits(m: (u64, u64, u64, u64, u64), l: TenantMediaLimitsOverride) -> (u64, u64, u64, u64, u64) {
    (
        match l.video_max_duration_secs {
            Some(v) => v,
            None => m.0,
        },
        match l.video_max_bitrate_kbps {
            Some(v) => v,
            None => m.1,
        },
        match l.audio_max_duration_secs {
            Some(v) => v,
            None => m.2,
        },
        match l.audio_max_bitrate_kbps {
            Some(v) => v,
            None => m.3,
        },
        match l.audio_max_channels {
            Some(v) => v,
            None => m.4,
        },
    )
}

/// `p` is the effective policy of a tenant with this base policy and
/// override: the override laid over the base policy, or over the fallback
/// when there is none.
pub open spec fn effective_policy_is(
    p: DefensePolicy,
    base: Option<DefensePolicy>,
    limits: Option<TenantMediaLimitsOverride>,
    fallback: DefensePolicy,
) -> bool {
    match limits {
        None => base matches Some(b) && policy_same(p, b),
        Some(l) => {
            let under = match base {
                Some(b) => b,
                None => fallback,
            };
            policy_same_but_media(p, under) && media_fields(p) == apply_limits(media_fields(under), l)
        },
    }
}

/// A tenant has an effective policy when it has a base policy or an
/// override.
pub open spec fn has_effective(base: Option<DefensePolicy>, limits: Option<TenantMediaLimitsOverride>) -> bool {
    base is Some || limits is Some
}

/// The slot's defender enforces its effective policy, and exists exactly
/// when there is one.
pub open spec fn slot_built(s: TenantPolicySlot, fallback: DefensePolicy) -> bool {
    if has_effective(s.policy, s.media_limits) {
        s.defender matches Some(d) && d.wf() && effective_policy_is(d.spec_policy(), s.policy, s.media_limits, fallback)
    } else {
        s.defender is None
    }
}

/// The effective policy of a tenant, if any.
pub fn materialize_tenant_policy(
    base: &Option<DefensePolicy>,
    limits: &Option<TenantMediaLimitsOverride>,
    fallback: &DefensePolicy,
) -> (res: Option<DefensePolicy>)
    ensures
        res is Some <==> has_effective(*base, *limits),
        res matches Some(p) ==> effective_policy_is(p, *base, *limits, *fallback),
{
    match limits {
        Some(l) => {
            let mut p = match base {
                Some(b) => b.duplicate(),
                None => fallback.duplicate(),
            };
            apply_media_limits_override(&mut p, l);
            Some(p)
        },
        None => match base {
            Some(b) => Some(b.duplicate()),
            None => None,
        },
    }
}

fn or_keep(v: Option<u64>, keep: u64) -> (res: u64)
    ensures
        res == match v {
            Some(x) => x,
            None => keep,
        },
{
    match v {
        Some(x) => x,
        None => keep,
    }
}

/// Lay the override's media limits over the policy.
#[verifier::rlimit(40)]
pub fn apply_media_limits_override(policy: &mut DefensePolicy, limits: &TenantMediaLimitsOverride)
    ensures
        policy_same_but_media(*final(policy), *old(policy)),
        media_fields(*final(policy)) == apply_limits(media_fields(*old(policy)), *limits),
{
    let video_duration = or_keep(limits.video_max_duration_secs, policy.video.max_duration_secs);
    let video_bitrate = or_keep(limits.video_max_bitrate_kbps, policy.video.max_bitrate_kbps);
    let audio_duration = or_keep(limits.audio_max_duration_secs, policy.audio.max_duration_secs);
    let audio_bitrate = or_keep(limits.audio_max_bitrate_kbps, policy.audio.max_bitrate_kbps);
    let audio_channels = or_keep(limits.audio_max_channels, policy.audio.max_channels);
    policy.video.max_duration_secs = video_duration;
    policy.video.max_bitrate_kbps = video_bitrate;
    policy.audio.max_duration_secs = audio_duration;
    policy.audio.max_bitrate_kbps = audio_bitrate;
    policy.audio.max_channels = audio_channels;
}

/// A slot with its defender built from its effective policy.
pub fn build_tenant_slot(
    version: TenantPolicyVersion,
    policy: Option<DefensePolicy>,
    provenance: Option<TenantOverrideProvenance>,
    media_limits: Option<TenantMediaLimitsOverride>,
    media_provenance: Option<TenantOverrideProvenance>,
    fallback: &DefensePolicy,
) -> (res: TenantPolicySlot)
    ensures
        res.version == version,
        res.policy == policy,
        res.provenance == provenance,
        res.media_limits == media_limits,
        res.media_provenance == media_provenance,
        slot_built(res, *fallback),
{
    let effective = materialize_tenant_policy(&policy, &media_limits, fallback);
    let defender = match effective {
        Some(p) => Some(Arc::new(FileDefender::new(p))),
        None => None,
    };
    TenantPolicySlot { version, defender, policy, provenance, media_limits, media_provenance }
}

/// The provenance exported for a slot: the override's when there is an
/// override and it has one, else the base policy's.
pub open spec fn effective_provenance(s: TenantPolicySlot) -> Option<TenantOverrideProvenance> {
    if s.media_limits is Some && s.media_provenance is Some {
        s.media_provenance
    } else {
        s.provenance
    }
}

fn effective_snapshot_provenance(slot: &TenantPolicySlot) -> (res: Option<TenantOverrideProvenance>)
    ensures
        opt_provenance_view(res) == opt_provenance_view(effective_provenance(*slot)),
{
    if slot.media_limits.is_some() {
        if let Some(p) = &slot.media_provenance {
            return Some(duplicate_provenance(p));
        }
    }
    match &slot.provenance {
        Some(p) => Some(duplicate_provenance(p)),
        None => None,
    }
}

/// A provenance record as plain values.
pub open spec fn provenance_view(p: TenantOverrideProvenance) -> (Seq<char>, Seq<char>, Option<Seq<char>>, u64) {
    (
        p.actor@,
        p.source@,
        match p.reason {
            Some(r) => Some(r@),
            None => None,
        },
        p.updated_at_unix_ms,
    )
}

pub open spec fn opt_provenance_view(p: Option<TenantOverrideProvenance>) -> Option<
    (Seq<char>, Seq<char>, Option<Seq<char>>, u64),
> {
    match p {
        Some(v) => Some(provenance_view(v)),
        None => None,
    }
}

/// A copy of a provenance record.
pub fn duplicate_provenance(p: &TenantOverrideProvenance) -> (res: TenantOverrideProvenance)
    ensures
        provenance_view(res) == provenance_view(*p),
{
    TenantOverrideProvenance {
        actor: p.actor.clone(),
        source: p.source.clone(),
        reason: match &p.reason {
            Some(r) => Some(r.clone()),
            None => None,
        },
        updated_at_unix_ms: p.updated_at_unix_ms,
    }
}

pub(crate) fn duplicate_opt_provenance(p: &Option<TenantOverrideProvenance>) -> (res: Option<TenantOverrideProvenance>)
    ensures
        opt_provenance_view(res) == opt_provenance_view(*p),
{
    match p {
        Some(v) => Some(duplicate_provenance(v)),
        None => None,
    }
}

pub(crate) fn duplicate_opt_policy(p: &Option<DefensePolicy>) -> (res: Option<DefensePolicy>)
    ensures
        res is Some <==> p is Some,
        res matches Some(r) ==> policy_same(r, p->Some_0),
{
    match p {
        Some(v) => Some(v.duplicate()),
        None => None,
    }
}

/// The slot of `t`: the last entry for it.
pub open spec fn find_slot(entries: Seq<(String, TenantPolicySlot)>, t: Seq<char>) -> Option<TenantPolicySlot>
    decreases entries.len(),
{
    if entries.len() == 0 {
        None
    } else if entries.last().0@ == t {
        Some(entries.last().1)
    } else {
        find_slot(entries.drop_last(), t)
    }
}

/// No tenant's version went backwards, and no tenant lost its slot.
pub open spec fn versions_kept(before: TenantSlots, after: TenantSlots) -> bool {
    forall|q: Seq<char>|
        #![trigger after.slot(q)]
        before.slot(q) matches Some(o) ==> (after.slot(q) matches Some(n) && n.version.0 >= o.version.0)
}

/// The tenants of a registry and their slots.
#[derive(Debug)]
pub struct TenantSlots {
    entries: Vec<(String, TenantPolicySlot)>,
}

/// Replacing the last entry for `k` changes the slot of `k` only.
proof fn lemma_find_slot_set(
    a: Seq<(String, TenantPolicySlot)>,
    b: Seq<(String, TenantPolicySlot)>,
    i: int,
    k: Seq<char>,
    q: Seq<char>,
)
    requires
        a.len() == b.len(),
        0 <= i < a.len(),
        forall|j: int| 0 <= j < a.len() && j != i ==> b[j] == a[j],
        a[i].0@ == k,
        b[i].0@ == k,
        forall|j: int| i < j < a.len() ==> (#[trigger] a[j]).0@ != k,
    ensures
        find_slot(b, q) == if q == k {
            Some(b[i].1)
        } else {
            find_slot(a, q)
        },
    decreases a.len(),
{
    if a.len() == i + 1 {
        assert(a.drop_last() =~= b.drop_last());
    } else {
        lemma_find_slot_set(a.drop_last(), b.drop_last(), i, k, q);
        assert(b.last() == a.last());
    }
}

/// A tenant without a slot has no entry at all.
proof fn lemma_absent_not_in(entries: Seq<(String, TenantPolicySlot)>, t: Seq<char>, a: int)
    requires
        find_slot(entries, t) is None,
        0 <= a < entries.len(),
    ensures
        entries[a].0@ != t,
    decreases entries.len(),
{
    if a < entries.len() - 1 {
        lemma_absent_not_in(entries.drop_last(), t, a);
        assert(entries.drop_last()[a] == entries[a]);
    }
}

impl TenantSlots {
    /// The slot of tenant `t`, if it has one.
    pub closed spec fn slot(&self, t: Seq<char>) -> Option<TenantPolicySlot> {
        find_slot(self.entries@, t)
    }

    /// Every slot's defender enforces its effective policy over `fallback`.
    pub closed spec fn wf(&self, fallback: DefensePolicy) -> bool {
        &&& forall|i: int| 0 <= i < self.entries@.len() ==> slot_built(#[trigger] self.entries@[i].1, fallback)
        &&& forall|i: int, j: int|
            0 <= i < j < self.entries@.len() ==> (#[trigger] self.entries@[i]).0@ != (#[trigger] self.entries@[j]).0@
    }

    /// No tenant has a slot.
    pub fn new() -> (res: Self)
        ensures
            forall|t: Seq<char>| #[trigger] res.slot(t) is None,
            forall|f: DefensePolicy| #[trigger] res.wf(f),
    {
        TenantSlots { entries: Vec::new() }
    }

    /// Index of the entry `slot` reads for `t`.
    fn position(&self, t: &str) -> (res: Option<usize>)
        ensures
            match res {
                Some(i) => i < self.entries@.len() && self.entries@[i as int].0@ == t@ && self.slot(t@) == Some(
                    self.entries@[i as int].1,
                ) && forall|j: int| i < j < self.entries@.len() ==> (#[trigger] self.entries@[j]).0@ != t@,
                None => self.slot(t@) is None,
            },
    {
        let mut n = self.entries.len();
        proof {
            assert(self.entries@.subrange(0, n as int) =~= self.entries@);
        }
        while n > 0
            invariant
                n <= self.entries@.len(),
                find_slot(self.entries@.subrange(0, n as int), t@) == self.slot(t@),
                forall|j: int| n <= j < self.entries@.len() ==> (#[trigger] self.entries@[j]).0@ != t@,
            decreases n,
        {
            let ghost sub = self.entries@.subrange(0, n as int);
            proof {
                assert(sub.drop_last() =~= self.entries@.subrange(0, n - 1));
            }
            if crate::mime::eq_str(&self.entries[n - 1].0, t) {
                return Some(n - 1);
            }
            n = n - 1;
        }
        None
    }

    /// Give tenant `t` this slot.
    fn put(&mut self, t: &str, slot: TenantPolicySlot, Ghost(fallback): Ghost<DefensePolicy>)
        requires
            old(self).wf(fallback),
            slot_built(slot, fallback),
        ensures
            final(self).wf(fallback),
            final(self).slot(t@) == Some(slot),
            forall|q: Seq<char>| q != t@ ==> #[trigger] final(self).slot(q) == old(self).slot(q),
    {
        match self.position(t) {
            Some(i) => {
                let ghost before = self.entries@;
                self.entries.set(i, (t.to_owned(), slot));
                proof {
                    assert forall|q: Seq<char>| #[trigger]
                        find_slot(self.entries@, q) == if q == t@ {
                            Some(slot)
                        } else {
                            find_slot(before, q)
                        } by {
                        lemma_find_slot_set(before, self.entries@, i as int, t@, q);
                    }
                    assert forall|j: int| 0 <= j < self.entries@.len() implies slot_built(
                        #[trigger] self.entries@[j].1,
                        fallback,
                    ) by {
                        if j != i {
                            assert(self.entries@[j] == before[j]);
                        }
                    }
                    assert forall|a: int, b: int| 0 <= a < b < self.entries@.len() implies (
                    #[trigger] self.entries@[a]).0@ != (#[trigger] self.entries@[b]).0@ by {
                        if a != i {
                            assert(self.entries@[a] == before[a]);
                        }
                        if b != i {
                            assert(self.entries@[b] == before[b]);
                        }
                    }
                }
            },
            None => {
                let ghost before = self.entries@;
                self.entries.push((t.to_owned(), slot));
                proof {
                    assert(self.entries@.drop_last() =~= before);
                    assert forall|j: int| 0 <= j < self.entries@.len() implies slot_built(
                        #[trigger] self.entries@[j].1,
                        fallback,
                    ) by {
                        if j < before.len() {
                            assert(self.entries@[j] == before[j]);
                        }
                    }
                    assert forall|a: int, b: int| 0 <= a < b < self.entries@.len() implies (
                    #[trigger] self.entries@[a]).0@ != (#[trigger] self.entries@[b]).0@ by {
                        assert(self.entries@[a] == before[a]);
                        if b < before.len() {
                            assert(self.entries@[b] == before[b]);
                        } else {
                            lemma_absent_not_in(before, t@, a);
                        }
                    }
                }
            },
        }
    }

    /// The version after the tenant's current one, or the initial version.
    fn next_version(&self, t: &str) -> (res: TenantPolicyVersion)
        ensures
            res.0 == match self.slot(t@) {
                Some(s) => if s.version.0 == u64::MAX {
                    u64::MAX
                } else {
                    (s.version.0 + 1) as u64
                },
                None => 1,
            },
    {
        match self.position(t) {
            Some(i) => self.entries[i].1.version.next(),
            None => TenantPolicyVersion::initial(),
        }
    }

    /// Set a tenant's policy at the next version; any media-limit override
    /// is dropped.
    pub fn upsert(
        &mut self,
        tenant_id: &str,
        policy: DefensePolicy,
        provenance: Option<TenantOverrideProvenance>,
        fallback: &DefensePolicy,
    )
        requires
            old(self).wf(*fallback),
        ensures
            final(self).wf(*fallback),
            final(self).slot(tenant_id@) matches Some(s) && {
                &&& s.version.0 == match old(self).slot(tenant_id@) {
                    Some(o) => if o.version.0 == u64::MAX {
                        u64::MAX
                    } else {
                        (o.version.0 + 1) as u64
                    },
                    None => 1,
                }
                &&& s.policy == Some(policy)
                &&& s.provenance == provenance
                &&& s.media_limits is None
                &&& s.media_provenance is None
            },
            forall|q: Seq<char>| q != tenant_id@ ==> #[trigger] final(self).slot(q) == old(self).slot(q),
    {
        let version = self.next_version(tenant_id);
        let slot = build_tenant_slot(version, Some(policy), provenance, None, None, fallback);
        self.put(tenant_id, slot, Ghost(*fallback));
    }

    /// Remove a tenant's policy at the next version.
    pub fn remove(&mut self, tenant_id: &str, fallback: &DefensePolicy)
        requires
            old(self).wf(*fallback),
        ensures
            final(self).wf(*fallback),
            final(self).slot(tenant_id@) matches Some(s) && {
                &&& s.version.0 == match old(self).slot(tenant_id@) {
                    Some(o) => if o.version.0 == u64::MAX {
                        u64::MAX
                    } else {
                        (o.version.0 + 1) as u64
                    },
                    None => 1,
                }
                &&& s.policy is None
                &&& s.media_limits is None
                &&& s.defender is None
            },
            forall|q: Seq<char>| q != tenant_id@ ==> #[trigger] final(self).slot(q) == old(self).slot(q),
    {
        let version = self.next_version(tenant_id);
        let slot = build_tenant_slot(version, None, None, None, None, fallback);
        self.put(tenant_id, slot, Ghost(*fallback));
    }

    /// Set a tenant's policy at `version` unless the tenant is already at
    /// that version or a newer one.
    pub fn upsert_if_newer(
        &mut self,
        tenant_id: &str,
        version: TenantPolicyVersion,
        policy: DefensePolicy,
        provenance: Option<TenantOverrideProvenance>,
        fallback: &DefensePolicy,
    ) -> (res: TenantPolicyUpdateResult)
        requires
            old(self).wf(*fallback),
        ensures
            final(self).wf(*fallback),
            versions_kept(*old(self), *final(self)),
            match old(self).slot(tenant_id@) {
                Some(o) if o.version.0 >= version.0 => {
                    &&& res == TenantPolicyUpdateResult::IgnoredStale { current_version: o.version }
                    &&& forall|q: Seq<char>| #[trigger] final(self).slot(q) == old(self).slot(q)
                },
                _ => {
                    &&& res == TenantPolicyUpdateResult::Applied { version }
                    &&& final(self).slot(tenant_id@) matches Some(s) && s.version == version && s.policy == Some(policy)
                        && s.provenance == provenance && s.media_limits is None && s.media_provenance is None
                    &&& forall|q: Seq<char>| q != tenant_id@ ==> #[trigger] final(self).slot(q) == old(self).slot(q)
                },
            },
    {
        if let Some(i) = self.position(tenant_id) {
            let current = self.entries[i].1.version;
            if current.0 >= version.0 {
                return TenantPolicyUpdateResult::IgnoredStale { current_version: current };
            }
        }
        let slot = build_tenant_slot(version, Some(policy), provenance, None, None, fallback);
        self.put(tenant_id, slot, Ghost(*fallback));
        TenantPolicyUpdateResult::Applied { version }
    }

    /// Remove a tenant's policy at `version`, unless the tenant is at a newer
    /// version, or already removed at this one.
    pub fn remove_if_newer(&mut self, tenant_id: &str, version: TenantPolicyVersion, fallback: &DefensePolicy) -> (res:
        TenantPolicyRemoveResult)
        requires
            old(self).wf(*fallback),
        ensures
            final(self).wf(*fallback),
            versions_kept(*old(self), *final(self)),
            match old(self).slot(tenant_id@) {
                Some(o) if o.version.0 > version.0 => {
                    &&& res == TenantPolicyRemoveResult::IgnoredStale { current_version: o.version }
                    &&& forall|q: Seq<char>| #[trigger] final(self).slot(q) == old(self).slot(q)
                },
                Some(o) if o.version.0 == version.0 && o.defender is None => {
                    &&& res == TenantPolicyRemoveResult::AlreadyRemoved { version }
                    &&& forall|q: Seq<char>| #[trigger] final(self).slot(q) == old(self).slot(q)
                },
                _ => {
                    &&& res == TenantPolicyRemoveResult::Applied { version }
                    &&& final(self).slot(tenant_id@) matches Some(s) && s.version == version && s.policy is None
                        && s.media_limits is None && s.defender is None
                    &&& forall|q: Seq<char>| q != tenant_id@ ==> #[trigger] final(self).slot(q) == old(self).slot(q)
                },
            },
    {
        if let Some(i) = self.position(tenant_id) {
            let current = self.entries[i].1.version;
            if current.0 > version.0 {
                return TenantPolicyRemoveResult::IgnoredStale { current_version: current };
            }
            if current.0 == version.0 && self.entries[i].1.defender.is_none() {
                return TenantPolicyRemoveResult::AlreadyRemoved { version };
            }
        }
        let slot = build_tenant_slot(version, None, None, None, None, fallback);
        self.put(tenant_id, slot, Ghost(*fallback));
        TenantPolicyRemoveResult::Applied { version }
    }

    /// Lay a media-limit override over a tenant at `version`, keeping its
    /// base policy, unless the tenant is already at that version or newer.
    pub fn upsert_media_limits_if_newer(
        &mut self,
        tenant_id: &str,
        version: TenantPolicyVersion,
        limits: TenantMediaLimitsOverride,
        provenance: Option<TenantOverrideProvenance>,
        fallback: &DefensePolicy,
    ) -> (res: TenantPolicyUpdateResult)
        requires
            old(self).wf(*fallback),
        ensures
            final(self).wf(*fallback),
            versions_kept(*old(self), *final(self)),
            match old(self).slot(tenant_id@) {
                Some(o) if o.version.0 >= version.0 => {
                    &&& res == TenantPolicyUpdateResult::IgnoredStale { current_version: o.version }
                    &&& forall|q: Seq<char>| #[trigger] final(self).slot(q) == old(self).slot(q)
                },
                _ => {
                    &&& res == TenantPolicyUpdateResult::Applied { version }
                    &&& final(self).slot(tenant_id@) matches Some(s) && {
                        &&& s.version == version
                        &&& s.media_limits == Some(limits)
                        &&& s.media_provenance == provenance
                        &&& (s.policy is Some <==> (old(self).slot(tenant_id@) matches Some(o) && o.policy is Some))
                        &&& s.policy matches Some(p) ==> policy_same(p, old(self).slot(tenant_id@)->Some_0.policy->Some_0)
                        &&& opt_provenance_view(s.provenance) == match old(self).slot(tenant_id@) {
                            Some(o) => opt_provenance_view(o.provenance),
                            None => None,
                        }
                    }
                    &&& forall|q: Seq<char>| q != tenant_id@ ==> #[trigger] final(self).slot(q) == old(self).slot(q)
                },
            },
    {
        let (base, base_provenance) = match self.position(tenant_id) {
            Some(i) => {
                let current = self.entries[i].1.version;
                if current.0 >= version.0 {
                    return TenantPolicyUpdateResult::IgnoredStale { current_version: current };
                }
                (duplicate_opt_policy(&self.entries[i].1.policy), duplicate_opt_provenance(&self.entries[i].1.provenance))
            },
            None => (None, None),
        };
        let slot = build_tenant_slot(version, base, base_provenance, Some(limits), provenance, fallback);
        self.put(tenant_id, slot, Ghost(*fallback));
        TenantPolicyUpdateResult::Applied { version }
    }

    /// Clear a tenant's media-limit override at `version`, keeping its base
    /// policy, unless the tenant is at a newer version, or has no override
    /// at this one.
    pub fn clear_media_limits_if_newer(
        &mut self,
        tenant_id: &str,
        version: TenantPolicyVersion,
        fallback: &DefensePolicy,
    ) -> (res: TenantPolicyRemoveResult)
        requires
            old(self).wf(*fallback),
        ensures
            final(self).wf(*fallback),
            versions_kept(*old(self), *final(self)),
            match old(self).slot(tenant_id@) {
                Some(o) if o.version.0 > version.0 => {
                    &&& res == TenantPolicyRemoveResult::IgnoredStale { current_version: o.version }
                    &&& forall|q: Seq<char>| #[trigger] final(self).slot(q) == old(self).slot(q)
                },
                Some(o) if o.version.0 == version.0 && o.media_limits is None => {
                    &&& res == TenantPolicyRemoveResult::AlreadyRemoved { version }
                    &&& forall|q: Seq<char>| #[trigger] final(self).slot(q) == old(self).slot(q)
                },
                _ => {
                    &&& res == TenantPolicyRemoveResult::Applied { version }
                    &&& final(self).slot(tenant_id@) matches Some(s) && {
                        &&& s.version == version
                        &&& s.media_limits is None
                        &&& s.media_provenance is None
                        &&& (s.policy is Some <==> (old(self).slot(tenant_id@) matches Some(o) && o.policy is Some))
                        &&& s.policy matches Some(p) ==> policy_same(p, old(self).slot(tenant_id@)->Some_0.policy->Some_0)
                    }
                    &&& forall|q: Seq<char>| q != tenant_id@ ==> #[trigger] final(self).slot(q) == old(self).slot(q)
                },
            },
    {
        let (base, base_provenance) = match self.position(tenant_id) {
            Some(i) => {
                let current = self.entries[i].1.version;
                if current.0 > version.0 {
                    return TenantPolicyRemoveResult::IgnoredStale { current_version: current };
                }
                if current.0 == version.0 && self.entries[i].1.media_limits.is_none() {
                    return TenantPolicyRemoveResult::AlreadyRemoved { version };
                }
                (duplicate_opt_policy(&self.entries[i].1.policy), duplicate_opt_provenance(&self.entries[i].1.provenance))
            },
            None => (None, None),
        };
        let slot = build_tenant_slot(version, base, base_provenance, None, None, fallback);
        self.put(tenant_id, slot, Ghost(*fallback));
        TenantPolicyRemoveResult::Applied { version }
    }

    /// The tenant's own defender, if it has an effective policy.
    pub fn resolve(&self, tenant_id: &str) -> (res: Option<Arc<FileDefender>>)
        ensures
            match self.slot(tenant_id@) {
                Some(s) => res == s.defender,
                None => res is None,
            },
    {
        match self.position(tenant_id) {
            Some(i) => match &self.entries[i].1.defender {
                Some(d) => Some(Arc::clone(d)),
                None => None,
            },
            None => None,
        }
    }
}


/// What importing one snapshot did.
#[derive(Debug, Clone, Copy, PartialEq, Eq, Structural)]
pub enum ImportOutcome {
    Upsert(TenantPolicyUpdateResult),
    Remove(TenantPolicyRemoveResult),
}

/// What importing a snapshot at version `v` can answer: a snapshot that
/// sets something (`sets`) is applied at `v` or ignored for a version at
/// least as new; one that clears is applied at `v`, ignored for a newer
/// version, or found already cleared at `v`.
pub open spec fn snapshot_outcome(v: TenantPolicyVersion, sets: bool, o: ImportOutcome) -> bool {
    match o {
        ImportOutcome::Upsert(TenantPolicyUpdateResult::Applied { version }) => sets && version == v,
        ImportOutcome::Upsert(TenantPolicyUpdateResult::IgnoredStale { current_version }) => sets
            && current_version.0 >= v.0,
        ImportOutcome::Remove(TenantPolicyRemoveResult::Applied { version }) => !sets && version == v,
        ImportOutcome::Remove(TenantPolicyRemoveResult::IgnoredStale { current_version }) => !sets
            && current_version.0 > v.0,
        ImportOutcome::Remove(TenantPolicyRemoveResult::AlreadyRemoved { version }) => !sets && version == v,
    }
}

/// The report after counting one more outcome.
pub open spec fn tallied(r: TenantSnapshotImportReport, o: ImportOutcome) -> TenantSnapshotImportReport {
    match o {
        ImportOutcome::Upsert(TenantPolicyUpdateResult::Applied { .. }) => TenantSnapshotImportReport {
            upsert_applied: (r.upsert_applied + 1) as usize,
            ..r
        },
        ImportOutcome::Upsert(TenantPolicyUpdateResult::IgnoredStale { .. }) => TenantSnapshotImportReport {
            upsert_ignored_stale: (r.upsert_ignored_stale + 1) as usize,
            ..r
        },
        ImportOutcome::Remove(TenantPolicyRemoveResult::Applied { .. }) => TenantSnapshotImportReport {
            remove_applied: (r.remove_applied + 1) as usize,
            ..r
        },
        ImportOutcome::Remove(TenantPolicyRemoveResult::IgnoredStale { .. }) => TenantSnapshotImportReport {
            remove_ignored_stale: (r.remove_ignored_stale + 1) as usize,
            ..r
        },
        ImportOutcome::Remove(TenantPolicyRemoveResult::AlreadyRemoved { .. }) => TenantSnapshotImportReport {
            remove_already_removed: (r.remove_already_removed + 1) as usize,
            ..r
        },
    }
}

/// How many snapshots a report counts.
pub open spec fn report_total(r: TenantSnapshotImportReport) -> int {
    r.upsert_applied + r.upsert_ignored_stale + r.remove_applied + r.remove_ignored_stale + r.remove_already_removed
        + r.rejected_invalid_signature
}

/// Count one outcome.
pub fn tally(r: &mut TenantSnapshotImportReport, o: ImportOutcome)
    requires
        report_total(*old(r)) < usize::MAX,
    ensures
        *final(r) == tallied(*old(r), o),
        report_total(*final(r)) == report_total(*old(r)) + 1,
{
    match o {
        ImportOutcome::Upsert(TenantPolicyUpdateResult::Applied { .. }) => {
            r.upsert_applied = r.upsert_applied + 1;
        },
        ImportOutcome::Upsert(TenantPolicyUpdateResult::IgnoredStale { .. }) => {
            r.upsert_ignored_stale = r.upsert_ignored_stale + 1;
        },
        ImportOutcome::Remove(TenantPolicyRemoveResult::Applied { .. }) => {
            r.remove_applied = r.remove_applied + 1;
        },
        ImportOutcome::Remove(TenantPolicyRemoveResult::IgnoredStale { .. }) => {
            r.remove_ignored_stale = r.remove_ignored_stale + 1;
        },
        ImportOutcome::Remove(TenantPolicyRemoveResult::AlreadyRemoved { .. }) => {
            r.remove_already_removed = r.remove_already_removed + 1;
        },
    }
}


/// Tenant `q` keeps its slot, as a copy, from `before` to `after`.
pub open spec fn slot_kept(before: TenantSlots, after: TenantSlots, q: Seq<char>) -> bool {
    &&& (after.slot(q) is Some <==> before.slot(q) is Some)
    &&& (after.slot(q) matches Some(a) ==> slot_copy(a, before.slot(q)->Some_0))
}

/// Every tenant other than `t` keeps its slot.
pub open spec fn others_kept(before: TenantSlots, after: TenantSlots, t: Seq<char>) -> bool {
    forall|q: Seq<char>| #![trigger after.slot(q)] q != t ==> slot_kept(before, after, q)
}

/// Every tenant keeps its slot: nothing changed.
pub open spec fn all_kept(before: TenantSlots, after: TenantSlots) -> bool {
    forall|q: Seq<char>| #![trigger after.slot(q)] slot_kept(before, after, q)
}

/// The version after the tenant's current one in `before`, or the initial
/// version.
pub open spec fn next_version_of(before: TenantSlots, t: Seq<char>) -> u64 {
    match before.slot(t) {
        Some(o) => if o.version.0 == u64::MAX {
            u64::MAX
        } else {
            (o.version.0 + 1) as u64
        },
        None => 1,
    }
}

/// Tenant `t` was given `policy` at its next version, its media-limit
/// override dropped; every other tenant is unchanged.
pub open spec fn upsert_effect(
    before: TenantSlots,
    after: TenantSlots,
    t: Seq<char>,
    policy: DefensePolicy,
    provenance: Option<TenantOverrideProvenance>,
) -> bool {
    &&& after.slot(t) matches Some(s) && {
        &&& s.version.0 == next_version_of(before, t)
        &&& (s.policy matches Some(p) && policy_same(p, policy))
        &&& opt_provenance_view(s.provenance) == opt_provenance_view(provenance)
        &&& s.media_limits is None
        &&& s.media_provenance is None
    }
    &&& others_kept(before, after, t)
}

/// Tenant `t` lost its policy and override at its next version; every other
/// tenant is unchanged.
pub open spec fn remove_effect(before: TenantSlots, after: TenantSlots, t: Seq<char>) -> bool {
    &&& after.slot(t) matches Some(s) && {
        &&& s.version.0 == next_version_of(before, t)
        &&& s.policy is None
        &&& s.media_limits is None
        &&& s.defender is None
    }
    &&& others_kept(before, after, t)
}

/// A versioned policy upsert: ignored, changing nothing, when the tenant is
/// at `version` or newer; else the tenant holds `policy` at `version`, its
/// override dropped, and every other tenant is unchanged.
pub open spec fn versioned_upsert_effect(
    before: TenantSlots,
    after: TenantSlots,
    t: Seq<char>,
    version: TenantPolicyVersion,
    policy: DefensePolicy,
    provenance: Option<TenantOverrideProvenance>,
    r: TenantPolicyUpdateResult,
) -> bool {
    match before.slot(t) {
        Some(o) if o.version.0 >= version.0 => {
            &&& r == TenantPolicyUpdateResult::IgnoredStale { current_version: o.version }
            &&& all_kept(before, after)
        },
        _ => {
            &&& r == TenantPolicyUpdateResult::Applied { version }
            &&& after.slot(t) matches Some(s) && {
                &&& s.version == version
                &&& (s.policy matches Some(p) && policy_same(p, policy))
                &&& opt_provenance_view(s.provenance) == opt_provenance_view(provenance)
                &&& s.media_limits is None
                &&& s.media_provenance is None
            }
            &&& others_kept(before, after, t)
        },
    }
}

/// A versioned policy removal: ignored for a newer tenant, or found already
/// removed at `version`, changing nothing; else the tenant has no policy or
/// override at `version`, and every other tenant is unchanged.
pub open spec fn versioned_remove_effect(
    before: TenantSlots,
    after: TenantSlots,
    t: Seq<char>,
    version: TenantPolicyVersion,
    r: TenantPolicyRemoveResult,
) -> bool {
    match before.slot(t) {
        Some(o) if o.version.0 > version.0 => {
            &&& r == TenantPolicyRemoveResult::IgnoredStale { current_version: o.version }
            &&& all_kept(before, after)
        },
        Some(o) if o.version.0 == version.0 && o.defender is None => {
            &&& r == TenantPolicyRemoveResult::AlreadyRemoved { version }
            &&& all_kept(before, after)
        },
        _ => {
            &&& r == TenantPolicyRemoveResult::Applied { version }
            &&& after.slot(t) matches Some(s) && s.version == version && s.policy is None && s.media_limits is None
                && s.defender is None
            &&& others_kept(before, after, t)
        },
    }
}

/// A versioned media-limit override: ignored, changing nothing, when the
/// tenant is at `version` or newer; else the tenant holds `limits` at
/// `version` over its base policy, and every other tenant is unchanged.
pub open spec fn versioned_limits_effect(
    before: TenantSlots,
    after: TenantSlots,
    t: Seq<char>,
    version: TenantPolicyVersion,
    limits: TenantMediaLimitsOverride,
    provenance: Option<TenantOverrideProvenance>,
    r: TenantPolicyUpdateResult,
) -> bool {
    match before.slot(t) {
        Some(o) if o.version.0 >= version.0 => {
            &&& r == TenantPolicyUpdateResult::IgnoredStale { current_version: o.version }
            &&& all_kept(before, after)
        },
        _ => {
            &&& r == TenantPolicyUpdateResult::Applied { version }
            &&& after.slot(t) matches Some(s) && {
                &&& s.version == version
                &&& s.media_limits == Some(limits)
                &&& opt_provenance_view(s.media_provenance) == opt_provenance_view(provenance)
                &&& (s.policy is Some <==> (before.slot(t) matches Some(o) && o.policy is Some))
                &&& s.policy matches Some(p) ==> policy_same(p, before.slot(t)->Some_0.policy->Some_0)
                &&& opt_provenance_view(s.provenance) == match before.slot(t) {
                    Some(o) => opt_provenance_view(o.provenance),
                    None => None,
                }
            }
            &&& others_kept(before, after, t)
        },
    }
}

/// A versioned clearing of the media-limit override: ignored for a newer
/// tenant, or found already cleared at `version`, changing nothing; else the
/// tenant keeps its base policy without override at `version`, and every
/// other tenant is unchanged.
pub open spec fn versioned_clear_effect(
    before: TenantSlots,
    after: TenantSlots,
    t: Seq<char>,
    version: TenantPolicyVersion,
    r: TenantPolicyRemoveResult,
) -> bool {
    match before.slot(t) {
        Some(o) if o.version.0 > version.0 => {
            &&& r == TenantPolicyRemoveResult::IgnoredStale { current_version: o.version }
            &&& all_kept(before, after)
        },
        Some(o) if o.version.0 == version.0 && o.media_limits is None => {
            &&& r == TenantPolicyRemoveResult::AlreadyRemoved { version }
            &&& all_kept(before, after)
        },
        _ => {
            &&& r == TenantPolicyRemoveResult::Applied { version }
            &&& after.slot(t) matches Some(s) && {
                &&& s.version == version
                &&& s.media_limits is None
                &&& s.media_provenance is None
                &&& (s.policy is Some <==> (before.slot(t) matches Some(o) && o.policy is Some))
                &&& s.policy matches Some(p) ==> policy_same(p, before.slot(t)->Some_0.policy->Some_0)
            }
            &&& others_kept(before, after, t)
        },
    }
}

/// What importing a policy snapshot did to the slots, and answered.
pub open spec fn policy_import_effect(
    before: TenantSlots,
    after: TenantSlots,
    snapshot: TenantPolicySnapshot,
    o: ImportOutcome,
) -> bool {
    match snapshot.policy {
        Some(p) => o matches ImportOutcome::Upsert(r) && versioned_upsert_effect(
            before,
            after,
            snapshot.tenant_id@,
            snapshot.version,
            p,
            snapshot.provenance,
            r,
        ),
        None => o matches ImportOutcome::Remove(r) && versioned_remove_effect(
            before,
            after,
            snapshot.tenant_id@,
            snapshot.version,
            r,
        ),
    }
}

/// What importing a media-limit snapshot did to the slots, and answered.
pub open spec fn limits_import_effect(
    before: TenantSlots,
    after: TenantSlots,
    snapshot: crate::tenant::TenantMediaLimitsSnapshot,
    o: ImportOutcome,
) -> bool {
    match snapshot.limits {
        Some(l) => o matches ImportOutcome::Upsert(r) && versioned_limits_effect(
            before,
            after,
            snapshot.tenant_id@,
            snapshot.version,
            l,
            snapshot.provenance,
            r,
        ),
        None => o matches ImportOutcome::Remove(r) && versioned_clear_effect(
            before,
            after,
            snapshot.tenant_id@,
            snapshot.version,
            r,
        ),
    }
}

/// The report counting `outcomes`.
pub open spec fn tally_all(outcomes: Seq<ImportOutcome>) -> TenantSnapshotImportReport
    decreases outcomes.len(),
{
    if outcomes.len() == 0 {
        TenantSnapshotImportReport {
            upsert_applied: 0,
            upsert_ignored_stale: 0,
            remove_applied: 0,
            remove_ignored_stale: 0,
            remove_already_removed: 0,
            rejected_invalid_signature: 0,
        }
    } else {
        tallied(tally_all(outcomes.drop_last()), outcomes.last())
    }
}

/// `states` runs through the imports of `snapshots` one by one, each
/// answering its outcome.
pub open spec fn imports_in_order(
    states: Seq<TenantSlots>,
    outcomes: Seq<ImportOutcome>,
    snapshots: Seq<TenantPolicySnapshot>,
) -> bool
    decreases outcomes.len(),
{
    &&& outcomes.len() == snapshots.len()
    &&& states.len() == outcomes.len() + 1
    &&& (outcomes.len() > 0 ==> {
        &&& imports_in_order(states.drop_last(), outcomes.drop_last(), snapshots.drop_last())
        &&& policy_import_effect(states[states.len() - 2], states.last(), snapshots.last(), outcomes.last())
    })
}

impl TenantSlots {
    /// Apply one policy snapshot: a policy is set, and no policy removes the
    /// tenant's, each only when the snapshot is newer.
    pub fn import_snapshot(&mut self, snapshot: TenantPolicySnapshot, fallback: &DefensePolicy) -> (res: ImportOutcome)
        requires
            old(self).wf(*fallback),
        ensures
            final(self).wf(*fallback),
            versions_kept(*old(self), *final(self)),
            snapshot.policy is Some <==> res is Upsert,
            snapshot_outcome(snapshot.version, snapshot.policy is Some, res),
            policy_import_effect(*old(self), *final(self), snapshot, res),
    {
        let TenantPolicySnapshot { tenant_id, version, policy, provenance } = snapshot;
        match policy {
            Some(p) => ImportOutcome::Upsert(
                self.upsert_if_newer(tenant_id.as_str(), version, p, provenance, fallback),
            ),
            None => ImportOutcome::Remove(self.remove_if_newer(tenant_id.as_str(), version, fallback)),
        }
    }

    /// Apply snapshots in order, counting what happened to each.
    pub fn import_snapshots(&mut self, snapshots: Vec<TenantPolicySnapshot>, fallback: &DefensePolicy) -> (res:
        TenantSnapshotImportReport)
        requires
            old(self).wf(*fallback),
        ensures
            final(self).wf(*fallback),
            versions_kept(*old(self), *final(self)),
            report_total(res) == snapshots@.len(),
            res.rejected_invalid_signature == 0,
            exists|states: Seq<TenantSlots>, outcomes: Seq<ImportOutcome>|
                #![trigger states.len(), outcomes.len()]
                imports_in_order(states, outcomes, snapshots@) && states[0] == *old(self) && states.last()
                    == *final(self) && res == tally_all(outcomes),
    {
        let mut report = empty_import_report();
        let mut rest = snapshots;
        let count = rest.len();
        let ghost total = count as nat;
        let ghost all = rest@;
        let ghost mut states: Seq<TenantSlots> = seq![*self];
        let ghost mut outcomes: Seq<ImportOutcome> = Seq::empty();
        proof {
            assert(tally_all(outcomes) == report);
        }
        while rest.len() > 0
            invariant
                self.wf(*fallback),
                versions_kept(*old(self), *self),
                report_total(report) + rest@.len() == total,
                total <= usize::MAX,
                total == all.len(),
                report.rejected_invalid_signature == 0,
                outcomes.len() + rest@.len() == total,
                rest@ == all.subrange(outcomes.len() as int, total as int),
                imports_in_order(states, outcomes, all.subrange(0, outcomes.len() as int)),
                states[0] == *old(self),
                states.last() == *self,
                report == tally_all(outcomes),
            decreases rest@.len(),
        {
            let ghost mid = *self;
            let ghost done = outcomes.len();
            let snapshot = rest.remove(0);
            proof {
                assert(snapshot == all[done as int]);
            }
            let o = self.import_snapshot(snapshot, fallback);
            tally(&mut report, o);
            proof {
                let s0 = states;
                let o0 = outcomes;
                states = states.push(*self);
                outcomes = outcomes.push(o);
                assert(outcomes.drop_last() =~= o0);
                assert(all.subrange(0, outcomes.len() as int).drop_last() =~= all.subrange(0, done as int));
                assert(states.drop_last() =~= s0);
                assert(rest@ =~= all.subrange(outcomes.len() as int, total as int));
            }
        }
        proof {
            assert(all.subrange(0, outcomes.len() as int) =~= all);
        }
        report
    }

    /// Apply one media-limit snapshot: limits are laid over the tenant, and
    /// no limits clear its override, each only when the snapshot is newer.
    pub fn import_media_snapshot(
        &mut self,
        snapshot: crate::tenant::TenantMediaLimitsSnapshot,
        fallback: &DefensePolicy,
    ) -> (res: ImportOutcome)
        requires
            old(self).wf(*fallback),
        ensures
            final(self).wf(*fallback),
            versions_kept(*old(self), *final(self)),
            snapshot.limits is Some <==> res is Upsert,
            snapshot_outcome(snapshot.version, snapshot.limits is Some, res),
            limits_import_effect(*old(self), *final(self), snapshot, res),
    {
        let crate::tenant::TenantMediaLimitsSnapshot { tenant_id, version, limits, provenance } = snapshot;
        match limits {
            Some(l) => ImportOutcome::Upsert(
                self.upsert_media_limits_if_newer(tenant_id.as_str(), version, l, provenance, fallback),
            ),
            None => ImportOutcome::Remove(self.clear_media_limits_if_newer(tenant_id.as_str(), version, fallback)),
        }
    }


    /// `snapshots` is an export of these slots over `fallback`: one snapshot
    /// per tenant with a slot, none twice, each with the slot's version, its
    /// effective policy, and the provenance of what was set last.
    pub open spec fn exports(self, fallback: DefensePolicy, snapshots: Seq<TenantPolicySnapshot>) -> bool {
        &&& forall|i: int|
            0 <= i < snapshots.len() ==> ((#[trigger] self.slot(snapshots[i].tenant_id@)) matches Some(s) && {
                &&& snapshots[i].version == s.version
                &&& (snapshots[i].policy is Some <==> has_effective(s.policy, s.media_limits))
                &&& (snapshots[i].policy matches Some(p) ==> effective_policy_is(p, s.policy, s.media_limits, fallback))
                &&& opt_provenance_view(snapshots[i].provenance) == opt_provenance_view(effective_provenance(s))
            })
        &&& forall|t: Seq<char>|
            #![trigger self.slot(t)]
            self.slot(t) is Some ==> exists|i: int| 0 <= i < snapshots.len() && (#[trigger] snapshots[i].tenant_id@) == t
        &&& forall|i: int, j: int|
            0 <= i < j < snapshots.len() ==> (#[trigger] snapshots[i]).tenant_id@ != (#[trigger] snapshots[j]).tenant_id@
    }

    /// A snapshot of every tenant: its version, its effective policy, and
    /// the provenance of what was set last.
    pub fn export(&self, fallback: &DefensePolicy) -> (res: Vec<TenantPolicySnapshot>)
        requires
            self.wf(*fallback),
        ensures
            self.exports(*fallback, res@),
    {
        let mut out: Vec<TenantPolicySnapshot> = Vec::new();
        let mut i: usize = 0;
        while i < self.entries.len()
            invariant
                i <= self.entries@.len(),
                self.wf(*fallback),
                out@.len() == i,
                forall|j: int| 0 <= j < i ==> (#[trigger] out@[j]).tenant_id@ == self.entries@[j].0@,
                forall|j: int|
                    0 <= j < i ==> {
                        let s = self.entries@[j].1;
                        &&& (#[trigger] out@[j]).version == s.version
                        &&& (out@[j].policy is Some <==> has_effective(s.policy, s.media_limits))
                        &&& (out@[j].policy matches Some(p) ==> effective_policy_is(
                            p,
                            s.policy,
                            s.media_limits,
                            *fallback,
                        ))
                        &&& opt_provenance_view(out@[j].provenance) == opt_provenance_view(effective_provenance(s))
                    },
            decreases self.entries@.len() - i,
        {
            let entry = &self.entries[i];
            let slot = &entry.1;
            out.push(
                TenantPolicySnapshot {
                    tenant_id: entry.0.clone(),
                    version: slot.version,
                    policy: materialize_tenant_policy(&slot.policy, &slot.media_limits, fallback),
                    provenance: effective_snapshot_provenance(slot),
                },
            );
            i = i + 1;
        }
        proof {
            assert forall|j: int| 0 <= j < out@.len() implies (#[trigger] self.slot(out@[j].tenant_id@)) == Some(
                self.entries@[j].1,
            ) by {
                lemma_unique_find(self.entries@, j);
            }
            assert forall|t: Seq<char>| #![trigger self.slot(t)] self.slot(t) is Some implies exists|i: int|
                0 <= i < out@.len() && (#[trigger] out@[i].tenant_id@) == t by {
                let k = lemma_found_index(self.entries@, t);
                assert(out@[k].tenant_id@ == t);
            }
            assert forall|a: int, b: int| 0 <= a < b < out@.len() implies (#[trigger] out@[a]).tenant_id@
                != (#[trigger] out@[b]).tenant_id@ by {
                assert(self.entries@[a].0@ != self.entries@[b].0@);
            }
        }
        out
    }
}

/// With distinct ids, the slot of an entry's tenant is that entry's.
proof fn lemma_unique_find(entries: Seq<(String, TenantPolicySlot)>, j: int)
    requires
        0 <= j < entries.len(),
        forall|a: int, b: int| 0 <= a < b < entries.len() ==> (#[trigger] entries[a]).0@ != (#[trigger] entries[b]).0@,
    ensures
        find_slot(entries, entries[j].0@) == Some(entries[j].1),
    decreases entries.len(),
{
    if j < entries.len() - 1 {
        let d = entries.drop_last();
        assert(entries.last() == entries[entries.len() - 1]);
        assert(entries[j].0@ != entries[entries.len() - 1].0@);
        assert forall|a: int, b: int| 0 <= a < b < d.len() implies (#[trigger] d[a]).0@ != (#[trigger] d[b]).0@ by {
            assert(d[a] == entries[a]);
            assert(d[b] == entries[b]);
        }
        lemma_unique_find(d, j);
        assert(d[j] == entries[j]);
    }
}

/// A tenant with a slot has an entry.
proof fn lemma_found_index(entries: Seq<(String, TenantPolicySlot)>, t: Seq<char>) -> (k: int)
    requires
        find_slot(entries, t) is Some,
    ensures
        0 <= k < entries.len(),
        entries[k].0@ == t,
    decreases entries.len(),
{
    if entries.last().0@ == t {
        entries.len() - 1
    } else {
        let k = lemma_found_index(entries.drop_last(), t);
        assert(entries.drop_last()[k] == entries[k]);
        k
    }
}


/// `a` is a copy of `b`: the same defender, and equal versions, policies,
/// overrides and provenance.
pub open spec fn slot_copy(a: TenantPolicySlot, b: TenantPolicySlot) -> bool {
    &&& a.version == b.version
    &&& a.defender == b.defender
    &&& (a.policy is Some <==> b.policy is Some)
    &&& (a.policy matches Some(p) ==> policy_same(p, b.policy->Some_0))
    &&& opt_provenance_view(a.provenance) == opt_provenance_view(b.provenance)
    &&& a.media_limits == b.media_limits
    &&& opt_provenance_view(a.media_provenance) == opt_provenance_view(b.media_provenance)
}

fn duplicate_slot(s: &TenantPolicySlot) -> (res: TenantPolicySlot)
    ensures
        slot_copy(res, *s),
{
    TenantPolicySlot {
        version: s.version,
        defender: match &s.defender {
            Some(d) => Some(Arc::clone(d)),
            None => None,
        },
        policy: duplicate_opt_policy(&s.policy),
        provenance: duplicate_opt_provenance(&s.provenance),
        media_limits: s.media_limits,
        media_provenance: duplicate_opt_provenance(&s.media_provenance),
    }
}

impl TenantSlots {
    /// A copy of the state, sharing the defenders.
    pub fn duplicate(&self, fallback: &DefensePolicy) -> (res: Self)
        requires
            self.wf(*fallback),
        ensures
            res.wf(*fallback),
            forall|t: Seq<char>|
                #![trigger res.slot(t)]
                (res.slot(t) is Some <==> self.slot(t) is Some) && (res.slot(t) matches Some(a) ==> slot_copy(
                    a,
                    self.slot(t)->Some_0,
                )),
    {
        let mut entries: Vec<(String, TenantPolicySlot)> = Vec::new();
        let mut i: usize = 0;
        while i < self.entries.len()
            invariant
                i <= self.entries@.len(),
                self.wf(*fallback),
                entries@.len() == i,
                forall|j: int|
                    0 <= j < i ==> (#[trigger] entries@[j]).0@ == self.entries@[j].0@ && slot_copy(
                        entries@[j].1,
                        self.entries@[j].1,
                    ),
            decreases self.entries@.len() - i,
        {
            let name = self.entries[i].0.clone();
            let slot = duplicate_slot(&self.entries[i].1);
            entries.push((name, slot));
            i = i + 1;
        }
        let res = TenantSlots { entries };
        proof {
            assert forall|j: int| 0 <= j < res.entries@.len() implies slot_built(
                #[trigger] res.entries@[j].1,
                *fallback,
            ) by {
                assert(slot_built(self.entries@[j].1, *fallback));
            }
            assert forall|t: Seq<char>|
                #![trigger res.slot(t)]
                (res.slot(t) is Some <==> self.slot(t) is Some) && (res.slot(t) matches Some(a) ==> slot_copy(
                    a,
                    self.slot(t)->Some_0,
                )) by {
                lemma_find_slot_copy(res.entries@, self.entries@, t);
            }
        }
        res
    }

    /// Give a tenant this policy at the initial version, as when a registry
    /// starts with known tenants.
    pub fn seed(&mut self, tenant_id: &str, policy: DefensePolicy, fallback: &DefensePolicy)
        requires
            old(self).wf(*fallback),
        ensures
            final(self).wf(*fallback),
            final(self).slot(tenant_id@) matches Some(s) && s.version.0 == 1 && s.policy == Some(policy)
                && s.provenance is None && s.media_limits is None,
            forall|q: Seq<char>| q != tenant_id@ ==> #[trigger] final(self).slot(q) == old(self).slot(q),
    {
        let slot = build_tenant_slot(TenantPolicyVersion::initial(), Some(policy), None, None, None, fallback);
        self.put(tenant_id, slot, Ghost(*fallback));
    }
}

proof fn lemma_find_slot_copy(a: Seq<(String, TenantPolicySlot)>, b: Seq<(String, TenantPolicySlot)>, t: Seq<char>)
    requires
        a.len() == b.len(),
        forall|j: int| 0 <= j < a.len() ==> (#[trigger] a[j]).0@ == b[j].0@ && slot_copy(a[j].1, b[j].1),
    ensures
        (find_slot(a, t) is Some <==> find_slot(b, t) is Some),
        find_slot(a, t) matches Some(x) ==> slot_copy(x, find_slot(b, t)->Some_0),
    decreases a.len(),
{
    if a.len() > 0 {
        assert(a.last() == a[a.len() - 1]);
        assert(b.last() == b[b.len() - 1]);
        let (da, db) = (a.drop_last(), b.drop_last());
        assert forall|j: int| 0 <= j < da.len() implies (#[trigger] da[j]).0@ == db[j].0@ && slot_copy(da[j].1, db[j].1) by {
            assert(da[j] == a[j]);
            assert(db[j] == b[j]);
        }
        lemma_find_slot_copy(da, db, t);
    }
}


/// A copy of a policy snapshot.
pub fn duplicate_snapshot(s: &TenantPolicySnapshot) -> (res: TenantPolicySnapshot)
    ensures
        res.tenant_id@ == s.tenant_id@,
        res.version == s.version,
        res.policy is Some <==> s.policy is Some,
        res.policy matches Some(p) ==> policy_same(p, s.policy->Some_0),
        opt_provenance_view(res.provenance) == opt_provenance_view(s.provenance),
{
    TenantPolicySnapshot {
        tenant_id: s.tenant_id.clone(),
        version: s.version,
        policy: duplicate_opt_policy(&s.policy),
        provenance: duplicate_opt_provenance(&s.provenance),
    }
}

/// A copy of a media-limit snapshot.
pub fn duplicate_media_snapshot(s: &crate::tenant::TenantMediaLimitsSnapshot) -> (res:
    crate::tenant::TenantMediaLimitsSnapshot)
    ensures
        res.tenant_id@ == s.tenant_id@,
        res.version == s.version,
        res.limits == s.limits,
        opt_provenance_view(res.provenance) == opt_provenance_view(s.provenance),
{
    crate::tenant::TenantMediaLimitsSnapshot {
        tenant_id: s.tenant_id.clone(),
        version: s.version,
        limits: s.limits,
        provenance: duplicate_opt_provenance(&s.provenance),
    }
}

/// A tenant's own defender is well formed.
pub proof fn lemma_slot_defender_wf(slots: TenantSlots, t: Seq<char>, fallback: DefensePolicy)
    requires
        slots.wf(fallback),
        slots.slot(t) matches Some(s) && s.defender is Some,
    ensures
        slots.slot(t)->Some_0.defender->Some_0.wf(),
{
    let k = lemma_found_index(slots.entries@, t);
    lemma_unique_find(slots.entries@, k);
    assert(slot_built(slots.entries@[k].1, fallback));
}

// ── Laws of the registry ─────────────────────────────────────────────────

/// A tenant whose slot holds a policy and no override is served by a
/// defender that enforces exactly that policy.
pub proof fn law_tenant_defender_enforces_its_policy(slots: TenantSlots, t: Seq<char>, fallback: DefensePolicy)
    requires
        slots.wf(fallback),
        slots.slot(t) matches Some(s) && s.policy is Some && s.media_limits is None,
    ensures
        slots.slot(t)->Some_0.defender matches Some(d) && d.wf() && policy_same(
            d.spec_policy(),
            slots.slot(t)->Some_0.policy->Some_0,
        ),
{
    let k = lemma_found_index(slots.entries@, t);
    lemma_unique_find(slots.entries@, k);
    assert(slot_built(slots.entries@[k].1, fallback));
}

/// A tenant whose policy was removed, with no override, has no defender of
/// its own: requests for it fall back.
pub proof fn law_removed_tenant_falls_back(slots: TenantSlots, t: Seq<char>, fallback: DefensePolicy)
    requires
        slots.wf(fallback),
        slots.slot(t) matches Some(s) && s.policy is None && s.media_limits is None,
    ensures
        slots.slot(t)->Some_0.defender is None,
{
    let k = lemma_found_index(slots.entries@, t);
    lemma_unique_find(slots.entries@, k);
    assert(slot_built(slots.entries@[k].1, fallback));
}

/// A media-limit override changes only the media limits of the policy it
/// lies over.
pub proof fn law_override_changes_only_media_limits(
    slots: TenantSlots,
    t: Seq<char>,
    fallback: DefensePolicy,
)
    requires
        slots.wf(fallback),
        slots.slot(t) matches Some(s) && s.media_limits is Some,
    ensures
        slots.slot(t)->Some_0.defender matches Some(d) && policy_same_but_media(
            d.spec_policy(),
            match slots.slot(t)->Some_0.policy {
                Some(b) => b,
                None => fallback,
            },
        ),
{
    let k = lemma_found_index(slots.entries@, t);
    lemma_unique_find(slots.entries@, k);
    assert(slot_built(slots.entries@[k].1, fallback));
}

/// Tenant policy sync: after an accepted versioned update the tenant is at
/// the update's version and resolves to a defender that enforces the new
/// policy, with every other tenant unchanged; a stale update changes
/// nothing.
pub proof fn law_versioned_update_takes_effect(
    before: TenantSlots,
    after: TenantSlots,
    t: Seq<char>,
    version: TenantPolicyVersion,
    policy: DefensePolicy,
    provenance: Option<TenantOverrideProvenance>,
    r: TenantPolicyUpdateResult,
    fallback: DefensePolicy,
)
    requires
        after.wf(fallback),
        versioned_upsert_effect(before, after, t, version, policy, provenance, r),
    ensures
        r is Applied ==> {
            &&& after.slot(t) matches Some(s) && s.version == version && (s.defender matches Some(d) && d.wf()
                && policy_same(d.spec_policy(), policy))
            &&& others_kept(before, after, t)
        },
        r is IgnoredStale ==> all_kept(before, after),
{
    if r is Applied {
        law_tenant_defender_enforces_its_policy(after, t, fallback);
    }
}

} // verus!
