//! A registry of defenders per tenant that many threads share. The tenant
//! slots are held whole in an `arc_swap` cell: readers load the current
//! slots without locking, and each change is computed from the slots it
//! replaces and swapped in, again on fresh slots when another thread swapped
//! first. What a change answers (applied, or ignored as stale) is decided
//! by the slots it was applied to.
use std::sync::Arc;

use vstd::prelude::*;

use crate::defender::FileDefender;
use crate::policy::DefensePolicy;
use crate::registry::{
    duplicate_media_snapshot, duplicate_opt_provenance, duplicate_snapshot, lemma_slot_defender_wf,
    limits_import_effect, policy_import_effect, remove_effect, report_total, snapshot_outcome, tally,
    upsert_effect, versioned_remove_effect, versioned_upsert_effect, ImportOutcome, TenantPolicySnapshot,
    TenantSlots,
};
use crate::tenant::{
    empty_import_report, HmacKeyRing, HmacTenantMediaLimitsSnapshot, SignedTenantMediaLimitsSnapshot,
    TenantMediaLimitsSnapshot, TenantOverrideProvenance, TenantPolicyRemoveResult, TenantPolicyUpdateResult,
    TenantPolicyVersion, TenantSnapshotImportReport,
};

verus! {

/// One change to the tenant slots.
pub(crate) enum SlotChange {
    /// Set a tenant's policy at its next version.
    Upsert { tenant_id: String, policy: DefensePolicy, provenance: Option<TenantOverrideProvenance> },
    /// Remove a tenant's policy at its next version.
    Remove { tenant_id: String },
    /// Apply a versioned policy snapshot.
    Policy(TenantPolicySnapshot),
    /// Apply a versioned media-limit snapshot.
    MediaLimits(TenantMediaLimitsSnapshot),
}

/// What a change can answer.
pub(crate) open spec fn change_answer(change: SlotChange, o: Option<ImportOutcome>) -> bool {
    match change {
        SlotChange::Upsert { .. } => o is None,
        SlotChange::Remove { .. } => o is None,
        SlotChange::Policy(s) => o matches Some(x) && snapshot_outcome(s.version, s.policy is Some, x),
        SlotChange::MediaLimits(s) => o matches Some(x) && snapshot_outcome(s.version, s.limits is Some, x),
    }
}

/// What a change did to the slots: the effect of its kind, applied to a
/// copy of the slots before.
pub(crate) open spec fn change_effect(
    before: TenantSlots,
    after: TenantSlots,
    change: SlotChange,
    o: Option<ImportOutcome>,
) -> bool {
    match change {
        SlotChange::Upsert { tenant_id, policy, provenance } => upsert_effect(
            before,
            after,
            tenant_id@,
            policy,
            provenance,
        ),
        SlotChange::Remove { tenant_id } => remove_effect(before, after, tenant_id@),
        SlotChange::Policy(s) => o matches Some(x) && policy_import_effect(before, after, s, x),
        SlotChange::MediaLimits(s) => o matches Some(x) && limits_import_effect(before, after, s, x),
    }
}

/// The tenant slots together with the fallback defender they are built
/// over.
pub(crate) struct SharedSlots {
    slots: TenantSlots,
    fallback: Arc<FileDefender>,
}

impl SharedSlots {
    #[verifier::type_invariant]
    spec fn built(self) -> bool {
        self.fallback.wf() && self.slots.wf(self.fallback.spec_policy())
    }

    /// The tenant slots.
    pub(crate) closed spec fn tenant_slots(&self) -> TenantSlots {
        self.slots
    }

    /// The defender the slots are built over.
    pub(crate) closed spec fn fallback_defender(&self) -> Arc<FileDefender> {
        self.fallback
    }

    /// No tenant has a slot yet.
    fn empty(fallback: Arc<FileDefender>) -> (res: Self)
        requires
            fallback.wf(),
        ensures
            forall|t: Seq<char>| #[trigger] res.tenant_slots().slot(t) is None,
            res.fallback_defender() == fallback,
    {
        SharedSlots { slots: TenantSlots::new(), fallback }
    }

    /// The slots after `change`, and what the change answered.
    pub(crate) fn changed(&self, change: &SlotChange) -> (res: (SharedSlots, Option<ImportOutcome>))
        ensures
            change_answer(*change, res.1),
            change_effect(self.tenant_slots(), res.0.tenant_slots(), *change, res.1),
            res.0.fallback_defender() == self.fallback_defender(),
    {
        proof {
            use_type_invariant(self);
        }
        let fallback = self.fallback.policy();
        let mut next = self.slots.duplicate(fallback);
        let answer = match change {
            SlotChange::Upsert { tenant_id, policy, provenance } => {
                next.upsert(tenant_id.as_str(), policy.duplicate(), duplicate_opt_provenance(provenance), fallback);
                None
            },
            SlotChange::Remove { tenant_id } => {
                next.remove(tenant_id.as_str(), fallback);
                None
            },
            SlotChange::Policy(s) => Some(next.import_snapshot(duplicate_snapshot(s), fallback)),
            SlotChange::MediaLimits(s) => Some(next.import_media_snapshot(duplicate_media_snapshot(s), fallback)),
        };
        (SharedSlots { slots: next, fallback: Arc::clone(&self.fallback) }, answer)
    }

    /// The tenant's own defender, or else the fallback one.
    pub(crate) fn defender_for(&self, tenant_id: &str) -> (res: Arc<FileDefender>)
        ensures
            res.wf(),
    {
        proof {
            use_type_invariant(self);
        }
        match self.slots.resolve(tenant_id) {
            Some(d) => {
                proof {
                    lemma_slot_defender_wf(self.slots, tenant_id@, self.fallback.spec_policy());
                }
                d
            },
            None => Arc::clone(&self.fallback),
        }
    }

    /// A snapshot of every tenant, over the fallback policy.
    pub(crate) fn export(&self) -> (res: Vec<TenantPolicySnapshot>)
        ensures
            self.tenant_slots().exports(self.fallback_defender().spec_policy(), res@),
    {
        proof {
            use_type_invariant(self);
        }
        self.slots.export(self.fallback.policy())
    }
}

/// An `arc_swap::ArcSwap` holding the shared slots. Verus refuses a
/// declaration of `ArcSwap`, whose storage strategy is bound by a trait of
/// that crate, so it is held here.
#[verifier::external_body]
pub(crate) struct SlotStore {
    cell: arc_swap::ArcSwap<SharedSlots>,
}

/// `ArcSwap::from_pointee`: a store holding `slots`.
#[verifier::external_body]
fn slot_store(slots: SharedSlots) -> SlotStore {
    SlotStore { cell: arc_swap::ArcSwap::from_pointee(slots) }
}

/// `ArcSwap::load_full`: the slots stored last. Other threads may store at
/// any moment, so nothing is stated of which slots come back.
#[verifier::external_body]
fn load_slots(store: &SlotStore) -> Arc<SharedSlots> {
    store.cell.load_full()
}

/// `ArcSwap::rcu` with a closure that computes the slots after `change`
/// from the current ones (`SharedSlots::changed`): the new slots are stored
/// unless another thread stored first, in which case they are computed again
/// from that thread's slots. Returns the slots that the stored ones were
/// computed from.
#[verifier::external_body]
fn update_slots(store: &SlotStore, change: &SlotChange) -> Arc<SharedSlots> {
    store.cell.rcu(|current| current.changed(change).0)
}

/// A registry of defenders per tenant, with a fallback defender for
/// tenants without a policy of their own.
pub struct TenantDefenderRegistry {
    fallback: Arc<FileDefender>,
    store: SlotStore,
}

/// The update answer of a versioned change: applied at `version`, or
/// ignored for a version at least as new.
pub open spec fn update_answer(version: TenantPolicyVersion, res: TenantPolicyUpdateResult) -> bool {
    match res {
        TenantPolicyUpdateResult::Applied { version: v } => v == version,
        TenantPolicyUpdateResult::IgnoredStale { current_version } => current_version.0 >= version.0,
    }
}

/// The removal answer of a versioned change: applied at `version`, ignored
/// for a newer version, or already removed at `version`.
pub open spec fn remove_answer(version: TenantPolicyVersion, res: TenantPolicyRemoveResult) -> bool {
    match res {
        TenantPolicyRemoveResult::Applied { version: v } => v == version,
        TenantPolicyRemoveResult::IgnoredStale { current_version } => current_version.0 > version.0,
        TenantPolicyRemoveResult::AlreadyRemoved { version: v } => v == version,
    }
}

/// How many of the snapshots are marked as failing their check.
pub open spec fn unverified_count(s: Seq<(TenantPolicySnapshot, bool)>) -> nat
    decreases s.len(),
{
    if s.len() == 0 {
        0
    } else {
        unverified_count(s.drop_last()) + if s.last().1 {
            0nat
        } else {
            1nat
        }
    }
}

impl TenantDefenderRegistry {
    #[verifier::type_invariant]
    spec fn fallback_built(self) -> bool {
        self.fallback.wf()
    }

    /// The defender of tenants without a policy of their own.
    pub closed spec fn fallback_defender(&self) -> Arc<FileDefender> {
        self.fallback
    }

    /// A registry without tenants.
    pub fn new(fallback_policy: DefensePolicy) -> (res: Self)
        ensures
            res.fallback_defender().spec_policy() == fallback_policy,
    {
        let fallback = Arc::new(FileDefender::new(fallback_policy));
        let store = slot_store(SharedSlots::empty(Arc::clone(&fallback)));
        TenantDefenderRegistry { fallback, store }
    }

    /// A registry whose tenants start with these policies, at the initial
    /// version.
    pub fn with_seeded_tenants(fallback_policy: DefensePolicy, tenants: Vec<(String, DefensePolicy)>) -> (res: Self)
        ensures
            res.fallback_defender().spec_policy() == fallback_policy,
    {
        let fallback = Arc::new(FileDefender::new(fallback_policy));
        let mut slots = TenantSlots::new();
        let mut rest = tenants;
        while rest.len() > 0
            invariant
                fallback.wf(),
                slots.wf(fallback.spec_policy()),
            decreases rest@.len(),
        {
            let (tenant_id, policy) = rest.remove(0);
            slots.seed(tenant_id.as_str(), policy, fallback.policy());
        }
        let store = slot_store(SharedSlots { slots, fallback: Arc::clone(&fallback) });
        TenantDefenderRegistry { fallback, store }
    }

    fn apply(&self, change: &SlotChange) -> (res: Option<ImportOutcome>)
        ensures
            change_answer(*change, res),
            exists|before: TenantSlots, after: TenantSlots| #[trigger] change_effect(before, after, *change, res),
    {
        let previous = update_slots(&self.store, change);
        let (after, answer) = previous.changed(change);
        proof {
            assert(change_effect(previous.tenant_slots(), after.tenant_slots(), *change, answer));
        }
        answer
    }

    /// Set a tenant's policy at its next version. Other threads may change
    /// the slots before and after, so the effect is stated of the slots the
    /// change was applied to.
    pub fn upsert_tenant_policy(&self, tenant_id: &str, policy: DefensePolicy)
        ensures
            exists|before: TenantSlots, after: TenantSlots| #[trigger]
                upsert_effect(before, after, tenant_id@, policy, None),
    {
        self.upsert_tenant_policy_with_provenance(tenant_id, policy, None);
    }

    /// Set a tenant's policy at its next version, recording its provenance.
    pub fn upsert_tenant_policy_with_provenance(
        &self,
        tenant_id: &str,
        policy: DefensePolicy,
        provenance: Option<TenantOverrideProvenance>,
    )
        ensures
            exists|before: TenantSlots, after: TenantSlots| #[trigger]
                upsert_effect(before, after, tenant_id@, policy, provenance),
    {
        let change = SlotChange::Upsert { tenant_id: tenant_id.to_owned(), policy, provenance };
        self.apply(&change);
    }

    /// Remove a tenant's policy at its next version.
    pub fn remove_tenant_policy(&self, tenant_id: &str)
        ensures
            exists|before: TenantSlots, after: TenantSlots| #[trigger] remove_effect(before, after, tenant_id@),
    {
        let change = SlotChange::Remove { tenant_id: tenant_id.to_owned() };
        self.apply(&change);
    }

    /// Set a tenant's policy at `version` unless it is already at that
    /// version or a newer one.
    pub fn upsert_tenant_policy_if_newer(&self, tenant_id: &str, version: TenantPolicyVersion, policy: DefensePolicy)
        -> (res: TenantPolicyUpdateResult)
        ensures
            update_answer(version, res),
            exists|before: TenantSlots, after: TenantSlots| #[trigger]
                versioned_upsert_effect(before, after, tenant_id@, version, policy, None, res),
    {
        self.upsert_tenant_policy_if_newer_with_provenance(tenant_id, version, policy, None)
    }

    /// As `upsert_tenant_policy_if_newer`, recording the provenance.
    pub fn upsert_tenant_policy_if_newer_with_provenance(
        &self,
        tenant_id: &str,
        version: TenantPolicyVersion,
        policy: DefensePolicy,
        provenance: Option<TenantOverrideProvenance>,
    ) -> (res: TenantPolicyUpdateResult)
        ensures
            update_answer(version, res),
            exists|before: TenantSlots, after: TenantSlots| #[trigger]
                versioned_upsert_effect(before, after, tenant_id@, version, policy, provenance, res),
    {
        let snapshot = TenantPolicySnapshot { tenant_id: tenant_id.to_owned(), version, policy: Some(policy), provenance };
        let change = SlotChange::Policy(snapshot);
        match self.apply(&change) {
            Some(ImportOutcome::Upsert(r)) => r,
            _ => {
                proof {
                    assert(false);
                }
                TenantPolicyUpdateResult::IgnoredStale { current_version: version }
            },
        }
    }

    /// Remove a tenant's policy at `version`, unless it is at a newer
    /// version or already removed at this one.
    pub fn remove_tenant_policy_if_newer(&self, tenant_id: &str, version: TenantPolicyVersion) -> (res:
        TenantPolicyRemoveResult)
        ensures
            remove_answer(version, res),
            exists|before: TenantSlots, after: TenantSlots| #[trigger]
                versioned_remove_effect(before, after, tenant_id@, version, res),
    {
        let snapshot = TenantPolicySnapshot { tenant_id: tenant_id.to_owned(), version, policy: None, provenance: None };
        let change = SlotChange::Policy(snapshot);
        match self.apply(&change) {
            Some(ImportOutcome::Remove(r)) => r,
            _ => {
                proof {
                    assert(false);
                }
                TenantPolicyRemoveResult::AlreadyRemoved { version }
            },
        }
    }

    /// The defender of the tenant: its own when it has an effective
    /// policy, else the fallback.
    pub fn resolve(&self, tenant_id: Option<&str>) -> (res: Arc<FileDefender>)
        ensures
            res.wf(),
            tenant_id is None ==> res == self.fallback_defender(),
    {
        proof {
            use_type_invariant(self);
        }
        match tenant_id {
            Some(t) => {
                let current = load_slots(&self.store);
                current.defender_for(t)
            },
            None => Arc::clone(&self.fallback),
        }
    }

    /// A snapshot of every tenant, from the slots current when they were
    /// loaded: which slots those are depends on the updates other threads
    /// swapped in, so the export is stated of some slots and the policy they
    /// were built over.
    pub fn export_snapshots(&self) -> (res: Vec<TenantPolicySnapshot>)
        ensures
            exists|slots: TenantSlots, fallback: DefensePolicy| #[trigger] slots.exports(fallback, res@),
    {
        let current = load_slots(&self.store);
        let res = current.export();
        proof {
            assert(current.tenant_slots().exports(current.fallback_defender().spec_policy(), res@));
        }
        res
    }

    /// Apply policy snapshots in order, each only when newer, counting what
    /// happened to each.
    pub fn import_snapshots_if_newer(&self, snapshots: Vec<TenantPolicySnapshot>) -> (res: TenantSnapshotImportReport)
        ensures
            report_total(res) == snapshots@.len(),
            res.rejected_invalid_signature == 0,
    {
        let mut report = empty_import_report();
        let mut rest = snapshots;
        let count = rest.len();
        let ghost total = count as nat;
        while rest.len() > 0
            invariant
                report_total(report) + rest@.len() == total,
                total <= usize::MAX,
                report.rejected_invalid_signature == 0,
            decreases rest@.len(),
        {
            let snapshot = rest.remove(0);
            let change = SlotChange::Policy(snapshot);
            if let Some(o) = self.apply(&change) {
                tally(&mut report, o);
            }
        }
        report
    }

    /// Apply policy snapshots whose signatures were checked by the caller:
    /// those marked `false` are counted as rejected and not applied.
    pub fn import_checked_snapshots_if_newer(&self, snapshots: Vec<(TenantPolicySnapshot, bool)>) -> (res:
        TenantSnapshotImportReport)
        ensures
            report_total(res) == snapshots@.len(),
            res.rejected_invalid_signature == unverified_count(snapshots@),
    {
        let mut report = empty_import_report();
        let mut rest = snapshots;
        let count = rest.len();
        let ghost total = count as nat;
        let ghost all = rest@;
        while rest.len() > 0
            invariant
                report_total(report) + rest@.len() == total,
                total <= usize::MAX,
                total == all.len(),
                all == all.subrange(0, (total - rest@.len()) as int) + rest@,
                report.rejected_invalid_signature == unverified_count(all.subrange(0, (total - rest@.len()) as int)),
            decreases rest@.len(),
        {
            let ghost done = all.subrange(0, (total - rest@.len()) as int);
            let (snapshot, verified) = rest.remove(0);
            proof {
                let next = all.subrange(0, (total - rest@.len()) as int);
                assert(next == done.push((snapshot, verified)));
                assert(next.drop_last() == done);
            }
            if !verified {
                report.rejected_invalid_signature = report.rejected_invalid_signature + 1;
            } else {
                let change = SlotChange::Policy(snapshot);
                if let Some(o) = self.apply(&change) {
                    tally(&mut report, o);
                }
            }
        }
        proof {
            assert(all.subrange(0, total as int) == all);
        }
        report
    }

    /// Apply media-limit snapshots in order, each only when newer,
    /// counting what happened to each.
    pub fn import_media_limits_snapshots_if_newer(&self, snapshots: Vec<TenantMediaLimitsSnapshot>) -> (res:
        TenantSnapshotImportReport)
        ensures
            report_total(res) == snapshots@.len(),
            res.rejected_invalid_signature == 0,
    {
        let mut report = empty_import_report();
        let mut rest = snapshots;
        let count = rest.len();
        let ghost total = count as nat;
        while rest.len() > 0
            invariant
                report_total(report) + rest@.len() == total,
                total <= usize::MAX,
                report.rejected_invalid_signature == 0,
            decreases rest@.len(),
        {
            let snapshot = rest.remove(0);
            let change = SlotChange::MediaLimits(snapshot);
            if let Some(o) = self.apply(&change) {
                tally(&mut report, o);
            }
        }
        report
    }

    /// Apply one media-limit snapshot when its check passed; otherwise
    /// count it as rejected.
    fn import_media_if(&self, report: &mut TenantSnapshotImportReport, snapshot: TenantMediaLimitsSnapshot, passed: bool)
        requires
            report_total(*old(report)) < usize::MAX,
        ensures
            report_total(*final(report)) == report_total(*old(report)) + 1,
            final(report).rejected_invalid_signature == old(report).rejected_invalid_signature + if passed {
                0int
            } else {
                1int
            },
    {
        if !passed {
            report.rejected_invalid_signature = report.rejected_invalid_signature + 1;
        } else {
            let change = SlotChange::MediaLimits(snapshot);
            if let Some(o) = self.apply(&change) {
                tally(report, o);
            }
        }
    }

    /// Apply the media-limit snapshots whose digest matches; the others are
    /// counted as rejected.
    pub fn import_signed_media_limits_snapshots_if_newer(&self, snapshots: Vec<SignedTenantMediaLimitsSnapshot>) -> (res:
        TenantSnapshotImportReport)
        ensures
            report_total(res) == snapshots@.len(),
    {
        let mut report = empty_import_report();
        let mut rest = snapshots;
        let count = rest.len();
        let ghost total = count as nat;
        while rest.len() > 0
            invariant
                report_total(report) + rest@.len() == total,
                total <= usize::MAX,
            decreases rest@.len(),
        {
            let signed = rest.remove(0);
            let passed = signed.verify();
            self.import_media_if(&mut report, signed.snapshot, passed);
        }
        report
    }

    /// Apply the media-limit snapshots whose HMAC under `secret` matches;
    /// the others are counted as rejected.
    pub fn import_hmac_media_limits_snapshots_if_newer(
        &self,
        snapshots: Vec<HmacTenantMediaLimitsSnapshot>,
        secret: &[u8],
    ) -> (res: TenantSnapshotImportReport)
        ensures
            report_total(res) == snapshots@.len(),
    {
        let mut report = empty_import_report();
        let mut rest = snapshots;
        let count = rest.len();
        let ghost total = count as nat;
        while rest.len() > 0
            invariant
                report_total(report) + rest@.len() == total,
                total <= usize::MAX,
            decreases rest@.len(),
        {
            let signed = rest.remove(0);
            let passed = signed.verify(secret);
            self.import_media_if(&mut report, signed.snapshot, passed);
        }
        report
    }

    /// Apply the media-limit snapshots that the key ring verifies at
    /// `now_unix_ms`, with a current key or one within its grace period;
    /// the others are counted as rejected.
    pub fn import_hmac_media_limits_snapshots_with_keyring_at_if_newer(
        &self,
        snapshots: Vec<HmacTenantMediaLimitsSnapshot>,
        keyring: &HmacKeyRing,
        now_unix_ms: u64,
    ) -> (res: TenantSnapshotImportReport)
        ensures
            report_total(res) == snapshots@.len(),
    {
        let mut report = empty_import_report();
        let mut rest = snapshots;
        let count = rest.len();
        let ghost total = count as nat;
        while rest.len() > 0
            invariant
                report_total(report) + rest@.len() == total,
                total <= usize::MAX,
            decreases rest@.len(),
        {
            let signed = rest.remove(0);
            let outcome = signed.verify_with_keyring_outcome(keyring, now_unix_ms);
            self.import_media_if(&mut report, signed.snapshot, outcome.is_verified());
        }
        report
    }

    /// As `import_hmac_media_limits_snapshots_with_keyring_at_if_newer`, at
    /// the current time.
    pub fn import_hmac_media_limits_snapshots_with_keyring_if_newer(
        &self,
        snapshots: Vec<HmacTenantMediaLimitsSnapshot>,
        keyring: &HmacKeyRing,
    ) -> (res: TenantSnapshotImportReport)
        ensures
            report_total(res) == snapshots@.len(),
    {
        let now = crate::tenant::current_unix_ms();
        self.import_hmac_media_limits_snapshots_with_keyring_at_if_newer(snapshots, keyring, now)
    }
}

} // verus!
