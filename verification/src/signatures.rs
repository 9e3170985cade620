//! Signature rules and the multi-pattern scanner.
//!
//! The scanner is the second line of defense after the rebuild: canary
//! strings (EICAR), executable headers and shebangs, and user-supplied
//! indicators. Matching uses an Aho-Corasick automaton, so one pass over the
//! buffer checks every pattern; each rule carries a location constraint.
use aho_corasick::{AhoCorasick, AhoCorasickBuilder, MatchKind};
use vstd::prelude::*;
use vstd::slice::slice_to_vec;
use vstd::string::StringSliceAdditionalSpecFns;

use crate::bytes::occurs_at;

verus! {

/// Where inside the buffer a signature pattern is allowed to match.
#[derive(Debug, Clone, Copy, PartialEq, Eq, Structural)]
pub enum SignatureLocation {
    /// Pattern matches anywhere in the buffer.
    Anywhere,
    /// Pattern only matches if it begins within the first N bytes.
    FirstBytes(u64),
    /// Pattern only matches if it begins within the last N bytes.
    LastBytes(u64),
}

/// A named byte pattern with a location constraint.
#[derive(Debug)]
pub struct SignatureRule {
    pub name: String,
    pub pattern: Vec<u8>,
    pub location: SignatureLocation,
}

/// A rule as plain values: name, pattern, location.
pub open spec fn rule_view(r: SignatureRule) -> (Seq<char>, Seq<u8>, SignatureLocation) {
    (r.name@, r.pattern@, r.location)
}

pub open spec fn rule_views(rules: Seq<SignatureRule>) -> Seq<(Seq<char>, Seq<u8>, SignatureLocation)> {
    rules.map_values(|r: SignatureRule| rule_view(r))
}

impl SignatureRule {
    pub fn anywhere(name: &str, pattern: Vec<u8>) -> (res: Self)
        ensures
            rule_view(res) == (name@, pattern@, SignatureLocation::Anywhere),
    {
        SignatureRule { name: name.to_owned(), pattern, location: SignatureLocation::Anywhere }
    }

    pub fn first_bytes(name: &str, pattern: Vec<u8>, limit: u64) -> (res: Self)
        ensures
            rule_view(res) == (name@, pattern@, SignatureLocation::FirstBytes(limit)),
    {
        SignatureRule { name: name.to_owned(), pattern, location: SignatureLocation::FirstBytes(limit) }
    }

    pub fn last_bytes(name: &str, pattern: Vec<u8>, limit: u64) -> (res: Self)
        ensures
            rule_view(res) == (name@, pattern@, SignatureLocation::LastBytes(limit)),
    {
        SignatureRule { name: name.to_owned(), pattern, location: SignatureLocation::LastBytes(limit) }
    }

    /// A field-by-field copy.
    pub fn duplicate(&self) -> (res: Self)
        ensures
            rule_view(res) == rule_view(*self),
    {
        SignatureRule {
            name: self.name.clone(),
            pattern: slice_to_vec(self.pattern.as_slice()),
            location: self.location,
        }
    }
}

/// One rule that matched.
#[derive(Debug, Clone, PartialEq, Eq)]
pub struct SignatureHit {
    pub rule_name: String,
}

/// What a blocked result can be quarantined with.
#[derive(Debug, Clone, PartialEq, Eq)]
pub struct QuarantineEnvelope {
    pub reason: String,
    pub sha256: String,
    pub original_size: u64,
    pub output_size: u64,
    pub stage_details: Vec<String>,
}

/// A match starting at `start` satisfies the rule's location constraint.
pub open spec fn location_allows(loc: SignatureLocation, start: int, input_len: int, pattern_len: int) -> bool {
    match loc {
        SignatureLocation::Anywhere => true,
        SignatureLocation::FirstBytes(limit) => start < limit,
        SignatureLocation::LastBytes(limit) => start >= input_len - limit,
    }
}

/// Whether a match at `match_start` of a pattern of `pattern_len` bytes, in
/// an input of `input_len` bytes, is allowed by `location`.
pub fn is_location_allowed(location: &SignatureLocation, match_start: u64, input_len: u64, pattern_len: u64) -> (res: bool)
    ensures
        res == location_allows(*location, match_start as int, input_len as int, pattern_len as int),
{
    match location {
        SignatureLocation::Anywhere => true,
        SignatureLocation::FirstBytes(limit) => match_start < *limit,
        SignatureLocation::LastBytes(limit) => match_start >= input_len.saturating_sub(*limit),
    }
}

/// A rule matches the input: its pattern is non-empty and occurs at a
/// position its location allows.
pub open spec fn rule_matches(rule: (Seq<char>, Seq<u8>, SignatureLocation), input: Seq<u8>) -> bool {
    rule.1.len() > 0 && exists|s: int|
        occurs_at(input, rule.1, s) && location_allows(rule.2, s, input.len() as int, rule.1.len() as int)
}

/// `ids` lists, without repetition, exactly the rules that match.
pub open spec fn is_hit_list(rules: Seq<(Seq<char>, Seq<u8>, SignatureLocation)>, input: Seq<u8>, ids: Seq<int>) -> bool {
    &&& forall|k: int| 0 <= k < ids.len() ==> 0 <= #[trigger] ids[k] < rules.len() && rule_matches(rules[ids[k]], input)
    &&& forall|k1: int, k2: int| 0 <= k1 < k2 < ids.len() ==> ids[k1] != ids[k2]
    &&& forall|i: int| 0 <= i < rules.len() && #[trigger] rule_matches(rules[i], input) ==> ids.contains(i)
}

/// Indices `< n` of the rules with a non-empty pattern, in order.
pub open spec fn nonempty_indices(rules: Seq<(Seq<char>, Seq<u8>, SignatureLocation)>, n: int) -> Seq<int>
    decreases n,
{
    if n <= 0 {
        Seq::empty()
    } else if rules[n - 1].1.len() > 0 {
        nonempty_indices(rules, n - 1).push(n - 1)
    } else {
        nonempty_indices(rules, n - 1)
    }
}

pub proof fn lemma_nonempty_indices(rules: Seq<(Seq<char>, Seq<u8>, SignatureLocation)>, n: int)
    requires
        0 <= n <= rules.len(),
    ensures
        forall|k: int| 0 <= k < nonempty_indices(rules, n).len() ==> 0 <= #[trigger] nonempty_indices(rules, n)[k] < n
            && rules[nonempty_indices(rules, n)[k]].1.len() > 0,
        forall|k1: int, k2: int| 0 <= k1 < k2 < nonempty_indices(rules, n).len() ==> nonempty_indices(rules, n)[k1] < nonempty_indices(rules, n)[k2],
        forall|i: int| 0 <= i < n && rules[i].1.len() > 0 ==> nonempty_indices(rules, n).contains(i),
    decreases n,
{
    if n > 0 {
        lemma_nonempty_indices(rules, n - 1);
        let prev = nonempty_indices(rules, n - 1);
        if rules[n - 1].1.len() > 0 {
            assert(prev.push(n - 1)[prev.len() as int] == n - 1);
            assert forall|i: int| 0 <= i < n && rules[i].1.len() > 0 implies nonempty_indices(rules, n).contains(i) by {
                if i < n - 1 {
                    assert(prev.contains(i));
                    let k = choose|k: int| 0 <= k < prev.len() && prev[k] == i;
                    assert(prev.push(n - 1)[k] == i);
                } else {
                    assert(prev.push(n - 1)[prev.len() as int] == i);
                }
            }
        }
    }
}

#[verifier::external_type_specification]
#[verifier::external_body]
pub struct ExAhoCorasick(AhoCorasick);

/// The patterns an automaton was built from, in pattern-id order.
pub uninterp spec fn automaton_patterns(a: AhoCorasick) -> Seq<Seq<u8>>;

/// The automaton was built with standard match semantics, under which
/// overlapping search is supported.
pub uninterp spec fn automaton_is_standard(a: AhoCorasick) -> bool;

/// Builds an automaton through `AhoCorasickBuilder::build` with standard,
/// case-sensitive matching. The builder may refuse (too many states); on
/// success the automaton holds the given patterns in order.
#[verifier::external_body]
fn build_automaton(patterns: &Vec<Vec<u8>>) -> (res: Option<AhoCorasick>)
    ensures
        match res {
            Some(a) => automaton_patterns(a) == patterns@.map_values(|p: Vec<u8>| p@) && automaton_is_standard(a),
            None => true,
        },
{
    AhoCorasickBuilder::new().match_kind(MatchKind::Standard).ascii_case_insensitive(false).build(patterns).ok()
}

/// All overlapping matches, through `AhoCorasick::find_overlapping_iter`:
/// the iterator reports every occurrence of every pattern. Each match is
/// returned as (pattern id, start offset).
#[verifier::external_body]
fn overlapping_matches(automaton: &AhoCorasick, input: &[u8]) -> (res: Vec<(usize, usize)>)
    requires
        automaton_is_standard(*automaton),
    ensures
        forall|k: int| 0 <= k < res@.len() ==> (#[trigger] res@[k]).0 < automaton_patterns(*automaton).len()
            && occurs_at(input@, automaton_patterns(*automaton)[res@[k].0 as int], res@[k].1 as int),
        forall|p: int, s: int|
            0 <= p < automaton_patterns(*automaton).len() && automaton_patterns(*automaton)[p].len() > 0
                && occurs_at(input@, automaton_patterns(*automaton)[p], s) ==> exists|k: int|
                0 <= k < res@.len() && res@[k] == (p as usize, s as usize),
{
    let mut out = Vec::new();
    for m in automaton.find_overlapping_iter(input) {
        out.push((m.pattern().as_usize(), m.start()));
    }
    out
}

/// Multi-pattern scanner built once from a list of rules.
#[derive(Debug)]
pub struct SignatureEngine {
    automaton: Option<AhoCorasick>,
    rules: Vec<SignatureRule>,
}

impl SignatureEngine {
    /// The rules as plain values.
    pub closed spec fn rules(&self) -> Seq<(Seq<char>, Seq<u8>, SignatureLocation)> {
        rule_views(self.rules@)
    }

    /// Whether the automaton was built; it is absent when no rule has a
    /// non-empty pattern, or when the builder refused.
    pub closed spec fn is_armed(&self) -> bool {
        self.automaton is Some
    }

    /// The automaton holds the non-empty patterns of the rules, in order.
    pub closed spec fn wf(&self) -> bool {
        match self.automaton {
            Some(a) => {
                let idx = nonempty_indices(self.rules(), self.rules().len() as int);
                &&& automaton_is_standard(a)
                &&& automaton_patterns(a).len() == idx.len()
                &&& forall|k: int| 0 <= k < idx.len() ==> #[trigger] automaton_patterns(a)[k] == self.rules()[idx[k]].1
            },
            None => true,
        }
    }

    /// An engine from the given rules only.
    pub fn from_rules(rules: Vec<SignatureRule>) -> (res: Self)
        ensures
            res.wf(),
            res.rules() == rule_views(rules@),
            (forall|i: int| 0 <= i < rules@.len() ==> rules@[i].pattern@.len() == 0) ==> !res.is_armed(),
    {
        Self::build(rules)
    }

    /// An engine from the baseline rules followed by the given rules; the
    /// baseline cannot be disabled.
    pub fn with_baseline(user_rules: Vec<SignatureRule>) -> (res: Self)
        ensures
            res.wf(),
            res.rules() == baseline_rule_views() + rule_views(user_rules@),
    {
        let mut rules = baseline_rules();
        let ghost base = rules@;
        let mut user = user_rules;
        rules.append(&mut user);
        assert(rule_views(rules@) =~= rule_views(base) + rule_views(user_rules@));
        Self::build(rules)
    }

    fn build(rules: Vec<SignatureRule>) -> (res: Self)
        ensures
            res.wf(),
            res.rules() == rule_views(rules@),
            (forall|i: int| 0 <= i < rules@.len() ==> rules@[i].pattern@.len() == 0) ==> !res.is_armed(),
    {
        let ghost views = rule_views(rules@);
        let mut patterns: Vec<Vec<u8>> = Vec::new();
        let mut i: usize = 0;
        while i < rules.len()
            invariant
                i <= rules@.len(),
                views == rule_views(rules@),
                patterns@.len() == nonempty_indices(views, i as int).len(),
                forall|k: int| 0 <= k < patterns@.len() ==> #[trigger] patterns@[k]@ == views[nonempty_indices(views, i as int)[k]].1,
            decreases rules@.len() - i,
        {
            proof {
                lemma_nonempty_indices(views, i as int);
            }
            if rules[i].pattern.len() > 0 {
                patterns.push(slice_to_vec(rules[i].pattern.as_slice()));
            }
            i = i + 1;
        }
        if patterns.len() == 0 {
            proof {
                assert forall|i: int| 0 <= i < rules@.len() implies rules@[i].pattern@.len() == 0 || true by {}
            }
            return SignatureEngine { automaton: None, rules };
        }
        proof {
            lemma_nonempty_indices(views, rules@.len() as int);
            if forall|i: int| 0 <= i < rules@.len() ==> rules@[i].pattern@.len() == 0 {
                let k = 0int;
                let j = nonempty_indices(views, rules@.len() as int)[k];
                assert(views[j].1 == rules@[j].pattern@);
            }
        }
        let automaton = build_automaton(&patterns);
        SignatureEngine { automaton, rules }
    }

    /// Indices of the rules that match the input, each at most once, in the
    /// order the automaton first reports them. Empty when the engine is not
    /// armed.
    pub fn matched_rules(&self, input: &[u8]) -> (res: Vec<usize>)
        requires
            self.wf(),
        ensures
            self.is_armed() ==> is_hit_list(self.rules(), input@, res@.map_values(|i: usize| i as int)),
            !self.is_armed() ==> res@.len() == 0,
    {
        let automaton = match &self.automaton {
            Some(a) => a,
            None => {
                return Vec::new();
            },
        };
        let ghost views = self.rules();
        let ghost idx = nonempty_indices(views, views.len() as int);
        proof {
            lemma_nonempty_indices(views, views.len() as int);
        }
        let mut rule_index_for_pattern: Vec<usize> = Vec::new();
        let mut i: usize = 0;
        while i < self.rules.len()
            invariant
                i <= self.rules@.len(),
                views == rule_views(self.rules@),
                rule_index_for_pattern@.map_values(|j: usize| j as int) == nonempty_indices(views, i as int),
            decreases self.rules@.len() - i,
        {
            if self.rules[i].pattern.len() > 0 {
                rule_index_for_pattern.push(i);
            }
            assert(rule_index_for_pattern@.map_values(|j: usize| j as int) =~= nonempty_indices(views, i + 1));
            i = i + 1;
        }
        let input_len = input.len() as u64;
        let matches = overlapping_matches(automaton, input);
        let mut seen: Vec<bool> = Vec::new();
        let mut j: usize = 0;
        while j < self.rules.len()
            invariant
                j <= self.rules@.len(),
                seen@.len() == j,
                forall|k: int| 0 <= k < j ==> !seen@[k],
            decreases self.rules@.len() - j,
        {
            seen.push(false);
            j = j + 1;
        }
        let mut hits: Vec<usize> = Vec::new();
        let mut m: usize = 0;
        while m < matches.len()
            invariant
                views == rule_views(self.rules@),
                idx == nonempty_indices(views, views.len() as int),
                rule_index_for_pattern@.map_values(|j: usize| j as int) == idx,
                input_len == input@.len(),
                seen@.len() == views.len(),
                self.wf(),
                self.automaton == Some(*automaton),
                automaton_patterns(*automaton).len() == idx.len(),
                forall|k: int| 0 <= k < idx.len() ==> #[trigger] automaton_patterns(*automaton)[k] == views[idx[k]].1,
                forall|k: int| 0 <= k < idx.len() ==> 0 <= #[trigger] idx[k] < views.len() && views[idx[k]].1.len() > 0,
                forall|k: int| 0 <= k < matches@.len() ==> (#[trigger] matches@[k]).0 < automaton_patterns(*automaton).len()
                    && occurs_at(input@, automaton_patterns(*automaton)[matches@[k].0 as int], matches@[k].1 as int),
                m <= matches@.len(),
                forall|k: int| 0 <= k < hits@.len() ==> 0 <= #[trigger] hits@[k] < views.len()
                    && rule_matches(views[hits@[k] as int], input@) && seen@[hits@[k] as int],
                forall|k1: int, k2: int| 0 <= k1 < k2 < hits@.len() ==> hits@[k1] != hits@[k2],
                forall|r: int| 0 <= r < views.len() && #[trigger] seen@[r] ==> hits@.contains(r as usize),
                forall|k: int|
                    0 <= k < m ==> {
                        let p = (#[trigger] matches@[k]).0 as int;
                        let r = idx[p];
                        location_allows(views[r].2, matches@[k].1 as int, input@.len() as int, views[r].1.len() as int)
                            ==> seen@[r]
                    },
            decreases matches@.len() - m,
        {
            let (pattern_index, start) = matches[m];
            proof {
                assert(matches@[m as int].0 < automaton_patterns(*automaton).len());
            }
            let rule_index = rule_index_for_pattern[pattern_index];
            proof {
                assert(rule_index as int == idx[pattern_index as int]);
                assert(automaton_patterns(*automaton)[pattern_index as int] == views[rule_index as int].1);
            }
            if !seen[rule_index] {
                let rule = &self.rules[rule_index];
                let allowed = is_location_allowed(&rule.location, start as u64, input_len, rule.pattern.len() as u64);
                proof {
                    assert(views[rule_index as int] == rule_view(*rule));
                    assert(occurs_at(input@, views[rule_index as int].1, start as int));
                }
                if allowed {
                    let ghost old_hits = hits@;
                    let ghost old_seen = seen@;
                    seen.set(rule_index, true);
                    hits.push(rule_index);
                    proof {
                        assert(hits@[hits@.len() - 1] == rule_index);
                        assert forall|r: int| 0 <= r < views.len() && #[trigger] seen@[r] implies hits@.contains(r as usize) by {
                            if r == rule_index as int {
                                assert(hits@[hits@.len() - 1] == rule_index);
                            } else {
                                assert(old_seen[r]);
                                assert(old_hits.contains(r as usize));
                                let h = choose|h: int| 0 <= h < old_hits.len() && old_hits[h] == r as usize;
                                assert(hits@[h] == r as usize);
                            }
                        }
                    }
                }
            }
            m = m + 1;
        }
        let n_patterns: usize = rule_index_for_pattern.len();
        proof {
            let ids = hits@.map_values(|i: usize| i as int);
            assert forall|r: int| 0 <= r < views.len() && #[trigger] rule_matches(views[r], input@) implies ids.contains(r) by {
                let s = choose|s: int| occurs_at(input@, views[r].1, s) && location_allows(views[r].2, s, input@.len() as int, views[r].1.len() as int);
                assert(idx.contains(r));
                let p = choose|p: int| 0 <= p < idx.len() && idx[p] == r;
                assert(idx.len() == n_patterns);
                assert(automaton_patterns(*automaton)[p] == views[r].1);
                let k = choose|k: int| 0 <= k < matches@.len() && matches@[k] == (p as usize, s as usize);
                assert(matches@[k].0 as int == p);
                assert(seen@[r]);
                let h = choose|h: int| 0 <= h < hits@.len() && hits@[h] == r as usize;
                assert(ids[h] == r);
            }
        }
        hits
    }

    /// The hits of the rules that match the input, one per rule.
    pub fn scan(&self, input: &[u8]) -> (res: Vec<SignatureHit>)
        requires
            self.wf(),
        ensures
            self.is_armed() ==> exists|ids: Seq<int>| #![auto]
                is_hit_list(self.rules(), input@, ids) && ids.len() == res@.len()
                    && forall|k: int| 0 <= k < ids.len() ==> res@[k].rule_name@ == self.rules()[ids[k]].0,
            !self.is_armed() ==> res@.len() == 0,
    {
        let ids = self.matched_rules(input);
        let mut hits: Vec<SignatureHit> = Vec::new();
        let mut k: usize = 0;
        while k < ids.len()
            invariant
                k <= ids@.len(),
                hits@.len() == k,
                self.is_armed() ==> is_hit_list(self.rules(), input@, ids@.map_values(|i: usize| i as int)),
                forall|j: int| 0 <= j < k ==> 0 <= ids@[j] < self.rules@.len() && hits@[j].rule_name@ == self.rules()[ids@[j] as int].0,
                !self.is_armed() ==> ids@.len() == 0,
            decreases ids@.len() - k,
        {
            let r = ids[k];
            proof {
                let mapped = ids@.map_values(|i: usize| i as int);
                assert(mapped[k as int] == r as int);
            }
            hits.push(SignatureHit { rule_name: self.rules[r].name.clone() });
            k = k + 1;
        }
        proof {
            let ids_int = ids@.map_values(|i: usize| i as int);
            if self.is_armed() {
                assert(ids_int.len() == hits@.len());
                assert forall|k: int| 0 <= k < ids_int.len() implies hits@[k].rule_name@ == self.rules()[ids_int[k]].0 by {}
            }
        }
        hits
    }
}

pub open spec fn eicar_bytes() -> Seq<u8> {
    "X5O!P%@AP[4\\PZX54(P^)7CC)7}$EICAR-STANDARD-ANTIVIRUS-TEST-FILE!$H+H*".spec_bytes()
}

/// The hardcoded rules, as plain values.
pub open spec fn baseline_rule_views() -> Seq<(Seq<char>, Seq<u8>, SignatureLocation)> {
    seq![
        ("eicar_test_string"@, eicar_bytes(), SignatureLocation::Anywhere),
        ("pe_dos_header"@, seq![0x4Du8, 0x5A], SignatureLocation::FirstBytes(2)),
        ("pe_signature"@, seq![0x50u8, 0x45, 0x00, 0x00], SignatureLocation::Anywhere),
        ("elf_magic"@, seq![0x7Fu8, 0x45, 0x4C, 0x46], SignatureLocation::FirstBytes(4)),
        ("macho_magic_32_be"@, seq![0xFEu8, 0xED, 0xFA, 0xCE], SignatureLocation::FirstBytes(4)),
        ("macho_magic_32_le"@, seq![0xCEu8, 0xFA, 0xED, 0xFE], SignatureLocation::FirstBytes(4)),
        ("macho_magic_64_be"@, seq![0xFEu8, 0xED, 0xFA, 0xCF], SignatureLocation::FirstBytes(4)),
        ("macho_magic_64_le"@, seq![0xCFu8, 0xFA, 0xED, 0xFE], SignatureLocation::FirstBytes(4)),
        ("sh_shebang"@, "#!/bin/sh".spec_bytes(), SignatureLocation::FirstBytes(16)),
        ("bash_shebang"@, "#!/bin/bash".spec_bytes(), SignatureLocation::FirstBytes(16)),
        ("env_shebang"@, "#!/usr/bin/env".spec_bytes(), SignatureLocation::FirstBytes(16)),
        ("python_shebang"@, "#!/usr/bin/python".spec_bytes(), SignatureLocation::FirstBytes(24)),
        ("perl_shebang"@, "#!/usr/bin/perl".spec_bytes(), SignatureLocation::FirstBytes(20)),
        ("ruby_shebang"@, "#!/usr/bin/ruby".spec_bytes(), SignatureLocation::FirstBytes(20)),
        ("node_shebang"@, "#!/usr/bin/node".spec_bytes(), SignatureLocation::FirstBytes(20)),
        ("php_shebang"@, "<?php".spec_bytes(), SignatureLocation::FirstBytes(8)),
        ("java_class_magic"@, seq![0xCAu8, 0xFE, 0xBA, 0xBE], SignatureLocation::FirstBytes(4)),
        ("ole_cfb_magic"@, seq![0xD0u8, 0xCF, 0x11, 0xE0, 0xA1, 0xB1, 0x1A, 0xE1], SignatureLocation::FirstBytes(8)),
        ("dex_magic"@, seq![0x64u8, 0x65, 0x78, 0x0A], SignatureLocation::FirstBytes(4)),
        ("batch_echo_off"@, "@echo off".spec_bytes(), SignatureLocation::FirstBytes(12)),
        ("wasm_magic"@, seq![0x00u8, 0x61, 0x73, 0x6D], SignatureLocation::FirstBytes(4)),
        ("rar_magic"@, seq![0x52u8, 0x61, 0x72, 0x21, 0x1A, 0x07], SignatureLocation::FirstBytes(8)),
        ("seven_zip_magic"@, seq![0x37u8, 0x7A, 0xBC, 0xAF, 0x27, 0x1C], SignatureLocation::FirstBytes(8)),
    ]
}

fn text_rule(name: &str, pattern: &str, limit: u64) -> (res: SignatureRule)
    ensures
        rule_view(res) == (name@, pattern.spec_bytes(), SignatureLocation::FirstBytes(limit)),
{
    SignatureRule::first_bytes(name, slice_to_vec(pattern.as_bytes()), limit)
}

fn binary_rule(name: &str, pattern: &[u8], limit: u64) -> (res: SignatureRule)
    ensures
        rule_view(res) == (name@, pattern@, SignatureLocation::FirstBytes(limit)),
{
    SignatureRule::first_bytes(name, slice_to_vec(pattern), limit)
}

/// Hardcoded rules that always run: byte patterns that never belong in a
/// rebuilt media artifact.
pub fn baseline_rules() -> (res: Vec<SignatureRule>)
    ensures
        rule_views(res@) == baseline_rule_views(),
{
    let mut rules: Vec<SignatureRule> = Vec::new();
    rules.push(SignatureRule::anywhere(
        "eicar_test_string",
        slice_to_vec("X5O!P%@AP[4\\PZX54(P^)7CC)7}$EICAR-STANDARD-ANTIVIRUS-TEST-FILE!$H+H*".as_bytes()),
    ));
    rules.push(binary_rule("pe_dos_header", &[0x4Du8, 0x5A], 2));
    rules.push(SignatureRule::anywhere("pe_signature", slice_to_vec(&[0x50u8, 0x45, 0x00, 0x00])));
    rules.push(binary_rule("elf_magic", &[0x7Fu8, 0x45, 0x4C, 0x46], 4));
    rules.push(binary_rule("macho_magic_32_be", &[0xFEu8, 0xED, 0xFA, 0xCE], 4));
    rules.push(binary_rule("macho_magic_32_le", &[0xCEu8, 0xFA, 0xED, 0xFE], 4));
    rules.push(binary_rule("macho_magic_64_be", &[0xFEu8, 0xED, 0xFA, 0xCF], 4));
    rules.push(binary_rule("macho_magic_64_le", &[0xCFu8, 0xFA, 0xED, 0xFE], 4));
    rules.push(text_rule("sh_shebang", "#!/bin/sh", 16));
    rules.push(text_rule("bash_shebang", "#!/bin/bash", 16));
    rules.push(text_rule("env_shebang", "#!/usr/bin/env", 16));
    rules.push(text_rule("python_shebang", "#!/usr/bin/python", 24));
    rules.push(text_rule("perl_shebang", "#!/usr/bin/perl", 20));
    rules.push(text_rule("ruby_shebang", "#!/usr/bin/ruby", 20));
    rules.push(text_rule("node_shebang", "#!/usr/bin/node", 20));
    rules.push(text_rule("php_shebang", "<?php", 8));
    rules.push(binary_rule("java_class_magic", &[0xCAu8, 0xFE, 0xBA, 0xBE], 4));
    rules.push(binary_rule("ole_cfb_magic", &[0xD0u8, 0xCF, 0x11, 0xE0, 0xA1, 0xB1, 0x1A, 0xE1], 8));
    rules.push(binary_rule("dex_magic", &[0x64u8, 0x65, 0x78, 0x0A], 4));
    rules.push(text_rule("batch_echo_off", "@echo off", 12));
    rules.push(binary_rule("wasm_magic", &[0x00u8, 0x61, 0x73, 0x6D], 4));
    rules.push(binary_rule("rar_magic", &[0x52u8, 0x61, 0x72, 0x21, 0x1A, 0x07], 8));
    rules.push(binary_rule("seven_zip_magic", &[0x37u8, 0x7A, 0xBC, 0xAF, 0x27, 0x1C], 8));
    assert(rule_views(rules@) =~= baseline_rule_views());
    rules
}

/// Copies of the rules, in order.
pub fn duplicate_rule_list(rules: &Vec<SignatureRule>) -> (res: Vec<SignatureRule>)
    ensures
        rule_views(res@) == rule_views(rules@),
{
    let mut out: Vec<SignatureRule> = Vec::new();
    let mut i: usize = 0;
    while i < rules.len()
        invariant
            i <= rules@.len(),
            rule_views(out@) == rule_views(rules@.subrange(0, i as int)),
        decreases rules@.len() - i,
    {
        let ghost before = out@;
        let d = rules[i].duplicate();
        out.push(d);
        proof {
            let sub = rules@.subrange(0, i + 1);
            assert(sub =~= rules@.subrange(0, i as int).push(rules@[i as int]));
            assert(rule_views(out@) =~= rule_views(before).push(
                rule_view(d),
            ));
            assert(rule_views(sub) =~= rule_views(rules@.subrange(0, i as int)).push(
                rule_view(rules@[i as int]),
            ));
        }
        i = i + 1;
    }
    proof {
        assert(rules@.subrange(0, rules@.len() as int) =~= rules@);
    }
    out
}

} // verus!
