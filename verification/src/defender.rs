//! The defender: its policy, signature engine and MIME index, and the
//! checks it runs on an input before the rebuild and on the candidate
//! after it. The order of a run is in `pipeline`.
use vstd::prelude::*;
use vstd::string::StrSliceExecFns;
use vstd::string::StringSliceAdditionalSpecFns;

use crate::bytes::{extension_of, lower, path_extension, to_lower};
use crate::error::DefenderError;
use crate::mime::{ascii_lower_chars, ascii_lowercase, normalized};
use crate::policy::{DefensePolicy, ProbeFailureMode, ReconstructionLevel};
use crate::handlers::HandlerResult;
use crate::signatures::{QuarantineEnvelope, SignatureEngine};
use crate::types::{
    opt_bytes, alert_is, stage_is, AlertSeverity, DefenseAlert, FileKind, PipelineStage, PipelineStageReport, PipelineStageStatus,
};

verus! {

// ── Labels ────────────────────────────────────────────────────────────────

/// The lower-case label of a file kind.
pub open spec fn kind_label(kind: FileKind) -> Seq<char> {
    match kind {
        FileKind::Image => "image"@,
        FileKind::AnimatedImage => "animated_image"@,
        FileKind::Gif => "gif"@,
        FileKind::Video => "video"@,
        FileKind::Audio => "audio"@,
        FileKind::Other => "other"@,
    }
}

/// The lower-case label of a file kind.
pub fn file_kind_label(kind: FileKind) -> (res: &'static str)
    ensures
        res@ == kind_label(kind),
{
    match kind {
        FileKind::Image => "image",
        FileKind::AnimatedImage => "animated_image",
        FileKind::Gif => "gif",
        FileKind::Video => "video",
        FileKind::Audio => "audio",
        FileKind::Other => "other",
    }
}

/// The label of an optional kind; `unknown` when there is none.
pub open spec fn opt_kind_label(kind: Option<FileKind>) -> Seq<char> {
    match kind {
        Some(k) => kind_label(k),
        None => "unknown"@,
    }
}

pub fn file_kind_label_optional(kind: Option<FileKind>) -> (res: &'static str)
    ensures
        res@ == opt_kind_label(kind),
{
    match kind {
        Some(k) => file_kind_label(k),
        None => "unknown",
    }
}

/// The name of a file kind as written in messages.
pub open spec fn kind_name(kind: FileKind) -> Seq<char> {
    match kind {
        FileKind::Image => "Image"@,
        FileKind::AnimatedImage => "AnimatedImage"@,
        FileKind::Gif => "Gif"@,
        FileKind::Video => "Video"@,
        FileKind::Audio => "Audio"@,
        FileKind::Other => "Other"@,
    }
}

pub fn file_kind_name(kind: FileKind) -> (res: &'static str)
    ensures
        res@ == kind_name(kind),
{
    match kind {
        FileKind::Image => "Image",
        FileKind::AnimatedImage => "AnimatedImage",
        FileKind::Gif => "Gif",
        FileKind::Video => "Video",
        FileKind::Audio => "Audio",
        FileKind::Other => "Other",
    }
}

/// Two kinds are compatible when they are equal, or one is `Image` and the
/// other `AnimatedImage`.
pub open spec fn kinds_compatible(left: FileKind, right: FileKind) -> bool {
    left == right || (left == FileKind::Image && right == FileKind::AnimatedImage) || (left == FileKind::AnimatedImage
        && right == FileKind::Image)
}

pub fn compatible_kinds(left: FileKind, right: FileKind) -> (res: bool)
    ensures
        res == kinds_compatible(left, right),
{
    left == right || (left == FileKind::Image && right == FileKind::AnimatedImage) || (left == FileKind::AnimatedImage
        && right == FileKind::Image)
}

// ── Alert severities ──────────────────────────────────────────────────────

pub open spec fn has_severity(alerts: Seq<DefenseAlert>, severity: AlertSeverity) -> bool {
    exists|i: int| 0 <= i < alerts.len() && (#[trigger] alerts[i]).severity == severity
}

/// The status a list of alerts gives a stage: blocked by any blocking
/// alert, else a warning by any warning, else success. Informational
/// alerts never change it.
pub open spec fn alerts_status(alerts: Seq<DefenseAlert>) -> PipelineStageStatus {
    if has_severity(alerts, AlertSeverity::Blocking) {
        PipelineStageStatus::Blocked
    } else if has_severity(alerts, AlertSeverity::Warning) {
        PipelineStageStatus::Warning
    } else {
        PipelineStageStatus::Success
    }
}

/// Whether some alert has the given severity.
pub fn any_with_severity(alerts: &[DefenseAlert], severity: AlertSeverity) -> (res: bool)
    ensures
        res == has_severity(alerts@, severity),
{
    let mut i: usize = 0;
    while i < alerts.len()
        invariant
            i <= alerts@.len(),
            forall|j: int| 0 <= j < i ==> (#[trigger] alerts@[j]).severity != severity,
        decreases alerts@.len() - i,
    {
        if alerts[i].severity == severity {
            return true;
        }
        i = i + 1;
    }
    false
}

/// The status of a stage from the alerts gathered so far.
pub fn stage_status_from_alerts(alerts: &[DefenseAlert]) -> (res: PipelineStageStatus)
    ensures
        res == alerts_status(alerts@),
{
    if any_with_severity(alerts, AlertSeverity::Blocking) {
        return PipelineStageStatus::Blocked;
    }
    if any_with_severity(alerts, AlertSeverity::Warning) {
        return PipelineStageStatus::Warning;
    }
    PipelineStageStatus::Success
}

// ── Executable headers in the output ──────────────────────────────────────

/// The executable and archive headers refused at the start of an output,
/// with the code reported for each, in the order they are checked.
pub open spec fn executable_headers() -> Seq<(Seq<u8>, Seq<char>)> {
    seq![
        (seq![0x4Du8, 0x5A], "pe_in_output"@),
        (seq![0x7Fu8, 0x45, 0x4C, 0x46], "elf_in_output"@),
        (seq![0xFEu8, 0xED, 0xFA, 0xCE], "macho_in_output"@),
        (seq![0xCEu8, 0xFA, 0xED, 0xFE], "macho_in_output"@),
        (seq![0xFEu8, 0xED, 0xFA, 0xCF], "macho_in_output"@),
        (seq![0xCFu8, 0xFA, 0xED, 0xFE], "macho_in_output"@),
        (seq![0xCAu8, 0xFE, 0xBA, 0xBE], "java_class_in_output"@),
        (seq![0xD0u8, 0xCF, 0x11, 0xE0, 0xA1, 0xB1, 0x1A, 0xE1], "ole_cfb_in_output"@),
        (seq![0x64u8, 0x65, 0x78, 0x0A], "dex_in_output"@),
        (seq![0x00u8, 0x61, 0x73, 0x6D], "wasm_in_output"@),
        (seq![0x23u8, 0x21, 0x2F], "script_shebang_in_output"@),
        (seq![0x3Cu8, 0x3F, 0x70, 0x68, 0x70], "php_tag_in_output"@),
        (seq![0x40u8, 0x65, 0x63, 0x68, 0x6F, 0x20, 0x6F, 0x66, 0x66], "batch_in_output"@),
        (seq![0x52u8, 0x61, 0x72, 0x21, 0x1A, 0x07], "rar_in_output"@),
        (seq![0x37u8, 0x7A, 0xBC, 0xAF, 0x27, 0x1C], "seven_zip_in_output"@),
    ]
}

/// Index of the first header of the table that starts `b`, or the table's
/// length.
pub open spec fn first_header_match(b: Seq<u8>, from: int) -> int
    decreases executable_headers().len() - from,
{
    if from < 0 || from >= executable_headers().len() {
        executable_headers().len() as int
    } else if crate::bytes::has_prefix(b, executable_headers()[from].0) {
        from
    } else {
        first_header_match(b, from + 1)
    }
}

/// The code of a header without its `_in_output` suffix.
pub open spec fn header_label(code: Seq<char>) -> Seq<char> {
    code.subrange(0, code.len() - 10)
}

/// The blocking alert for an output that starts with an executable or
/// archive header, if it does.
pub fn detect_executable_magic(output_bytes: &[u8]) -> (res: Option<DefenseAlert>)
    ensures
        match res {
            Some(a) => {
                let k = first_header_match(output_bytes@, 0);
                &&& k < executable_headers().len()
                &&& alert_is(
                    a,
                    executable_headers()[k].1,
                    "Output begins with executable/archive magic `"@ + header_label(executable_headers()[k].1) + "`."@,
                    AlertSeverity::Blocking,
                )
            },
            None => first_header_match(output_bytes@, 0) == executable_headers().len(),
        },
{
    let headers: [(&[u8], &str, &str); 15] = [
        (&[0x4Du8, 0x5A], "pe_in_output", "pe"),
        (&[0x7Fu8, 0x45, 0x4C, 0x46], "elf_in_output", "elf"),
        (&[0xFEu8, 0xED, 0xFA, 0xCE], "macho_in_output", "macho"),
        (&[0xCEu8, 0xFA, 0xED, 0xFE], "macho_in_output", "macho"),
        (&[0xFEu8, 0xED, 0xFA, 0xCF], "macho_in_output", "macho"),
        (&[0xCFu8, 0xFA, 0xED, 0xFE], "macho_in_output", "macho"),
        (&[0xCAu8, 0xFE, 0xBA, 0xBE], "java_class_in_output", "java_class"),
        (&[0xD0u8, 0xCF, 0x11, 0xE0, 0xA1, 0xB1, 0x1A, 0xE1], "ole_cfb_in_output", "ole_cfb"),
        (&[0x64u8, 0x65, 0x78, 0x0A], "dex_in_output", "dex"),
        (&[0x00u8, 0x61, 0x73, 0x6D], "wasm_in_output", "wasm"),
        (&[0x23u8, 0x21, 0x2F], "script_shebang_in_output", "script_shebang"),
        (&[0x3Cu8, 0x3F, 0x70, 0x68, 0x70], "php_tag_in_output", "php_tag"),
        (&[0x40u8, 0x65, 0x63, 0x68, 0x6F, 0x20, 0x6F, 0x66, 0x66], "batch_in_output", "batch"),
        (&[0x52u8, 0x61, 0x72, 0x21, 0x1A, 0x07], "rar_in_output", "rar"),
        (&[0x37u8, 0x7A, 0xBC, 0xAF, 0x27, 0x1C], "seven_zip_in_output", "seven_zip"),
    ];
    proof {
        reveal_strlit("pe_in_output");
        reveal_strlit("pe");
        reveal_strlit("elf_in_output");
        reveal_strlit("elf");
        reveal_strlit("macho_in_output");
        reveal_strlit("macho");
        reveal_strlit("java_class_in_output");
        reveal_strlit("java_class");
        reveal_strlit("ole_cfb_in_output");
        reveal_strlit("ole_cfb");
        reveal_strlit("dex_in_output");
        reveal_strlit("dex");
        reveal_strlit("wasm_in_output");
        reveal_strlit("wasm");
        reveal_strlit("script_shebang_in_output");
        reveal_strlit("script_shebang");
        reveal_strlit("php_tag_in_output");
        reveal_strlit("php_tag");
        reveal_strlit("batch_in_output");
        reveal_strlit("batch");
        reveal_strlit("rar_in_output");
        reveal_strlit("rar");
        reveal_strlit("seven_zip_in_output");
        reveal_strlit("seven_zip");
        assert forall|k: int| 0 <= k < 15 implies {
            &&& (#[trigger] headers@[k]).0@ == executable_headers()[k].0
            &&& headers@[k].1@ == executable_headers()[k].1
            &&& headers@[k].2@ == header_label(executable_headers()[k].1)
        } by {
            assert(headers@[k].2@ =~= header_label(executable_headers()[k].1));
        }
    }
    let mut k: usize = 0;
    while k < 15
        invariant
            k <= 15,
            forall|j: int| 0 <= j < 15 ==> {
                &&& (#[trigger] headers@[j]).0@ == executable_headers()[j].0
                &&& headers@[j].1@ == executable_headers()[j].1
                &&& headers@[j].2@ == header_label(executable_headers()[j].1)
            },
            first_header_match(output_bytes@, 0) == first_header_match(output_bytes@, k as int),
        decreases 15 - k,
    {
        let (magic, code, label) = headers[k];
        proof {
            assert(headers@[k as int].0@ == executable_headers()[k as int].0);
        }
        if crate::bytes::starts_with(output_bytes, magic) {
            let mut msg = "Output begins with executable/archive magic `".to_owned();
            msg.append(label);
            msg.append("`.");
            return Some(DefenseAlert { code: code.to_owned(), message: msg, severity: AlertSeverity::Blocking });
        }
        k = k + 1;
    }
    None
}

// ── The defender ──────────────────────────────────────────────────────────

/// Lower-cased copies of the policy's MIME lists, for case-insensitive
/// lookups.
#[derive(Debug)]
struct RuntimeMimeIndex {
    image_allow: Vec<String>,
    gif_allow: Vec<String>,
    video_allow: Vec<String>,
    audio_allow: Vec<String>,
    other_allow: Vec<String>,
    deny: Vec<String>,
}

/// `lowered` holds the ASCII lower-cased entries of `list`, in order.
pub open spec fn lowered_list(lowered: Seq<String>, list: Seq<String>) -> bool {
    lowered.len() == list.len() && forall|i: int| 0 <= i < list.len() ==> (#[trigger] lowered[i])@ == ascii_lower_chars(list[i]@)
}

/// Some entry of `list`, lower-cased, is `m`.
pub open spec fn list_has(list: Seq<String>, m: Seq<char>) -> bool {
    exists|i: int| 0 <= i < list.len() && ascii_lower_chars((#[trigger] list[i])@) == m
}

fn to_lower_set(values: &Vec<String>) -> (res: Vec<String>)
    ensures
        lowered_list(res@, values@),
{
    let mut out: Vec<String> = Vec::new();
    let mut i: usize = 0;
    while i < values.len()
        invariant
            i <= values@.len(),
            lowered_list(out@, values@.subrange(0, i as int)),
        decreases values@.len() - i,
    {
        out.push(ascii_lowercase(values[i].as_str()));
        proof {
            let vs = values@.subrange(0, i + 1);
            assert forall|j: int| 0 <= j < vs.len() implies (#[trigger] out@[j])@ == ascii_lower_chars(vs[j]@) by {
                if j < i {
                    assert(vs[j] == values@.subrange(0, i as int)[j]);
                }
            }
        }
        i = i + 1;
    }
    proof {
        assert(values@.subrange(0, values@.len() as int) =~= values@);
    }
    out
}

fn lowered_contains(lowered: &Vec<String>, m: &String, list: Ghost<Seq<String>>) -> (res: bool)
    requires
        lowered_list(lowered@, list@),
    ensures
        res == list_has(list@, m@),
{
    let mut i: usize = 0;
    while i < lowered.len()
        invariant
            i <= lowered@.len(),
            lowered_list(lowered@, list@),
            forall|j: int| 0 <= j < i ==> ascii_lower_chars((#[trigger] list@[j])@) != m@,
        decreases lowered@.len() - i,
    {
        if lowered[i] == *m {
            proof {
                assert(ascii_lower_chars(list@[i as int]@) == m@);
            }
            return true;
        }
        i = i + 1;
    }
    false
}

/// The defense pipeline configured by a policy.
#[derive(Debug)]
pub struct FileDefender {
    policy: DefensePolicy,
    signature_engine: SignatureEngine,
    audit_sink: crate::observability::NoopAuditSink,
    mime_index: RuntimeMimeIndex,
}

impl FileDefender {
    /// The policy the defender enforces.
    pub closed spec fn spec_policy(&self) -> DefensePolicy {
        self.policy
    }

    /// The rules of its signature engine: the baseline, then the policy's.
    pub closed spec fn signature_rules(&self) -> Seq<(Seq<char>, Seq<u8>, crate::signatures::SignatureLocation)> {
        self.signature_engine.rules()
    }

    /// The engine holds the policy's rules after the baseline, and the MIME
    /// index mirrors the policy's lists.
    pub closed spec fn wf(&self) -> bool {
        &&& self.signature_engine.wf()
        &&& self.signature_engine.rules() == crate::signatures::baseline_rule_views()
            + crate::signatures::rule_views(self.policy.signature_rules@)
        &&& lowered_list(self.mime_index.image_allow@, self.policy.output_mime_whitelist.image@)
        &&& lowered_list(self.mime_index.gif_allow@, self.policy.output_mime_whitelist.gif@)
        &&& lowered_list(self.mime_index.video_allow@, self.policy.output_mime_whitelist.video@)
        &&& lowered_list(self.mime_index.audio_allow@, self.policy.output_mime_whitelist.audio@)
        &&& lowered_list(self.mime_index.other_allow@, self.policy.output_mime_whitelist.other@)
        &&& lowered_list(self.mime_index.deny@, self.policy.output_mime_denylist@)
    }

    /// A defender for `policy`; the baseline signature rules are always on.
    pub fn new(policy: DefensePolicy) -> (res: Self)
        ensures
            res.wf(),
            res.spec_policy() == policy,
    {
        let mime_index = RuntimeMimeIndex {
            image_allow: to_lower_set(&policy.output_mime_whitelist.image),
            gif_allow: to_lower_set(&policy.output_mime_whitelist.gif),
            video_allow: to_lower_set(&policy.output_mime_whitelist.video),
            audio_allow: to_lower_set(&policy.output_mime_whitelist.audio),
            other_allow: to_lower_set(&policy.output_mime_whitelist.other),
            deny: to_lower_set(&policy.output_mime_denylist),
        };
        let rules = crate::signatures::duplicate_rule_list(&policy.signature_rules);
        let signature_engine = SignatureEngine::with_baseline(rules);
        Self { policy, signature_engine, audit_sink: crate::observability::NoopAuditSink, mime_index }
    }

    /// Hand a finished run to the audit sink.
    pub(crate) fn emit_audit(&self, event: &crate::observability::PipelineAuditEvent) {
        crate::observability::AuditSink::emit(&self.audit_sink, event);
    }

    /// The policy the defender enforces.
    pub fn policy(&self) -> (res: &DefensePolicy)
        ensures
            *res == self.spec_policy(),
    {
        &self.policy
    }
}

// ── Checks before the rebuild ─────────────────────────────────────────────

/// The lower-cased extension of `name` is one of the policy's blocked
/// extensions.
pub open spec fn blocked_extension(p: DefensePolicy, name: Seq<u8>) -> bool {
    match path_extension(name) {
        Some(ext) => exists|i: int|
            0 <= i < p.blocked_extensions@.len() && vstd::utf8::encode_utf8((#[trigger] p.blocked_extensions@[i])@)
                == lower(ext),
        None => false,
    }
}

/// The alert raised for a signature hit.
pub open spec fn signature_alert_is(a: DefenseAlert, rule_name: Seq<char>) -> bool {
    alert_is(a, "signature_match"@, "Matched signature rule: "@ + rule_name, AlertSeverity::Blocking)
}

/// `alerts` report, in order, the hits `ids` of the rules on `input`.
pub open spec fn signature_alerts_are(
    alerts: Seq<DefenseAlert>,
    rules: Seq<(Seq<char>, Seq<u8>, crate::signatures::SignatureLocation)>,
    input: Seq<u8>,
) -> bool {
    exists|ids: Seq<int>| #![auto]
        crate::signatures::is_hit_list(rules, input, ids) && ids.len() == alerts.len() && forall|k: int|
            0 <= k < ids.len() ==> signature_alert_is(alerts[k], rules[ids[k]].0)
}

/// The status of the detection stage from the two kind guesses.
pub open spec fn detection_status(p: DefensePolicy, by_name: Option<FileKind>, by_mime: Option<FileKind>) -> PipelineStageStatus {
    match (by_name, by_mime) {
        (Some(l), Some(r)) => if kinds_compatible(l, r) {
            PipelineStageStatus::Success
        } else if p.block_kind_mismatch {
            PipelineStageStatus::Blocked
        } else {
            PipelineStageStatus::Warning
        },
        _ => if p.unknown_kind_mode == crate::policy::UnknownKindMode::Warn {
            PipelineStageStatus::Warning
        } else {
            PipelineStageStatus::Blocked
        },
    }
}

pub open spec fn opt_chars(o: Option<&str>) -> Option<Seq<char>> {
    match o {
        Some(s) => Some(s@),
        None => None,
    }
}

/// The file name, the declared MIME type and the sniffed MIME type do not
/// agree.
pub open spec fn metadata_mismatch(ext_mime: Option<Seq<char>>, sniffed: Option<Seq<char>>, declared: Option<Seq<char>>) -> bool {
    ||| (ext_mime matches Some(e) && sniffed matches Some(a) && normalized(e) != normalized(a))
    ||| (declared matches Some(d) && {
        let dn = normalized(d);
        ||| (sniffed matches Some(a) && normalized(dn) != normalized(a))
        ||| (ext_mime matches Some(e) && normalized(dn) != normalized(e))
        ||| !dn.contains('/')
        ||| dn.contains('*')
    })
}

/// The MIME type the extension of an optional file name implies.
pub open spec fn name_ext_mime(name: Option<Seq<u8>>) -> Option<Seq<char>> {
    match name {
        Some(n) => crate::mime::name_mime(n),
        None => None,
    }
}

/// The file name, the sniffed and the declared MIME type disagree.
pub open spec fn metadata_disagrees(name: Option<Seq<u8>>, sniffed: Option<Seq<char>>, declared: Option<Seq<char>>) -> bool {
    metadata_mismatch(name_ext_mime(name), sniffed, declared)
}

/// The warnings of the metadata check, when it does not refuse the input.
pub open spec fn metadata_alerts(name: Option<Seq<u8>>, sniffed: Option<Seq<char>>, declared: Option<Seq<char>>) -> Seq<
    (Seq<char>, Seq<char>, AlertSeverity),
> {
    let unverified: Seq<(Seq<char>, Seq<char>, AlertSeverity)> = if declared is Some && sniffed is None {
        seq![
            (
                "declared_mime_unverified"@,
                "The declared MIME cannot be confirmed from the input bytes."@,
                AlertSeverity::Warning,
            ),
        ]
    } else {
        Seq::empty()
    };
    unverified + if metadata_disagrees(name, sniffed, declared) {
        seq![
            (
                "input_mime_mismatch"@,
                "Filename, declared MIME, and detected byte format do not agree."@,
                AlertSeverity::Warning,
            ),
        ]
    } else {
        Seq::empty()
    }
}

impl FileDefender {
    /// Whether the signature engine could be built.
    pub closed spec fn signatures_armed(&self) -> bool {
        self.signature_engine.is_armed()
    }

    /// Refuse an input above the size limit, or whose extension is blocked.
    pub fn validate_before_rebuild(&self, file_name: Option<&str>, original_size: u64) -> (res: Result<(), DefenderError>)
        ensures
            original_size > self.spec_policy().max_input_size_bytes ==> res == Err::<(), DefenderError>(
                DefenderError::FileTooLarge { limit: self.spec_policy().max_input_size_bytes, actual: original_size },
            ),
            original_size <= self.spec_policy().max_input_size_bytes ==> match res {
                Ok(()) => !(file_name matches Some(n) && blocked_extension(self.spec_policy(), n.spec_bytes())),
                Err(DefenderError::BlockedExtension { extension }) => {
                    &&& file_name is Some
                    &&& blocked_extension(self.spec_policy(), file_name->Some_0.spec_bytes())
                    &&& path_extension(file_name->Some_0.spec_bytes()) is Some
                    &&& vstd::utf8::encode_utf8(extension@) == lower(path_extension(file_name->Some_0.spec_bytes())->Some_0)
                },
                Err(_) => false,
            },
    {
        if original_size > self.policy.max_input_size_bytes {
            return Err(DefenderError::FileTooLarge { limit: self.policy.max_input_size_bytes, actual: original_size });
        }
        let name = match file_name {
            Some(n) => n,
            None => {
                return Ok(());
            },
        };
        let ext = match extension_of(name.as_bytes()) {
            Some(e) => e,
            None => {
                return Ok(());
            },
        };
        let lowered = to_lower(ext.as_slice());
        let blocked = &self.policy.blocked_extensions;
        let mut i: usize = 0;
        while i < blocked.len()
            invariant
                i <= blocked@.len(),
                blocked@ == self.policy.blocked_extensions@,
                original_size <= self.policy.max_input_size_bytes,
                file_name == Some(name),
                path_extension(name.spec_bytes()) == Some(ext@),
                lowered@ == lower(ext@),
                forall|j: int| 0 <= j < i ==> vstd::utf8::encode_utf8((#[trigger] blocked@[j])@) != lowered@,
            decreases blocked@.len() - i,
        {
            let entry = blocked[i].as_str();
            if crate::bytes::bytes_eq(entry.as_bytes(), lowered.as_slice()) {
                let extension = blocked[i].clone();
                proof {
                    assert(vstd::utf8::encode_utf8(extension@) == lowered@);
                    assert(blocked_extension(self.spec_policy(), name.spec_bytes()));
                }
                return Err(DefenderError::BlockedExtension { extension });
            }
            i = i + 1;
        }
        Ok(())
    }

    /// A blocking alert for every signature that matches the input.
    pub fn scan_signatures(&self, input: &[u8]) -> (res: Vec<DefenseAlert>)
        requires
            self.wf(),
        ensures
            self.signatures_armed() ==> signature_alerts_are(res@, self.signature_rules(), input@),
            !self.signatures_armed() ==> res@.len() == 0,
            forall|k: int| 0 <= k < res@.len() ==> (#[trigger] res@[k]).severity == AlertSeverity::Blocking,
    {
        let hits = self.signature_engine.scan(input);
        let mut alerts: Vec<DefenseAlert> = Vec::new();
        let mut k: usize = 0;
        while k < hits.len()
            invariant
                k <= hits@.len(),
                alerts@.len() == k,
                forall|j: int| 0 <= j < k ==> signature_alert_is(#[trigger] alerts@[j], hits@[j].rule_name@),
            decreases hits@.len() - k,
        {
            let mut msg = "Matched signature rule: ".to_owned();
            msg.append(hits[k].rule_name.as_str());
            alerts.push(DefenseAlert { code: "signature_match".to_owned(), message: msg, severity: AlertSeverity::Blocking });
            k = k + 1;
        }
        proof {
            if self.signatures_armed() {
                let ids = choose|ids: Seq<int>| #![auto]
                    crate::signatures::is_hit_list(self.signature_rules(), input@, ids) && ids.len() == hits@.len()
                        && forall|k: int| 0 <= k < ids.len() ==> hits@[k].rule_name@ == self.signature_rules()[ids[k]].0;
                assert(forall|k: int| 0 <= k < ids.len() ==> signature_alert_is(alerts@[k], self.signature_rules()[ids[k]].0));
            }
        }
        alerts
    }

    /// Refuse an input whose name and content name incompatible kinds,
    /// when the policy blocks such a mismatch.
    pub fn validate_kind_consistency(&self, kind_from_name: Option<FileKind>, kind_from_mime: Option<FileKind>) -> (res:
        Result<(), DefenderError>)
        ensures
            res is Err <==> (kind_from_name matches Some(l) && kind_from_mime matches Some(r) && !kinds_compatible(l, r)
                && self.spec_policy().block_kind_mismatch),
            res matches Err(e) ==> e is FileTypeMismatch,
    {
        let l = match kind_from_name {
            Some(k) => k,
            None => {
                return Ok(());
            },
        };
        let r = match kind_from_mime {
            Some(k) => k,
            None => {
                return Ok(());
            },
        };
        if compatible_kinds(l, r) {
            return Ok(());
        }
        if self.policy.block_kind_mismatch {
            return Err(DefenderError::FileTypeMismatch);
        }
        Ok(())
    }

    /// The status of the detection stage.
    pub fn detection_stage_status(&self, kind_from_name: Option<FileKind>, kind_from_mime: Option<FileKind>) -> (res:
        PipelineStageStatus)
        ensures
            res == detection_status(self.spec_policy(), kind_from_name, kind_from_mime),
    {
        match (kind_from_name, kind_from_mime) {
            (Some(l), Some(r)) => {
                if compatible_kinds(l, r) {
                    PipelineStageStatus::Success
                } else if self.policy.block_kind_mismatch {
                    PipelineStageStatus::Blocked
                } else {
                    PipelineStageStatus::Warning
                }
            },
            _ => match self.policy.unknown_kind_mode {
                crate::policy::UnknownKindMode::Warn => PipelineStageStatus::Warning,
                crate::policy::UnknownKindMode::Block => PipelineStageStatus::Blocked,
            },
        }
    }

    /// The MIME type sniffed from the bytes.
    pub fn guess_mime(&self, input: &[u8]) -> (res: Option<String>)
        ensures
            crate::handlers::audio::opt_string_chars(res) == crate::sniff::infer_mime(input@),
    {
        crate::sniff::sniff_mime(input)
    }

    /// Check that the file name, the declared MIME type and the sniffed MIME
    /// type agree. A declared type that the bytes cannot confirm is reported;
    /// a disagreement is an error when the policy blocks kind mismatches and
    /// a warning otherwise.
    pub fn validate_input_metadata(&self, file_name: Option<&str>, sniffed_mime: Option<&str>, declared_mime: Option<&str>) -> (res:
        Result<Vec<DefenseAlert>, DefenderError>)
        ensures
            (res is Err <==> metadata_disagrees(opt_bytes(file_name), opt_chars(sniffed_mime), opt_chars(declared_mime))
                && self.spec_policy().block_kind_mismatch),
            res matches Err(e) ==> e is FileTypeMismatch,
            res matches Ok(alerts) ==> crate::types::alerts_are(
                alerts@,
                metadata_alerts(opt_bytes(file_name), opt_chars(sniffed_mime), opt_chars(declared_mime)),
            ),
    {
        let extension_mime = match file_name {
            Some(n) => crate::mime::mime_from_filename(n),
            None => None,
        };
        let mut alerts: Vec<DefenseAlert> = Vec::new();
        let mut mismatch = false;
        if let (Some(expected), Some(actual)) = (extension_mime, sniffed_mime) {
            if !crate::mime::compatible_mimes(expected, actual) {
                mismatch = true;
            }
        }
        if let Some(declared) = declared_mime {
            let declared = crate::mime::normalized_mime(declared);
            if let Some(actual) = sniffed_mime {
                if !crate::mime::compatible_mimes(declared.as_str(), actual) {
                    mismatch = true;
                }
            } else {
                alerts.push(
                    DefenseAlert::warning(
                        "declared_mime_unverified",
                        "The declared MIME cannot be confirmed from the input bytes.",
                    ),
                );
            }
            if let Some(expected) = extension_mime {
                if !crate::mime::compatible_mimes(declared.as_str(), expected) {
                    mismatch = true;
                }
            }
            if !crate::mime::contains_char(declared.as_str(), '/') || crate::mime::contains_char(declared.as_str(), '*') {
                mismatch = true;
            }
        }
        if mismatch {
            if self.policy.block_kind_mismatch {
                return Err(DefenderError::FileTypeMismatch);
            }
            alerts.push(
                DefenseAlert::warning(
                    "input_mime_mismatch",
                    "Filename, declared MIME, and detected byte format do not agree.",
                ),
            );
        }
        Ok(alerts)
    }
}

} // verus!

verus! {

// ── Checks of the rebuilt candidate ───────────────────────────────────────

/// The output whitelist that applies to a kind (animated images share the
/// image list).
pub open spec fn allow_list(p: DefensePolicy, kind: FileKind) -> Seq<String> {
    match kind {
        FileKind::Image | FileKind::AnimatedImage => p.output_mime_whitelist.image@,
        FileKind::Gif => p.output_mime_whitelist.gif@,
        FileKind::Video => p.output_mime_whitelist.video@,
        FileKind::Audio => p.output_mime_whitelist.audio@,
        FileKind::Other => p.output_mime_whitelist.other@,
    }
}

pub type AlertTriple = (Seq<char>, Seq<char>, AlertSeverity);

/// The alert for an output that starts with an executable header, if any.
pub open spec fn executable_alert(output: Seq<u8>) -> Seq<AlertTriple> {
    let k = first_header_match(output, 0);
    if k < executable_headers().len() {
        seq![
            (
                executable_headers()[k].1,
                "Output begins with executable/archive magic `"@ + header_label(executable_headers()[k].1) + "`."@,
                AlertSeverity::Blocking,
            ),
        ]
    } else {
        Seq::empty()
    }
}

/// The alerts on the declared output MIME type `d` (already lower-cased).
pub open spec fn declared_mime_alerts(p: DefensePolicy, kind: FileKind, d: Seq<char>) -> Seq<AlertTriple> {
    let denied: Seq<AlertTriple> = if list_has(p.output_mime_denylist@, d) {
        seq![
            (
                "declared_output_mime_denied"@,
                "Declared output mime '"@ + d + "' is denied by policy."@,
                AlertSeverity::Blocking,
            ),
        ]
    } else {
        Seq::empty()
    };
    let not_allowed: Seq<AlertTriple> = if p.enforce_output_mime_whitelist && !list_has(allow_list(p, kind), d) {
        seq![
            (
                "declared_output_mime_not_allowed"@,
                "Declared output mime '"@ + d + "' is not allowed for "@ + kind_name(kind) + "."@,
                AlertSeverity::Blocking,
            ),
        ]
    } else {
        Seq::empty()
    };
    let kind_mismatch: Seq<AlertTriple> = match crate::types::spec_from_mime(Some(vstd::utf8::encode_utf8(d))) {
        Some(dk) => if !kinds_compatible(dk, kind) {
            seq![
                (
                    "declared_mime_kind_mismatch"@,
                    "Declared mime maps to "@ + kind_name(dk) + ", expected "@ + kind_name(kind) + "."@,
                    AlertSeverity::Blocking,
                ),
            ]
        } else {
            Seq::empty()
        },
        None => Seq::empty(),
    };
    denied + not_allowed + kind_mismatch
}

/// The alerts on the MIME type sniffed from the output bytes, compared with
/// the declared one `d`.
pub open spec fn sniffed_mime_alerts(p: DefensePolicy, kind: FileKind, d: Seq<char>, sniffed: Option<Seq<char>>) -> Seq<
    AlertTriple,
> {
    let by_kind: Seq<AlertTriple> = match crate::types::spec_from_mime(crate::types::opt_chars_bytes(sniffed)) {
        Some(sk) => if !kinds_compatible(sk, kind) {
            seq![
                (
                    "sniffed_output_kind_mismatch"@,
                    "Output bytes map to "@ + kind_name(sk) + ", expected "@ + kind_name(kind) + "."@,
                    AlertSeverity::Blocking,
                ),
            ]
        } else {
            Seq::empty()
        },
        None => seq![
            (
                "unknown_output_mime"@,
                "Output mime could not be detected from bytes."@,
                if p.block_on_unknown_output_mime {
                    AlertSeverity::Blocking
                } else {
                    AlertSeverity::Warning
                },
            ),
        ],
    };
    let mismatch: Seq<AlertTriple> = match sniffed {
        Some(sm) => if normalized(d) != normalized(sm) {
            seq![
                (
                    "output_mime_mismatch"@,
                    "Declared output MIME does not match the actual byte format."@,
                    AlertSeverity::Blocking,
                ),
            ]
        } else {
            Seq::empty()
        },
        None => Seq::empty(),
    };
    by_kind + mismatch
}

/// What the output check reports on a candidate of `kind` with the declared
/// MIME type `declared` and bytes `output`.
pub open spec fn output_alerts(p: DefensePolicy, kind: FileKind, declared: Seq<char>, output: Seq<u8>) -> Seq<
    AlertTriple,
> {
    if output.len() == 0 {
        seq![("empty_output_artifact"@, "Output artifact is empty."@, AlertSeverity::Blocking)]
    } else if !p.enforce_output_kind_match {
        executable_alert(output)
    } else {
        let d = ascii_lower_chars(declared);
        executable_alert(output) + declared_mime_alerts(p, kind, d) + sniffed_mime_alerts(
            p,
            kind,
            d,
            crate::sniff::infer_mime(output),
        )
    }
}

/// `'` + `m` + `' ` + `tail`: the quoted-MIME messages.
fn quoted_mime_message(head: &str, m: &str, tail: &str) -> (res: String)
    ensures
        res@ == head@ + m@ + tail@,
{
    let mut s = head.to_owned();
    s.append(m);
    s.append(tail);
    s
}

/// `head` + first kind + `, expected ` + second kind + `.`.
fn kinds_message(head: &str, found: FileKind, expected: FileKind) -> (res: String)
    ensures
        res@ == head@ + kind_name(found) + ", expected "@ + kind_name(expected) + "."@,
{
    let mut s = head.to_owned();
    s.append(file_kind_name(found));
    s.append(", expected ");
    s.append(file_kind_name(expected));
    s.append(".");
    s
}

impl FileDefender {
    /// Whether the lower-cased `declared_mime` is on the whitelist of the
    /// kind.
    fn is_allowed_output_mime(&self, expected_kind: FileKind, declared_mime: &String) -> (res: bool)
        requires
            self.wf(),
        ensures
            res == list_has(allow_list(self.spec_policy(), expected_kind), declared_mime@),
    {
        match expected_kind {
            FileKind::Image | FileKind::AnimatedImage => lowered_contains(
                &self.mime_index.image_allow,
                declared_mime,
                Ghost(self.policy.output_mime_whitelist.image@),
            ),
            FileKind::Gif => lowered_contains(
                &self.mime_index.gif_allow,
                declared_mime,
                Ghost(self.policy.output_mime_whitelist.gif@),
            ),
            FileKind::Video => lowered_contains(
                &self.mime_index.video_allow,
                declared_mime,
                Ghost(self.policy.output_mime_whitelist.video@),
            ),
            FileKind::Audio => lowered_contains(
                &self.mime_index.audio_allow,
                declared_mime,
                Ghost(self.policy.output_mime_whitelist.audio@),
            ),
            FileKind::Other => lowered_contains(
                &self.mime_index.other_allow,
                declared_mime,
                Ghost(self.policy.output_mime_whitelist.other@),
            ),
        }
    }

    /// The alerts on the declared MIME type of the candidate.
    fn declared_output_checks(&self, expected_kind: FileKind, declared: &String, alerts: &mut Vec<DefenseAlert>, Ghost(
        before,
    ): Ghost<Seq<AlertTriple>>)
        requires
            self.wf(),
            crate::types::alerts_are(old(alerts)@, before),
        ensures
            crate::types::alerts_are(
                final(alerts)@,
                before + declared_mime_alerts(self.spec_policy(), expected_kind, declared@),
            ),
    {
        let ghost p = self.spec_policy();
        let ghost d = declared@;
        let ghost mut exp = before;
        if lowered_contains(&self.mime_index.deny, declared, Ghost(self.policy.output_mime_denylist@)) {
            let msg = quoted_mime_message("Declared output mime '", declared.as_str(), "' is denied by policy.");
            let a = DefenseAlert { code: "declared_output_mime_denied".to_owned(), message: msg, severity: AlertSeverity::Blocking };
            crate::types::push_alert(alerts, a, Ghost(exp), Ghost(("declared_output_mime_denied"@, msg@, AlertSeverity::Blocking)));
            proof { exp = exp.push(("declared_output_mime_denied"@, msg@, AlertSeverity::Blocking)); }
        }
        let ghost after_deny = exp;
        if self.policy.enforce_output_mime_whitelist && !self.is_allowed_output_mime(expected_kind, declared) {
            let mut msg = quoted_mime_message("Declared output mime '", declared.as_str(), "' is not allowed for ");
            msg.append(file_kind_name(expected_kind));
            msg.append(".");
            let ghost t = ("declared_output_mime_not_allowed"@, msg@, AlertSeverity::Blocking);
            let a = DefenseAlert { code: "declared_output_mime_not_allowed".to_owned(), message: msg, severity: AlertSeverity::Blocking };
            crate::types::push_alert(alerts, a, Ghost(exp), Ghost(t));
            proof { exp = exp.push(t); }
        }
        let ghost after_allow = exp;
        if let Some(dk) = FileKind::from_mime(Some(declared.as_str())) {
            if !compatible_kinds(dk, expected_kind) {
                let msg = kinds_message("Declared mime maps to ", dk, expected_kind);
                let ghost t = ("declared_mime_kind_mismatch"@, msg@, AlertSeverity::Blocking);
                let a = DefenseAlert { code: "declared_mime_kind_mismatch".to_owned(), message: msg, severity: AlertSeverity::Blocking };
                crate::types::push_alert(alerts, a, Ghost(exp), Ghost(t));
                proof { exp = exp.push(t); }
            }
        }
        proof {
            reveal_strlit("Declared output mime '");
            assert(exp =~= before + declared_mime_alerts(p, expected_kind, d));
        }
    }

    /// The alerts on the MIME type sniffed from the candidate's bytes.
    fn sniffed_output_checks(&self, expected_kind: FileKind, declared: &String, output_bytes: &[u8], alerts: &mut Vec<
        DefenseAlert,
    >, Ghost(before): Ghost<Seq<AlertTriple>>)
        requires
            crate::types::alerts_are(old(alerts)@, before),
        ensures
            crate::types::alerts_are(
                final(alerts)@,
                before + sniffed_mime_alerts(
                    self.spec_policy(),
                    expected_kind,
                    declared@,
                    crate::sniff::infer_mime(output_bytes@),
                ),
            ),
    {
        let ghost p = self.spec_policy();
        let ghost mut exp = before;
        let sniffed = self.guess_mime(output_bytes);
        let sniffed_ref: Option<&str> = match &sniffed {
            Some(m) => Some(m.as_str()),
            None => None,
        };
        match FileKind::from_mime(sniffed_ref) {
            Some(sk) => {
                if !compatible_kinds(sk, expected_kind) {
                    let msg = kinds_message("Output bytes map to ", sk, expected_kind);
                    let ghost t = ("sniffed_output_kind_mismatch"@, msg@, AlertSeverity::Blocking);
                    let a = DefenseAlert { code: "sniffed_output_kind_mismatch".to_owned(), message: msg, severity: AlertSeverity::Blocking };
                    crate::types::push_alert(alerts, a, Ghost(exp), Ghost(t));
                    proof { exp = exp.push(t); }
                }
            },
            None => {
                let a = if self.policy.block_on_unknown_output_mime {
                    DefenseAlert::blocking("unknown_output_mime", "Output mime could not be detected from bytes.")
                } else {
                    DefenseAlert::warning("unknown_output_mime", "Output mime could not be detected from bytes.")
                };
                let ghost t = ("unknown_output_mime"@, "Output mime could not be detected from bytes."@, a.severity);
                crate::types::push_alert(alerts, a, Ghost(exp), Ghost(t));
                proof { exp = exp.push(t); }
            },
        }
        if let Some(sm) = &sniffed {
            if !crate::mime::compatible_mimes(declared.as_str(), sm.as_str()) {
                let a = DefenseAlert::blocking(
                    "output_mime_mismatch",
                    "Declared output MIME does not match the actual byte format.",
                );
                let ghost t = (
                    "output_mime_mismatch"@,
                    "Declared output MIME does not match the actual byte format."@,
                    AlertSeverity::Blocking,
                );
                crate::types::push_alert(alerts, a, Ghost(exp), Ghost(t));
                proof { exp = exp.push(t); }
            }
        }
        proof {
            assert(exp =~= before + sniffed_mime_alerts(p, expected_kind, declared@, crate::sniff::infer_mime(output_bytes@)));
        }
    }

    /// Check the candidate: never empty, never an executable, and, when the
    /// policy enforces it, of a declared and sniffed MIME type that fits
    /// the kind and the policy's lists.
    pub fn validate_output_artifact(&self, expected_kind: FileKind, declared_mime: &str, output_bytes: &[u8]) -> (res:
        Vec<DefenseAlert>)
        requires
            self.wf(),
        ensures
            crate::types::alerts_are(
                res@,
                output_alerts(self.spec_policy(), expected_kind, declared_mime@, output_bytes@),
            ),
    {
        let mut alerts: Vec<DefenseAlert> = Vec::new();
        let declared = ascii_lowercase(declared_mime);
        if output_bytes.len() == 0 {
            alerts.push(DefenseAlert::blocking("empty_output_artifact", "Output artifact is empty."));
            return alerts;
        }
        let ghost mut exp: Seq<AlertTriple> = Seq::empty();
        if let Some(a) = detect_executable_magic(output_bytes) {
            let ghost t = (a.code@, a.message@, a.severity);
            crate::types::push_alert(&mut alerts, a, Ghost(exp), Ghost(t));
            proof { exp = exp.push(t); }
        }
        proof {
            assert(exp =~= executable_alert(output_bytes@));
        }
        if !self.policy.enforce_output_kind_match {
            return alerts;
        }
        self.declared_output_checks(expected_kind, &declared, &mut alerts, Ghost(exp));
        let ghost mid = exp + declared_mime_alerts(self.spec_policy(), expected_kind, declared@);
        self.sniffed_output_checks(expected_kind, &declared, output_bytes, &mut alerts, Ghost(mid));
        proof {
            assert(mid + sniffed_mime_alerts(
                self.spec_policy(),
                expected_kind,
                declared@,
                crate::sniff::infer_mime(output_bytes@),
            ) =~= output_alerts(self.spec_policy(), expected_kind, declared_mime@, output_bytes@));
        }
        alerts
    }
}

} // verus!

verus! {

// ── The structured probe of non-media files ──────────────────────────────

/// Whether the bytes are one JSON document, as
/// `serde_json::from_slice::<serde_json::Value>` decides.
pub uninterp spec fn json_document(bytes: Seq<u8>) -> bool;

/// Calls `serde_json::from_slice::<serde_json::Value>` and reports whether
/// it succeeded. What it accepts is JSON's grammar as serde_json reads it;
/// the result is named by `json_document`, not stated.
#[verifier::external_body]
fn parses_as_json(bytes: &[u8]) -> (res: bool)
    ensures
        res == json_document(bytes@),
{
    serde_json::from_slice::<serde_json::Value>(bytes).is_ok()
}

/// Extensions of ZIP-based containers.
pub open spec fn zip_family(e: Seq<char>) -> bool {
    e == "zip"@ || e == "docx"@ || e == "xlsx"@ || e == "pptx"@ || e == "jar"@ || e == "apk"@ || e == "odt"@
}

pub open spec fn pdf_head() -> Seq<u8> {
    seq![0x25u8, 0x50, 0x44, 0x46, 0x2D]
}

pub open spec fn pdf_tail() -> Seq<u8> {
    seq![0x25u8, 0x25, 0x45, 0x4F, 0x46]
}

/// A PDF starts with `%PDF-` and holds `%%EOF`.
pub open spec fn pdf_like(input: Seq<u8>) -> bool {
    input.len() >= 5 && crate::bytes::has_prefix(input, pdf_head()) && crate::bytes::seq_contains(input, pdf_tail())
}

/// XML is UTF-8 text whose first non-white-space character is `<`.
pub open spec fn xml_like(input: Seq<u8>) -> bool {
    &&& vstd::utf8::valid_utf8(input)
    &&& {
        let t = vstd::utf8::decode_utf8(input);
        let i = crate::mime::first_non_ws(t, 0);
        i < t.len() && t[i] == '<'
    }
}

/// A ZIP archive starts with one of the three `PK` record signatures.
pub open spec fn zip_like(input: Seq<u8>) -> bool {
    input.len() >= 4 && input[0] == 0x50u8 && input[1] == 0x4Bu8 && (
    (input[2] == 3u8 && input[3] == 4u8) || (input[2] == 5u8 && input[3] == 6u8) || (input[2] == 7u8 && input[3]
        == 8u8))
}

/// The structural check for the lower-cased extension `e`; extensions
/// without one pass.
pub open spec fn probe_passes(e: Seq<char>, input: Seq<u8>) -> bool {
    if e == "json"@ {
        json_document(input)
    } else if e == "pdf"@ {
        pdf_like(input)
    } else if e == "xml"@ {
        xml_like(input)
    } else if zip_family(e) {
        zip_like(input)
    } else {
        true
    }
}

/// The extension of a file name as text, when it has one that is UTF-8,
/// lower-cased.
pub open spec fn probe_extension(name: Seq<u8>) -> Option<Seq<char>> {
    match path_extension(name) {
        Some(ext) => if vstd::utf8::valid_utf8(ext) {
            Some(ascii_lower_chars(vstd::utf8::decode_utf8(ext)))
        } else {
            None
        },
        None => None,
    }
}

fn zip_family_exec(e: &String) -> (res: bool)
    ensures
        res == zip_family(e@),
{
    crate::mime::eq_str(e, "zip") || crate::mime::eq_str(e, "docx") || crate::mime::eq_str(e, "xlsx")
        || crate::mime::eq_str(e, "pptx") || crate::mime::eq_str(e, "jar") || crate::mime::eq_str(e, "apk")
        || crate::mime::eq_str(e, "odt")
}

fn pdf_like_exec(input: &[u8]) -> (res: bool)
    ensures
        res == pdf_like(input@),
{
    if input.len() < 5 {
        return false;
    }
    let head: [u8; 5] = [0x25u8, 0x50, 0x44, 0x46, 0x2D];
    let tail: [u8; 5] = [0x25u8, 0x25, 0x45, 0x4F, 0x46];
    proof {
        assert(head@ =~= pdf_head());
        assert(tail@ =~= pdf_tail());
    }
    crate::bytes::starts_with(input, &head) && crate::bytes::contains_bytes(input, &tail)
}

fn xml_like_exec(input: &[u8]) -> (res: bool)
    ensures
        res == xml_like(input@),
{
    use_text_first_char(utf8_text_of(input))
}

fn utf8_text_of(input: &[u8]) -> (res: Option<String>)
    ensures
        res is Some <==> vstd::utf8::valid_utf8(input@),
        res matches Some(s) ==> s@ == vstd::utf8::decode_utf8(input@),
{
    crate::text::utf8_text(input)
}

/// Whether the first non-white-space character of the text is `<`.
fn use_text_first_char(text: Option<String>) -> (res: bool)
    ensures
        res == (text matches Some(s) && {
            let i = crate::mime::first_non_ws(s@, 0);
            i < s@.len() && s@[i] == '<'
        }),
{
    let s = match text {
        Some(s) => s,
        None => {
            return false;
        },
    };
    let t = s.as_str();
    let n = t.unicode_len();
    let mut i: usize = 0;
    while i < n && crate::mime::is_whitespace_char(t.get_char(i))
        invariant
            n == t@.len(),
            t@ == s@,
            i <= n,
            crate::mime::first_non_ws(s@, 0) == crate::mime::first_non_ws(s@, i as int),
        decreases n - i,
    {
        i = i + 1;
    }
    i < n && t.get_char(i) == '<'
}

/// The stage and the alerts of the structured probe.
pub open spec fn probe_report(p: DefensePolicy, name: Option<Seq<u8>>, input: Seq<u8>) -> (
    (PipelineStage, PipelineStageStatus, Seq<char>),
    Seq<AlertTriple>,
) {
    match name {
        None => ((PipelineStage::OtherProbe, PipelineStageStatus::Success, "other probe skipped: no file name"@), Seq::empty()),
        Some(n) => match probe_extension(n) {
            None => ((PipelineStage::OtherProbe, PipelineStageStatus::Success, "other probe skipped: no extension"@), Seq::empty()),
            Some(e) => if probe_passes(e, input) {
                ((PipelineStage::OtherProbe, PipelineStageStatus::Success, "other probe passed for ."@ + e), Seq::empty())
            } else if p.other.structured_probe_mode == ProbeFailureMode::Warn {
                (
                    (PipelineStage::OtherProbe, PipelineStageStatus::Warning, "other probe warning for ."@ + e),
                    seq![("other_structured_probe_failed"@, "Structured probe failed for ."@ + e + " payload."@, AlertSeverity::Warning)],
                )
            } else {
                (
                    (PipelineStage::OtherProbe, PipelineStageStatus::Blocked, "other probe blocked for ."@ + e),
                    seq![("other_structured_probe_failed"@, "Structured probe failed for ."@ + e + " payload."@, AlertSeverity::Blocking)],
                )
            },
        },
    }
}

impl FileDefender {
    /// The structural check of a non-media file, keyed by its extension:
    /// `json` must parse, `pdf` must have its header and trailer, `xml` must
    /// be text starting with `<`, ZIP-based containers must start with a
    /// ZIP record; a failure is a warning or blocks, by policy.
    pub fn structured_probe_other(&self, file_name: Option<&str>, input: &[u8]) -> (res: (
        PipelineStageReport,
        Option<DefenseAlert>,
    ))
        ensures
            crate::types::stage_triple(res.0) == probe_report(self.spec_policy(), opt_bytes(file_name), input@).0,
            crate::types::opt_alert_triples(res.1) == probe_report(self.spec_policy(), opt_bytes(file_name), input@).1,
    {
        let name = match file_name {
            Some(n) => n,
            None => {
                return (
                    PipelineStageReport::new(
                        PipelineStage::OtherProbe,
                        PipelineStageStatus::Success,
                        "other probe skipped: no file name",
                    ),
                    None,
                );
            },
        };
        let ext_bytes = match extension_of(name.as_bytes()) {
            Some(e) => e,
            None => {
                return (
                    PipelineStageReport::new(
                        PipelineStage::OtherProbe,
                        PipelineStageStatus::Success,
                        "other probe skipped: no extension",
                    ),
                    None,
                );
            },
        };
        let ext_text = match crate::text::utf8_text(ext_bytes.as_slice()) {
            Some(t) => t,
            None => {
                return (
                    PipelineStageReport::new(
                        PipelineStage::OtherProbe,
                        PipelineStageStatus::Success,
                        "other probe skipped: no extension",
                    ),
                    None,
                );
            },
        };
        let ext = ascii_lowercase(ext_text.as_str());
        let check = if crate::mime::eq_str(&ext, "json") {
            parses_as_json(input)
        } else if crate::mime::eq_str(&ext, "pdf") {
            pdf_like_exec(input)
        } else if crate::mime::eq_str(&ext, "xml") {
            xml_like_exec(input)
        } else if zip_family_exec(&ext) {
            zip_like_exec(input)
        } else {
            true
        };
        if check {
            let detail = crate::text::concat2("other probe passed for .", ext.as_str());
            return (
                PipelineStageReport {
                    stage: PipelineStage::OtherProbe,
                    status: PipelineStageStatus::Success,
                    detail,
                },
                None,
            );
        }
        let mut message = crate::text::concat2("Structured probe failed for .", ext.as_str());
        message.append(" payload.");
        match self.policy.other.structured_probe_mode {
            ProbeFailureMode::Warn => {
                let detail = crate::text::concat2("other probe warning for .", ext.as_str());
                (
                    PipelineStageReport {
                        stage: PipelineStage::OtherProbe,
                        status: PipelineStageStatus::Warning,
                        detail,
                    },
                    Some(
                        DefenseAlert {
                            code: "other_structured_probe_failed".to_owned(),
                            message,
                            severity: AlertSeverity::Warning,
                        },
                    ),
                )
            },
            ProbeFailureMode::Block => {
                let detail = crate::text::concat2("other probe blocked for .", ext.as_str());
                (
                    PipelineStageReport {
                        stage: PipelineStage::OtherProbe,
                        status: PipelineStageStatus::Blocked,
                        detail,
                    },
                    Some(
                        DefenseAlert {
                            code: "other_structured_probe_failed".to_owned(),
                            message,
                            severity: AlertSeverity::Blocking,
                        },
                    ),
                )
            },
        }
    }
}

fn zip_like_exec(input: &[u8]) -> (res: bool)
    ensures
        res == zip_like(input@),
{
    if input.len() < 4 {
        return false;
    }
    input[0] == 0x50u8 && input[1] == 0x4Bu8 && ((input[2] == 3u8 && input[3] == 4u8) || (input[2] == 5u8 && input[3]
        == 6u8) || (input[2] == 7u8 && input[3] == 8u8))
}

} // verus!

verus! {

// ── Reconstruction level ─────────────────────────────────────────────────

/// The level a media handler reports in the first rebuild stage, at or
/// after `from`, whose detail names one.
pub open spec fn level_from_stages(stages: Seq<PipelineStageReport>, from: int) -> Option<ReconstructionLevel>
    decreases stages.len() - from,
{
    if from < 0 || from >= stages.len() {
        None
    } else if stages[from].stage == PipelineStage::Rebuild && stages[from].detail@
        == "achieved_reconstruction=semantic"@ {
        Some(ReconstructionLevel::Semantic)
    } else if stages[from].stage == PipelineStage::Rebuild && stages[from].detail@
        == "achieved_reconstruction=structural"@ {
        Some(ReconstructionLevel::Structure)
    } else {
        level_from_stages(stages, from + 1)
    }
}

/// The level a candidate of `kind` with MIME type `mime` reached: a still
/// image or GIF re-encoded to its own kind is semantic, an animated image
/// flattened to a still image is structural, audio and video report
/// theirs, and nothing else reaches any.
pub open spec fn achieved_level(kind: FileKind, mime: Seq<char>, stages: Seq<PipelineStageReport>) -> Option<
    ReconstructionLevel,
> {
    let mk = crate::types::spec_from_mime(Some(vstd::utf8::encode_utf8(mime)));
    match kind {
        FileKind::Image | FileKind::Gif => if mk == Some(kind) {
            Some(ReconstructionLevel::Semantic)
        } else {
            None
        },
        FileKind::AnimatedImage => if mk == Some(FileKind::Image) {
            Some(ReconstructionLevel::Structure)
        } else {
            None
        },
        FileKind::Audio | FileKind::Video => level_from_stages(stages, 0),
        FileKind::Other => None,
    }
}

/// A semantic rebuild meets either requirement; a structural one only the
/// structural requirement.
pub open spec fn level_met(required: ReconstructionLevel, achieved: Option<ReconstructionLevel>) -> bool {
    match achieved {
        Some(a) => required == ReconstructionLevel::Structure || a == ReconstructionLevel::Semantic,
        None => false,
    }
}

pub open spec fn level_label(l: ReconstructionLevel) -> Seq<char> {
    match l {
        ReconstructionLevel::Structure => "structural"@,
        ReconstructionLevel::Semantic => "semantic"@,
    }
}

pub open spec fn opt_level_label(l: Option<ReconstructionLevel>) -> Seq<char> {
    match l {
        Some(v) => level_label(v),
        None => "none"@,
    }
}

pub(crate) fn level_label_exec(l: ReconstructionLevel) -> (res: &'static str)
    ensures
        res@ == level_label(l),
{
    match l {
        ReconstructionLevel::Structure => "structural",
        ReconstructionLevel::Semantic => "semantic",
    }
}

/// The detail of the reconstruction-level stage.
pub open spec fn level_detail(required: ReconstructionLevel, achieved: Option<ReconstructionLevel>) -> Seq<char> {
    "required_reconstruction="@ + level_label(required) + " achieved_reconstruction="@ + opt_level_label(achieved)
}

/// The stage and the alerts of the reconstruction-level check.
pub open spec fn level_report(p: DefensePolicy, kind: FileKind, mime: Seq<char>, stages: Seq<PipelineStageReport>) -> (
    (PipelineStage, PipelineStageStatus, Seq<char>),
    Seq<AlertTriple>,
) {
    let required = p.minimum_reconstruction_level;
    let achieved = achieved_level(kind, mime, stages);
    if level_met(required, achieved) {
        ((PipelineStage::Rebuild, PipelineStageStatus::Success, level_detail(required, achieved)), Seq::empty())
    } else {
        (
            (PipelineStage::Rebuild, PipelineStageStatus::Blocked, level_detail(required, achieved)),
            seq![
                (
                    "reconstruction_level_not_met"@,
                    "The candidate has not achieved the reconstruction level required by policy."@,
                    AlertSeverity::Blocking,
                ),
            ],
        )
    }
}

fn reported_level(stages: &Vec<PipelineStageReport>) -> (res: Option<ReconstructionLevel>)
    ensures
        res == level_from_stages(stages@, 0),
{
    let mut i: usize = 0;
    while i < stages.len()
        invariant
            i <= stages@.len(),
            level_from_stages(stages@, 0) == level_from_stages(stages@, i as int),
        decreases stages@.len() - i,
    {
        if stages[i].stage == PipelineStage::Rebuild {
            if crate::mime::eq_str(&stages[i].detail, "achieved_reconstruction=semantic") {
                return Some(ReconstructionLevel::Semantic);
            }
            if crate::mime::eq_str(&stages[i].detail, "achieved_reconstruction=structural") {
                return Some(ReconstructionLevel::Structure);
            }
        }
        i = i + 1;
    }
    None
}

impl FileDefender {
    /// The stage that compares the level the candidate reached with the
    /// policy's minimum, and a blocking alert when it falls short.
    pub fn validate_reconstruction_level(&self, file_kind: FileKind, artifact: &HandlerResult) -> (res: (
        PipelineStageReport,
        Option<DefenseAlert>,
    ))
        ensures
            ({
                let required = self.spec_policy().minimum_reconstruction_level;
                let achieved = achieved_level(file_kind, artifact.mime@, artifact.stages@);
                let passed = level_met(required, achieved);
                &&& stage_is(
                    res.0,
                    PipelineStage::Rebuild,
                    if passed {
                        PipelineStageStatus::Success
                    } else {
                        PipelineStageStatus::Blocked
                    },
                    level_detail(required, achieved),
                )
                &&& (passed ==> res.1 is None)
                &&& (!passed ==> (res.1 matches Some(a) && alert_is(
                    a,
                    "reconstruction_level_not_met"@,
                    "The candidate has not achieved the reconstruction level required by policy."@,
                    AlertSeverity::Blocking,
                )))
            }),
            crate::types::stage_triple(res.0) == level_report(
                self.spec_policy(),
                file_kind,
                artifact.mime@,
                artifact.stages@,
            ).0,
            crate::types::opt_alert_triples(res.1) == level_report(
                self.spec_policy(),
                file_kind,
                artifact.mime@,
                artifact.stages@,
            ).1,
    {
        let mime_kind = FileKind::from_mime(Some(artifact.mime.as_str()));
        let achieved = match file_kind {
            FileKind::Image | FileKind::Gif => {
                if mime_kind == Some(file_kind) {
                    Some(ReconstructionLevel::Semantic)
                } else {
                    None
                }
            },
            FileKind::AnimatedImage => {
                if mime_kind == Some(FileKind::Image) {
                    Some(ReconstructionLevel::Structure)
                } else {
                    None
                }
            },
            FileKind::Audio | FileKind::Video => reported_level(&artifact.stages),
            FileKind::Other => None,
        };
        let required = self.policy.minimum_reconstruction_level;
        let passed = match achieved {
            Some(a) => required == ReconstructionLevel::Structure || a == ReconstructionLevel::Semantic,
            None => false,
        };
        let mut detail = crate::text::concat2("required_reconstruction=", level_label_exec(required));
        detail.append(" achieved_reconstruction=");
        match achieved {
            Some(a) => detail.append(level_label_exec(a)),
            None => detail.append("none"),
        }
        let alert = if passed {
            None
        } else {
            Some(
                DefenseAlert::blocking(
                    "reconstruction_level_not_met",
                    "The candidate has not achieved the reconstruction level required by policy.",
                ),
            )
        };
        (
            PipelineStageReport {
                stage: PipelineStage::Rebuild,
                status: if passed {
                    PipelineStageStatus::Success
                } else {
                    PipelineStageStatus::Blocked
                },
                detail,
            },
            alert,
        )
    }
}

// ── Dry run ──────────────────────────────────────────────────────────────

/// In a dry run a blocking alert becomes a warning that says it would have
/// blocked; every other alert stays as it was.
pub open spec fn dry_run_alert(before: DefenseAlert, after: DefenseAlert) -> bool {
    &&& after.code@ == before.code@
    &&& if before.severity == AlertSeverity::Blocking {
        after.severity == AlertSeverity::Warning && after.message@ == before.message@
            + " [dry-run: would block]"@
    } else {
        after.severity == before.severity && after.message@ == before.message@
    }
}

/// In a dry run a blocked stage becomes a warning marked as such.
pub open spec fn dry_run_stage(before: PipelineStageReport, after: PipelineStageReport) -> bool {
    &&& after.stage == before.stage
    &&& if before.status == PipelineStageStatus::Blocked {
        after.status == PipelineStageStatus::Warning && after.detail@ == before.detail@ + " [dry-run]"@
    } else {
        after.status == before.status && after.detail@ == before.detail@
    }
}

pub open spec fn dry_run_alerts(before: Seq<DefenseAlert>, after: Seq<DefenseAlert>) -> bool {
    before.len() == after.len() && forall|i: int| 0 <= i < before.len() ==> dry_run_alert(before[i], #[trigger] after[i])
}

pub open spec fn dry_run_stages(before: Seq<PipelineStageReport>, after: Seq<PipelineStageReport>) -> bool {
    before.len() == after.len() && forall|i: int| 0 <= i < before.len() ==> dry_run_stage(before[i], #[trigger] after[i])
}

impl FileDefender {
    /// Turn every blocking alert into a warning and every blocked stage
    /// into a warning, each marked as a dry run.
    pub fn apply_dry_run_mode(&self, alerts: &mut Vec<DefenseAlert>, stages: &mut Vec<PipelineStageReport>)
        ensures
            dry_run_alerts(old(alerts)@, final(alerts)@),
            dry_run_stages(old(stages)@, final(stages)@),
    {
        let mut new_alerts: Vec<DefenseAlert> = Vec::new();
        let mut i: usize = 0;
        while i < alerts.len()
            invariant
                i <= alerts@.len(),
                alerts@ == old(alerts)@,
                new_alerts@.len() == i,
                forall|j: int| 0 <= j < i ==> dry_run_alert(alerts@[j], #[trigger] new_alerts@[j]),
            decreases alerts@.len() - i,
        {
            let a = &alerts[i];
            if a.severity == AlertSeverity::Blocking {
                let message = crate::text::concat2(a.message.as_str(), " [dry-run: would block]");
                new_alerts.push(DefenseAlert { code: a.code.clone(), message, severity: AlertSeverity::Warning });
            } else {
                new_alerts.push(DefenseAlert { code: a.code.clone(), message: a.message.clone(), severity: a.severity });
            }
            i = i + 1;
        }
        let mut new_stages: Vec<PipelineStageReport> = Vec::new();
        let mut k: usize = 0;
        while k < stages.len()
            invariant
                k <= stages@.len(),
                stages@ == old(stages)@,
                new_stages@.len() == k,
                forall|j: int| 0 <= j < k ==> dry_run_stage(stages@[j], #[trigger] new_stages@[j]),
            decreases stages@.len() - k,
        {
            let r = &stages[k];
            if r.status == PipelineStageStatus::Blocked {
                let detail = crate::text::concat2(r.detail.as_str(), " [dry-run]");
                new_stages.push(PipelineStageReport { stage: r.stage, status: PipelineStageStatus::Warning, detail });
            } else {
                new_stages.push(PipelineStageReport { stage: r.stage, status: r.status, detail: r.detail.clone() });
            }
            k = k + 1;
        }
        *alerts = new_alerts;
        *stages = new_stages;
    }
}

// ── Quarantine ───────────────────────────────────────────────────────────

/// Index of the first blocking alert at or after `from`, or the length.
pub open spec fn first_blocking(alerts: Seq<DefenseAlert>, from: int) -> int
    decreases alerts.len() - from,
{
    if from < 0 || from >= alerts.len() {
        alerts.len() as int
    } else if alerts[from].severity == AlertSeverity::Blocking {
        from
    } else {
        first_blocking(alerts, from + 1)
    }
}

/// The reason a blocked run is quarantined: the code of its first blocking
/// alert, else `blocked`.
pub open spec fn quarantine_reason(alerts: Seq<DefenseAlert>) -> Seq<char> {
    let k = first_blocking(alerts, 0);
    if 0 <= k < alerts.len() {
        alerts[k].code@
    } else {
        "blocked"@
    }
}

fn first_blocking_code(alerts: &Vec<DefenseAlert>) -> (res: String)
    ensures
        res@ == quarantine_reason(alerts@),
{
    let mut i: usize = 0;
    while i < alerts.len()
        invariant
            i <= alerts@.len(),
            first_blocking(alerts@, 0) == first_blocking(alerts@, i as int),
        decreases alerts@.len() - i,
    {
        if alerts[i].severity == AlertSeverity::Blocking {
            return alerts[i].code.clone();
        }
        i = i + 1;
    }
    "blocked".to_owned()
}

impl FileDefender {
    /// The record kept of a blocked run.
    pub fn build_quarantine_envelope(
        &self,
        alerts: &Vec<DefenseAlert>,
        stages: &Vec<PipelineStageReport>,
        original_size: u64,
        output_size: u64,
        sha256: &str,
    ) -> (res: QuarantineEnvelope)
        ensures
            res.reason@ == quarantine_reason(alerts@),
            res.sha256@ == sha256@,
            res.original_size == original_size,
            res.output_size == output_size,
            res.stage_details@.len() == stages@.len(),
            forall|i: int| 0 <= i < stages@.len() ==> (#[trigger] res.stage_details@[i])@ == stages@[i].detail@,
    {
        let reason = first_blocking_code(alerts);
        let mut stage_details: Vec<String> = Vec::new();
        let mut k: usize = 0;
        while k < stages.len()
            invariant
                k <= stages@.len(),
                stage_details@.len() == k,
                forall|j: int| 0 <= j < k ==> (#[trigger] stage_details@[j])@ == stages@[j].detail@,
            decreases stages@.len() - k,
        {
            stage_details.push(stages[k].detail.clone());
            k = k + 1;
        }
        QuarantineEnvelope { reason, sha256: sha256.to_owned(), original_size, output_size, stage_details }
    }
}

} // verus!
