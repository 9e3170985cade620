//! The wire format of results handed across the C boundary: integer codes
//! for the enumerations, and protobuf messages for the metadata and errors,
//! encoded and decoded here.
use vstd::prelude::*;
use vstd::string::StringSliceAdditionalSpecFns;

use crate::protobuf::{
    int32_wire, key_bytes, lemma_delimited_read, lemma_int32_wire, lemma_key_read, lemma_string_read, lemma_varint_len,
    lemma_varint_read, varint, delimited_at, enc_bool, enc_delimited, enc_int32, enc_string, enc_u64, key_at, push_bool_field, push_delimited_field,
    push_int32_field, push_string_field, push_u64_field, read_key, read_string, read_varint, skip_field_value,
    skip_value, string_at, varint_at,
};
use crate::types::{AlertSeverity, DefendResult, DefenseVerdict, FileKind, PipelineStage, PipelineStageStatus};

verus! {

pub const FFI_STATUS_OK: i32 = 0;
pub const FFI_STATUS_ERROR: i32 = 1;

pub const FFI_VERDICT_ERROR: i32 = -1;
pub const FFI_VERDICT_CLEAN: i32 = 0;
pub const FFI_VERDICT_SUSPICIOUS: i32 = 1;
pub const FFI_VERDICT_BLOCKED: i32 = 2;

pub const FFI_FILE_KIND_IMAGE: i32 = 0;
pub const FFI_FILE_KIND_GIF: i32 = 1;
pub const FFI_FILE_KIND_VIDEO: i32 = 2;
pub const FFI_FILE_KIND_AUDIO: i32 = 3;
pub const FFI_FILE_KIND_OTHER: i32 = 4;
pub const FFI_FILE_KIND_ANIMATED_IMAGE: i32 = 5;

pub const FFI_STAGE_PRE_SCAN: i32 = 0;
pub const FFI_STAGE_IMAGE_PROBE: i32 = 1;
pub const FFI_STAGE_GIF_PROBE: i32 = 2;
pub const FFI_STAGE_VIDEO_PROBE: i32 = 3;
pub const FFI_STAGE_AUDIO_PROBE: i32 = 4;
pub const FFI_STAGE_OTHER_PROBE: i32 = 5;
pub const FFI_STAGE_DETECT: i32 = 6;
pub const FFI_STAGE_REBUILD: i32 = 7;
pub const FFI_STAGE_SIGNATURE_SCAN: i32 = 8;
pub const FFI_STAGE_OUTPUT_VALIDATION: i32 = 9;

pub const FFI_STAGE_STATUS_SUCCESS: i32 = 0;
pub const FFI_STAGE_STATUS_WARNING: i32 = 1;
pub const FFI_STAGE_STATUS_BLOCKED: i32 = 2;

/// The verdict as the wire names it.
#[derive(Debug, Clone, Copy, PartialEq, Eq, Structural)]
pub enum FfiVerdictEnum {
    Clean,
    Suspicious,
    Blocked,
}

/// The file kind as the wire names it.
#[derive(Debug, Clone, Copy, PartialEq, Eq, Structural)]
pub enum FfiFileKindEnum {
    Image,
    Gif,
    Video,
    Audio,
    Other,
    AnimatedImage,
}

/// The pipeline stage as the wire names it.
#[derive(Debug, Clone, Copy, PartialEq, Eq, Structural)]
pub enum FfiStageEnum {
    PreScan,
    ImageProbe,
    GifProbe,
    VideoProbe,
    AudioProbe,
    OtherProbe,
    Detect,
    Rebuild,
    SignatureScan,
    OutputValidation,
}

/// The stage status as the wire names it.
#[derive(Debug, Clone, Copy, PartialEq, Eq, Structural)]
pub enum FfiStageStatusEnum {
    Success,
    Warning,
    Blocked,
}

/// The wire code of a verdict.
pub open spec fn verdict_code_of(v: DefenseVerdict) -> i32 {
    match v {
        DefenseVerdict::Clean => FFI_VERDICT_CLEAN,
        DefenseVerdict::Suspicious => FFI_VERDICT_SUSPICIOUS,
        DefenseVerdict::Blocked => FFI_VERDICT_BLOCKED,
    }
}

pub open spec fn file_kind_code_of(k: FileKind) -> i32 {
    match k {
        FileKind::Image => FFI_FILE_KIND_IMAGE,
        FileKind::Gif => FFI_FILE_KIND_GIF,
        FileKind::Video => FFI_FILE_KIND_VIDEO,
        FileKind::Audio => FFI_FILE_KIND_AUDIO,
        FileKind::Other => FFI_FILE_KIND_OTHER,
        FileKind::AnimatedImage => FFI_FILE_KIND_ANIMATED_IMAGE,
    }
}

pub open spec fn stage_code_of(s: PipelineStage) -> i32 {
    match s {
        PipelineStage::PreScan => FFI_STAGE_PRE_SCAN,
        PipelineStage::ImageProbe => FFI_STAGE_IMAGE_PROBE,
        PipelineStage::GifProbe => FFI_STAGE_GIF_PROBE,
        PipelineStage::VideoProbe => FFI_STAGE_VIDEO_PROBE,
        PipelineStage::AudioProbe => FFI_STAGE_AUDIO_PROBE,
        PipelineStage::OtherProbe => FFI_STAGE_OTHER_PROBE,
        PipelineStage::Detect => FFI_STAGE_DETECT,
        PipelineStage::Rebuild => FFI_STAGE_REBUILD,
        PipelineStage::SignatureScan => FFI_STAGE_SIGNATURE_SCAN,
        PipelineStage::OutputValidation => FFI_STAGE_OUTPUT_VALIDATION,
    }
}

pub open spec fn stage_status_code_of(s: PipelineStageStatus) -> i32 {
    match s {
        PipelineStageStatus::Success => FFI_STAGE_STATUS_SUCCESS,
        PipelineStageStatus::Warning => FFI_STAGE_STATUS_WARNING,
        PipelineStageStatus::Blocked => FFI_STAGE_STATUS_BLOCKED,
    }
}

pub fn verdict_code(v: DefenseVerdict) -> (res: i32)
    ensures
        res == verdict_code_of(v),
{
    match v {
        DefenseVerdict::Clean => FFI_VERDICT_CLEAN,
        DefenseVerdict::Suspicious => FFI_VERDICT_SUSPICIOUS,
        DefenseVerdict::Blocked => FFI_VERDICT_BLOCKED,
    }
}

pub fn file_kind_code(k: FileKind) -> (res: i32)
    ensures
        res == file_kind_code_of(k),
{
    match k {
        FileKind::Image => FFI_FILE_KIND_IMAGE,
        FileKind::Gif => FFI_FILE_KIND_GIF,
        FileKind::Video => FFI_FILE_KIND_VIDEO,
        FileKind::Audio => FFI_FILE_KIND_AUDIO,
        FileKind::Other => FFI_FILE_KIND_OTHER,
        FileKind::AnimatedImage => FFI_FILE_KIND_ANIMATED_IMAGE,
    }
}

pub fn stage_code(s: PipelineStage) -> (res: i32)
    ensures
        res == stage_code_of(s),
{
    match s {
        PipelineStage::PreScan => FFI_STAGE_PRE_SCAN,
        PipelineStage::ImageProbe => FFI_STAGE_IMAGE_PROBE,
        PipelineStage::GifProbe => FFI_STAGE_GIF_PROBE,
        PipelineStage::VideoProbe => FFI_STAGE_VIDEO_PROBE,
        PipelineStage::AudioProbe => FFI_STAGE_AUDIO_PROBE,
        PipelineStage::OtherProbe => FFI_STAGE_OTHER_PROBE,
        PipelineStage::Detect => FFI_STAGE_DETECT,
        PipelineStage::Rebuild => FFI_STAGE_REBUILD,
        PipelineStage::SignatureScan => FFI_STAGE_SIGNATURE_SCAN,
        PipelineStage::OutputValidation => FFI_STAGE_OUTPUT_VALIDATION,
    }
}

pub fn stage_status_code(s: PipelineStageStatus) -> (res: i32)
    ensures
        res == stage_status_code_of(s),
{
    match s {
        PipelineStageStatus::Success => FFI_STAGE_STATUS_SUCCESS,
        PipelineStageStatus::Warning => FFI_STAGE_STATUS_WARNING,
        PipelineStageStatus::Blocked => FFI_STAGE_STATUS_BLOCKED,
    }
}

impl FfiVerdictEnum {
    pub open spec fn spec_code(self) -> i32 {
        match self {
            FfiVerdictEnum::Clean => FFI_VERDICT_CLEAN,
            FfiVerdictEnum::Suspicious => FFI_VERDICT_SUSPICIOUS,
            FfiVerdictEnum::Blocked => FFI_VERDICT_BLOCKED,
        }
    }

    /// The wire code.
    pub fn code(self) -> (res: i32)
        ensures
            res == self.spec_code(),
    {
        match self {
            FfiVerdictEnum::Clean => FFI_VERDICT_CLEAN,
            FfiVerdictEnum::Suspicious => FFI_VERDICT_SUSPICIOUS,
            FfiVerdictEnum::Blocked => FFI_VERDICT_BLOCKED,
        }
    }

    /// The variant with this wire code, if any.
    pub fn from_code(code: i32) -> (res: Option<Self>)
        ensures
            match res {
                Some(v) => v.spec_code() == code,
                None => forall|v: Self| v.spec_code() != code,
            },
    {
        if code == FFI_VERDICT_CLEAN {
            Some(FfiVerdictEnum::Clean)
        } else if code == FFI_VERDICT_SUSPICIOUS {
            Some(FfiVerdictEnum::Suspicious)
        } else if code == FFI_VERDICT_BLOCKED {
            Some(FfiVerdictEnum::Blocked)
        } else {
            None
        }
    }
}

impl FfiFileKindEnum {
    pub open spec fn spec_code(self) -> i32 {
        match self {
            FfiFileKindEnum::Image => FFI_FILE_KIND_IMAGE,
            FfiFileKindEnum::Gif => FFI_FILE_KIND_GIF,
            FfiFileKindEnum::Video => FFI_FILE_KIND_VIDEO,
            FfiFileKindEnum::Audio => FFI_FILE_KIND_AUDIO,
            FfiFileKindEnum::Other => FFI_FILE_KIND_OTHER,
            FfiFileKindEnum::AnimatedImage => FFI_FILE_KIND_ANIMATED_IMAGE,
        }
    }

    /// The wire code.
    pub fn code(self) -> (res: i32)
        ensures
            res == self.spec_code(),
    {
        match self {
            FfiFileKindEnum::Image => FFI_FILE_KIND_IMAGE,
            FfiFileKindEnum::Gif => FFI_FILE_KIND_GIF,
            FfiFileKindEnum::Video => FFI_FILE_KIND_VIDEO,
            FfiFileKindEnum::Audio => FFI_FILE_KIND_AUDIO,
            FfiFileKindEnum::Other => FFI_FILE_KIND_OTHER,
            FfiFileKindEnum::AnimatedImage => FFI_FILE_KIND_ANIMATED_IMAGE,
        }
    }
}

impl FfiStageEnum {
    pub open spec fn spec_code(self) -> i32 {
        match self {
            FfiStageEnum::PreScan => FFI_STAGE_PRE_SCAN,
            FfiStageEnum::ImageProbe => FFI_STAGE_IMAGE_PROBE,
            FfiStageEnum::GifProbe => FFI_STAGE_GIF_PROBE,
            FfiStageEnum::VideoProbe => FFI_STAGE_VIDEO_PROBE,
            FfiStageEnum::AudioProbe => FFI_STAGE_AUDIO_PROBE,
            FfiStageEnum::OtherProbe => FFI_STAGE_OTHER_PROBE,
            FfiStageEnum::Detect => FFI_STAGE_DETECT,
            FfiStageEnum::Rebuild => FFI_STAGE_REBUILD,
            FfiStageEnum::SignatureScan => FFI_STAGE_SIGNATURE_SCAN,
            FfiStageEnum::OutputValidation => FFI_STAGE_OUTPUT_VALIDATION,
        }
    }

    /// The wire code.
    pub fn code(self) -> (res: i32)
        ensures
            res == self.spec_code(),
    {
        match self {
            FfiStageEnum::PreScan => FFI_STAGE_PRE_SCAN,
            FfiStageEnum::ImageProbe => FFI_STAGE_IMAGE_PROBE,
            FfiStageEnum::GifProbe => FFI_STAGE_GIF_PROBE,
            FfiStageEnum::VideoProbe => FFI_STAGE_VIDEO_PROBE,
            FfiStageEnum::AudioProbe => FFI_STAGE_AUDIO_PROBE,
            FfiStageEnum::OtherProbe => FFI_STAGE_OTHER_PROBE,
            FfiStageEnum::Detect => FFI_STAGE_DETECT,
            FfiStageEnum::Rebuild => FFI_STAGE_REBUILD,
            FfiStageEnum::SignatureScan => FFI_STAGE_SIGNATURE_SCAN,
            FfiStageEnum::OutputValidation => FFI_STAGE_OUTPUT_VALIDATION,
        }
    }
}

impl FfiStageStatusEnum {
    pub open spec fn spec_code(self) -> i32 {
        match self {
            FfiStageStatusEnum::Success => FFI_STAGE_STATUS_SUCCESS,
            FfiStageStatusEnum::Warning => FFI_STAGE_STATUS_WARNING,
            FfiStageStatusEnum::Blocked => FFI_STAGE_STATUS_BLOCKED,
        }
    }

    /// The wire code.
    pub fn code(self) -> (res: i32)
        ensures
            res == self.spec_code(),
    {
        match self {
            FfiStageStatusEnum::Success => FFI_STAGE_STATUS_SUCCESS,
            FfiStageStatusEnum::Warning => FFI_STAGE_STATUS_WARNING,
            FfiStageStatusEnum::Blocked => FFI_STAGE_STATUS_BLOCKED,
        }
    }
}

/// An alert on the wire: only blocking alerts are marked.
#[derive(Debug, Clone, PartialEq)]
pub struct FfiAlertProto {
    pub code: String,
    pub message: String,
    pub blocking: bool,
}

/// A stage report on the wire, with integer codes.
#[derive(Debug, Clone, PartialEq)]
pub struct FfiPipelineStageProto {
    pub stage: i32,
    pub status: i32,
    pub detail: String,
}

/// The metadata of a result on the wire.
#[derive(Debug, Clone, PartialEq)]
pub struct FfiMetadataProto {
    pub verdict: i32,
    pub file_kind: i32,
    pub mime: String,
    pub original_size: u64,
    pub output_size: u64,
    pub sha256: String,
    pub alerts: Vec<FfiAlertProto>,
    pub stages: Vec<FfiPipelineStageProto>,
}

/// An error on the wire.
#[derive(Debug, Clone, PartialEq)]
pub struct FfiErrorProto {
    pub message: String,
}

} // verus!

verus! {

pub type AlertView = (Seq<char>, Seq<char>, bool);

pub type StageView = (i32, i32, Seq<char>);

pub type MetadataView = (i32, i32, Seq<char>, u64, u64, Seq<char>, Seq<AlertView>, Seq<StageView>);

pub open spec fn alert_view(a: FfiAlertProto) -> AlertView {
    (a.code@, a.message@, a.blocking)
}

pub open spec fn stage_view(s: FfiPipelineStageProto) -> StageView {
    (s.stage, s.status, s.detail@)
}

pub open spec fn metadata_view(m: FfiMetadataProto) -> MetadataView {
    (
        m.verdict,
        m.file_kind,
        m.mime@,
        m.original_size,
        m.output_size,
        m.sha256@,
        m.alerts@.map_values(|a: FfiAlertProto| alert_view(a)),
        m.stages@.map_values(|s: FfiPipelineStageProto| stage_view(s)),
    )
}

// ── Encoding ─────────────────────────────────────────────────────────────

pub open spec fn alert_bytes(a: AlertView) -> Seq<u8> {
    enc_string(1, a.0) + enc_string(2, a.1) + enc_bool(3, a.2)
}

pub open spec fn stage_bytes(s: StageView) -> Seq<u8> {
    enc_int32(1, s.0) + enc_int32(2, s.1) + enc_string(3, s.2)
}

pub open spec fn alerts_bytes(v: Seq<AlertView>) -> Seq<u8>
    decreases v.len(),
{
    if v.len() == 0 {
        Seq::empty()
    } else {
        alerts_bytes(v.drop_last()) + enc_delimited(7, alert_bytes(v.last()))
    }
}

pub open spec fn stages_bytes(v: Seq<StageView>) -> Seq<u8>
    decreases v.len(),
{
    if v.len() == 0 {
        Seq::empty()
    } else {
        stages_bytes(v.drop_last()) + enc_delimited(8, stage_bytes(v.last()))
    }
}

/// The protobuf encoding of the metadata: fields in tag order, scalars left
/// out at their default, each alert and stage as a nested message.
pub open spec fn metadata_bytes(m: MetadataView) -> Seq<u8> {
    enc_int32(1, m.0) + enc_int32(2, m.1) + enc_string(3, m.2) + enc_u64(4, m.3) + enc_u64(5, m.4) + enc_string(
        6,
        m.5,
    ) + alerts_bytes(m.6) + stages_bytes(m.7)
}

fn encode_alert(a: &FfiAlertProto) -> (res: Vec<u8>)
    ensures
        res@ == alert_bytes(alert_view(*a)),
{
    let mut out: Vec<u8> = Vec::new();
    push_string_field(&mut out, 1, a.code.as_str());
    push_string_field(&mut out, 2, a.message.as_str());
    push_bool_field(&mut out, 3, a.blocking);
    proof {
        assert(out@ =~= alert_bytes(alert_view(*a)));
    }
    out
}

fn encode_stage(s: &FfiPipelineStageProto) -> (res: Vec<u8>)
    ensures
        res@ == stage_bytes(stage_view(*s)),
{
    let mut out: Vec<u8> = Vec::new();
    push_int32_field(&mut out, 1, s.stage);
    push_int32_field(&mut out, 2, s.status);
    push_string_field(&mut out, 3, s.detail.as_str());
    proof {
        assert(out@ =~= stage_bytes(stage_view(*s)));
    }
    out
}

impl FfiMetadataProto {
    /// The protobuf encoding of the metadata.
    pub fn encode_to_vec(&self) -> (res: Vec<u8>)
        ensures
            res@ == metadata_bytes(metadata_view(*self)),
    {
        let mut out: Vec<u8> = Vec::new();
        push_int32_field(&mut out, 1, self.verdict);
        push_int32_field(&mut out, 2, self.file_kind);
        push_string_field(&mut out, 3, self.mime.as_str());
        push_u64_field(&mut out, 4, self.original_size);
        push_u64_field(&mut out, 5, self.output_size);
        push_string_field(&mut out, 6, self.sha256.as_str());
        let ghost head = out@;
        let ghost av = self.alerts@.map_values(|a: FfiAlertProto| alert_view(a));
        let mut i: usize = 0;
        while i < self.alerts.len()
            invariant
                i <= self.alerts@.len(),
                av == self.alerts@.map_values(|a: FfiAlertProto| alert_view(a)),
                out@ == head + alerts_bytes(av.subrange(0, i as int)),
            decreases self.alerts@.len() - i,
        {
            let body = encode_alert(&self.alerts[i]);
            push_delimited_field(&mut out, 7, body.as_slice());
            proof {
                let sub = av.subrange(0, i + 1);
                assert(sub.drop_last() =~= av.subrange(0, i as int));
                assert(sub.last() == alert_view(self.alerts@[i as int]));
                assert(out@ =~= head + alerts_bytes(sub));
            }
            i = i + 1;
        }
        proof {
            assert(av.subrange(0, self.alerts@.len() as int) =~= av);
        }
        let ghost mid = out@;
        let ghost sv = self.stages@.map_values(|s: FfiPipelineStageProto| stage_view(s));
        let mut j: usize = 0;
        while j < self.stages.len()
            invariant
                j <= self.stages@.len(),
                sv == self.stages@.map_values(|s: FfiPipelineStageProto| stage_view(s)),
                out@ == mid + stages_bytes(sv.subrange(0, j as int)),
            decreases self.stages@.len() - j,
        {
            let body = encode_stage(&self.stages[j]);
            push_delimited_field(&mut out, 8, body.as_slice());
            proof {
                let sub = sv.subrange(0, j + 1);
                assert(sub.drop_last() =~= sv.subrange(0, j as int));
                assert(sub.last() == stage_view(self.stages@[j as int]));
                assert(out@ =~= mid + stages_bytes(sub));
            }
            j = j + 1;
        }
        proof {
            assert(sv.subrange(0, self.stages@.len() as int) =~= sv);
            assert(out@ =~= metadata_bytes(metadata_view(*self)));
        }
        out
    }
}

impl FfiErrorProto {
    /// The protobuf encoding of the error: its message as field 1.
    pub fn encode_to_vec(&self) -> (res: Vec<u8>)
        ensures
            res@ == enc_string(1, self.message@),
    {
        let mut out: Vec<u8> = Vec::new();
        push_string_field(&mut out, 1, self.message.as_str());
        proof {
            assert(out@ =~= enc_string(1, self.message@));
        }
        out
    }
}

} // verus!

verus! {

// ── Decoding ─────────────────────────────────────────────────────────────

pub open spec fn empty_alert() -> AlertView {
    (Seq::empty(), Seq::empty(), false)
}

pub open spec fn empty_stage() -> StageView {
    (0, 0, Seq::empty())
}

pub open spec fn empty_metadata() -> MetadataView {
    (0, 0, Seq::empty(), 0, 0, Seq::empty(), Seq::empty(), Seq::empty())
}

/// The alert message in `[pos, end)`, fields applied in order onto `acc`:
/// a later value of a field replaces an earlier one, unknown fields are
/// skipped, and a known field with the wrong wire type is an error.
pub open spec fn parse_alert(b: Seq<u8>, pos: int, end: int, acc: AlertView) -> Option<AlertView>
    decreases end - pos,
{
    if pos >= end {
        if pos == end {
            Some(acc)
        } else {
            None
        }
    } else {
        match key_at(b, pos, end) {
            None => None,
            Some((tag, wt, p)) => {
                if tag == 1 || tag == 2 {
                    if wt != 2 {
                        None
                    } else {
                        match string_at(b, p, end) {
                            Some((s, q)) => if q <= pos || q > end {
                                None
                            } else if tag == 1 {
                                parse_alert(b, q, end, (s, acc.1, acc.2))
                            } else {
                                parse_alert(b, q, end, (acc.0, s, acc.2))
                            },
                            None => None,
                        }
                    }
                } else if tag == 3 {
                    if wt != 0 {
                        None
                    } else {
                        match varint_at(b, p, end) {
                            Some((v, q)) => if q <= pos || q > end {
                                None
                            } else {
                                parse_alert(b, q, end, (acc.0, acc.1, v != 0))
                            },
                            None => None,
                        }
                    }
                } else {
                    match skip_value(b, wt, p, end) {
                        Some(q) => if q <= pos || q > end {
                            None
                        } else {
                            parse_alert(b, q, end, acc)
                        },
                        None => None,
                    }
                }
            },
        }
    }
}

/// The stage message in `[pos, end)`; an `int32` keeps the low 32 bits of
/// its varint.
pub open spec fn parse_stage(b: Seq<u8>, pos: int, end: int, acc: StageView) -> Option<StageView>
    decreases end - pos,
{
    if pos >= end {
        if pos == end {
            Some(acc)
        } else {
            None
        }
    } else {
        match key_at(b, pos, end) {
            None => None,
            Some((tag, wt, p)) => {
                if tag == 1 || tag == 2 {
                    if wt != 0 {
                        None
                    } else {
                        match varint_at(b, p, end) {
                            Some((v, q)) => if q <= pos || q > end {
                                None
                            } else if tag == 1 {
                                parse_stage(b, q, end, ((v as u64) as i32, acc.1, acc.2))
                            } else {
                                parse_stage(b, q, end, (acc.0, (v as u64) as i32, acc.2))
                            },
                            None => None,
                        }
                    }
                } else if tag == 3 {
                    if wt != 2 {
                        None
                    } else {
                        match string_at(b, p, end) {
                            Some((s, q)) => if q <= pos || q > end {
                                None
                            } else {
                                parse_stage(b, q, end, (acc.0, acc.1, s))
                            },
                            None => None,
                        }
                    }
                } else {
                    match skip_value(b, wt, p, end) {
                        Some(q) => if q <= pos || q > end {
                            None
                        } else {
                            parse_stage(b, q, end, acc)
                        },
                        None => None,
                    }
                }
            },
        }
    }
}

/// One field of the metadata message, applied onto `acc`: the new state
/// and where the field ends.
pub open spec fn metadata_field(b: Seq<u8>, tag: nat, wt: nat, p: int, end: int, acc: MetadataView) -> Option<
    (MetadataView, int),
> {
    if tag == 1 || tag == 2 || tag == 4 || tag == 5 {
        if wt != 0 {
            None
        } else {
            match varint_at(b, p, end) {
                Some((v, q)) => Some(
                    (
                        if tag == 1 {
                            ((v as u64) as i32, acc.1, acc.2, acc.3, acc.4, acc.5, acc.6, acc.7)
                        } else if tag == 2 {
                            (acc.0, (v as u64) as i32, acc.2, acc.3, acc.4, acc.5, acc.6, acc.7)
                        } else if tag == 4 {
                            (acc.0, acc.1, acc.2, v as u64, acc.4, acc.5, acc.6, acc.7)
                        } else {
                            (acc.0, acc.1, acc.2, acc.3, v as u64, acc.5, acc.6, acc.7)
                        },
                        q,
                    ),
                ),
                None => None,
            }
        }
    } else if tag == 3 || tag == 6 {
        if wt != 2 {
            None
        } else {
            match string_at(b, p, end) {
                Some((s, q)) => Some(
                    (
                        if tag == 3 {
                            (acc.0, acc.1, s, acc.3, acc.4, acc.5, acc.6, acc.7)
                        } else {
                            (acc.0, acc.1, acc.2, acc.3, acc.4, s, acc.6, acc.7)
                        },
                        q,
                    ),
                ),
                None => None,
            }
        }
    } else if tag == 7 || tag == 8 {
        if wt != 2 {
            None
        } else {
            match delimited_at(b, p, end) {
                Some((s, e)) => if tag == 7 {
                    match parse_alert(b, s, e, empty_alert()) {
                        Some(a) => Some(((acc.0, acc.1, acc.2, acc.3, acc.4, acc.5, acc.6.push(a), acc.7), e)),
                        None => None,
                    }
                } else {
                    match parse_stage(b, s, e, empty_stage()) {
                        Some(st) => Some(((acc.0, acc.1, acc.2, acc.3, acc.4, acc.5, acc.6, acc.7.push(st)), e)),
                        None => None,
                    }
                },
                None => None,
            }
        }
    } else {
        match skip_value(b, wt, p, end) {
            Some(q) => Some((acc, q)),
            None => None,
        }
    }
}

/// The metadata message in `[pos, end)`.
pub open spec fn parse_metadata(b: Seq<u8>, pos: int, end: int, acc: MetadataView) -> Option<MetadataView>
    decreases end - pos,
{
    if pos >= end {
        if pos == end {
            Some(acc)
        } else {
            None
        }
    } else {
        match key_at(b, pos, end) {
            None => None,
            Some((tag, wt, p)) => match metadata_field(b, tag, wt, p, end, acc) {
                Some((next, q)) => if q <= pos || q > end {
                    None
                } else {
                    parse_metadata(b, q, end, next)
                },
                None => None,
            },
        }
    }
}

/// The bytes are not a metadata message.
#[derive(Debug, Clone, Copy, PartialEq, Eq, Structural)]
pub struct FfiDecodeError;

proof fn lemma_key_within(b: Seq<u8>, pos: int, end: int)
    ensures
        key_at(b, pos, end) matches Some((_, _, n)) ==> pos < n <= end,
{
    crate::protobuf::lemma_varint_within(b, pos, end);
}

fn decode_alert(b: &[u8], start: usize, end: usize) -> (res: Option<FfiAlertProto>)
    requires
        start <= end <= b@.len(),
    ensures
        match res {
            Some(a) => parse_alert(b@, start as int, end as int, empty_alert()) == Some(alert_view(a)),
            None => parse_alert(b@, start as int, end as int, empty_alert()) is None,
        },
{
    let mut pos = start;
    let mut code = String::new();
    let mut message = String::new();
    let mut blocking = false;
    while pos < end
        invariant
            start <= pos <= end <= b@.len(),
            parse_alert(b@, start as int, end as int, empty_alert()) == parse_alert(
                b@,
                pos as int,
                end as int,
                (code@, message@, blocking),
            ),
        decreases end - pos,
    {
        proof {
            lemma_key_within(b@, pos as int, end as int);
        }
        let (tag, wt, p) = match read_key(b, pos, end) {
            Some(k) => k,
            None => {
                return None;
            },
        };
        if tag == 1 || tag == 2 {
            if wt != 2 {
                return None;
            }
            let (s, q) = match read_string(b, p, end) {
                Some(r) => r,
                None => {
                    return None;
                },
            };
            if q <= pos {
                return None;
            }
            if tag == 1 {
                code = s;
            } else {
                message = s;
            }
            pos = q;
        } else if tag == 3 {
            if wt != 0 {
                return None;
            }
            let (v, q) = match read_varint(b, p, end) {
                Some(r) => r,
                None => {
                    return None;
                },
            };
            proof {
                crate::protobuf::lemma_varint_within(b@, p as int, end as int);
            }
            if q <= pos {
                return None;
            }
            blocking = v != 0;
            pos = q;
        } else {
            let q = match skip_field_value(b, wt, p, end) {
                Some(q) => q,
                None => {
                    return None;
                },
            };
            proof {
                crate::protobuf::lemma_skip_within(b@, wt as nat, p as int, end as int);
            }
            if q <= pos {
                return None;
            }
            pos = q;
        }
    }
    Some(FfiAlertProto { code, message, blocking })
}

fn decode_stage(b: &[u8], start: usize, end: usize) -> (res: Option<FfiPipelineStageProto>)
    requires
        start <= end <= b@.len(),
    ensures
        match res {
            Some(s) => parse_stage(b@, start as int, end as int, empty_stage()) == Some(stage_view(s)),
            None => parse_stage(b@, start as int, end as int, empty_stage()) is None,
        },
{
    let mut pos = start;
    let mut stage: i32 = 0;
    let mut status: i32 = 0;
    let mut detail = String::new();
    while pos < end
        invariant
            start <= pos <= end <= b@.len(),
            parse_stage(b@, start as int, end as int, empty_stage()) == parse_stage(
                b@,
                pos as int,
                end as int,
                (stage, status, detail@),
            ),
        decreases end - pos,
    {
        proof {
            lemma_key_within(b@, pos as int, end as int);
        }
        let (tag, wt, p) = match read_key(b, pos, end) {
            Some(k) => k,
            None => {
                return None;
            },
        };
        if tag == 1 || tag == 2 {
            if wt != 0 {
                return None;
            }
            let (v, q) = match read_varint(b, p, end) {
                Some(r) => r,
                None => {
                    return None;
                },
            };
            proof {
                crate::protobuf::lemma_varint_within(b@, p as int, end as int);
            }
            if q <= pos {
                return None;
            }
            if tag == 1 {
                stage = v as i32;
            } else {
                status = v as i32;
            }
            pos = q;
        } else if tag == 3 {
            if wt != 2 {
                return None;
            }
            let (s, q) = match read_string(b, p, end) {
                Some(r) => r,
                None => {
                    return None;
                },
            };
            if q <= pos {
                return None;
            }
            detail = s;
            pos = q;
        } else {
            let q = match skip_field_value(b, wt, p, end) {
                Some(q) => q,
                None => {
                    return None;
                },
            };
            proof {
                crate::protobuf::lemma_skip_within(b@, wt as nat, p as int, end as int);
            }
            if q <= pos {
                return None;
            }
            pos = q;
        }
    }
    Some(FfiPipelineStageProto { stage, status, detail })
}

} // verus!

verus! {

impl FfiMetadataProto {
    /// Decode a metadata message. Fields may come in any order and repeat (a
    /// later scalar replaces an earlier one, nested messages accumulate);
    /// unknown fields are skipped; `int32` and enumeration fields take the
    /// low 32 bits of their varint, so payloads written with plain integer
    /// fields decode the same.
    pub fn decode(bytes: &[u8]) -> (res: Result<FfiMetadataProto, FfiDecodeError>)
        ensures
            match res {
                Ok(m) => parse_metadata(bytes@, 0, bytes@.len() as int, empty_metadata()) == Some(metadata_view(m)),
                Err(_) => parse_metadata(bytes@, 0, bytes@.len() as int, empty_metadata()) is None,
            },
    {
        let end = bytes.len();
        let mut pos: usize = 0;
        let mut m = FfiMetadataProto {
            verdict: 0,
            file_kind: 0,
            mime: String::new(),
            original_size: 0,
            output_size: 0,
            sha256: String::new(),
            alerts: Vec::new(),
            stages: Vec::new(),
        };
        proof {
            assert(metadata_view(m) =~= empty_metadata());
        }
        while pos < end
            invariant
                pos <= end == bytes@.len(),
                parse_metadata(bytes@, 0, end as int, empty_metadata()) == parse_metadata(
                    bytes@,
                    pos as int,
                    end as int,
                    metadata_view(m),
                ),
            decreases end - pos,
        {
            proof {
                lemma_key_within(bytes@, pos as int, end as int);
            }
            let (tag, wt, p) = match read_key(bytes, pos, end) {
                Some(k) => k,
                None => {
                    return Err(FfiDecodeError);
                },
            };
            let ghost before = metadata_view(m);
            let q = match Self::apply_field(&mut m, bytes, tag, wt, p, end) {
                Some(q) => q,
                None => {
                    return Err(FfiDecodeError);
                },
            };
            if q <= pos {
                return Err(FfiDecodeError);
            }
            proof {
                let f = metadata_field(bytes@, tag as nat, wt as nat, p as int, end as int, before);
                assert(f is Some);
                assert(f->Some_0.1 == q as int);
                assert(q <= end);
                assert(parse_metadata(bytes@, pos as int, end as int, before) == parse_metadata(
                    bytes@,
                    q as int,
                    end as int,
                    metadata_view(m),
                ));
            }
            pos = q;
        }
        Ok(m)
    }

    /// Apply one field onto `m`; where the field ends.
    fn apply_field(m: &mut FfiMetadataProto, b: &[u8], tag: u64, wt: u64, p: usize, end: usize) -> (res: Option<usize>)
        requires
            p <= end <= b@.len(),
        ensures
            match metadata_field(b@, tag as nat, wt as nat, p as int, end as int, metadata_view(*old(m))) {
                Some((next, q)) => res matches Some(r) && r as int == q && q <= end && metadata_view(*final(m)) == next,
                None => res is None,
            },
    {
        let ghost acc = metadata_view(*m);
        if tag == 1 || tag == 2 || tag == 4 || tag == 5 {
            if wt != 0 {
                return None;
            }
            let (v, q) = match read_varint(b, p, end) {
                Some(r) => r,
                None => {
                    return None;
                },
            };
            proof {
                crate::protobuf::lemma_varint_within(b@, p as int, end as int);
            }
            if tag == 1 {
                m.verdict = v as i32;
            } else if tag == 2 {
                m.file_kind = v as i32;
            } else if tag == 4 {
                m.original_size = v;
            } else {
                m.output_size = v;
            }
            proof {
                assert(metadata_view(*m) =~= metadata_field(b@, tag as nat, wt as nat, p as int, end as int, acc)->Some_0.0);
            }
            Some(q)
        } else if tag == 3 || tag == 6 {
            if wt != 2 {
                return None;
            }
            let (s, q) = match read_string(b, p, end) {
                Some(r) => r,
                None => {
                    return None;
                },
            };
            if tag == 3 {
                m.mime = s;
            } else {
                m.sha256 = s;
            }
            proof {
                assert(metadata_view(*m) =~= metadata_field(b@, tag as nat, wt as nat, p as int, end as int, acc)->Some_0.0);
            }
            Some(q)
        } else if tag == 7 || tag == 8 {
            if wt != 2 {
                return None;
            }
            let (s, e) = match crate::protobuf::read_delimited(b, p, end) {
                Some(r) => r,
                None => {
                    return None;
                },
            };
            if tag == 7 {
                let a = match decode_alert(b, s, e) {
                    Some(a) => a,
                    None => {
                        return None;
                    },
                };
                m.alerts.push(a);
            } else {
                let st = match decode_stage(b, s, e) {
                    Some(st) => st,
                    None => {
                        return None;
                    },
                };
                m.stages.push(st);
            }
            proof {
                assert(metadata_view(*m) =~= metadata_field(b@, tag as nat, wt as nat, p as int, end as int, acc)->Some_0.0);
            }
            Some(e)
        } else {
            let q = match skip_field_value(b, wt, p, end) {
                Some(q) => q,
                None => {
                    return None;
                },
            };
            proof {
                crate::protobuf::lemma_skip_within(b@, wt as nat, p as int, end as int);
            }
            Some(q)
        }
    }
}

} // verus!

verus! {

// ── Results on the wire ──────────────────────────────────────────────────

/// The wire alert of an alert: only `Blocking` is marked blocking.
pub open spec fn wire_alert(a: crate::types::DefenseAlert) -> AlertView {
    (a.code@, a.message@, a.severity == AlertSeverity::Blocking)
}

pub open spec fn wire_stage(r: crate::types::PipelineStageReport) -> StageView {
    (stage_code_of(r.stage), stage_status_code_of(r.status), r.detail@)
}

/// The metadata of a result as the wire carries it; the diagnostics are not
/// part of it.
pub open spec fn wire_metadata(r: DefendResult) -> MetadataView {
    (
        verdict_code_of(r.verdict),
        file_kind_code_of(r.artifact.file_kind),
        r.artifact.mime@,
        r.artifact.original_size,
        r.artifact.output_size,
        r.artifact.sha256@,
        r.alerts@.map_values(|a: crate::types::DefenseAlert| wire_alert(a)),
        r.stages@.map_values(|s: crate::types::PipelineStageReport| wire_stage(s)),
    )
}

/// The metadata message of a result.
pub fn metadata_proto(result: &DefendResult) -> (res: FfiMetadataProto)
    ensures
        metadata_view(res) == wire_metadata(*result),
{
    let mut alerts: Vec<FfiAlertProto> = Vec::new();
    let mut i: usize = 0;
    while i < result.alerts.len()
        invariant
            i <= result.alerts@.len(),
            alerts@.len() == i,
            forall|j: int| 0 <= j < i ==> alert_view(#[trigger] alerts@[j]) == wire_alert(result.alerts@[j]),
        decreases result.alerts@.len() - i,
    {
        let a = &result.alerts[i];
        alerts.push(
            FfiAlertProto { code: a.code.clone(), message: a.message.clone(), blocking: a.is_blocking() },
        );
        i = i + 1;
    }
    let mut stages: Vec<FfiPipelineStageProto> = Vec::new();
    let mut k: usize = 0;
    while k < result.stages.len()
        invariant
            k <= result.stages@.len(),
            stages@.len() == k,
            forall|j: int| 0 <= j < k ==> stage_view(#[trigger] stages@[j]) == wire_stage(result.stages@[j]),
        decreases result.stages@.len() - k,
    {
        let r = &result.stages[k];
        stages.push(
            FfiPipelineStageProto {
                stage: stage_code(r.stage),
                status: stage_status_code(r.status),
                detail: r.detail.clone(),
            },
        );
        k = k + 1;
    }
    let res = FfiMetadataProto {
        verdict: verdict_code(result.verdict),
        file_kind: file_kind_code(result.artifact.file_kind),
        mime: result.artifact.mime.clone(),
        original_size: result.artifact.original_size,
        output_size: result.artifact.output_size,
        sha256: result.artifact.sha256.clone(),
        alerts,
        stages,
    };
    proof {
        assert(metadata_view(res) =~= wire_metadata(*result));
    }
    res
}

/// What crosses the C boundary for a finished run: the verdict code, the
/// encoded metadata, and the candidate's bytes, which are handed out only
/// for a `Clean` verdict, whatever the result held.
pub fn success_payload(result: DefendResult) -> (res: (i32, Vec<u8>, Vec<u8>))
    ensures
        res.0 == verdict_code_of(result.verdict),
        res.1@ == metadata_bytes(wire_metadata(result)),
        res.2@ == if result.verdict == DefenseVerdict::Clean {
            result.artifact.output_bytes@
        } else {
            Seq::empty()
        },
{
    let meta = metadata_proto(&result);
    let encoded = meta.encode_to_vec();
    let verdict = verdict_code(result.verdict);
    let output = if result.verdict == DefenseVerdict::Clean {
        result.artifact.output_bytes
    } else {
        Vec::new()
    };
    (verdict, encoded, output)
}

/// The encoded error message for a failed run.
pub fn error_payload(message: String) -> (res: Vec<u8>)
    ensures
        res@ == enc_string(1, message@),
{
    FfiErrorProto { message }.encode_to_vec()
}

} // verus!

verus! {

// ── What is written reads back ───────────────────────────────────────────

/// `x` then `y` stand in `[s, e)`.
proof fn lemma_split(b: Seq<u8>, s: int, e: int, x: Seq<u8>, y: Seq<u8>)
    requires
        0 <= s <= e <= b.len(),
        b.subrange(s, e) == x + y,
    ensures
        e == s + x.len() + y.len(),
        b.subrange(s, s + x.len()) == x,
        b.subrange(s + x.len(), e) == y,
{
    assert(b.subrange(s, s + x.len()) =~= (x + y).subrange(0, x.len() as int));
    assert((x + y).subrange(0, x.len() as int) =~= x);
    assert(b.subrange(s + x.len(), e) =~= (x + y).subrange(x.len() as int, (x + y).len() as int));
    assert((x + y).subrange(x.len() as int, (x + y).len() as int) =~= y);
}

/// A varint field (key with wire type 0, then the value) at `pos`.
proof fn lemma_varint_field(b: Seq<u8>, pos: int, end: int, tag: nat, v: nat)
    requires
        1 <= tag <= 15,
        v < 0x1_0000_0000_0000_0000,
        pos >= 0,
        pos + (key_bytes(tag, 0) + varint(v)).len() <= end <= b.len(),
        b.subrange(pos, pos + (key_bytes(tag, 0) + varint(v)).len()) == key_bytes(tag, 0) + varint(v),
    ensures
        key_bytes(tag, 0).len() == 1,
        key_at(b, pos, end) == Some((tag, 0nat, pos + 1)),
        varint_at(b, pos + 1, end) == Some((v, pos + 1 + varint(v).len())),
{
    let f = key_bytes(tag, 0) + varint(v);
    lemma_split(b, pos, pos + f.len(), key_bytes(tag, 0), varint(v));
    lemma_varint_len(tag * 8);
    assert(key_bytes(tag, 0).len() == 1) by {
        assert(tag * 8 + 0 < 128);
    }
    lemma_key_read(b, pos, end, tag, 0);
    lemma_varint_read(b, pos + 1, end, v);
}

/// A length-delimited field (key with wire type 2, length, body) at `pos`.
proof fn lemma_delimited_field(b: Seq<u8>, pos: int, end: int, tag: nat, body: Seq<u8>)
    requires
        1 <= tag <= 15,
        end < 0x1_0000_0000_0000_0000,
        pos >= 0,
        pos + enc_delimited(tag, body).len() <= end <= b.len(),
        b.subrange(pos, pos + enc_delimited(tag, body).len()) == enc_delimited(tag, body),
    ensures
        key_bytes(tag, 2).len() == 1,
        key_at(b, pos, end) == Some((tag, 2nat, pos + 1)),
        delimited_at(b, pos + 1, end) == Some(
            (pos + enc_delimited(tag, body).len() - body.len(), pos + enc_delimited(tag, body).len()),
        ),
        b.subrange(pos + enc_delimited(tag, body).len() - body.len(), pos + enc_delimited(tag, body).len()) == body,
{
    let key = key_bytes(tag, 2);
    let rest = varint(body.len()) + body;
    assert(enc_delimited(tag, body) =~= key + rest);
    lemma_split(b, pos, pos + enc_delimited(tag, body).len(), key, rest);
    assert(key.len() == 1) by {
        lemma_varint_len(tag * 8 + 2);
    }
    lemma_key_read(b, pos, end, tag, 2);
    lemma_delimited_read(b, pos + 1, end, body);
}

/// A non-empty string field at `pos`.
proof fn lemma_string_field(b: Seq<u8>, pos: int, end: int, tag: nat, s: Seq<char>)
    requires
        1 <= tag <= 15,
        s.len() > 0,
        end < 0x1_0000_0000_0000_0000,
        pos >= 0,
        pos + enc_string(tag, s).len() <= end <= b.len(),
        b.subrange(pos, pos + enc_string(tag, s).len()) == enc_string(tag, s),
    ensures
        key_at(b, pos, end) == Some((tag, 2nat, pos + 1)),
        string_at(b, pos + 1, end) == Some((s, pos + enc_string(tag, s).len())),
{
    let bytes = vstd::utf8::encode_utf8(s);
    lemma_delimited_field(b, pos, end, tag, bytes);
    let key = key_bytes(tag, 2);
    let rest = varint(bytes.len()) + bytes;
    assert(enc_string(tag, s) =~= key + rest);
    lemma_split(b, pos, pos + enc_string(tag, s).len(), key, rest);
    lemma_string_read(b, pos + 1, end, s);
}

/// A string field: nothing when empty.
proof fn lemma_empty_string(tag: nat, s: Seq<char>)
    ensures
        s.len() == 0 ==> enc_string(tag, s).len() == 0 && s == Seq::<char>::empty(),
{
    if s.len() == 0 {
        assert(s =~= Seq::<char>::empty());
    }
}

/// An alert written in `[s, e)` reads back.
proof fn lemma_alert_read(b: Seq<u8>, s: int, e: int, a: AlertView)
    requires
        0 <= s <= e <= b.len(),
        e < 0x1_0000_0000_0000_0000,
        b.subrange(s, e) == alert_bytes(a),
    ensures
        parse_alert(b, s, e, empty_alert()) == Some(a),
{
    let x = enc_string(1, a.0);
    let y = enc_string(2, a.1);
    let z = enc_bool(3, a.2);
    assert(alert_bytes(a) == (x + y) + z);
    lemma_split(b, s, e, x + y, z);
    lemma_split(b, s, s + (x + y).len(), x, y);
    let p2 = s + x.len();
    let p3 = p2 + y.len();
    lemma_empty_string(1, a.0);
    lemma_empty_string(2, a.1);
    // the bool field
    let acc3 = (a.0, a.1, false);
    if a.2 {
        assert(z == key_bytes(3, 0) + varint(1));
        lemma_varint_field(b, p3, e, 3, 1);
        lemma_varint_len(1);
        assert(parse_alert(b, p3, e, acc3) == parse_alert(b, e, e, a));
    } else {
        assert(p3 == e);
    }
    assert(parse_alert(b, p3, e, acc3) == Some(a));
    // the message field
    let acc2 = (a.0, Seq::<char>::empty(), false);
    if a.1.len() > 0 {
        lemma_string_field(b, p2, e, 2, a.1);
        assert(parse_alert(b, p2, e, acc2) == parse_alert(b, p3, e, acc3));
    } else {
        assert(acc2 == acc3);
    }
    // the code field
    if a.0.len() > 0 {
        lemma_string_field(b, s, e, 1, a.0);
        assert(parse_alert(b, s, e, empty_alert()) == parse_alert(b, p2, e, acc2));
    } else {
        assert(empty_alert() == acc2);
    }
}

/// A stage written in `[s, e)` reads back.
proof fn lemma_stage_read(b: Seq<u8>, s: int, e: int, st: StageView)
    requires
        0 <= s <= e <= b.len(),
        e < 0x1_0000_0000_0000_0000,
        b.subrange(s, e) == stage_bytes(st),
    ensures
        parse_stage(b, s, e, empty_stage()) == Some(st),
{
    let x = enc_int32(1, st.0);
    let y = enc_int32(2, st.1);
    let z = enc_string(3, st.2);
    assert(stage_bytes(st) == (x + y) + z);
    lemma_split(b, s, e, x + y, z);
    lemma_split(b, s, s + (x + y).len(), x, y);
    let p2 = s + x.len();
    let p3 = p2 + y.len();
    lemma_empty_string(3, st.2);
    lemma_int32_wire(st.0);
    lemma_int32_wire(st.1);
    // the detail field
    let acc3 = (st.0, st.1, Seq::<char>::empty());
    if st.2.len() > 0 {
        lemma_string_field(b, p3, e, 3, st.2);
        assert(parse_stage(b, p3, e, acc3) == parse_stage(b, e, e, st));
    } else {
        assert(p3 == e);
        assert(acc3 == st);
    }
    // the status field
    let acc2 = (st.0, 0i32, Seq::<char>::empty());
    if st.1 != 0 {
        lemma_varint_field(b, p2, e, 2, int32_wire(st.1));
        assert(parse_stage(b, p2, e, acc2) == parse_stage(b, p3, e, acc3));
    } else {
        assert(acc2 == acc3);
    }
    // the stage field
    if st.0 != 0 {
        lemma_varint_field(b, s, e, 1, int32_wire(st.0));
        assert(parse_stage(b, s, e, empty_stage()) == parse_stage(b, p2, e, acc2));
    } else {
        assert(empty_stage() == acc2);
    }
}

/// One field read at `pos` moves the parse of the metadata on to `q`.
proof fn lemma_meta_step(
    b: Seq<u8>,
    pos: int,
    end: int,
    acc: MetadataView,
    tag: nat,
    wt: nat,
    p: int,
    next: MetadataView,
    q: int,
)
    requires
        pos < q <= end,
        key_at(b, pos, end) == Some((tag, wt, p)),
        metadata_field(b, tag, wt, p, end, acc) == Some((next, q)),
    ensures
        parse_metadata(b, pos, end, acc) == parse_metadata(b, q, end, next),
{
}

/// Alerts written from `pos` are appended to the alerts read so far.
proof fn lemma_alerts_read(b: Seq<u8>, pos: int, end: int, v: Seq<AlertView>, acc: MetadataView)
    requires
        0 <= pos,
        pos + alerts_bytes(v).len() <= end <= b.len(),
        end < 0x1_0000_0000_0000_0000,
        b.subrange(pos, pos + alerts_bytes(v).len()) == alerts_bytes(v),
    ensures
        parse_metadata(b, pos, end, acc) == parse_metadata(
            b,
            pos + alerts_bytes(v).len(),
            end,
            (acc.0, acc.1, acc.2, acc.3, acc.4, acc.5, acc.6 + v, acc.7),
        ),
    decreases v.len(),
{
    if v.len() == 0 {
        assert(acc.6 + v =~= acc.6);
    } else {
        let head = alerts_bytes(v.drop_last());
        let body = alert_bytes(v.last());
        let field = enc_delimited(7, body);
        lemma_split(b, pos, pos + alerts_bytes(v).len(), head, field);
        lemma_alerts_read(b, pos, end, v.drop_last(), acc);
        let p = pos + head.len();
        let mid = (acc.0, acc.1, acc.2, acc.3, acc.4, acc.5, acc.6 + v.drop_last(), acc.7);
        lemma_delimited_field(b, p, end, 7, body);
        let q = p + field.len();
        let s = q - body.len();
        lemma_alert_read(b, s, q, v.last());
        assert(parse_alert(b, s, q, empty_alert()) == Some(v.last()));
        let next = (acc.0, acc.1, acc.2, acc.3, acc.4, acc.5, (acc.6 + v.drop_last()).push(v.last()), acc.7);
        lemma_varint_len(body.len());
        assert(metadata_field(b, 7, 2, p + 1, end, mid) == Some((next, q)));
        lemma_meta_step(b, p, end, mid, 7, 2, p + 1, next, q);
        assert((acc.6 + v.drop_last()).push(v.last()) =~= acc.6 + v);
    }
}

/// Stages written from `pos` are appended to the stages read so far.
proof fn lemma_stages_read(b: Seq<u8>, pos: int, end: int, v: Seq<StageView>, acc: MetadataView)
    requires
        0 <= pos,
        pos + stages_bytes(v).len() <= end <= b.len(),
        end < 0x1_0000_0000_0000_0000,
        b.subrange(pos, pos + stages_bytes(v).len()) == stages_bytes(v),
    ensures
        parse_metadata(b, pos, end, acc) == parse_metadata(
            b,
            pos + stages_bytes(v).len(),
            end,
            (acc.0, acc.1, acc.2, acc.3, acc.4, acc.5, acc.6, acc.7 + v),
        ),
    decreases v.len(),
{
    if v.len() == 0 {
        assert(acc.7 + v =~= acc.7);
    } else {
        let head = stages_bytes(v.drop_last());
        let body = stage_bytes(v.last());
        let field = enc_delimited(8, body);
        lemma_split(b, pos, pos + stages_bytes(v).len(), head, field);
        lemma_stages_read(b, pos, end, v.drop_last(), acc);
        let p = pos + head.len();
        let mid = (acc.0, acc.1, acc.2, acc.3, acc.4, acc.5, acc.6, acc.7 + v.drop_last());
        lemma_delimited_field(b, p, end, 8, body);
        let q = p + field.len();
        let s = q - body.len();
        lemma_stage_read(b, s, q, v.last());
        let next = (acc.0, acc.1, acc.2, acc.3, acc.4, acc.5, acc.6, (acc.7 + v.drop_last()).push(v.last()));
        lemma_varint_len(body.len());
        assert(metadata_field(b, 8, 2, p + 1, end, mid) == Some((next, q)));
        lemma_meta_step(b, p, end, mid, 8, 2, p + 1, next, q);
        assert((acc.7 + v.drop_last()).push(v.last()) =~= acc.7 + v);
    }
}

/// The six scalar fields of the metadata.
pub open spec fn scalar_bytes(m: MetadataView) -> Seq<u8> {
    enc_int32(1, m.0) + enc_int32(2, m.1) + enc_string(3, m.2) + enc_u64(4, m.3) + enc_u64(5, m.4) + enc_string(6, m.5)
}

/// An `int32` field of the metadata read at `pos`.
proof fn lemma_meta_int32(b: Seq<u8>, pos: int, end: int, tag: nat, x: i32, acc: MetadataView, next: MetadataView)
    requires
        tag == 1 || tag == 2,
        0 <= pos,
        pos + enc_int32(tag, x).len() <= end <= b.len(),
        end < 0x1_0000_0000_0000_0000,
        b.subrange(pos, pos + enc_int32(tag, x).len()) == enc_int32(tag, x),
        next == if tag == 1 {
            (x, acc.1, acc.2, acc.3, acc.4, acc.5, acc.6, acc.7)
        } else {
            (acc.0, x, acc.2, acc.3, acc.4, acc.5, acc.6, acc.7)
        },
        x == 0 ==> next == acc,
    ensures
        parse_metadata(b, pos, end, acc) == parse_metadata(b, pos + enc_int32(tag, x).len(), end, next),
{
    if x != 0 {
        lemma_int32_wire(x);
        lemma_varint_field(b, pos, end, tag, int32_wire(x));
        lemma_meta_step(b, pos, end, acc, tag, 0, pos + 1, next, pos + enc_int32(tag, x).len());
    }
}

/// A `uint64` field of the metadata read at `pos`.
proof fn lemma_meta_u64(b: Seq<u8>, pos: int, end: int, tag: nat, x: u64, acc: MetadataView, next: MetadataView)
    requires
        tag == 4 || tag == 5,
        0 <= pos,
        pos + enc_u64(tag, x).len() <= end <= b.len(),
        end < 0x1_0000_0000_0000_0000,
        b.subrange(pos, pos + enc_u64(tag, x).len()) == enc_u64(tag, x),
        next == if tag == 4 {
            (acc.0, acc.1, acc.2, x, acc.4, acc.5, acc.6, acc.7)
        } else {
            (acc.0, acc.1, acc.2, acc.3, x, acc.5, acc.6, acc.7)
        },
        x == 0 ==> next == acc,
    ensures
        parse_metadata(b, pos, end, acc) == parse_metadata(b, pos + enc_u64(tag, x).len(), end, next),
{
    if x != 0 {
        lemma_varint_field(b, pos, end, tag, x as nat);
        lemma_meta_step(b, pos, end, acc, tag, 0, pos + 1, next, pos + enc_u64(tag, x).len());
    }
}

/// A string field of the metadata read at `pos`.
proof fn lemma_meta_string(
    b: Seq<u8>,
    pos: int,
    end: int,
    tag: nat,
    x: Seq<char>,
    acc: MetadataView,
    next: MetadataView,
)
    requires
        tag == 3 || tag == 6,
        0 <= pos,
        pos + enc_string(tag, x).len() <= end <= b.len(),
        end < 0x1_0000_0000_0000_0000,
        b.subrange(pos, pos + enc_string(tag, x).len()) == enc_string(tag, x),
        next == if tag == 3 {
            (acc.0, acc.1, x, acc.3, acc.4, acc.5, acc.6, acc.7)
        } else {
            (acc.0, acc.1, acc.2, acc.3, acc.4, x, acc.6, acc.7)
        },
        x.len() == 0 ==> next == acc,
    ensures
        parse_metadata(b, pos, end, acc) == parse_metadata(b, pos + enc_string(tag, x).len(), end, next),
{
    lemma_empty_string(tag, x);
    if x.len() > 0 {
        lemma_string_field(b, pos, end, tag, x);
        lemma_meta_step(b, pos, end, acc, tag, 2, pos + 1, next, pos + enc_string(tag, x).len());
    }
}

/// The scalar fields written from the start read back.
proof fn lemma_scalars_read(b: Seq<u8>, end: int, m: MetadataView)
    requires
        scalar_bytes(m).len() <= end <= b.len(),
        end < 0x1_0000_0000_0000_0000,
        b.subrange(0, scalar_bytes(m).len() as int) == scalar_bytes(m),
    ensures
        parse_metadata(b, 0, end, empty_metadata()) == parse_metadata(
            b,
            scalar_bytes(m).len() as int,
            end,
            (m.0, m.1, m.2, m.3, m.4, m.5, Seq::empty(), Seq::empty()),
        ),
{
    let f1 = enc_int32(1, m.0);
    let f2 = enc_int32(2, m.1);
    let f3 = enc_string(3, m.2);
    let f4 = enc_u64(4, m.3);
    let f5 = enc_u64(5, m.4);
    let f6 = enc_string(6, m.5);
    let g2 = f1 + f2;
    let g3 = g2 + f3;
    let g4 = g3 + f4;
    let g5 = g4 + f5;
    lemma_split(b, 0, scalar_bytes(m).len() as int, g5, f6);
    lemma_split(b, 0, g5.len() as int, g4, f5);
    lemma_split(b, 0, g4.len() as int, g3, f4);
    lemma_split(b, 0, g3.len() as int, g2, f3);
    lemma_split(b, 0, g2.len() as int, f1, f2);
    lemma_empty_string(3, m.2);
    lemma_empty_string(6, m.5);
    let e: Seq<AlertView> = Seq::empty();
    let es: Seq<StageView> = Seq::empty();
    let acc1 = (m.0, 0i32, Seq::<char>::empty(), 0u64, 0u64, Seq::<char>::empty(), e, es);
    let acc2 = (m.0, m.1, Seq::<char>::empty(), 0u64, 0u64, Seq::<char>::empty(), e, es);
    let acc3 = (m.0, m.1, m.2, 0u64, 0u64, Seq::<char>::empty(), e, es);
    let acc4 = (m.0, m.1, m.2, m.3, 0u64, Seq::<char>::empty(), e, es);
    let acc5 = (m.0, m.1, m.2, m.3, m.4, Seq::<char>::empty(), e, es);
    let acc6 = (m.0, m.1, m.2, m.3, m.4, m.5, e, es);
    lemma_meta_int32(b, 0, end, 1, m.0, empty_metadata(), acc1);
    lemma_meta_int32(b, f1.len() as int, end, 2, m.1, acc1, acc2);
    lemma_meta_string(b, g2.len() as int, end, 3, m.2, acc2, acc3);
    lemma_meta_u64(b, g3.len() as int, end, 4, m.3, acc3, acc4);
    lemma_meta_u64(b, g4.len() as int, end, 5, m.4, acc4, acc5);
    lemma_meta_string(b, g5.len() as int, end, 6, m.5, acc5, acc6);
}

/// Decoding the encoding of metadata gives the same metadata back, for
/// every message whose encoding fits in memory.
pub proof fn law_metadata_reads_back(m: MetadataView)
    requires
        metadata_bytes(m).len() < 0x1_0000_0000_0000_0000,
    ensures
        parse_metadata(metadata_bytes(m), 0, metadata_bytes(m).len() as int, empty_metadata()) == Some(m),
{
    let b = metadata_bytes(m);
    let end = b.len() as int;
    let sc = scalar_bytes(m);
    let fa = alerts_bytes(m.6);
    let fs = stages_bytes(m.7);
    assert(b == (sc + fa) + fs);
    assert(b.subrange(0, end) =~= b);
    lemma_split(b, 0, end, sc + fa, fs);
    lemma_split(b, 0, (sc + fa).len() as int, sc, fa);
    lemma_scalars_read(b, end, m);
    let e: Seq<AlertView> = Seq::empty();
    let es: Seq<StageView> = Seq::empty();
    let acc6 = (m.0, m.1, m.2, m.3, m.4, m.5, e, es);
    lemma_alerts_read(b, sc.len() as int, end, m.6, acc6);
    assert(e + m.6 =~= m.6);
    let acc7 = (m.0, m.1, m.2, m.3, m.4, m.5, m.6, es);
    lemma_stages_read(b, (sc + fa).len() as int, end, m.7, acc7);
    assert(es + m.7 =~= m.7);
}

} // verus!
