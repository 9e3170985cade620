//! Container sanitizers for MP3, WAV and FLAC that strip metadata while
//! keeping the encoded audio stream bit for bit.
//!
//! - MP3: strips an ID3v2 header and ID3v1 / ID3v1.1-extended footers.
//! - WAV: RIFF chunk walker that keeps `fmt ` and `data` only.
//! - FLAC: metadata-block walker that keeps STREAMINFO only.
use vstd::prelude::*;
use vstd::slice::slice_subrange;
use vstd::string::StringSliceAdditionalSpecFns;

use crate::bytes::{
    le_u32_at, le_u32_bytes, matches_at, occurs_at, push_le_u32, push_range, read_le_u32,
};
use crate::error::DefenderError;

verus! {

/// What a native audio sanitizer produced.
pub struct NativeAudioResult {
    pub output_bytes: Vec<u8>,
    pub mime: &'static str,
    pub stripped_count: u32,
    pub stripped_bytes: u64,
}

/// A native sanitizer's outcome as (output, stripped count, stripped bytes):
/// `None` when the format is not recognised, `Some(Err)` for a malformed file.
pub open spec fn native_result_matches(
    res: Option<Result<NativeAudioResult, DefenderError>>,
    view: Option<Result<(Seq<u8>, int, int), Seq<char>>>,
    mime: Seq<char>,
) -> bool {
    match (res, view) {
        (None, None) => true,
        (Some(Err(e)), Some(Err(m))) => e matches DefenderError::Audio(t) && t@ == m,
        (Some(Ok(r)), Some(Ok((out, count, bytes)))) => {
            &&& r.output_bytes@ == out
            &&& r.mime@ == mime
            &&& r.stripped_count == count
            &&& r.stripped_bytes == bytes
        },
        _ => false,
    }
}

/// The MP3 sanitizer's outcome.
pub open spec fn mp3_view(b: Seq<u8>) -> Option<Result<(Seq<u8>, int, int), Seq<char>>> {
    match mp3_plan(b) {
        None => None,
        Some(Err(m)) => Some(Err(m)),
        Some(Ok((start, end))) => Some(Ok((b.subrange(start, end), mp3_stripped_count(b), b.len() - (end - start)))),
    }
}

/// The WAV sanitizer's outcome.
pub open spec fn wav_view(b: Seq<u8>) -> Option<Result<(Seq<u8>, int, int), Seq<char>>> {
    match wav_plan(b) {
        None => None,
        Some(Err(m)) => Some(Err(m)),
        Some(Ok(w)) => Some(Ok((wav_output(b, w.kept), w.stripped_count, w.stripped_bytes))),
    }
}

/// The FLAC sanitizer's outcome.
pub open spec fn flac_view(b: Seq<u8>) -> Option<Result<(Seq<u8>, int, int), Seq<char>>> {
    match flac_plan(b) {
        None => None,
        Some(Err(m)) => Some(Err(m)),
        Some(Ok(w)) => Some(Ok((flac_output(b, w.streaminfo->Some_0, w.audio_start), w.stripped_count, w.stripped_bytes))),
    }
}

// ── MP3 ───────────────────────────────────────────────────────────────────

/// The ID3v2 size field: four bytes of seven bits each, combined with `|`
/// as written (bytes with the high bit set overlap their neighbours).
pub open spec fn spec_synchsafe(b0: u8, b1: u8, b2: u8, b3: u8) -> u32 {
    ((b0 as u32) << 21u32) | ((b1 as u32) << 14u32) | ((b2 as u32) << 7u32) | (b3 as u32)
}

/// Where the MPEG frames start: after an ID3v2 header when there is one.
pub open spec fn mp3_start(b: Seq<u8>) -> int {
    if b.len() >= 10 && occurs_at(b, "ID3".spec_bytes(), 0) {
        10 + spec_synchsafe(b[6], b[7], b[8], b[9]) as int
    } else {
        0
    }
}

/// The end after removing an ID3v1 footer (`TAG`) when there is one.
pub open spec fn mp3_end1(b: Seq<u8>, start: int) -> int {
    let end = b.len() as int;
    if end >= start + 128 && occurs_at(b, "TAG".spec_bytes(), end - 128) { end - 128 } else { end }
}

/// The end after also removing an extended footer (`TAG+`).
pub open spec fn mp3_end2(b: Seq<u8>, start: int) -> int {
    let end = mp3_end1(b, start);
    if end >= start + 227 && occurs_at(b, "TAG+".spec_bytes(), end - 227) { end - 227 } else { end }
}

/// The input begins with an MPEG sync word.
pub open spec fn mp3_sync_first(b: Seq<u8>) -> bool {
    b.len() >= 2 && b[0] == 0xFF && b[1] >= 0xE0
}

/// The MP3 sanitizer's decision: `None` when the input does not look like an
/// MP3 (no ID3 tag and no MPEG sync word where the frames would start);
/// `Some(Err)` for a header beyond the end, or for fewer than four frame
/// bytes in an input that looks like an MP3; else the kept range.
pub open spec fn mp3_plan(b: Seq<u8>) -> Option<Result<(int, int), Seq<char>>> {
    let start = mp3_start(b);
    if start > b.len() {
        Some(Err("ID3v2 header declares size beyond file end"@))
    } else {
        let end = mp3_end2(b, start);
        if end - start < 4 {
            if start == 0 && end == b.len() && !mp3_sync_first(b) {
                None
            } else {
                Some(Err("MP3 has no audio frame data after tag stripping"@))
            }
        } else if !(b[start] == 0xFF && b[start + 1] >= 0xE0) {
            None
        } else {
            Some(Ok((start, end)))
        }
    }
}

/// Number of tag regions removed.
pub open spec fn mp3_stripped_count(b: Seq<u8>) -> int {
    let start = mp3_start(b);
    (if start > 0 { 1int } else { 0int }) + (if mp3_end1(b, start) < b.len() { 1int } else { 0int })
        + (if mp3_end2(b, start) < mp3_end1(b, start) { 1int } else { 0int })
}

/// Strip ID3 tags from an MP3. `None` when the input does not look like an
/// MP3: no MPEG sync word where the frames start, and no tag.
pub fn try_sanitize_mp3(input: &[u8]) -> (res: Option<Result<NativeAudioResult, DefenderError>>)
    ensures
        match (res, mp3_plan(input@)) {
            (None, None) => true,
            (Some(Err(e)), Some(Err(m))) => e matches DefenderError::Audio(t) && t@ == m,
            (Some(Ok(r)), Some(Ok((start, end)))) => {
                &&& r.output_bytes@ == input@.subrange(start, end)
                &&& r.mime@ == "audio/mpeg"@
                &&& r.stripped_count == mp3_stripped_count(input@)
                &&& r.stripped_bytes == input@.len() - (end - start)
            },
            _ => false,
        },
        native_result_matches(res, mp3_view(input@), "audio/mpeg"@),
{
    proof {
        broadcast use vstd::string::group_string_axioms;
        reveal_strlit("ID3");
        reveal_strlit("TAG");
        reveal_strlit("TAG+");
        assert(vstd::string::is_ascii("ID3"));
        assert(vstd::string::is_ascii("TAG"));
        assert(vstd::string::is_ascii("TAG+"));
        assert("ID3".spec_bytes().len() == 3);
        assert("TAG".spec_bytes().len() == 3);
        assert("TAG+".spec_bytes().len() == 4);
    }
    let len = input.len();
    let mut start: usize = 0;
    let mut stripped_count: u32 = 0;
    let mut stripped_bytes: u64 = 0;
    if len >= 10 && matches_at(input, "ID3".as_bytes(), 0) {
        let size: u32 = ((input[6] as u32) << 21u32) | ((input[7] as u32) << 14u32) | ((input[8] as u32) << 7u32)
            | (input[9] as u32);
        let header_size: u64 = 10 + size as u64;
        if header_size > len as u64 {
            return Some(Err(DefenderError::Audio("ID3v2 header declares size beyond file end".to_owned())));
        }
        stripped_bytes = header_size;
        stripped_count = 1;
        start = header_size as usize;
    }
    let mut end = len;
    if end - start >= 128 && matches_at(input, "TAG".as_bytes(), end - 128) {
        stripped_bytes = stripped_bytes + 128;
        stripped_count = stripped_count + 1;
        end = end - 128;
    }
    if end - start >= 227 && matches_at(input, "TAG+".as_bytes(), end - 227) {
        stripped_bytes = stripped_bytes + 227;
        stripped_count = stripped_count + 1;
        end = end - 227;
    }
    if end - start < 4 {
        if start == 0 && end == len && !(len >= 2 && input[0] == 0xFF && input[1] >= 0xE0) {
            return None;
        }
        return Some(Err(DefenderError::Audio("MP3 has no audio frame data after tag stripping".to_owned())));
    }
    if !(input[start] == 0xFF && input[start + 1] >= 0xE0) {
        return None;
    }
    let audio = slice_subrange(input, start, end);
    Some(Ok(NativeAudioResult {
        output_bytes: vstd::slice::slice_to_vec(audio),
        mime: "audio/mpeg",
        stripped_count,
        stripped_bytes,
    }))
}

/// Decode a 4-byte synchsafe integer (7 bits per byte, MSB first).
pub fn synchsafe_u32(bytes: &[u8]) -> (res: u32)
    requires
        bytes@.len() >= 4,
    ensures
        res == spec_synchsafe(bytes@[0], bytes@[1], bytes@[2], bytes@[3]),
{
    ((bytes[0] as u32) << 21u32) | ((bytes[1] as u32) << 14u32) | ((bytes[2] as u32) << 7u32) | (bytes[3] as u32)
}

// ── WAV ───────────────────────────────────────────────────────────────────

/// Upper bound on the kept WAV payload.
pub open spec fn max_wav_total() -> int {
    4294967296
}

/// State of the RIFF chunk walk: the next offset, the kept chunks as
/// (id offset, data start, data end), and the tallies.
pub struct WavWalk {
    pub offset: int,
    pub kept: Seq<(int, int, int)>,
    pub stripped_count: int,
    pub stripped_bytes: int,
    pub total_kept: int,
}

/// Walk at most `fuel` RIFF chunks. `Err` for a chunk past the end or a
/// kept payload above 4 GiB.
pub open spec fn wav_walk(b: Seq<u8>, st: WavWalk, fuel: nat) -> Result<WavWalk, Seq<char>>
    decreases fuel,
{
    if fuel == 0 || st.offset + 8 > b.len() {
        Ok(st)
    } else {
        let size = le_u32_at(b, st.offset + 4);
        let ds = st.offset + 8;
        let de = ds + size;
        if de > b.len() {
            Err("WAV chunk extends past end of file"@)
        } else {
            let keep = occurs_at(b, "fmt ".spec_bytes(), st.offset) || occurs_at(b, "data".spec_bytes(), st.offset);
            let total = if keep { st.total_kept + 8 + size } else { st.total_kept };
            if keep && total > max_wav_total() {
                Err("WAV exceeds maximum total size"@)
            } else {
                let padded_end = st.offset + 8 + size + size % 2;
                let next = WavWalk {
                    offset: if padded_end > b.len() { b.len() as int } else { padded_end },
                    kept: if keep { st.kept.push((st.offset, ds, de)) } else { st.kept },
                    stripped_count: if keep { st.stripped_count } else { st.stripped_count + 1 },
                    stripped_bytes: if keep { st.stripped_bytes } else { st.stripped_bytes + 8 + size },
                    total_kept: total,
                };
                wav_walk(b, next, (fuel - 1) as nat)
            }
        }
    }
}

pub open spec fn wav_initial() -> WavWalk {
    WavWalk { offset: 12, kept: Seq::empty(), stripped_count: 0, stripped_bytes: 0, total_kept: 0 }
}

/// The bytes of the kept chunks: id, little-endian size, data, and a zero
/// pad byte after odd-sized data.
pub open spec fn wav_body(b: Seq<u8>, kept: Seq<(int, int, int)>) -> Seq<u8>
    decreases kept.len(),
{
    if kept.len() == 0 {
        Seq::empty()
    } else {
        let c = kept.last();
        let len = c.2 - c.1;
        wav_body(b, kept.drop_last()) + b.subrange(c.0, c.0 + 4) + le_u32_bytes(len) + b.subrange(c.1, c.2)
            + if len % 2 == 1 { seq![0u8] } else { Seq::empty() }
    }
}

/// Sum of the padded sizes of the kept chunks, plus 4 for `WAVE`.
pub open spec fn wav_payload(kept: Seq<(int, int, int)>) -> int
    decreases kept.len(),
{
    if kept.len() == 0 {
        4
    } else {
        let c = kept.last();
        let len = c.2 - c.1;
        wav_payload(kept.drop_last()) + 8 + len + len % 2
    }
}

/// Some kept chunk carries the given id.
pub open spec fn wav_has(b: Seq<u8>, kept: Seq<(int, int, int)>, id: Seq<u8>) -> bool {
    exists|k: int| 0 <= k < kept.len() && occurs_at(b, id, #[trigger] kept[k].0)
}

/// The WAV sanitizer's decision.
pub open spec fn wav_plan(b: Seq<u8>) -> Option<Result<WavWalk, Seq<char>>> {
    if b.len() < 12 || !occurs_at(b, "RIFF".spec_bytes(), 0) || !occurs_at(b, "WAVE".spec_bytes(), 8) {
        None
    } else {
        match wav_walk(b, wav_initial(), 1024) {
            Err(m) => Some(Err(m)),
            Ok(w) => if wav_has(b, w.kept, "fmt ".spec_bytes()) && wav_has(b, w.kept, "data".spec_bytes()) {
                Some(Ok(w))
            } else {
                Some(Err("WAV missing required fmt or data chunk"@))
            },
        }
    }
}

/// The rebuilt WAV: `RIFF`, the payload size modulo 2^32, `WAVE`, the kept chunks.
pub open spec fn wav_output(b: Seq<u8>, kept: Seq<(int, int, int)>) -> Seq<u8> {
    "RIFF".spec_bytes() + le_u32_bytes(wav_payload(kept) % 4294967296) + "WAVE".spec_bytes() + wav_body(b, kept)
}

pub proof fn lemma_wav_walk_bounds(b: Seq<u8>, st: WavWalk, fuel: nat)
    requires
        forall|k: int| 0 <= k < st.kept.len() ==> {
            let c = #[trigger] st.kept[k];
            0 <= c.0 && c.0 + 8 == c.1 && c.1 <= c.2 <= b.len()
        },
        0 <= st.stripped_count <= 1024 - fuel,
        0 <= st.total_kept <= max_wav_total(),
        st.kept.len() <= 1024 - fuel,
    ensures
        match wav_walk(b, st, fuel) {
            Ok(w) => {
                &&& forall|k: int| 0 <= k < w.kept.len() ==> {
                    let c = #[trigger] w.kept[k];
                    0 <= c.0 && c.0 + 8 == c.1 && c.1 <= c.2 <= b.len()
                }
                &&& w.kept.len() <= 1024
            },
            Err(_) => true,
        },
    decreases fuel,
{
    if fuel > 0 && st.offset + 8 <= b.len() {
        let size = le_u32_at(b, st.offset + 4);
        let ds = st.offset + 8;
        let de = ds + size;
        if de <= b.len() {
            let keep = occurs_at(b, "fmt ".spec_bytes(), st.offset) || occurs_at(b, "data".spec_bytes(), st.offset);
            let total = if keep { st.total_kept + 8 + size } else { st.total_kept };
            if !(keep && total > max_wav_total()) {
                let padded_end = st.offset + 8 + size + size % 2;
                let next = WavWalk {
                    offset: if padded_end > b.len() { b.len() as int } else { padded_end },
                    kept: if keep { st.kept.push((st.offset, ds, de)) } else { st.kept },
                    stripped_count: if keep { st.stripped_count } else { st.stripped_count + 1 },
                    stripped_bytes: if keep { st.stripped_bytes } else { st.stripped_bytes + 8 + size },
                    total_kept: total,
                };
                assert forall|k: int| 0 <= k < next.kept.len() implies {
                    let c = #[trigger] next.kept[k];
                    0 <= c.0 && c.0 + 8 == c.1 && c.1 <= c.2 <= b.len()
                } by {
                    if keep && k == st.kept.len() {
                    } else {
                        assert(next.kept[k] == st.kept[k]);
                    }
                }
                lemma_wav_walk_bounds(b, next, (fuel - 1) as nat);
            }
        }
    }
}

/// Keep only the `fmt ` and `data` chunks of a RIFF/WAVE file. `None` when
/// the input is not RIFF/WAVE.
pub fn try_sanitize_wav(input: &[u8]) -> (res: Option<Result<NativeAudioResult, DefenderError>>)
    ensures
        match (res, wav_plan(input@)) {
            (None, None) => true,
            (Some(Err(e)), Some(Err(m))) => e matches DefenderError::Audio(t) && t@ == m,
            (Some(Ok(r)), Some(Ok(w))) => {
                &&& r.output_bytes@ == wav_output(input@, w.kept)
                &&& r.mime@ == "audio/wav"@
                &&& r.stripped_count == w.stripped_count
                &&& r.stripped_bytes == w.stripped_bytes
            },
            _ => false,
        },
        native_result_matches(res, wav_view(input@), "audio/wav"@),
{
    proof {
        broadcast use vstd::string::group_string_axioms;
        reveal_strlit("RIFF");
        reveal_strlit("WAVE");
        reveal_strlit("fmt ");
        reveal_strlit("data");
        assert(vstd::string::is_ascii("RIFF"));
        assert(vstd::string::is_ascii("WAVE"));
        assert(vstd::string::is_ascii("fmt "));
        assert(vstd::string::is_ascii("data"));
        assert("RIFF".spec_bytes().len() == 4);
        assert("WAVE".spec_bytes().len() == 4);
        assert("fmt ".spec_bytes().len() == 4);
        assert("data".spec_bytes().len() == 4);
    }
    if input.len() < 12 {
        return None;
    }
    if !matches_at(input, "RIFF".as_bytes(), 0) || !matches_at(input, "WAVE".as_bytes(), 8) {
        return None;
    }
    let len = input.len();
    let mut kept: Vec<(usize, usize, usize)> = Vec::new();
    let mut stripped_count: u32 = 0;
    let mut stripped_bytes: u64 = 0;
    let mut total_kept: u64 = 0;
    let mut offset: usize = 12;
    let mut fuel: u32 = 1024;
    let ghost plan = wav_walk(input@, wav_initial(), 1024);
    proof {
        assert(kept@.map_values(|c: (usize, usize, usize)| (c.0 as int, c.1 as int, c.2 as int)) =~= wav_initial().kept);
    }
    while fuel > 0 && offset <= len && len - offset >= 8
        invariant
            len == input@.len(),
            input@.len() >= 12 && occurs_at(input@, "RIFF".spec_bytes(), 0) && occurs_at(input@, "WAVE".spec_bytes(), 8),
            plan == wav_walk(input@, wav_initial(), 1024),
            fuel <= 1024,
            offset <= len,
            stripped_count <= 1024 - fuel,
            stripped_bytes <= (1024 - fuel) * 4294967304,
            total_kept <= max_wav_total(),
            kept@.len() <= 1024 - fuel,
            forall|k: int| 0 <= k < kept@.len() ==> {
                let c = #[trigger] kept@[k];
                c.0 + 8 == c.1 && c.1 <= c.2 <= len && c.2 - c.1 <= u32::MAX
            },
            plan == wav_walk(
                input@,
                WavWalk {
                    offset: offset as int,
                    kept: kept@.map_values(|c: (usize, usize, usize)| (c.0 as int, c.1 as int, c.2 as int)),
                    stripped_count: stripped_count as int,
                    stripped_bytes: stripped_bytes as int,
                    total_kept: total_kept as int,
                },
                fuel as nat,
            ),
        decreases fuel,
    {
        let ghost old_kept = kept@;
        let size = read_le_u32(input, offset + 4) as usize;
        let ds = offset + 8;
        if size > len - ds {
            proof {
                assert(le_u32_at(input@, offset + 4) == size);
                assert(plan is Err);
            }
            return Some(Err(DefenderError::Audio("WAV chunk extends past end of file".to_owned())));
        }
        let de = ds + size;
        let keep = matches_at(input, "fmt ".as_bytes(), offset) || matches_at(input, "data".as_bytes(), offset);
        if keep {
            if total_kept + 8 + size as u64 > 4294967296 {
                proof {
                    assert(plan is Err);
                }
                return Some(Err(DefenderError::Audio("WAV exceeds maximum total size".to_owned())));
            }
            total_kept = total_kept + 8 + size as u64;
            kept.push((offset, ds, de));
            proof {
                assert(kept@.map_values(|c: (usize, usize, usize)| (c.0 as int, c.1 as int, c.2 as int)) =~= old_kept.map_values(
                    |c: (usize, usize, usize)| (c.0 as int, c.1 as int, c.2 as int),
                ).push((offset as int, ds as int, de as int)));
            }
        } else {
            stripped_count = stripped_count + 1;
            stripped_bytes = stripped_bytes + 8 + size as u64;
        }
        let padded = if size % 2 == 0 { size } else { size + 1 };
        offset = if padded > len - ds { len } else { ds + padded };
        fuel = fuel - 1;
    }
    proof {
        lemma_wav_walk_bounds(input@, wav_initial(), 1024);
    }
    let ghost w = plan->Ok_0;
    let ghost kv = kept@.map_values(|c: (usize, usize, usize)| (c.0 as int, c.1 as int, c.2 as int));
    proof {
        assert(wav_walk(input@, WavWalk {
            offset: offset as int,
            kept: kv,
            stripped_count: stripped_count as int,
            stripped_bytes: stripped_bytes as int,
            total_kept: total_kept as int,
        }, fuel as nat) == Ok::<WavWalk, Seq<char>>(WavWalk {
            offset: offset as int,
            kept: kv,
            stripped_count: stripped_count as int,
            stripped_bytes: stripped_bytes as int,
            total_kept: total_kept as int,
        }));
        assert(w.kept == kv);
    }
    // Both required chunks must be present.
    let mut has_fmt = false;
    let mut has_data = false;
    let mut k: usize = 0;
    while k < kept.len()
        invariant
            k <= kept@.len(),
            kv == kept@.map_values(|c: (usize, usize, usize)| (c.0 as int, c.1 as int, c.2 as int)),
            forall|j: int| 0 <= j < kept@.len() ==> {
                let c = #[trigger] kept@[j];
                c.0 + 8 == c.1 && c.1 <= c.2 <= input@.len() && c.2 - c.1 <= u32::MAX
            },
            has_fmt == exists|j: int| 0 <= j < k && occurs_at(input@, "fmt ".spec_bytes(), #[trigger] kv[j].0),
            has_data == exists|j: int| 0 <= j < k && occurs_at(input@, "data".spec_bytes(), #[trigger] kv[j].0),
        decreases kept@.len() - k,
    {
        let id_at = kept[k].0;
        proof {
            assert(kv[k as int].0 == id_at as int);
        }
        let f = matches_at(input, "fmt ".as_bytes(), id_at);
        let d = matches_at(input, "data".as_bytes(), id_at);
        proof {
            if f {
                assert(occurs_at(input@, "fmt ".spec_bytes(), kv[k as int].0));
            }
            if d {
                assert(occurs_at(input@, "data".spec_bytes(), kv[k as int].0));
            }
        }
        if f {
            has_fmt = true;
        }
        if d {
            has_data = true;
        }
        k = k + 1;
    }
    if !has_fmt || !has_data {
        return Some(Err(DefenderError::Audio("WAV missing required fmt or data chunk".to_owned())));
    }
    // Payload size: "WAVE" plus each kept chunk, padded to even length.
    let mut payload: u64 = 4;
    let mut k2: usize = 0;
    while k2 < kept.len()
        invariant
            k2 <= kept@.len() <= 1024,
            kv == kept@.map_values(|c: (usize, usize, usize)| (c.0 as int, c.1 as int, c.2 as int)),
            forall|j: int| 0 <= j < kept@.len() ==> {
                let c = #[trigger] kept@[j];
                c.0 + 8 == c.1 && c.1 <= c.2 <= input@.len() && c.2 - c.1 <= u32::MAX
            },
            payload == wav_payload(kv.subrange(0, k2 as int)),
            payload <= 4 + k2 * 4294967304,
        decreases kept@.len() - k2,
    {
        let (_, ds, de) = kept[k2];
        let n = (de - ds) as u64;
        payload = payload + 8 + n + n % 2;
        proof {
            assert(kv.subrange(0, k2 + 1).drop_last() =~= kv.subrange(0, k2 as int));
        }
        k2 = k2 + 1;
    }
    let mut output: Vec<u8> = Vec::new();
    push_range(&mut output, input, 0, 4);
    push_le_u32(&mut output, (payload % 4294967296) as u32);
    push_range(&mut output, input, 8, 12);
    let mut k3: usize = 0;
    while k3 < kept.len()
        invariant
            k3 <= kept@.len(),
            kv == kept@.map_values(|c: (usize, usize, usize)| (c.0 as int, c.1 as int, c.2 as int)),
            forall|j: int| 0 <= j < kept@.len() ==> {
                let c = #[trigger] kept@[j];
                c.0 + 8 == c.1 && c.1 <= c.2 <= input@.len() && c.2 - c.1 <= u32::MAX
            },
            output@ == input@.subrange(0, 4) + le_u32_bytes(payload as int % 4294967296) + input@.subrange(8, 12)
                + wav_body(input@, kv.subrange(0, k3 as int)),
        decreases kept@.len() - k3,
    {
        let (id_at, ds, de) = kept[k3];
        push_range(&mut output, input, id_at, id_at + 4);
        push_le_u32(&mut output, (de - ds) as u32);
        push_range(&mut output, input, ds, de);
        if (de - ds) % 2 != 0 {
            output.push(0u8);
        }
        proof {
            assert(kv.subrange(0, k3 + 1).drop_last() =~= kv.subrange(0, k3 as int));
            assert(kv.subrange(0, k3 + 1).last() == kv[k3 as int]);
        }
        k3 = k3 + 1;
    }
    proof {
        assert(kv.subrange(0, kv.len() as int) =~= kv);
        assert(input@.subrange(0, 4) =~= "RIFF".spec_bytes());
        assert(input@.subrange(8, 12) =~= "WAVE".spec_bytes());
        assert(wav_has(input@, kv, "fmt ".spec_bytes()));
        assert(wav_has(input@, kv, "data".spec_bytes()));
    }
    Some(Ok(NativeAudioResult { output_bytes: output, mime: "audio/wav", stripped_count, stripped_bytes }))
}


// ── FLAC ──────────────────────────────────────────────────────────────────

/// State of the metadata-block walk.
pub struct FlacWalk {
    pub offset: int,
    pub streaminfo: Option<(int, int)>,
    pub stripped_count: int,
    pub stripped_bytes: int,
    pub audio_start: int,
    pub done: bool,
}

/// Walk at most `fuel` metadata blocks. `Err` for a truncated header or a
/// block past the end. The last STREAMINFO block is the one kept.
pub open spec fn flac_walk(b: Seq<u8>, st: FlacWalk, fuel: nat) -> Result<FlacWalk, Seq<char>>
    decreases fuel,
{
    if st.done || fuel == 0 {
        Ok(st)
    } else if st.offset + 4 > b.len() {
        Err("FLAC metadata block header truncated"@)
    } else {
        let header = b[st.offset];
        let len = b[st.offset + 1] * 65536 + b[st.offset + 2] * 256 + b[st.offset + 3];
        let ds = st.offset + 4;
        let de = ds + len;
        if de > b.len() {
            Err("FLAC metadata block extends past end of file"@)
        } else {
            let is_info = header % 128 == 0;
            let next = FlacWalk {
                offset: de,
                streaminfo: if is_info { Some((ds, de)) } else { st.streaminfo },
                stripped_count: if is_info { st.stripped_count } else { st.stripped_count + 1 },
                stripped_bytes: if is_info { st.stripped_bytes } else { st.stripped_bytes + 4 + len },
                audio_start: if header >= 128 { de } else { st.audio_start },
                done: header >= 128,
            };
            flac_walk(b, next, (fuel - 1) as nat)
        }
    }
}

pub open spec fn flac_initial() -> FlacWalk {
    FlacWalk { offset: 4, streaminfo: None, stripped_count: 0, stripped_bytes: 0, audio_start: 0, done: false }
}

/// The FLAC sanitizer's decision.
pub open spec fn flac_plan(b: Seq<u8>) -> Option<Result<FlacWalk, Seq<char>>> {
    if b.len() < 8 || !occurs_at(b, "fLaC".spec_bytes(), 0) {
        None
    } else {
        match flac_walk(b, flac_initial(), 256) {
            Err(m) => Some(Err(m)),
            Ok(w) => if w.streaminfo is None {
                Some(Err("FLAC has no STREAMINFO block"@))
            } else if w.audio_start == 0 || w.audio_start >= b.len() {
                Some(Err("FLAC has no audio frames after metadata"@))
            } else {
                Some(Ok(w))
            },
        }
    }
}

/// `fLaC`, STREAMINFO marked as the last block, then the audio frames.
pub open spec fn flac_output(b: Seq<u8>, si: (int, int), audio_start: int) -> Seq<u8> {
    let n = si.1 - si.0;
    "fLaC".spec_bytes() + seq![0x80u8, ((n / 65536) % 256) as u8, ((n / 256) % 256) as u8, (n % 256) as u8]
        + b.subrange(si.0, si.1) + b.subrange(audio_start, b.len() as int)
}

/// Keep only STREAMINFO of a FLAC file's metadata. `None` when the input is
/// not FLAC.
pub fn try_sanitize_flac(input: &[u8]) -> (res: Option<Result<NativeAudioResult, DefenderError>>)
    ensures
        match (res, flac_plan(input@)) {
            (None, None) => true,
            (Some(Err(e)), Some(Err(m))) => e matches DefenderError::Audio(t) && t@ == m,
            (Some(Ok(r)), Some(Ok(w))) => {
                &&& r.output_bytes@ == flac_output(input@, w.streaminfo->Some_0, w.audio_start)
                &&& r.mime@ == "audio/flac"@
                &&& r.stripped_count == w.stripped_count
                &&& r.stripped_bytes == w.stripped_bytes
            },
            _ => false,
        },
        native_result_matches(res, flac_view(input@), "audio/flac"@),
{
    proof {
        broadcast use vstd::string::group_string_axioms;
        reveal_strlit("fLaC");
        assert(vstd::string::is_ascii("fLaC"));
        assert("fLaC".spec_bytes().len() == 4);
    }
    if input.len() < 8 || !matches_at(input, "fLaC".as_bytes(), 0) {
        return None;
    }
    let len = input.len();
    let mut offset: usize = 4;
    let mut streaminfo: Option<(usize, usize)> = None;
    let mut stripped_count: u32 = 0;
    let mut stripped_bytes: u64 = 0;
    let mut audio_start: usize = 0;
    let mut done = false;
    let mut fuel: u32 = 256;
    let ghost plan = flac_walk(input@, flac_initial(), 256);
    while !done && fuel > 0
        invariant
            len == input@.len(),
            input@.len() >= 8 && occurs_at(input@, "fLaC".spec_bytes(), 0),
            plan == flac_walk(input@, flac_initial(), 256),
            fuel <= 256,
            offset <= len,
            audio_start <= len,
            stripped_count <= 256 - fuel,
            stripped_bytes <= (256 - fuel) * 16777220,
            match streaminfo {
                Some((a, e)) => a <= e <= len,
                None => true,
            },
            plan == flac_walk(
                input@,
                FlacWalk {
                    offset: offset as int,
                    streaminfo: match streaminfo {
                        Some((a, e)) => Some((a as int, e as int)),
                        None => None,
                    },
                    stripped_count: stripped_count as int,
                    stripped_bytes: stripped_bytes as int,
                    audio_start: audio_start as int,
                    done,
                },
                fuel as nat,
            ),
        decreases fuel,
    {
        if len - offset < 4 {
            return Some(Err(DefenderError::Audio("FLAC metadata block header truncated".to_owned())));
        }
        let header = input[offset];
        let block_len = (input[offset + 1] as usize) * 65536 + (input[offset + 2] as usize) * 256
            + (input[offset + 3] as usize);
        let ds = offset + 4;
        if block_len > len - ds {
            return Some(Err(DefenderError::Audio("FLAC metadata block extends past end of file".to_owned())));
        }
        let de = ds + block_len;
        if header % 128 == 0 {
            streaminfo = Some((ds, de));
        } else {
            stripped_count = stripped_count + 1;
            stripped_bytes = stripped_bytes + 4 + block_len as u64;
        }
        offset = de;
        if header >= 128 {
            audio_start = de;
            done = true;
        }
        fuel = fuel - 1;
    }
    let (si_start, si_end) = match streaminfo {
        Some(v) => v,
        None => {
            return Some(Err(DefenderError::Audio("FLAC has no STREAMINFO block".to_owned())));
        },
    };
    if audio_start == 0 || audio_start >= len {
        return Some(Err(DefenderError::Audio("FLAC has no audio frames after metadata".to_owned())));
    }
    let n = si_end - si_start;
    let mut output: Vec<u8> = Vec::new();
    push_range(&mut output, input, 0, 4);
    output.push(0x80u8);
    output.push(((n / 65536) % 256) as u8);
    output.push(((n / 256) % 256) as u8);
    output.push((n % 256) as u8);
    push_range(&mut output, input, si_start, si_end);
    push_range(&mut output, input, audio_start, len);
    proof {
        assert(input@.subrange(0, 4) =~= "fLaC".spec_bytes());
        assert(output@ =~= flac_output(input@, (si_start as int, si_end as int), audio_start as int));
    }
    Some(Ok(NativeAudioResult { output_bytes: output, mime: "audio/flac", stripped_count, stripped_bytes }))
}

} // verus!
