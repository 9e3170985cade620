//! OGG sanitizer for Opus and Vorbis audio.
//!
//! OGG is a sequence of pages. The metadata of Ogg-Opus sits in an `OpusTags`
//! packet and that of Ogg-Vorbis in a comment header (packet type 3). The
//! walker copies every page verbatim except the comment page, which it
//! replaces by a page carrying an empty comment (the stream needs one) with
//! a recomputed CRC, and the continuation pages of that comment, which it
//! drops. A stream of more than `MAX_PAGES` pages is refused rather than
//! cut short.
use vstd::prelude::*;
use vstd::string::StringSliceAdditionalSpecFns;

use vstd::slice::slice_subrange;

use crate::bytes::{le_u32_bytes, matches_at, occurs_at, push_all, push_le_u32, push_range};
use crate::error::DefenderError;
use crate::text::decimal;

verus! {

/// What the OGG sanitizer produced.
pub struct OggSanitizeResult {
    pub output_bytes: Vec<u8>,
    pub codec: &'static str,
    pub stripped_bytes: u64,
}

/// Most pages walked; a stream with more pages is refused.
pub const MAX_PAGES: u32 = 65536;

// ── CRC ───────────────────────────────────────────────────────────────────

/// `n` rounds of the CRC register shift with polynomial 0x04C11DB7.
pub open spec fn crc_shift(c: u32, n: nat) -> u32
    decreases n,
{
    if n == 0 {
        c
    } else {
        let p = crc_shift(c, (n - 1) as nat);
        if p & 0x8000_0000u32 != 0 {
            (p << 1u32) ^ 0x04C1_1DB7u32
        } else {
            p << 1u32
        }
    }
}

/// Entry `i` of the CRC table: the byte `i` shifted through eight rounds.
pub open spec fn crc_table_entry(i: u32) -> u32 {
    crc_shift(i << 24u32, 8)
}

/// The OGG CRC of the first `n` bytes: initial value 0, not reflected, no
/// final xor, one table step per byte.
pub open spec fn ogg_crc_prefix(data: Seq<u8>, n: nat) -> u32
    decreases n,
{
    if n == 0 {
        0
    } else {
        let c = ogg_crc_prefix(data, (n - 1) as nat);
        (c << 8u32) ^ crc_table_entry(((c >> 24u32) ^ (data[n - 1] as u32)) & 0xFFu32)
    }
}

/// The OGG CRC-32 of `data`.
pub open spec fn ogg_crc(data: Seq<u8>) -> u32 {
    ogg_crc_prefix(data, data.len())
}

fn crc_table() -> (table: Vec<u32>)
    ensures
        table@.len() == 256,
        forall|i: int| 0 <= i < 256 ==> table@[i] == crc_table_entry(i as u32),
{
    let mut table: Vec<u32> = Vec::new();
    let mut i: u32 = 0;
    while i < 256
        invariant
            i <= 256,
            table@.len() == i,
            forall|k: int| 0 <= k < i ==> table@[k] == crc_table_entry(k as u32),
        decreases 256 - i,
    {
        let mut crc: u32 = i << 24u32;
        let mut j: u32 = 0;
        while j < 8
            invariant
                j <= 8,
                crc == crc_shift(i << 24u32, j as nat),
            decreases 8 - j,
        {
            if crc & 0x8000_0000u32 != 0 {
                crc = (crc << 1u32) ^ 0x04C1_1DB7u32;
            } else {
                crc = crc << 1u32;
            }
            j = j + 1;
        }
        table.push(crc);
        i = i + 1;
    }
    table
}

/// OGG CRC-32: polynomial 0x04C11DB7, initial value 0, no final xor, not
/// bit-reflected (unlike the PKZIP CRC-32).
pub fn ogg_crc32(data: &[u8]) -> (res: u32)
    ensures
        res == ogg_crc(data@),
{
    let table = crc_table();
    let mut crc: u32 = 0;
    let mut i: usize = 0;
    while i < data.len()
        invariant
            i <= data@.len(),
            table@.len() == 256,
            forall|k: int| 0 <= k < 256 ==> table@[k] == crc_table_entry(k as u32),
            crc == ogg_crc_prefix(data@, i as nat),
        decreases data@.len() - i,
    {
        let d = data[i] as u32;
        let index = ((crc >> 24u32) ^ d) & 0xFFu32;
        proof {
            assert((((crc >> 24u32) ^ d) & 0xFFu32) < 256u32) by (bit_vector);
        }
        crc = (crc << 8u32) ^ table[index as usize];
        i = i + 1;
    }
    crc
}

// ── Pages ─────────────────────────────────────────────────────────────────

/// The lacing values for a packet of `n` bytes: 255 for each full segment,
/// then the remainder (0 when `n` is a multiple of 255).
pub open spec fn segment_table(n: nat) -> Seq<u8>
    decreases n,
{
    if n >= 255 {
        seq![255u8] + segment_table((n - 255) as nat)
    } else {
        seq![n as u8]
    }
}

/// A page carrying `data` with the first 26 header bytes of `header` (the
/// CRC field zeroed), a fresh segment table, and the CRC filled in.
pub open spec fn ogg_page_raw(header: Seq<u8>, data: Seq<u8>) -> Seq<u8> {
    let segs = segment_table(data.len());
    header.subrange(0, 22) + seq![0u8, 0u8, 0u8, 0u8] + seq![segs.len() as u8] + segs + data
}

pub open spec fn ogg_page(header: Seq<u8>, data: Seq<u8>) -> Seq<u8> {
    let raw = ogg_page_raw(header, data);
    raw.subrange(0, 22) + le_u32_bytes(ogg_crc(raw) as int) + raw.subrange(26, raw.len() as int)
}

/// A minimal OpusTags packet: magic, empty vendor, no comments.
pub open spec fn minimal_opus_tags() -> Seq<u8> {
    "OpusTags".spec_bytes() + seq![0u8, 0u8, 0u8, 0u8, 0u8, 0u8, 0u8, 0u8]
}

/// A minimal Vorbis comment header: type 3, magic, empty vendor, no
/// comments, framing bit.
pub open spec fn minimal_vorbis_comment() -> Seq<u8> {
    seq![3u8] + "vorbis".spec_bytes() + seq![0u8, 0u8, 0u8, 0u8, 0u8, 0u8, 0u8, 0u8] + seq![1u8]
}

fn build_minimal_opus_tags() -> (data: Vec<u8>)
    ensures
        data@ == minimal_opus_tags(),
        data@.len() == 16,
{
    proof {
        broadcast use vstd::string::group_string_axioms;
        reveal_strlit("OpusTags");
        assert(vstd::string::is_ascii("OpusTags"));
    }
    let mut data: Vec<u8> = Vec::new();
    push_all(&mut data, "OpusTags".as_bytes());
    push_le_u32(&mut data, 0);
    push_le_u32(&mut data, 0);
    proof {
        assert(data@ =~= minimal_opus_tags());
    }
    data
}

fn build_minimal_vorbis_comment() -> (data: Vec<u8>)
    ensures
        data@ == minimal_vorbis_comment(),
        data@.len() == 16,
{
    proof {
        broadcast use vstd::string::group_string_axioms;
        reveal_strlit("vorbis");
        assert(vstd::string::is_ascii("vorbis"));
    }
    let mut data: Vec<u8> = Vec::new();
    data.push(3u8);
    push_all(&mut data, "vorbis".as_bytes());
    push_le_u32(&mut data, 0);
    push_le_u32(&mut data, 0);
    data.push(1u8);
    proof {
        assert(data@ =~= minimal_vorbis_comment());
    }
    data
}

/// Build a page carrying `new_data`, keeping header type, granule position,
/// serial and sequence number of `original_header`, with a new segment table
/// and CRC. An error when `new_data` needs more than 255 segments.
fn build_ogg_page(original_header: &[u8], new_data: &[u8]) -> (res: Result<Vec<u8>, DefenderError>)
    requires
        original_header@.len() >= 26,
    ensures
        match res {
            Ok(page) => segment_table(new_data@.len()).len() <= 255 && page@ == ogg_page(
                original_header@,
                new_data@,
            ),
            Err(e) => segment_table(new_data@.len()).len() > 255 && e is Audio,
        },
{
    let mut segs: Vec<u8> = Vec::new();
    let mut remaining = new_data.len();
    while remaining >= 255
        invariant
            segs@ + segment_table(remaining as nat) == segment_table(new_data@.len()),
        decreases remaining,
    {
        segs.push(255u8);
        proof {
            assert(segs@ + segment_table((remaining - 255) as nat) =~= segs@.drop_last() + segment_table(
                remaining as nat,
            ));
        }
        remaining = remaining - 255;
    }
    segs.push(remaining as u8);
    proof {
        assert(segs@ =~= segment_table(new_data@.len()));
    }
    if segs.len() > 255 {
        return Err(DefenderError::Audio(
            "OGG replacement page requires >255 segments (data too large for single page)".to_owned(),
        ));
    }
    let mut raw: Vec<u8> = Vec::new();
    push_range(&mut raw, original_header, 0, 22);
    push_le_u32(&mut raw, 0);
    raw.push(segs.len() as u8);
    push_all(&mut raw, segs.as_slice());
    push_all(&mut raw, new_data);
    proof {
        assert(raw@ =~= ogg_page_raw(original_header@, new_data@));
    }
    let crc = ogg_crc32(raw.as_slice());
    let mut page: Vec<u8> = Vec::new();
    push_range(&mut page, raw.as_slice(), 0, 22);
    push_le_u32(&mut page, crc);
    push_range(&mut page, raw.as_slice(), 26, raw.len());
    Ok(page)
}

// ── Page walk ─────────────────────────────────────────────────────────────

/// Sum of `b[start..end]`.
pub open spec fn sum_bytes(b: Seq<u8>, start: int, end: int) -> int
    decreases end - start,
{
    if end <= start {
        0
    } else {
        sum_bytes(b, start, end - 1) + b[end - 1]
    }
}

/// The page data `b[ds..de]` starts with `OpusHead`.
pub open spec fn opus_head_at(b: Seq<u8>, ds: int, de: int) -> bool {
    de - ds >= 8 && occurs_at(b, "OpusHead".spec_bytes(), ds)
}

/// The page data `b[ds..de]` starts with `OpusTags`.
pub open spec fn opus_tags_at(b: Seq<u8>, ds: int, de: int) -> bool {
    de - ds >= 8 && occurs_at(b, "OpusTags".spec_bytes(), ds)
}

/// The page data `b[ds..de]` starts with a Vorbis header of type `kind`.
pub open spec fn vorbis_header_at(b: Seq<u8>, ds: int, de: int, kind: u8) -> bool {
    de - ds >= 7 && b[ds] == kind && occurs_at(b, "vorbis".spec_bytes(), ds + 1)
}

/// State of the page walk. `codec` is 0 while unknown, 1 for Opus and 2 for
/// Vorbis; `stripping` is set while continuation pages of a replaced
/// comment are being dropped.
pub struct OggWalk {
    pub offset: int,
    pub out: Seq<u8>,
    pub codec: int,
    pub stripped_bytes: int,
    pub stripping: bool,
}

pub open spec fn ogg_initial() -> OggWalk {
    OggWalk { offset: 0, out: Seq::empty(), codec: 0, stripped_bytes: 0, stripping: false }
}

/// The codec name reported for a walk's codec.
pub open spec fn codec_name(codec: int) -> Seq<char> {
    if codec == 1 {
        "opus"@
    } else if codec == 2 {
        "vorbis"@
    } else {
        "unknown"@
    }
}

/// Walk the pages to the end of the input. `Err` for a truncated page, lost
/// sync, a version other than 0, or more than `fuel` pages.
pub open spec fn ogg_walk(b: Seq<u8>, st: OggWalk, fuel: nat) -> Result<OggWalk, Seq<char>>
    decreases fuel,
{
    if st.offset >= b.len() {
        Ok(st)
    } else if fuel == 0 {
        Err("OGG page limit exceeded"@)
    } else if st.offset + 27 > b.len() {
        Err("OGG page header truncated"@)
    } else if !occurs_at(b, "OggS".spec_bytes(), st.offset) {
        Err("OGG sync lost at offset "@ + decimal(st.offset as nat))
    } else if b[st.offset + 4] != 0 {
        Err("unsupported OGG version "@ + decimal(b[st.offset + 4] as nat))
    } else {
        let ht = b[st.offset + 5];
        let ds = st.offset + 27 + b[st.offset + 26];
        if ds > b.len() {
            Err("OGG segment table truncated"@)
        } else {
            let de = ds + sum_bytes(b, st.offset + 27, ds);
            if de > b.len() {
                Err("OGG page data extends past end of file"@)
            } else {
                let codec = if ht & 2u8 != 0 && st.codec == 0 {
                    if opus_head_at(b, ds, de) {
                        1
                    } else if vorbis_header_at(b, ds, de, 1u8) {
                        2
                    } else {
                        0
                    }
                } else {
                    st.codec
                };
                if st.stripping && ht & 1u8 != 0 {
                    ogg_walk(
                        b,
                        OggWalk {
                            offset: de,
                            out: st.out,
                            codec,
                            stripped_bytes: st.stripped_bytes + (de - ds),
                            stripping: true,
                        },
                        (fuel - 1) as nat,
                    )
                } else if (codec == 1 && opus_tags_at(b, ds, de)) || (codec == 2 && vorbis_header_at(
                    b,
                    ds,
                    de,
                    3u8,
                )) {
                    let minimal = if codec == 1 { minimal_opus_tags() } else { minimal_vorbis_comment() };
                    ogg_walk(
                        b,
                        OggWalk {
                            offset: de,
                            out: st.out + ogg_page(b.subrange(st.offset, ds), minimal),
                            codec,
                            stripped_bytes: st.stripped_bytes + (de - ds),
                            stripping: true,
                        },
                        (fuel - 1) as nat,
                    )
                } else {
                    ogg_walk(
                        b,
                        OggWalk {
                            offset: de,
                            out: st.out + b.subrange(st.offset, de),
                            codec,
                            stripped_bytes: st.stripped_bytes,
                            stripping: false,
                        },
                        (fuel - 1) as nat,
                    )
                }
            }
        }
    }
}

/// The OGG sanitizer's decision: `None` when the input is not OGG.
pub open spec fn ogg_plan(b: Seq<u8>) -> Option<Result<OggWalk, Seq<char>>> {
    if b.len() < 27 || !occurs_at(b, "OggS".spec_bytes(), 0) {
        None
    } else {
        Some(ogg_walk(b, ogg_initial(), MAX_PAGES as nat))
    }
}

fn sanitize_ogg(input: &[u8]) -> (res: Result<OggSanitizeResult, DefenderError>)
    ensures
        match (res, ogg_walk(input@, ogg_initial(), MAX_PAGES as nat)) {
            (Ok(r), Ok(w)) => {
                &&& r.output_bytes@ == w.out
                &&& r.codec@ == codec_name(w.codec)
                &&& r.stripped_bytes == w.stripped_bytes
            },
            (Err(e), Err(m)) => e matches DefenderError::Audio(t) && t@ == m,
            _ => false,
        },
{
    let len = input.len();
    let mut output: Vec<u8> = Vec::new();
    let mut offset: usize = 0;
    let mut codec: u8 = 0;
    let mut stripped_bytes: u64 = 0;
    let mut stripping = false;
    let mut fuel: u32 = MAX_PAGES;
    let ghost plan = ogg_walk(input@, ogg_initial(), MAX_PAGES as nat);
    proof {
        assert(output@ =~= ogg_initial().out);
    }
    while fuel > 0 && offset < len
        invariant
            len == input@.len(),
            offset <= len,
            stripped_bytes <= offset,
            codec <= 2,
            plan == ogg_walk(input@, ogg_initial(), MAX_PAGES as nat),
            plan == ogg_walk(
                input@,
                OggWalk {
                    offset: offset as int,
                    out: output@,
                    codec: codec as int,
                    stripped_bytes: stripped_bytes as int,
                    stripping,
                },
                fuel as nat,
            ),
        decreases fuel,
    {
        let ghost st = OggWalk {
            offset: offset as int,
            out: output@,
            codec: codec as int,
            stripped_bytes: stripped_bytes as int,
            stripping,
        };
        if len - offset < 27 {
            return Err(DefenderError::Audio("OGG page header truncated".to_owned()));
        }
        if !matches_at(input, "OggS".as_bytes(), offset) {
            let mut m = "OGG sync lost at offset ".to_owned();
            crate::text::push_decimal(&mut m, offset as u64);
            return Err(DefenderError::Audio(m));
        }
        if input[offset + 4] != 0 {
            let mut m = "unsupported OGG version ".to_owned();
            crate::text::push_decimal(&mut m, input[offset + 4] as u64);
            return Err(DefenderError::Audio(m));
        }
        let header_type = input[offset + 5];
        let num_segments = input[offset + 26] as usize;
        if num_segments > len - offset - 27 {
            return Err(DefenderError::Audio("OGG segment table truncated".to_owned()));
        }
        let ds = offset + 27 + num_segments;
        let mut data_size: usize = 0;
        let mut k = offset + 27;
        while k < ds
            invariant
                offset + 27 <= k <= ds <= input@.len(),
                ds - offset - 27 <= 255,
                data_size == sum_bytes(input@, offset + 27, k as int),
                data_size <= (k - offset - 27) * 255,
            decreases ds - k,
        {
            data_size = data_size + input[k] as usize;
            k = k + 1;
        }
        if data_size > len - ds {
            return Err(DefenderError::Audio("OGG page data extends past end of file".to_owned()));
        }
        let de = ds + data_size;
        if header_type & 2u8 != 0 && codec == 0 {
            if data_size >= 8 && matches_at(input, "OpusHead".as_bytes(), ds) {
                codec = 1;
            } else if data_size >= 7 && input[ds] == 1 && matches_at(input, "vorbis".as_bytes(), ds + 1) {
                codec = 2;
            }
        }
        let is_comment_page = (codec == 1 && data_size >= 8 && matches_at(input, "OpusTags".as_bytes(), ds)) || (
        codec == 2 && data_size >= 7 && input[ds] == 3 && matches_at(input, "vorbis".as_bytes(), ds + 1));
        if stripping && header_type & 1u8 != 0 {
            stripped_bytes = stripped_bytes + data_size as u64;
        } else if is_comment_page {
            let minimal = if codec == 1 { build_minimal_opus_tags() } else { build_minimal_vorbis_comment() };
            stripped_bytes = stripped_bytes + data_size as u64;
            stripping = true;
            let replacement = match build_ogg_page(slice_subrange(input, offset, ds), minimal.as_slice()) {
                Ok(p) => p,
                Err(e) => return Err(e),
            };
            push_all(&mut output, replacement.as_slice());
        } else {
            stripping = false;
            push_range(&mut output, input, offset, de);
        }
        offset = de;
        fuel = fuel - 1;
    }
    if offset < len {
        return Err(DefenderError::Audio("OGG page limit exceeded".to_owned()));
    }
    let name: &'static str = if codec == 1 {
        "opus"
    } else if codec == 2 {
        "vorbis"
    } else {
        "unknown"
    };
    Ok(OggSanitizeResult { output_bytes: output, codec: name, stripped_bytes })
}

/// What the OGG sanitizer gives for `b`, as `ogg_plan` decides it.
pub open spec fn ogg_sanitized(res: Option<Result<OggSanitizeResult, DefenderError>>, b: Seq<u8>) -> bool {
    match (res, ogg_plan(b)) {
        (None, None) => true,
        (Some(Err(e)), Some(Err(m))) => e matches DefenderError::Audio(t) && t@ == m,
        (Some(Ok(r)), Some(Ok(w))) => {
            &&& r.output_bytes@ == w.out
            &&& r.codec@ == codec_name(w.codec)
            &&& r.stripped_bytes == w.stripped_bytes
        },
        _ => false,
    }
}

/// Replace the comment page of an Ogg-Opus or Ogg-Vorbis stream by an empty
/// one. `None` when the input does not start with an OGG page.
pub fn try_sanitize_ogg(input: &[u8]) -> (res: Option<Result<OggSanitizeResult, DefenderError>>)
    ensures
        ogg_sanitized(res, input@),
{
    if input.len() < 27 || !matches_at(input, "OggS".as_bytes(), 0) {
        return None;
    }
    Some(sanitize_ogg(input))
}

} // verus!
