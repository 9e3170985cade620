//! Animated-image handler: an APNG container re-mux.
//!
//! No pixel data is decoded. The handler walks the PNG chunks, checks each
//! chunk's CRC and the structural limits of the policy (chunk count, chunk
//! size, frame count, dimensions), and emits a PNG/APNG holding only the
//! chunks needed for rendering: `IHDR`, `PLTE`, `tRNS`, `IDAT`, `acTL`,
//! `fcTL`, `fdAT` and `IEND`. Every other chunk (text, ICC profiles, EXIF,
//! timestamps, unknown ancillary chunks) is dropped.
use vstd::prelude::*;
use vstd::string::StringSliceAdditionalSpecFns;

use vstd::slice::slice_subrange;

use crate::bytes::{be_u32_at, is_one_of, matches_any, matches_at, occurs_at, push_range, read_be_u32};
use crate::error::DefenderError;
use crate::handlers::HandlerResult;
use crate::policy::AnimatedImagePolicy;
use crate::text::{decimal, push_decimal, tag_text};
use crate::types::{
    limits_inert, png_signature, AlertSeverity, DefenseAlert, DefenseContext, PipelineStage, PipelineStageReport,
    PipelineStageStatus,
};

verus! {

// ── CRC ───────────────────────────────────────────────────────────────────

/// One round of the reflected CRC register with polynomial 0xEDB88320.
pub open spec fn png_crc_step(c: u32) -> u32 {
    if c & 1u32 == 1u32 {
        (c >> 1u32) ^ 0xEDB8_8320u32
    } else {
        c >> 1u32
    }
}

pub open spec fn png_crc_rounds(c: u32, n: nat) -> u32
    decreases n,
{
    if n == 0 {
        c
    } else {
        png_crc_step(png_crc_rounds(c, (n - 1) as nat))
    }
}

/// The CRC register after the first `n` bytes (initial value 0xFFFFFFFF).
pub open spec fn png_crc_reg(data: Seq<u8>, n: nat) -> u32
    decreases n,
{
    if n == 0 {
        0xFFFF_FFFFu32
    } else {
        png_crc_rounds(png_crc_reg(data, (n - 1) as nat) ^ (data[n - 1] as u32), 8)
    }
}

/// The PNG / PKZIP CRC-32 of `data`: reflected, initial value 0xFFFFFFFF,
/// final complement.
pub open spec fn png_crc(data: Seq<u8>) -> u32 {
    !png_crc_reg(data, data.len())
}

/// PNG / PKZIP CRC-32: reflected polynomial 0xEDB88320, initial value
/// 0xFFFFFFFF, final xor 0xFFFFFFFF.
pub fn png_crc32(bytes: &[u8]) -> (res: u32)
    ensures
        res == png_crc(bytes@),
{
    let mut crc: u32 = 0xFFFF_FFFF;
    let mut i: usize = 0;
    while i < bytes.len()
        invariant
            i <= bytes@.len(),
            crc == png_crc_reg(bytes@, i as nat),
        decreases bytes@.len() - i,
    {
        let start = crc ^ (bytes[i] as u32);
        crc = start;
        let mut j: u32 = 0;
        while j < 8
            invariant
                j <= 8,
                crc == png_crc_rounds(start, j as nat),
            decreases 8 - j,
        {
            if crc & 1u32 == 1u32 {
                crc = (crc >> 1u32) ^ 0xEDB8_8320u32;
            } else {
                crc = crc >> 1u32;
            }
            j = j + 1;
        }
        i = i + 1;
    }
    !crc
}

// ── Chunk walk ────────────────────────────────────────────────────────────

/// The chunks kept in the output.
pub open spec fn critical_chunks() -> Seq<&'static str> {
    seq!["IHDR", "PLTE", "tRNS", "IDAT", "acTL", "fcTL", "fdAT", "IEND"]
}

pub open spec fn is_critical(ty: Seq<u8>) -> bool {
    is_one_of(ty, critical_chunks())
}

/// Whether `chunk_type` is emitted in the sanitized output.
fn is_critical_chunk(chunk_type: &[u8]) -> (res: bool)
    ensures
        res == is_critical(chunk_type@),
{
    let critical: [&str; 8] = ["IHDR", "PLTE", "tRNS", "IDAT", "acTL", "fcTL", "fdAT", "IEND"];
    assert(critical@ == critical_chunks());
    matches_any(chunk_type, &critical)
}

/// State of the chunk walk: the next offset, the chunks seen as (offset,
/// payload length, kept), and the frame count of the last `acTL`.
pub struct ApngWalk {
    pub offset: int,
    pub chunks: Seq<(int, int, bool)>,
    pub num_frames: Option<u32>,
}

pub open spec fn apng_walk_start() -> ApngWalk {
    ApngWalk { offset: 8, chunks: Seq::empty(), num_frames: None }
}

/// Walk at most `fuel` chunks up to and including `IEND`. `Err` for a
/// truncated chunk, a payload above `max_chunk_size`, a CRC mismatch, a
/// `PLTE` whose length is not a multiple of 3, or no `IEND` within `fuel`.
pub open spec fn chunk_walk(b: Seq<u8>, max_chunk_size: int, st: ApngWalk, fuel: nat) -> Result<ApngWalk, Seq<char>>
    decreases fuel,
{
    if fuel == 0 {
        Err("IEND terminator not found within max_chunks budget"@)
    } else {
        let off = st.offset;
        if off + 12 > b.len() {
            Err("truncated chunk header"@)
        } else {
            let length = be_u32_at(b, off);
            let ty = b.subrange(off + 4, off + 8);
            let de = off + 8 + length;
            if length > max_chunk_size {
                Err("chunk payload "@ + decimal(length as nat) + " exceeds max_chunk_size "@ + decimal(max_chunk_size as nat))
            } else if de > b.len() {
                Err("chunk data extends past end of file"@)
            } else if de + 4 > b.len() {
                Err("chunk CRC extends past end of file"@)
            } else if be_u32_at(b, de) != png_crc(b.subrange(off + 4, de)) {
                Err("CRC mismatch on chunk `"@ + tag_text(ty) + "`"@)
            } else if ty == "PLTE".spec_bytes() && length % 3 != 0 {
                Err("PLTE chunk length "@ + decimal(length as nat) + " is not divisible by 3"@)
            } else {
                let next = ApngWalk {
                    offset: de + 4,
                    chunks: st.chunks.push((off, length, is_critical(ty))),
                    num_frames: if ty == "acTL".spec_bytes() && length >= 8 {
                        Some(be_u32_at(b, off + 8) as u32)
                    } else {
                        st.num_frames
                    },
                };
                if ty == "IEND".spec_bytes() {
                    Ok(next)
                } else {
                    chunk_walk(b, max_chunk_size, next, (fuel - 1) as nat)
                }
            }
        }
    }
}

/// The chunk types a renderer needs: header, palette, transparency, image
/// data, and the animation control, frame control and frame data chunks.
spec fn rendering_chunk_type(ty: Seq<u8>) -> bool {
    ||| ty == "IHDR".spec_bytes()
    ||| ty == "PLTE".spec_bytes()
    ||| ty == "tRNS".spec_bytes()
    ||| ty == "IDAT".spec_bytes()
    ||| ty == "acTL".spec_bytes()
    ||| ty == "fcTL".spec_bytes()
    ||| ty == "fdAT".spec_bytes()
    ||| ty == "IEND".spec_bytes()
}

proof fn lemma_walk_keeps_rendering_chunks(b: Seq<u8>, max_chunk_size: int, st: ApngWalk, fuel: nat, w: ApngWalk)
    requires
        chunk_walk(b, max_chunk_size, st, fuel) == Ok::<ApngWalk, Seq<char>>(w),
        forall|j: int| 0 <= j < st.chunks.len() ==> (#[trigger] st.chunks[j]).2 == rendering_chunk_type(
            b.subrange(st.chunks[j].0 + 4, st.chunks[j].0 + 8),
        ),
    ensures
        forall|j: int| 0 <= j < w.chunks.len() ==> (#[trigger] w.chunks[j]).2 == rendering_chunk_type(
            b.subrange(w.chunks[j].0 + 4, w.chunks[j].0 + 8),
        ),
    decreases fuel,
{
    let off = st.offset;
    let ty = b.subrange(off + 4, off + 8);
    let length = be_u32_at(b, off);
    let next = ApngWalk {
        offset: off + 8 + length + 4,
        chunks: st.chunks.push((off, length, is_critical(ty))),
        num_frames: if ty == "acTL".spec_bytes() && length >= 8 {
            Some(be_u32_at(b, off + 8) as u32)
        } else {
            st.num_frames
        },
    };
    assert(is_critical(ty) == rendering_chunk_type(ty)) by {
        let names = critical_chunks();
        if is_critical(ty) {
            let i = choose|i: int| 0 <= i < names.len() && names[i].spec_bytes() == ty;
            assert(0 <= i < 8);
        }
        if ty == "IHDR".spec_bytes() { assert(names[0].spec_bytes() == ty); }
        if ty == "PLTE".spec_bytes() { assert(names[1].spec_bytes() == ty); }
        if ty == "tRNS".spec_bytes() { assert(names[2].spec_bytes() == ty); }
        if ty == "IDAT".spec_bytes() { assert(names[3].spec_bytes() == ty); }
        if ty == "acTL".spec_bytes() { assert(names[4].spec_bytes() == ty); }
        if ty == "fcTL".spec_bytes() { assert(names[5].spec_bytes() == ty); }
        if ty == "fdAT".spec_bytes() { assert(names[6].spec_bytes() == ty); }
        if ty == "IEND".spec_bytes() { assert(names[7].spec_bytes() == ty); }
    }
    assert forall|j: int| 0 <= j < next.chunks.len() implies (#[trigger] next.chunks[j]).2 == rendering_chunk_type(
        b.subrange(next.chunks[j].0 + 4, next.chunks[j].0 + 8),
    ) by {
        if j < st.chunks.len() {
            assert(next.chunks[j] == st.chunks[j]);
        }
    }
    if fuel > 0 && off + 12 <= b.len() && ty != "IEND".spec_bytes() {
        if chunk_walk(b, max_chunk_size, st, fuel) == chunk_walk(b, max_chunk_size, next, (fuel - 1) as nat) {
            lemma_walk_keeps_rendering_chunks(b, max_chunk_size, next, (fuel - 1) as nat, w);
        }
    }
}

/// Every chunk of an accepted APNG/PNG is kept exactly when it is one of
/// IHDR, PLTE, tRNS, IDAT, acTL, fcTL, fdAT or IEND; every other chunk type
/// is dropped. Kept chunks go to the output whole and in order
/// (`apng_output`).
pub proof fn law_apng_keeps_exactly_rendering_chunks(b: Seq<u8>, max_chunk_size: int, fuel: nat, w: ApngWalk)
    requires
        chunk_walk(b, max_chunk_size, apng_walk_start(), fuel) == Ok::<ApngWalk, Seq<char>>(w),
    ensures
        forall|j: int| 0 <= j < w.chunks.len() ==> (#[trigger] w.chunks[j]).2 == {
            let ty = b.subrange(w.chunks[j].0 + 4, w.chunks[j].0 + 8);
            ||| ty == "IHDR".spec_bytes()
            ||| ty == "PLTE".spec_bytes()
            ||| ty == "tRNS".spec_bytes()
            ||| ty == "IDAT".spec_bytes()
            ||| ty == "acTL".spec_bytes()
            ||| ty == "fcTL".spec_bytes()
            ||| ty == "fdAT".spec_bytes()
            ||| ty == "IEND".spec_bytes()
        },
{
    lemma_walk_keeps_rendering_chunks(b, max_chunk_size, apng_walk_start(), fuel, w);
}

/// Colour type and bit depth combinations allowed by the PNG specification.
pub open spec fn valid_color_depth(color: u8, depth: u8) -> bool {
    ||| color == 0 && (depth == 1 || depth == 2 || depth == 4 || depth == 8 || depth == 16)
    ||| color == 2 && (depth == 8 || depth == 16)
    ||| color == 3 && (depth == 1 || depth == 2 || depth == 4 || depth == 8)
    ||| color == 4 && (depth == 8 || depth == 16)
    ||| color == 6 && (depth == 8 || depth == 16)
}

/// Width and height of the leading IHDR chunk, or `None` when it is missing,
/// malformed, zero, above `max_side`, or of an invalid colour/depth.
pub open spec fn ihdr_dims(b: Seq<u8>, max_side: int) -> Option<(int, int)> {
    if b.len() < 33 || be_u32_at(b, 8) != 13 || !occurs_at(b, "IHDR".spec_bytes(), 12) {
        None
    } else {
        let w = be_u32_at(b, 16);
        let h = be_u32_at(b, 20);
        if w == 0 || h == 0 || w > max_side || h > max_side || !valid_color_depth(b[25], b[24]) {
            None
        } else {
            Some((w, h))
        }
    }
}

/// Why the leading IHDR chunk is refused, when `ihdr_dims` is `None`.
pub open spec fn ihdr_error(b: Seq<u8>, max_side: int) -> Seq<char> {
    if b.len() < 33 {
        "file too short to contain IHDR"@
    } else if be_u32_at(b, 8) != 13 {
        "IHDR has unexpected length "@ + decimal(be_u32_at(b, 8) as nat) + ", expected 13"@
    } else if !occurs_at(b, "IHDR".spec_bytes(), 12) {
        "first chunk is not IHDR"@
    } else if be_u32_at(b, 16) == 0 || be_u32_at(b, 20) == 0 {
        "IHDR has zero width or height"@
    } else if be_u32_at(b, 16) > max_side || be_u32_at(b, 20) > max_side {
        "IHDR dimension exceeds max_side: width="@ + decimal(be_u32_at(b, 16) as nat) + " height="@ + decimal(
            be_u32_at(b, 20) as nat,
        ) + " max="@ + decimal(max_side as nat)
    } else {
        "IHDR has invalid color_type="@ + decimal(b[25] as nat) + " bit_depth="@ + decimal(b[24] as nat)
            + " combination"@
    }
}

/// Everything the handler decides before it looks at the clock: signature,
/// IHDR, per-frame pixels and the chunk walk. `Ok` holds the width, the
/// height and the walk.
pub open spec fn apng_plan(b: Seq<u8>, p: AnimatedImagePolicy) -> Result<(int, int, ApngWalk), Seq<char>> {
    if b.len() < 8 || !occurs_at(b, png_signature(), 0) {
        Err("input is not a PNG (signature mismatch)"@)
    } else {
        match ihdr_dims(b, p.max_side as int) {
            None => Err(ihdr_error(b, p.max_side as int)),
            Some((w, h)) => if w * h > p.max_pixels_per_frame {
                Err(
                    "per-frame pixel count "@ + decimal((w * h) as nat) + " exceeds max_pixels_per_frame "@ + decimal(
                        p.max_pixels_per_frame as nat,
                    ),
                )
            } else {
                match chunk_walk(b, p.max_chunk_size as int, apng_walk_start(), p.max_chunks as nat) {
                    Err(m) => Err(m),
                    Ok(walk) => Ok((w, h, walk)),
                }
            },
        }
    }
}

/// `v`, or `u64::MAX` when it is larger.
pub open spec fn sat_u64(v: int) -> int {
    if v > u64::MAX { u64::MAX as int } else { v }
}

/// The frame limits of the policy hold: without `acTL` always; with it, the
/// frame count is positive, at most `max_frames`, and the total pixel count
/// (saturated) at most `max_total_pixels`.
pub open spec fn frames_ok(w: int, h: int, num_frames: Option<u32>, p: AnimatedImagePolicy) -> bool {
    match num_frames {
        None => true,
        Some(f) => f != 0 && f <= p.max_frames && sat_u64(w * h * f) <= p.max_total_pixels,
    }
}

/// Which frame limit fails, when `frames_ok` does not hold.
pub open spec fn frames_error(w: int, h: int, num_frames: Option<u32>, p: AnimatedImagePolicy) -> Seq<char> {
    let f = num_frames->Some_0;
    if f == 0 {
        "acTL declares zero frames"@
    } else if f > p.max_frames {
        "frame count "@ + decimal(f as nat) + " exceeds max_frames "@ + decimal(p.max_frames as nat)
    } else {
        "total pixel count "@ + decimal(sat_u64(w * h * f) as nat) + " exceeds max_total_pixels "@ + decimal(
            p.max_total_pixels as nat,
        )
    }
}

/// Bytes of the kept chunks, each whole (length, type, payload, CRC).
pub open spec fn kept_bytes(b: Seq<u8>, chunks: Seq<(int, int, bool)>) -> Seq<u8>
    decreases chunks.len(),
{
    if chunks.len() == 0 {
        Seq::empty()
    } else {
        let c = chunks.last();
        kept_bytes(b, chunks.drop_last()) + if c.2 { b.subrange(c.0, c.0 + 12 + c.1) } else { Seq::empty() }
    }
}

pub open spec fn stripped_chunk_count(chunks: Seq<(int, int, bool)>) -> int
    decreases chunks.len(),
{
    if chunks.len() == 0 {
        0
    } else {
        stripped_chunk_count(chunks.drop_last()) + if chunks.last().2 { 0int } else { 1int }
    }
}

pub open spec fn stripped_chunk_bytes(chunks: Seq<(int, int, bool)>) -> int
    decreases chunks.len(),
{
    if chunks.len() == 0 {
        0
    } else {
        let c = chunks.last();
        stripped_chunk_bytes(chunks.drop_last()) + if c.2 { 0 } else { 12 + c.1 }
    }
}

pub open spec fn kept_chunk_count(chunks: Seq<(int, int, bool)>) -> int {
    chunks.len() - stripped_chunk_count(chunks)
}

/// The rebuilt file: the PNG signature and the kept chunks.
pub open spec fn apng_output(b: Seq<u8>, chunks: Seq<(int, int, bool)>) -> Seq<u8> {
    png_signature() + kept_bytes(b, chunks)
}

/// The message of the alert for stripped chunks.
pub open spec fn stripped_message(count: int, bytes: int) -> Seq<char> {
    "Stripped "@ + decimal(count as nat) + " non-critical PNG chunk(s), "@ + decimal(bytes as nat) + " bytes."@
}

/// The detail of the stage report.
pub open spec fn remux_detail(num_frames: Option<u32>, kept: int, stripped: int) -> Seq<char> {
    "animated_image remux frames="@ + match num_frames {
        Some(f) => decimal(f as nat),
        None => "static"@,
    } + " chunks_kept="@ + decimal(kept as nat) + " chunks_stripped="@ + decimal(stripped as nat)
}

/// Where chunk `j` starts when the chunks tile the file after the signature.
pub open spec fn chunk_start(chunks: Seq<(int, int, bool)>, j: int) -> int {
    if j <= 0 {
        8
    } else {
        chunks[j - 1].0 + 12 + chunks[j - 1].1
    }
}

/// The chunks follow each other without gaps from offset 8 and end at `end`.
pub open spec fn chunks_tile(chunks: Seq<(int, int, bool)>, end: int) -> bool {
    &&& forall|j: int| 0 <= j < chunks.len() ==> {
        &&& #[trigger] chunks[j].0 == chunk_start(chunks, j)
        &&& chunks[j].1 >= 0
        &&& chunks[j].0 + 12 + chunks[j].1 <= end
    }
    &&& chunk_start(chunks, chunks.len() as int) == end
}

/// A chunk seen by the walk.
struct ChunkRef {
    /// Offset of the chunk's length field.
    offset: usize,
    length: u32,
    /// Whether the chunk is emitted.
    keep: bool,
}

/// What the chunk walk found.
struct WalkOutcome {
    chunks: Vec<ChunkRef>,
    num_frames: Option<u32>,
}

spec fn chunk_views(chunks: Seq<ChunkRef>) -> Seq<(int, int, bool)> {
    chunks.map_values(|c: ChunkRef| (c.offset as int, c.length as int, c.keep))
}

/// What `rebuild` returns.
pub open spec fn apng_outcome(
    p: AnimatedImagePolicy,
    input_bytes: Seq<u8>,
    context: DefenseContext,
    res: Result<HandlerResult, DefenderError>,
) -> bool {
    &&& match apng_plan(input_bytes, p) {
        Err(m) => res matches Err(DefenderError::AnimatedImage(t)) && t@ == m,
        Ok((w, h, walk)) => match res {
            Ok(r) => frames_ok(w, h, walk.num_frames, p) && apng_result_is(r, input_bytes, walk),
            Err(DefenderError::AnimatedImage(t)) => !frames_ok(w, h, walk.num_frames, p) && t@ == frames_error(
                w,
                h,
                walk.num_frames,
                p,
            ),
            Err(DefenderError::Cancelled) => context.cancel is Some,
            Err(DefenderError::Timeout) => context.timeout_ms > 0 && context.started_at is Some,
            Err(_) => false,
        },
    }
    &&& limits_inert(context) ==> (res is Ok <==> (apng_plan(input_bytes, p) matches Ok((w, h, walk))
        && frames_ok(w, h, walk.num_frames, p)))
}

/// The handler for animated PNG.
#[derive(Debug, Clone)]
pub struct AnimatedImageHandler {
    policy: AnimatedImagePolicy,
}

/// Everything a successful rebuild returns, for a walk `walk` of `b`.
pub open spec fn apng_result_is(r: HandlerResult, b: Seq<u8>, walk: ApngWalk) -> bool {
    let sc = stripped_chunk_count(walk.chunks);
    let sb = stripped_chunk_bytes(walk.chunks);
    &&& r.output_bytes@ == apng_output(b, walk.chunks)
    &&& r.mime@ == if walk.num_frames is Some { "image/apng"@ } else { "image/png"@ }
    &&& r.alerts@.len() == if sc > 0 { 1int } else { 0int }
    &&& sc > 0 ==> {
        &&& r.alerts@[0].code@ == "apng_metadata_stripped"@
        &&& r.alerts@[0].message@ == stripped_message(sc, sb)
        &&& r.alerts@[0].severity == AlertSeverity::Info
    }
    &&& r.stages@.len() == 1
    &&& r.stages@[0].stage == PipelineStage::ImageProbe
    &&& r.stages@[0].status == PipelineStageStatus::Success
    &&& r.stages@[0].detail@ == remux_detail(walk.num_frames, kept_chunk_count(walk.chunks), sc)
}

/// Read and check the leading IHDR chunk; its width and height.
fn read_ihdr_dimensions(input: &[u8], policy: &AnimatedImagePolicy) -> (res: Result<(u32, u32), DefenderError>)
    ensures
        match res {
            Ok((w, h)) => ihdr_dims(input@, policy.max_side as int) == Some((w as int, h as int)),
            Err(e) => ihdr_dims(input@, policy.max_side as int) is None && (e matches DefenderError::AnimatedImage(t)
                && t@ == ihdr_error(input@, policy.max_side as int)),
        },
{
    if input.len() < 33 {
        return Err(DefenderError::AnimatedImage("file too short to contain IHDR".to_owned()));
    }
    let ihdr_length = read_be_u32(input, 8);
    if ihdr_length != 13 {
        let mut m = "IHDR has unexpected length ".to_owned();
        push_decimal(&mut m, ihdr_length as u64);
        m.append(", expected 13");
        return Err(DefenderError::AnimatedImage(m));
    }
    if !matches_at(input, "IHDR".as_bytes(), 12) {
        return Err(DefenderError::AnimatedImage("first chunk is not IHDR".to_owned()));
    }
    let width = read_be_u32(input, 16);
    let height = read_be_u32(input, 20);
    if width == 0 || height == 0 {
        return Err(DefenderError::AnimatedImage("IHDR has zero width or height".to_owned()));
    }
    if width > policy.max_side || height > policy.max_side {
        let mut m = "IHDR dimension exceeds max_side: width=".to_owned();
        push_decimal(&mut m, width as u64);
        m.append(" height=");
        push_decimal(&mut m, height as u64);
        m.append(" max=");
        push_decimal(&mut m, policy.max_side as u64);
        return Err(DefenderError::AnimatedImage(m));
    }
    let bit_depth = input[24];
    let color_type = input[25];
    let valid = if color_type == 0 {
        bit_depth == 1 || bit_depth == 2 || bit_depth == 4 || bit_depth == 8 || bit_depth == 16
    } else if color_type == 2 {
        bit_depth == 8 || bit_depth == 16
    } else if color_type == 3 {
        bit_depth == 1 || bit_depth == 2 || bit_depth == 4 || bit_depth == 8
    } else if color_type == 4 {
        bit_depth == 8 || bit_depth == 16
    } else if color_type == 6 {
        bit_depth == 8 || bit_depth == 16
    } else {
        false
    };
    if !valid {
        let mut m = "IHDR has invalid color_type=".to_owned();
        push_decimal(&mut m, color_type as u64);
        m.append(" bit_depth=");
        push_decimal(&mut m, bit_depth as u64);
        m.append(" combination");
        return Err(DefenderError::AnimatedImage(m));
    }
    Ok((width, height))
}

/// A `PLTE` chunk must hold whole R/G/B triplets.
fn validate_plte(chunk_type: &[u8], length: u32) -> (res: Result<(), DefenderError>)
    ensures
        match res {
            Ok(()) => !(chunk_type@ == "PLTE".spec_bytes() && length % 3 != 0),
            Err(e) => chunk_type@ == "PLTE".spec_bytes() && length % 3 != 0 && (e matches DefenderError::AnimatedImage(t)
                && t@ == "PLTE chunk length "@ + decimal(length as nat) + " is not divisible by 3"@),
        },
{
    if crate::bytes::bytes_eq(chunk_type, "PLTE".as_bytes()) && length % 3 != 0 {
        let mut m = "PLTE chunk length ".to_owned();
        push_decimal(&mut m, length as u64);
        m.append(" is not divisible by 3");
        return Err(DefenderError::AnimatedImage(m));
    }
    Ok(())
}

/// Walk the chunks after the signature, checking each CRC, up to `IEND`.
fn walk_chunks(input: &[u8], policy: &AnimatedImagePolicy) -> (res: Result<WalkOutcome, DefenderError>)
    ensures
        match (res, chunk_walk(input@, policy.max_chunk_size as int, apng_walk_start(), policy.max_chunks as nat)) {
            (Ok(o), Ok(w)) => {
                &&& chunk_views(o.chunks@) == w.chunks
                &&& o.num_frames == w.num_frames
                &&& chunks_tile(w.chunks, w.offset)
                &&& w.offset <= input@.len()
                &&& w.chunks.len() <= policy.max_chunks
            },
            (Err(e), Err(m)) => e matches DefenderError::AnimatedImage(t) && t@ == m,
            _ => false,
        },
{
    proof {
        broadcast use vstd::string::group_string_axioms;
        reveal_strlit("PLTE");
        reveal_strlit("acTL");
        reveal_strlit("IEND");
    }
    let ghost b = input@;
    let ghost mcs = policy.max_chunk_size as int;
    let ghost plan = chunk_walk(b, mcs, apng_walk_start(), policy.max_chunks as nat);
    let len = input.len();
    let mut chunks: Vec<ChunkRef> = Vec::new();
    let mut num_frames: Option<u32> = None;
    let mut offset: usize = 8;
    let mut fuel: u32 = policy.max_chunks;
    proof {
        assert(chunk_views(chunks@) =~= apng_walk_start().chunks);
    }
    while fuel > 0
        invariant
            len == b.len(),
            b == input@,
            mcs == policy.max_chunk_size,
            fuel <= policy.max_chunks,
            chunks@.len() == policy.max_chunks - fuel,
            offset <= len || (offset == 8 && chunks@.len() == 0),
            chunks_tile(chunk_views(chunks@), offset as int),
            plan == chunk_walk(b, mcs, apng_walk_start(), policy.max_chunks as nat),
            plan == chunk_walk(
                b,
                mcs,
                ApngWalk { offset: offset as int, chunks: chunk_views(chunks@), num_frames },
                fuel as nat,
            ),
        decreases fuel,
    {
        let ghost cv = chunk_views(chunks@);
        if offset > len || len - offset < 12 {
            return Err(DefenderError::AnimatedImage("truncated chunk header".to_owned()));
        }
        let length = read_be_u32(input, offset);
        if length as u64 > policy.max_chunk_size {
            let mut m = "chunk payload ".to_owned();
            crate::text::push_decimal(&mut m, length as u64);
            m.append(" exceeds max_chunk_size ");
            crate::text::push_decimal(&mut m, policy.max_chunk_size);
            return Err(DefenderError::AnimatedImage(m));
        }
        let data_start = offset + 8;
        if length as usize > len - data_start {
            return Err(DefenderError::AnimatedImage("chunk data extends past end of file".to_owned()));
        }
        let data_end = data_start + length as usize;
        if len - data_end < 4 {
            return Err(DefenderError::AnimatedImage("chunk CRC extends past end of file".to_owned()));
        }
        let crc_end = data_end + 4;
        let stated_crc = read_be_u32(input, data_end);
        let computed_crc = png_crc32(slice_subrange(input, offset + 4, data_end));
        if stated_crc != computed_crc {
            let mut m = "CRC mismatch on chunk `".to_owned();
            crate::text::push_tag(&mut m, slice_subrange(input, offset + 4, offset + 8));
            m.append("`");
            return Err(DefenderError::AnimatedImage(m));
        }
        let chunk_type = slice_subrange(input, offset + 4, offset + 8);
        match validate_plte(chunk_type, length) {
            Ok(()) => {},
            Err(e) => return Err(e),
        }
        if crate::bytes::bytes_eq(chunk_type, "acTL".as_bytes()) && length >= 8 {
            num_frames = Some(read_be_u32(input, data_start));
        }
        let keep = is_critical_chunk(chunk_type);
        chunks.push(ChunkRef { offset, length, keep });
        proof {
            assert(chunk_views(chunks@) =~= cv.push((offset as int, length as int, keep)));
            let nv = chunk_views(chunks@);
            assert forall|j: int| 0 <= j < nv.len() implies {
                &&& #[trigger] nv[j].0 == chunk_start(nv, j)
                &&& nv[j].1 >= 0
                &&& nv[j].0 + 12 + nv[j].1 <= crc_end
            } by {
                if j < cv.len() {
                    assert(nv[j] == cv[j]);
                    assert(cv[j].0 == chunk_start(cv, j));
                    if j > 0 {
                        assert(nv[j - 1] == cv[j - 1]);
                    }
                }
            }
        }
        offset = crc_end;
        fuel = fuel - 1;
        if crate::bytes::bytes_eq(chunk_type, "IEND".as_bytes()) {
            return Ok(WalkOutcome { chunks, num_frames });
        }
    }
    Err(DefenderError::AnimatedImage("IEND terminator not found within max_chunks budget".to_owned()))
}

/// The signature and the kept chunks, with the tallies of the stripped and
/// the kept chunks.
#[verifier::rlimit(30)]
fn assemble_output(input: &[u8], chunks: &Vec<ChunkRef>, end: Ghost<int>) -> (res: (Vec<u8>, u32, u64, u32))
    requires
        chunks_tile(chunk_views(chunks@), end@),
        end@ <= input@.len(),
        chunks@.len() <= u32::MAX,
    ensures
        res.0@ == apng_output(input@, chunk_views(chunks@)),
        res.1 == stripped_chunk_count(chunk_views(chunks@)),
        res.2 == stripped_chunk_bytes(chunk_views(chunks@)),
        res.3 == kept_chunk_count(chunk_views(chunks@)),
{
    let ghost b = input@;
    let ghost cv = chunk_views(chunks@);
    let mut output: Vec<u8> = Vec::new();
    output.push(0x89u8);
    output.push(0x50u8);
    output.push(0x4Eu8);
    output.push(0x47u8);
    output.push(0x0Du8);
    output.push(0x0Au8);
    output.push(0x1Au8);
    output.push(0x0Au8);
    let mut stripped_count: u32 = 0;
    let mut stripped_bytes: u64 = 0;
    let mut kept_count: u32 = 0;
    let mut k: usize = 0;
    let len = input.len();
    proof {
        assert(cv.subrange(0, 0) =~= Seq::<(int, int, bool)>::empty());
        assert(output@ =~= png_signature() + kept_bytes(b, cv.subrange(0, 0)));
    }
    while k < chunks.len()
        invariant
            b == input@,
            len == b.len(),
            k <= cv.len(),
            cv == chunk_views(chunks@),
            chunks_tile(cv, end@),
            end@ <= b.len(),
            cv.len() <= u32::MAX,
            output@ == png_signature() + kept_bytes(b, cv.subrange(0, k as int)),
            stripped_count == stripped_chunk_count(cv.subrange(0, k as int)),
            stripped_bytes == stripped_chunk_bytes(cv.subrange(0, k as int)),
            kept_count + stripped_count == k,
            output@.len() + stripped_bytes == chunk_start(cv, k as int),
        decreases cv.len() - k,
    {
        let c = &chunks[k];
        proof {
            assert(cv[k as int] == (c.offset as int, c.length as int, c.keep));
            assert(cv[k as int].0 == chunk_start(cv, k as int));
            assert(cv[k as int].0 + 12 + cv[k as int].1 <= end@);
            assert(cv.subrange(0, k + 1).drop_last() =~= cv.subrange(0, k as int));
            assert(cv.subrange(0, k + 1).last() == cv[k as int]);
        }
        let chunk_end = c.offset + 12 + c.length as usize;
        if c.keep {
            push_range(&mut output, input, c.offset, chunk_end);
            kept_count = kept_count + 1;
        } else {
            stripped_count = stripped_count + 1;
            stripped_bytes = stripped_bytes + 12 + c.length as u64;
        }
        k = k + 1;
    }
    proof {
        assert(cv.subrange(0, cv.len() as int) =~= cv);
    }
    (output, stripped_count, stripped_bytes, kept_count)
}

impl AnimatedImageHandler {
    /// The policy the handler enforces.
    pub closed spec fn spec_policy(&self) -> AnimatedImagePolicy {
        self.policy
    }

    pub fn new(policy: AnimatedImagePolicy) -> (res: Self)
        ensures
            res.spec_policy() == policy,
    {
        Self { policy }
    }

    /// Re-mux an APNG/PNG: check its structure against the policy and keep
    /// only the chunks needed for rendering. Cancellation and the timeout of
    /// `context` are checked once the chunks have been walked.
    pub fn rebuild(&self, input_bytes: Vec<u8>, context: DefenseContext) -> (res: Result<HandlerResult, DefenderError>)
        ensures
            apng_outcome(self.spec_policy(), input_bytes@, context, res),
    {
        let sig: [u8; 8] = [0x89, 0x50, 0x4E, 0x47, 0x0D, 0x0A, 0x1A, 0x0A];
        assert(sig@ == png_signature());
        let input = input_bytes.as_slice();
        let ghost b = input@;
        if input.len() < 8 || !matches_at(input, &sig, 0) {
            return Err(DefenderError::AnimatedImage("input is not a PNG (signature mismatch)".to_owned()));
        }
        let (width, height) = match read_ihdr_dimensions(input, &self.policy) {
            Ok(d) => d,
            Err(e) => return Err(e),
        };
        proof {
            assert((width as int) * (height as int) <= u64::MAX) by (nonlinear_arith)
                requires
                    width <= u32::MAX,
                    height <= u32::MAX,
            ;
        }
        let per_frame_pixels: u64 = (width as u64) * (height as u64);
        if per_frame_pixels > self.policy.max_pixels_per_frame {
            let mut m = "per-frame pixel count ".to_owned();
            crate::text::push_decimal(&mut m, per_frame_pixels);
            m.append(" exceeds max_pixels_per_frame ");
            crate::text::push_decimal(&mut m, self.policy.max_pixels_per_frame);
            return Err(DefenderError::AnimatedImage(m));
        }
        let walked = match walk_chunks(input, &self.policy) {
            Ok(w) => w,
            Err(e) => return Err(e),
        };
        let ghost walk = chunk_walk(b, self.policy.max_chunk_size as int, apng_walk_start(), self.policy.max_chunks as nat)->Ok_0;
        match context.check_limits() {
            Ok(()) => {},
            Err(e) => return Err(e),
        }
        if let Some(frames) = walked.num_frames {
            if frames == 0 {
                return Err(DefenderError::AnimatedImage("acTL declares zero frames".to_owned()));
            }
            if frames > self.policy.max_frames {
                let mut m = "frame count ".to_owned();
                crate::text::push_decimal(&mut m, frames as u64);
                m.append(" exceeds max_frames ");
                crate::text::push_decimal(&mut m, self.policy.max_frames as u64);
                return Err(DefenderError::AnimatedImage(m));
            }
            let f = frames as u64;
            let total_pixels: u64 = if per_frame_pixels > 0 && f > u64::MAX / per_frame_pixels {
                proof {
                    assert(per_frame_pixels * f > u64::MAX) by (nonlinear_arith)
                        requires
                            per_frame_pixels > 0,
                            f > u64::MAX / per_frame_pixels,
                    ;
                }
                u64::MAX
            } else {
                proof {
                    assert(per_frame_pixels * f <= u64::MAX) by (nonlinear_arith)
                        requires
                            per_frame_pixels == 0 || f <= u64::MAX / per_frame_pixels,
                    ;
                }
                per_frame_pixels * f
            };
            proof {
                assert(total_pixels == sat_u64(width * height * frames));
            }
            if total_pixels > self.policy.max_total_pixels {
                let mut m = "total pixel count ".to_owned();
                crate::text::push_decimal(&mut m, total_pixels);
                m.append(" exceeds max_total_pixels ");
                crate::text::push_decimal(&mut m, self.policy.max_total_pixels);
                return Err(DefenderError::AnimatedImage(m));
            }
        }
        // Emit the kept chunks whole: their CRCs have been checked.
        let (output, stripped_count, stripped_bytes, kept_count) = assemble_output(
            input,
            &walked.chunks,
            Ghost(walk.offset),
        );
        let mut alerts: Vec<DefenseAlert> = Vec::new();
        if stripped_count > 0 {
            let mut msg = "Stripped ".to_owned();
            push_decimal(&mut msg, stripped_count as u64);
            msg.append(" non-critical PNG chunk(s), ");
            push_decimal(&mut msg, stripped_bytes);
            msg.append(" bytes.");
            alerts.push(
                DefenseAlert { code: "apng_metadata_stripped".to_owned(), message: msg, severity: AlertSeverity::Info },
            );
        }
        let mut detail = "animated_image remux frames=".to_owned();
        match walked.num_frames {
            Some(f) => push_decimal(&mut detail, f as u64),
            None => detail.append("static"),
        }
        detail.append(" chunks_kept=");
        push_decimal(&mut detail, kept_count as u64);
        detail.append(" chunks_stripped=");
        push_decimal(&mut detail, stripped_count as u64);
        let mut stages: Vec<PipelineStageReport> = Vec::new();
        stages.push(
            PipelineStageReport { stage: PipelineStage::ImageProbe, status: PipelineStageStatus::Success, detail },
        );
        let mime = if walked.num_frames.is_some() {
            "image/apng".to_owned()
        } else {
            "image/png".to_owned()
        };
        Ok(HandlerResult { mime, output_bytes: output, alerts, stages })
    }
}

} // verus!
