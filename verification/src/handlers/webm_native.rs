//! WebM / Matroska sanitizer: an EBML element walker.
//!
//! EBML stores element IDs and sizes as variable-length integers (VINTs).
//! Metadata lives in the `Tags`, `Attachments` and `Chapters` children of
//! the top-level `Segment`; they are dropped, every other element (the
//! `Cluster`s with the encoded frames among them) is copied bit for bit, and
//! a Segment of known size gets its size field rewritten in place.
use vstd::prelude::*;

use crate::bytes::{push_all, push_range};
use crate::error::DefenderError;
use crate::text::{decimal, upper_hex};

verus! {

/// What the WebM sanitizer produced.
pub struct WebmSanitizeResult {
    pub output_bytes: Vec<u8>,
    pub stripped_count: u32,
    pub stripped_bytes: u64,
}

/// The `Segment` element ID.
pub const ID_SEGMENT: u32 = 0x18538067;

/// Most Segment children walked.
pub const MAX_ELEMENTS: u32 = 65536;

/// Most bytes an unknown-size child may claim.
pub const MAX_UNKNOWN_ELEMENT: u64 = 524288000;

/// Most top-level elements walked.
pub const MAX_TOP_LEVEL: u32 = 16;

/// The IDs dropped from the Segment: Tags, Attachments, Chapters.
pub open spec fn is_stripped_id(id: u32) -> bool {
    id == 0x1254C367u32 || id == 0x1941A469u32 || id == 0x1043A770u32
}

/// Length of a VINT from its first byte: one more than the number of
/// leading zero bits, and 0 for the invalid first byte 0x00.
pub open spec fn vint_len(first: u8) -> int {
    if first >= 0x80 {
        1
    } else if first >= 0x40 {
        2
    } else if first >= 0x20 {
        3
    } else if first >= 0x10 {
        4
    } else if first >= 0x08 {
        5
    } else if first >= 0x04 {
        6
    } else if first >= 0x02 {
        7
    } else if first >= 0x01 {
        8
    } else {
        0
    }
}

/// The data bits of the first byte of a VINT of the given length (the
/// marker bit and the zeros before it cleared).
pub open spec fn size_mask(len: int) -> u8 {
    if len == 1 {
        0x7F
    } else if len == 2 {
        0x3F
    } else if len == 3 {
        0x1F
    } else if len == 4 {
        0x0F
    } else if len == 5 {
        0x07
    } else if len == 6 {
        0x03
    } else if len == 7 {
        0x01
    } else {
        0x00
    }
}

/// The marker bit of a VINT size of the given length, `1 << (7 * len)`.
pub open spec fn vint_marker(len: int) -> u64 {
    if len == 1 {
        0x80
    } else if len == 2 {
        0x4000
    } else if len == 3 {
        0x20_0000
    } else if len == 4 {
        0x1000_0000
    } else if len == 5 {
        0x8_0000_0000
    } else if len == 6 {
        0x400_0000_0000
    } else if len == 7 {
        0x2_0000_0000_0000
    } else {
        0x100_0000_0000_0000
    }
}

/// The reserved "unknown size" value: every data bit set.
pub open spec fn unknown_size(len: int) -> u64 {
    (vint_marker(len) - 1) as u64
}

/// An element ID: the first `n` raw bytes at `off`, shifted into a `u32`
/// (marker bits included, higher bytes shifted out).
pub open spec fn id_acc(b: Seq<u8>, off: int, n: nat) -> u32
    decreases n,
{
    if n == 0 {
        0
    } else {
        (id_acc(b, off, (n - 1) as nat) << 8u32) | (b[off + n - 1] as u32)
    }
}

/// A size's data bits: the masked first byte, then `n` further bytes.
pub open spec fn size_acc(b: Seq<u8>, off: int, len: int, n: nat) -> u64
    decreases n,
{
    if n == 0 {
        (b[off] & size_mask(len)) as u64
    } else {
        (size_acc(b, off, len, (n - 1) as nat) << 8u64) | (b[off + n] as u64)
    }
}

/// The element ID at `off` and its length, or `None` when it is truncated
/// or starts with 0x00.
pub open spec fn spec_read_id(b: Seq<u8>, off: int) -> Option<(u32, int)> {
    if off < 0 || off >= b.len() {
        None
    } else {
        let n = vint_len(b[off]);
        if n == 0 || off + n > b.len() {
            None
        } else {
            Some((id_acc(b, off, n as nat), n))
        }
    }
}

/// Why no element ID can be read at `off`.
pub open spec fn id_error(b: Seq<u8>, off: int) -> Seq<char> {
    if off < 0 || off >= b.len() {
        "EBML ID truncated"@
    } else if b[off] == 0 {
        "EBML VINT starts with 0x00 (invalid)"@
    } else {
        "EBML ID extends past end"@
    }
}

/// Why no element size can be read at `off`.
pub open spec fn size_error(b: Seq<u8>, off: int) -> Seq<char> {
    if off < 0 || off >= b.len() {
        "EBML size truncated"@
    } else if b[off] == 0 {
        "EBML VINT starts with 0x00 (invalid)"@
    } else {
        "EBML size extends past end"@
    }
}

/// The element size at `off` and its length (`u64::MAX` for the unknown
/// size), or `None` when it is truncated or starts with 0x00.
pub open spec fn spec_read_size(b: Seq<u8>, off: int) -> Option<(u64, int)> {
    if off < 0 || off >= b.len() {
        None
    } else {
        let n = vint_len(b[off]);
        if n == 0 || off + n > b.len() {
            None
        } else {
            let v = size_acc(b, off, n, (n - 1) as nat);
            Some((if v == unknown_size(n) { u64::MAX } else { v }, n))
        }
    }
}

/// The `len` bytes of a size field holding `value`: the marker bit or-ed in,
/// most significant byte first.
pub open spec fn vint_size_bytes(value: u64, len: int) -> Seq<u8> {
    Seq::new(
        len as nat,
        |i: int| (((vint_marker(len) | value) >> ((8 * (len - 1 - i)) as u64)) & 0xFFu64) as u8,
    )
}

/// State of a walk: the next offset, the bytes kept so far and the tallies.
pub struct WebmWalk {
    pub offset: int,
    pub out: Seq<u8>,
    pub stripped_count: int,
    pub stripped_bytes: int,
}

pub open spec fn walk_at(offset: int) -> WebmWalk {
    WebmWalk { offset, out: Seq::empty(), stripped_count: 0, stripped_bytes: 0 }
}

/// Where a Segment child starting at data offset `ds` with size `size` ends
/// within a Segment ending at `end`; `None` when it overruns the Segment.
pub open spec fn child_end(ds: int, size: u64, end: int) -> Option<int> {
    if size == u64::MAX {
        let remaining = if end > ds { end - ds } else { 0 };
        Some(ds + if remaining < MAX_UNKNOWN_ELEMENT { remaining } else { MAX_UNKNOWN_ELEMENT as int })
    } else if ds + size > end {
        None
    } else {
        Some(ds + size)
    }
}

/// Walk at most `fuel` Segment children up to `end`, dropping the stripped
/// IDs. `Err` for a bad VINT or a child overrunning the Segment.
pub open spec fn children_walk(b: Seq<u8>, end: int, st: WebmWalk, fuel: nat) -> Result<WebmWalk, Seq<char>>
    decreases fuel,
{
    if fuel == 0 || st.offset >= end || st.offset + 2 > b.len() {
        Ok(st)
    } else {
        match spec_read_id(b, st.offset) {
            None => Err(id_error(b, st.offset)),
            Some((id, il)) => if st.offset + il >= b.len() {
                Ok(st)
            } else {
                match spec_read_size(b, st.offset + il) {
                    None => Err(size_error(b, st.offset + il)),
                    Some((size, sl)) => match child_end(st.offset + il + sl, size, end) {
                        None => Err(
                            "WebM element 0x"@ + upper_hex(id as nat) + " at offset "@ + decimal(st.offset as nat)
                                + " extends past Segment boundary"@,
                        ),
                        Some(ee) => {
                            let next = if is_stripped_id(id) {
                                WebmWalk {
                                    offset: ee,
                                    out: st.out,
                                    stripped_count: st.stripped_count + 1,
                                    stripped_bytes: st.stripped_bytes + (ee - st.offset),
                                }
                            } else {
                                WebmWalk {
                                    offset: ee,
                                    out: st.out + b.subrange(st.offset, ee),
                                    stripped_count: st.stripped_count,
                                    stripped_bytes: st.stripped_bytes,
                                }
                            };
                            children_walk(b, end, next, (fuel - 1) as nat)
                        },
                    },
                }
            },
        }
    }
}

/// A Segment child with the ID of Tags (0x1254C367), Attachments
/// (0x1941A469) or Chapters (0x1043A770) is never copied: the walk goes on
/// past it with the output unchanged and one more element stripped. Any
/// other child is copied verbatim, header and data.
pub proof fn law_webm_drops_metadata_children(
    b: Seq<u8>,
    end: int,
    st: WebmWalk,
    fuel: nat,
    id: u32,
    il: int,
    size: u64,
    sl: int,
    ee: int,
)
    requires
        fuel > 0,
        st.offset < end,
        st.offset + 2 <= b.len(),
        spec_read_id(b, st.offset) == Some((id, il)),
        st.offset + il < b.len(),
        spec_read_size(b, st.offset + il) == Some((size, sl)),
        child_end(st.offset + il + sl, size, end) == Some(ee),
    ensures
        id == 0x1254C367u32 || id == 0x1941A469u32 || id == 0x1043A770u32 ==> children_walk(b, end, st, fuel)
            == children_walk(
            b,
            end,
            WebmWalk {
                offset: ee,
                out: st.out,
                stripped_count: st.stripped_count + 1,
                stripped_bytes: st.stripped_bytes + (ee - st.offset),
            },
            (fuel - 1) as nat,
        ),
        !(id == 0x1254C367u32 || id == 0x1941A469u32 || id == 0x1043A770u32) ==> children_walk(b, end, st, fuel)
            == children_walk(
            b,
            end,
            WebmWalk {
                offset: ee,
                out: st.out + b.subrange(st.offset, ee),
                stripped_count: st.stripped_count,
                stripped_bytes: st.stripped_bytes,
            },
            (fuel - 1) as nat,
        ),
{
}

/// `v`, or `u64::MAX` when it is larger.
pub open spec fn sat_u64(v: int) -> int {
    if v > u64::MAX { u64::MAX as int } else { v }
}

/// Where a top-level element with data at `ds` and size `size` ends;
/// `None` when it overruns the file.
pub open spec fn top_end(ds: int, size: u64, len: int) -> Option<int> {
    if size == u64::MAX {
        Some(len)
    } else if ds + size > len {
        None
    } else {
        Some(ds + size)
    }
}

/// Walk at most `fuel` top-level elements: a Segment has its children
/// filtered (and its size rewritten when it was known), anything else is
/// copied verbatim.
pub open spec fn top_walk(b: Seq<u8>, st: WebmWalk, fuel: nat) -> Result<WebmWalk, Seq<char>>
    decreases fuel,
{
    if fuel == 0 || st.offset >= b.len() {
        Ok(st)
    } else {
        match spec_read_id(b, st.offset) {
            None => Err(id_error(b, st.offset)),
            Some((id, il)) => match spec_read_size(b, st.offset + il) {
                None => Err(size_error(b, st.offset + il)),
                Some((size, sl)) => {
                    let ds = st.offset + il + sl;
                    match top_end(ds, size, b.len() as int) {
                        None => if id == ID_SEGMENT {
                            Err("WebM Segment extends past end of file"@)
                        } else {
                            Err("WebM top-level element extends past end of file"@)
                        },
                        Some(ee) => if id == ID_SEGMENT {
                            match children_walk(b, ee, walk_at(ds), MAX_ELEMENTS as nat) {
                                Err(m) => Err(m),
                                Ok(c) => {
                                    let header = if size == u64::MAX {
                                        b.subrange(st.offset, ds)
                                    } else {
                                        b.subrange(st.offset, st.offset + il) + vint_size_bytes(c.out.len() as u64, sl)
                                    };
                                    top_walk(
                                        b,
                                        WebmWalk {
                                            offset: ee,
                                            out: st.out + header + c.out,
                                            stripped_count: st.stripped_count + c.stripped_count,
                                            stripped_bytes: sat_u64(st.stripped_bytes + c.stripped_bytes),
                                        },
                                        (fuel - 1) as nat,
                                    )
                                },
                            }
                        } else {
                            top_walk(
                                b,
                                WebmWalk {
                                    offset: ee,
                                    out: st.out + b.subrange(st.offset, ee),
                                    stripped_count: st.stripped_count,
                                    stripped_bytes: st.stripped_bytes,
                                },
                                (fuel - 1) as nat,
                            )
                        },
                    }
                },
            },
        }
    }
}

/// A top-level Segment (ID 0x18538067) is not copied as it stands: its
/// children are filtered, and its size field is rewritten for the filtered
/// children when the size was known. Any other top-level element is copied
/// verbatim.
pub proof fn law_webm_filters_segments(b: Seq<u8>, st: WebmWalk, fuel: nat, id: u32, il: int, size: u64, sl: int, ee: int)
    requires
        fuel > 0,
        st.offset < b.len(),
        spec_read_id(b, st.offset) == Some((id, il)),
        spec_read_size(b, st.offset + il) == Some((size, sl)),
        top_end(st.offset + il + sl, size, b.len() as int) == Some(ee),
    ensures
        id == 0x18538067u32 ==> top_walk(b, st, fuel) == match children_walk(
            b,
            ee,
            walk_at(st.offset + il + sl),
            MAX_ELEMENTS as nat,
        ) {
            Err(m) => Err(m),
            Ok(c) => top_walk(
                b,
                WebmWalk {
                    offset: ee,
                    out: st.out + (if size == u64::MAX {
                        b.subrange(st.offset, st.offset + il + sl)
                    } else {
                        b.subrange(st.offset, st.offset + il) + vint_size_bytes(c.out.len() as u64, sl)
                    }) + c.out,
                    stripped_count: st.stripped_count + c.stripped_count,
                    stripped_bytes: sat_u64(st.stripped_bytes + c.stripped_bytes),
                },
                (fuel - 1) as nat,
            ),
        },
        id != 0x18538067u32 ==> top_walk(b, st, fuel) == top_walk(
            b,
            WebmWalk {
                offset: ee,
                out: st.out + b.subrange(st.offset, ee),
                stripped_count: st.stripped_count,
                stripped_bytes: st.stripped_bytes,
            },
            (fuel - 1) as nat,
        ),
{
}

/// Whether the input starts with the EBML header ID.
pub open spec fn is_ebml(b: Seq<u8>) -> bool {
    b.len() >= 4 && b[0] == 0x1A && b[1] == 0x45 && b[2] == 0xDF && b[3] == 0xA3
}

/// The WebM sanitizer's decision: `None` when the input is not EBML.
pub open spec fn webm_plan(b: Seq<u8>) -> Option<Result<WebmWalk, Seq<char>>> {
    if !is_ebml(b) {
        None
    } else {
        Some(top_walk(b, walk_at(0), MAX_TOP_LEVEL as nat))
    }
}

/// The length of a VINT from its first byte; an error for 0x00.
pub fn vint_length(first_byte: u8) -> (res: Result<usize, DefenderError>)
    ensures
        match res {
            Ok(n) => first_byte != 0 && n == vint_len(first_byte) && 1 <= n <= 8,
            Err(e) => first_byte == 0 && (e matches DefenderError::Video(t) && t@ == "EBML VINT starts with 0x00 (invalid)"@),
        },
{
    if first_byte == 0 {
        return Err(DefenderError::Video("EBML VINT starts with 0x00 (invalid)".to_owned()));
    }
    let n: usize = if first_byte >= 0x80 {
        1
    } else if first_byte >= 0x40 {
        2
    } else if first_byte >= 0x20 {
        3
    } else if first_byte >= 0x10 {
        4
    } else if first_byte >= 0x08 {
        5
    } else if first_byte >= 0x04 {
        6
    } else if first_byte >= 0x02 {
        7
    } else {
        8
    };
    Ok(n)
}

/// Read an element ID (marker bits are part of the ID).
pub fn read_vint_id(data: &[u8], offset: usize) -> (res: Result<(u32, usize), DefenderError>)
    ensures
        match res {
            Ok((id, n)) => spec_read_id(data@, offset as int) == Some((id, n as int)) && 1 <= n <= 8,
            Err(e) => spec_read_id(data@, offset as int) is None && (e matches DefenderError::Video(t) && t@
                == id_error(data@, offset as int)),
        },
{
    if offset >= data.len() {
        return Err(DefenderError::Video("EBML ID truncated".to_owned()));
    }
    let len = match vint_length(data[offset]) {
        Ok(n) => n,
        Err(e) => return Err(e),
    };
    if len > data.len() - offset {
        return Err(DefenderError::Video("EBML ID extends past end".to_owned()));
    }
    let mut value: u32 = 0;
    let mut i: usize = 0;
    while i < len
        invariant
            i <= len <= 8,
            offset + len <= data.len(),
            value == id_acc(data@, offset as int, i as nat),
        decreases len - i,
    {
        value = (value << 8u32) | (data[offset + i] as u32);
        i = i + 1;
    }
    Ok((value, len))
}

/// Read an element size (marker bits cleared); `u64::MAX` stands for the
/// unknown size (every data bit set).
pub fn read_vint_size(data: &[u8], offset: usize) -> (res: Result<(u64, usize), DefenderError>)
    ensures
        match res {
            Ok((size, n)) => spec_read_size(data@, offset as int) == Some((size, n as int)) && 1 <= n <= 8,
            Err(e) => spec_read_size(data@, offset as int) is None && (e matches DefenderError::Video(t) && t@
                == size_error(data@, offset as int)),
        },
{
    if offset >= data.len() {
        return Err(DefenderError::Video("EBML size truncated".to_owned()));
    }
    let first = data[offset];
    let len = match vint_length(first) {
        Ok(n) => n,
        Err(e) => return Err(e),
    };
    if len > data.len() - offset {
        return Err(DefenderError::Video("EBML size extends past end".to_owned()));
    }
    let mask: u8 = if len == 1 {
        0x7F
    } else if len == 2 {
        0x3F
    } else if len == 3 {
        0x1F
    } else if len == 4 {
        0x0F
    } else if len == 5 {
        0x07
    } else if len == 6 {
        0x03
    } else if len == 7 {
        0x01
    } else {
        0x00
    };
    let mut value: u64 = (first & mask) as u64;
    let mut i: usize = 1;
    while i < len
        invariant
            1 <= i <= len <= 8,
            offset + len <= data.len(),
            first == data@[offset as int],
            mask == size_mask(len as int),
            value == size_acc(data@, offset as int, len as int, (i - 1) as nat),
        decreases len - i,
    {
        value = (value << 8u64) | (data[offset + i] as u64);
        i = i + 1;
    }
    let marker: u64 = if len == 1 {
        0x80
    } else if len == 2 {
        0x4000
    } else if len == 3 {
        0x20_0000
    } else if len == 4 {
        0x1000_0000
    } else if len == 5 {
        0x8_0000_0000
    } else if len == 6 {
        0x400_0000_0000
    } else if len == 7 {
        0x2_0000_0000_0000
    } else {
        0x100_0000_0000_0000
    };
    if value == marker - 1 {
        return Ok((u64::MAX, len));
    }
    Ok((value, len))
}

/// Append `value` as a size field of exactly `byte_len` bytes.
pub fn write_vint_size(output: &mut Vec<u8>, value: u64, byte_len: usize)
    requires
        1 <= byte_len <= 8,
    ensures
        final(output)@ == old(output)@ + vint_size_bytes(value, byte_len as int),
{
    let marker: u64 = if byte_len == 1 {
        0x80
    } else if byte_len == 2 {
        0x4000
    } else if byte_len == 3 {
        0x20_0000
    } else if byte_len == 4 {
        0x1000_0000
    } else if byte_len == 5 {
        0x8_0000_0000
    } else if byte_len == 6 {
        0x400_0000_0000
    } else if byte_len == 7 {
        0x2_0000_0000_0000
    } else {
        0x100_0000_0000_0000
    };
    let encoded = marker | value;
    let ghost bytes = vint_size_bytes(value, byte_len as int);
    let mut i = byte_len;
    while i > 0
        invariant
            i <= byte_len <= 8,
            encoded == vint_marker(byte_len as int) | value,
            bytes == vint_size_bytes(value, byte_len as int),
            output@ == old(output)@ + bytes.subrange(0, byte_len - i),
        decreases i,
    {
        i = i - 1;
        let shift: u64 = (i * 8) as u64;
        output.push(((encoded >> shift) & 0xFFu64) as u8);
        proof {
            assert(bytes[byte_len - 1 - i] == ((encoded >> shift) & 0xFFu64) as u8);
            assert(output@ =~= old(output)@ + bytes.subrange(0, byte_len - i));
        }
    }
    proof {
        assert(bytes.subrange(0, byte_len as int) =~= bytes);
    }
}

/// Walk the children of a Segment spanning `start..end`, dropping Tags,
/// Attachments and Chapters and keeping everything else.
fn filter_segment_children(input: &[u8], start: usize, end: usize) -> (res: Result<
    (Vec<u8>, u32, u64),
    DefenderError,
>)
    requires
        start <= end <= input@.len(),
    ensures
        match (res, children_walk(input@, end as int, walk_at(start as int), MAX_ELEMENTS as nat)) {
            (Ok((out, sc, sb)), Ok(w)) => {
                &&& out@ == w.out
                &&& sc == w.stripped_count
                &&& sb == w.stripped_bytes
                &&& sc <= MAX_ELEMENTS
                &&& sb + out@.len() <= end - start + 16
                &&& sb + out@.len() <= input@.len() - start
            },
            (Err(e), Err(m)) => e matches DefenderError::Video(t) && t@ == m,
            _ => false,
        },
{
    let len = input.len();
    let mut output: Vec<u8> = Vec::new();
    let mut offset = start;
    let mut stripped_count: u32 = 0;
    let mut stripped_bytes: u64 = 0;
    let mut fuel: u32 = MAX_ELEMENTS;
    let ghost plan = children_walk(input@, end as int, walk_at(start as int), MAX_ELEMENTS as nat);
    proof {
        assert(output@ =~= walk_at(start as int).out);
    }
    while fuel > 0 && offset < end && len - offset >= 2
        invariant
            len == input@.len(),
            start <= end <= len,
            start <= offset <= len,
            fuel <= MAX_ELEMENTS,
            stripped_count <= MAX_ELEMENTS - fuel,
            stripped_bytes + output@.len() <= offset - start,
            offset <= end + 16,
            plan == children_walk(input@, end as int, walk_at(start as int), MAX_ELEMENTS as nat),
            plan == children_walk(
                input@,
                end as int,
                WebmWalk {
                    offset: offset as int,
                    out: output@,
                    stripped_count: stripped_count as int,
                    stripped_bytes: stripped_bytes as int,
                },
                fuel as nat,
            ),
        decreases fuel,
    {
        let ghost st = WebmWalk {
            offset: offset as int,
            out: output@,
            stripped_count: stripped_count as int,
            stripped_bytes: stripped_bytes as int,
        };
        let (id, id_len) = match read_vint_id(input, offset) {
            Ok(r) => r,
            Err(e) => {
                proof {
                    assert(spec_read_id(input@, offset as int) is None);
                    assert(children_walk(input@, end as int, st, fuel as nat) == Err::<WebmWalk, Seq<char>>(
                        id_error(input@, offset as int),
                    ));
                }
                return Err(e);
            },
        };
        if id_len >= len - offset {
            proof {
                assert(children_walk(input@, end as int, st, fuel as nat) == Ok::<WebmWalk, Seq<char>>(st));
            }
            return Ok((output, stripped_count, stripped_bytes));
        }
        let (size, size_len) = match read_vint_size(input, offset + id_len) {
            Ok(r) => r,
            Err(e) => return Err(e),
        };
        let ds = offset + id_len + size_len;
        let elem_end = if size == u64::MAX {
            let remaining: usize = if end > ds { end - ds } else { 0 };
            let capped: usize = if (remaining as u64) < MAX_UNKNOWN_ELEMENT { remaining } else { MAX_UNKNOWN_ELEMENT as usize };
            ds + capped
        } else {
            if ds > end || size > (end - ds) as u64 {
                let mut m = "WebM element 0x".to_owned();
                crate::text::push_upper_hex(&mut m, id as u64);
                m.append(" at offset ");
                crate::text::push_decimal(&mut m, offset as u64);
                m.append(" extends past Segment boundary");
                return Err(DefenderError::Video(m));
            }
            ds + size as usize
        };
        let is_stripped = id == 0x1254C367u32 || id == 0x1941A469u32 || id == 0x1043A770u32;
        if is_stripped {
            stripped_count = stripped_count + 1;
            stripped_bytes = stripped_bytes + (elem_end - offset) as u64;
        } else {
            push_range(&mut output, input, offset, elem_end);
        }
        offset = elem_end;
        fuel = fuel - 1;
    }
    Ok((output, stripped_count, stripped_bytes))
}

/// Walk the top-level elements: the EBML header and the Segment(s).
fn sanitize_webm(input: &[u8]) -> (res: Result<WebmSanitizeResult, DefenderError>)
    ensures
        match (res, top_walk(input@, walk_at(0), MAX_TOP_LEVEL as nat)) {
            (Ok(r), Ok(w)) => {
                &&& r.output_bytes@ == w.out
                &&& r.stripped_count == w.stripped_count
                &&& r.stripped_bytes == w.stripped_bytes
            },
            (Err(e), Err(m)) => e matches DefenderError::Video(t) && t@ == m,
            _ => false,
        },
{
    let len = input.len();
    let mut output: Vec<u8> = Vec::new();
    let mut offset: usize = 0;
    let mut stripped_count: u32 = 0;
    let mut stripped_bytes: u64 = 0;
    let mut fuel: u32 = MAX_TOP_LEVEL;
    let ghost plan = top_walk(input@, walk_at(0), MAX_TOP_LEVEL as nat);
    proof {
        assert(output@ =~= walk_at(0).out);
    }
    while fuel > 0 && offset < len
        invariant
            len == input@.len(),
            offset <= len,
            fuel <= MAX_TOP_LEVEL,
            stripped_count <= (MAX_TOP_LEVEL - fuel) * MAX_ELEMENTS,
            plan == top_walk(input@, walk_at(0), MAX_TOP_LEVEL as nat),
            plan == top_walk(
                input@,
                WebmWalk {
                    offset: offset as int,
                    out: output@,
                    stripped_count: stripped_count as int,
                    stripped_bytes: stripped_bytes as int,
                },
                fuel as nat,
            ),
        decreases fuel,
    {
        let ghost st = WebmWalk {
            offset: offset as int,
            out: output@,
            stripped_count: stripped_count as int,
            stripped_bytes: stripped_bytes as int,
        };
        let (id, id_len) = match read_vint_id(input, offset) {
            Ok(r) => r,
            Err(e) => {
                proof {
                    assert(top_walk(input@, st, fuel as nat) == Err::<WebmWalk, Seq<char>>(
                        id_error(input@, offset as int),
                    ));
                }
                return Err(e);
            },
        };
        let (size, size_len) = match read_vint_size(input, offset + id_len) {
            Ok(r) => r,
            Err(e) => {
                proof {
                    assert(top_walk(input@, st, fuel as nat) is Err);
                }
                return Err(e);
            },
        };
        let ds = offset + id_len + size_len;
        let elem_end = if size == u64::MAX {
            len
        } else {
            if size > (len - ds) as u64 {
                if id == ID_SEGMENT {
                    return Err(DefenderError::Video("WebM Segment extends past end of file".to_owned()));
                }
                return Err(DefenderError::Video("WebM top-level element extends past end of file".to_owned()));
            }
            ds + size as usize
        };
        if id == ID_SEGMENT {
            let (clean, csc, csb) = match filter_segment_children(input, ds, elem_end) {
                Ok(r) => r,
                Err(e) => {
                    proof {
                        assert(top_walk(input@, st, fuel as nat) is Err);
                    }
                    return Err(e);
                },
            };
            stripped_count = stripped_count + csc;
            stripped_bytes = stripped_bytes.saturating_add(csb);
            let ghost header = if size == u64::MAX {
                input@.subrange(offset as int, ds as int)
            } else {
                input@.subrange(offset as int, offset + id_len) + vint_size_bytes(clean@.len() as u64, size_len as int)
            };
            if size != u64::MAX {
                push_range(&mut output, input, offset, offset + id_len);
                write_vint_size(&mut output, clean.len() as u64, size_len);
            } else {
                push_range(&mut output, input, offset, ds);
            }
            push_all(&mut output, clean.as_slice());
            proof {
                assert(output@ =~= st.out + header + clean@);
            }
        } else {
            push_range(&mut output, input, offset, elem_end);
        }
        offset = elem_end;
        fuel = fuel - 1;
    }
    Ok(WebmSanitizeResult { output_bytes: output, stripped_count, stripped_bytes })
}

/// Strip Tags, Attachments and Chapters from a WebM/Matroska file. `None`
/// when the input does not start with the EBML header ID.
pub fn try_sanitize_webm(input: &[u8]) -> (res: Option<Result<WebmSanitizeResult, DefenderError>>)
    ensures
        match (res, webm_plan(input@)) {
            (None, None) => true,
            (Some(Err(e)), Some(Err(m))) => e matches DefenderError::Video(t) && t@ == m,
            (Some(Ok(r)), Some(Ok(w))) => {
                &&& r.output_bytes@ == w.out
                &&& r.stripped_count == w.stripped_count
                &&& r.stripped_bytes == w.stripped_bytes
            },
            _ => false,
        },
{
    if input.len() >= 4 && input[0] == 0x1A && input[1] == 0x45 && input[2] == 0xDF && input[3] == 0xA3 {
        Some(sanitize_webm(input))
    } else {
        None
    }
}

} // verus!
