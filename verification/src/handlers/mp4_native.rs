//! MP4 / M4A / MOV sanitizer: an ISO BMFF atom walker.
//!
//! Every atom is a 4-byte big-endian size, a 4-byte type and a payload. The
//! walker drops the atoms that carry metadata or nothing at all (`udta`,
//! `meta`, `free`, `skip`, `wide`, `uuid`, `pdin`) at any depth, descends
//! into the container atoms and rewrites their sizes, and copies every other
//! atom (`mdat` with the encoded streams among them) bit for bit. When the
//! `mdat` atom moved, the chunk offsets stored in `stco` / `co64` tables are
//! shifted by the same amount.
use vstd::prelude::*;
use vstd::slice::slice_subrange;

use vstd::string::StringSliceAdditionalSpecFns;

use crate::bytes::{
    be_u32_at, be_u32_bytes, be_u64_at, be_u64_bytes, bytes_eq, is_one_of, matches_any, overwrite,
    push_be_u32, push_be_u64, push_range, read_be_u32, read_be_u64, write_at,
};
use crate::error::DefenderError;
use crate::text::{decimal, tag_text};

verus! {

/// What the MP4 sanitizer produced.
pub struct Mp4SanitizeResult {
    pub output_bytes: Vec<u8>,
    pub stripped_count: u32,
    pub stripped_bytes: u64,
}

/// Deepest nesting of container atoms walked.
pub const MAX_DEPTH: u32 = 32;

/// Most atoms walked at one nesting level.
pub const MAX_ATOMS_PER_LEVEL: u32 = 4096;

/// Atoms dropped at any depth.
pub open spec fn strip_types() -> Seq<&'static str> {
    seq!["udta", "meta", "free", "skip", "wide", "uuid", "pdin"]
}

/// Atoms whose children are walked.
pub open spec fn container_types() -> Seq<&'static str> {
    seq!["moov", "trak", "mdia", "minf", "stbl", "edts", "dinf", "sinf", "mvex", "moof", "traf"]
}

/// Types of a first atom that mark an ISO BMFF file.
pub open spec fn leading_types() -> Seq<&'static str> {
    seq!["ftyp", "moov", "mdat", "free", "skip", "wide", "styp"]
}

/// `v` when it fits in a `u32`, else `u32::MAX`.
pub open spec fn sat_u32(v: int) -> int {
    if v > u32::MAX { u32::MAX as int } else { v }
}

/// The type of the atom at `off`.
pub open spec fn atom_type(b: Seq<u8>, off: int) -> Seq<u8> {
    b.subrange(off + 4, off + 8)
}

/// The size of the atom at `off` and the length of its header: a 32-bit
/// size, 1 for a 64-bit size after the type, 0 for "to the end".
pub open spec fn spec_atom_size(b: Seq<u8>, off: int) -> Option<(int, int)> {
    let s32 = be_u32_at(b, off);
    if s32 == 1 {
        if off + 16 > b.len() {
            None
        } else {
            Some((be_u64_at(b, off + 8), 16))
        }
    } else if s32 == 0 {
        Some((0, 8))
    } else {
        Some((s32, 8))
    }
}

/// The header re-emitted for a container whose new total size is `n`.
pub open spec fn container_header(hs: int, ty: Seq<u8>, n: int) -> Seq<u8> {
    if hs == 8 {
        be_u32_bytes(n % 4294967296) + ty
    } else {
        be_u32_bytes(1) + ty + be_u64_bytes(n)
    }
}

/// State of the walk of one level.
pub struct Mp4Walk {
    pub offset: int,
    pub out: Seq<u8>,
    pub stripped_count: int,
    pub stripped_bytes: int,
}

pub open spec fn mp4_walk_start() -> Mp4Walk {
    Mp4Walk { offset: 0, out: Seq::empty(), stripped_count: 0, stripped_bytes: 0 }
}

/// Walk at most `fuel` atoms of `data` at nesting `depth`. `Err` for an
/// atom overrunning `data`, a container of size 0 or smaller than its own
/// header, or nesting beyond `MAX_DEPTH`. Trailing bytes too short for a
/// header are dropped and end the walk.
pub open spec fn level_walk(data: Seq<u8>, depth: int, st: Mp4Walk, fuel: nat) -> Result<Mp4Walk, Seq<char>>
    decreases MAX_DEPTH - depth, fuel,
{
    if fuel == 0 || st.offset >= data.len() {
        Ok(st)
    } else if st.offset + 8 > data.len() {
        Ok(
            Mp4Walk {
                offset: data.len() as int,
                out: st.out,
                stripped_count: st.stripped_count,
                stripped_bytes: st.stripped_bytes + (data.len() - st.offset),
            },
        )
    } else {
        let off = st.offset;
        match spec_atom_size(data, off) {
            None => Err("MP4 atom has extended size marker but not enough bytes for 64-bit size"@),
            Some((size, hs)) => {
                let ty = atom_type(data, off);
                let container = is_one_of(ty, container_types());
                if size != 0 && off + size > data.len() {
                    Err(
                        "MP4 atom `"@ + tag_text(ty) + "` at offset "@ + decimal(off as nat)
                            + " declares size "@ + decimal(size as nat) + " but only "@
                            + decimal((data.len() - off) as nat) + " bytes remain"@,
                    )
                } else if size == 0 && container {
                    Err("MP4 container atom `"@ + tag_text(ty) + "` has size 0 (ambiguous boundaries)"@)
                } else {
                    let ae = if size == 0 { data.len() as int } else { off + size };
                    if is_one_of(ty, strip_types()) {
                        level_walk(
                            data,
                            depth,
                            Mp4Walk {
                                offset: ae,
                                out: st.out,
                                stripped_count: sat_u32(st.stripped_count + 1),
                                stripped_bytes: st.stripped_bytes + (ae - off),
                            },
                            (fuel - 1) as nat,
                        )
                    } else if container {
                        if ae < off + hs {
                            Err("MP4 container atom is smaller than its header"@)
                        } else if depth + 1 > MAX_DEPTH {
                            Err("MP4 atom nesting depth exceeds 32"@)
                        } else {
                            match level_walk(
                                data.subrange(off + hs, ae),
                                depth + 1,
                                mp4_walk_start(),
                                MAX_ATOMS_PER_LEVEL as nat,
                            ) {
                                Err(m) => Err(m),
                                Ok(c) => level_walk(
                                    data,
                                    depth,
                                    Mp4Walk {
                                        offset: ae,
                                        out: st.out + container_header(hs, ty, hs + c.out.len()) + c.out,
                                        stripped_count: sat_u32(st.stripped_count + c.stripped_count),
                                        stripped_bytes: st.stripped_bytes + c.stripped_bytes,
                                    },
                                    (fuel - 1) as nat,
                                ),
                            }
                        }
                    } else {
                        level_walk(
                            data,
                            depth,
                            Mp4Walk {
                                offset: ae,
                                out: st.out + data.subrange(off, ae),
                                stripped_count: st.stripped_count,
                                stripped_bytes: st.stripped_bytes,
                            },
                            (fuel - 1) as nat,
                        )
                    }
                }
            },
        }
    }
}

/// A metadata atom type: user data, metadata, free space, skip, wide,
/// UUID extension or progressive download information.
spec fn metadata_atom_type(ty: Seq<u8>) -> bool {
    ||| ty == "udta".spec_bytes()
    ||| ty == "meta".spec_bytes()
    ||| ty == "free".spec_bytes()
    ||| ty == "skip".spec_bytes()
    ||| ty == "wide".spec_bytes()
    ||| ty == "uuid".spec_bytes()
    ||| ty == "pdin".spec_bytes()
}

proof fn lemma_metadata_atoms_are_stripped_not_walked(ty: Seq<u8>)
    requires
        metadata_atom_type(ty),
    ensures
        is_one_of(ty, strip_types()),
        !is_one_of(ty, container_types()),
{
    broadcast use vstd::string::group_string_axioms;
    reveal_strlit("udta");
    assert(vstd::string::is_ascii("udta"));
    assert("udta".spec_bytes() =~= seq![0x75u8, 0x64u8, 0x74u8, 0x61u8]);
    reveal_strlit("meta");
    assert(vstd::string::is_ascii("meta"));
    assert("meta".spec_bytes() =~= seq![0x6Du8, 0x65u8, 0x74u8, 0x61u8]);
    reveal_strlit("free");
    assert(vstd::string::is_ascii("free"));
    assert("free".spec_bytes() =~= seq![0x66u8, 0x72u8, 0x65u8, 0x65u8]);
    reveal_strlit("skip");
    assert(vstd::string::is_ascii("skip"));
    assert("skip".spec_bytes() =~= seq![0x73u8, 0x6Bu8, 0x69u8, 0x70u8]);
    reveal_strlit("wide");
    assert(vstd::string::is_ascii("wide"));
    assert("wide".spec_bytes() =~= seq![0x77u8, 0x69u8, 0x64u8, 0x65u8]);
    reveal_strlit("uuid");
    assert(vstd::string::is_ascii("uuid"));
    assert("uuid".spec_bytes() =~= seq![0x75u8, 0x75u8, 0x69u8, 0x64u8]);
    reveal_strlit("pdin");
    assert(vstd::string::is_ascii("pdin"));
    assert("pdin".spec_bytes() =~= seq![0x70u8, 0x64u8, 0x69u8, 0x6Eu8]);
    reveal_strlit("moov");
    assert(vstd::string::is_ascii("moov"));
    assert("moov".spec_bytes() =~= seq![0x6Du8, 0x6Fu8, 0x6Fu8, 0x76u8]);
    reveal_strlit("trak");
    assert(vstd::string::is_ascii("trak"));
    assert("trak".spec_bytes() =~= seq![0x74u8, 0x72u8, 0x61u8, 0x6Bu8]);
    reveal_strlit("mdia");
    assert(vstd::string::is_ascii("mdia"));
    assert("mdia".spec_bytes() =~= seq![0x6Du8, 0x64u8, 0x69u8, 0x61u8]);
    reveal_strlit("minf");
    assert(vstd::string::is_ascii("minf"));
    assert("minf".spec_bytes() =~= seq![0x6Du8, 0x69u8, 0x6Eu8, 0x66u8]);
    reveal_strlit("stbl");
    assert(vstd::string::is_ascii("stbl"));
    assert("stbl".spec_bytes() =~= seq![0x73u8, 0x74u8, 0x62u8, 0x6Cu8]);
    reveal_strlit("edts");
    assert(vstd::string::is_ascii("edts"));
    assert("edts".spec_bytes() =~= seq![0x65u8, 0x64u8, 0x74u8, 0x73u8]);
    reveal_strlit("dinf");
    assert(vstd::string::is_ascii("dinf"));
    assert("dinf".spec_bytes() =~= seq![0x64u8, 0x69u8, 0x6Eu8, 0x66u8]);
    reveal_strlit("sinf");
    assert(vstd::string::is_ascii("sinf"));
    assert("sinf".spec_bytes() =~= seq![0x73u8, 0x69u8, 0x6Eu8, 0x66u8]);
    reveal_strlit("mvex");
    assert(vstd::string::is_ascii("mvex"));
    assert("mvex".spec_bytes() =~= seq![0x6Du8, 0x76u8, 0x65u8, 0x78u8]);
    reveal_strlit("moof");
    assert(vstd::string::is_ascii("moof"));
    assert("moof".spec_bytes() =~= seq![0x6Du8, 0x6Fu8, 0x6Fu8, 0x66u8]);
    reveal_strlit("traf");
    assert(vstd::string::is_ascii("traf"));
    assert("traf".spec_bytes() =~= seq![0x74u8, 0x72u8, 0x61u8, 0x66u8]);
    let s = strip_types();
    let c = container_types();
    if ty == "udta".spec_bytes() { assert(s[0].spec_bytes() == ty); }
    if ty == "meta".spec_bytes() { assert(s[1].spec_bytes() == ty); }
    if ty == "free".spec_bytes() { assert(s[2].spec_bytes() == ty); }
    if ty == "skip".spec_bytes() { assert(s[3].spec_bytes() == ty); }
    if ty == "wide".spec_bytes() { assert(s[4].spec_bytes() == ty); }
    if ty == "uuid".spec_bytes() { assert(s[5].spec_bytes() == ty); }
    if ty == "pdin".spec_bytes() { assert(s[6].spec_bytes() == ty); }
    assert forall|i: int| 0 <= i < c.len() implies c[i].spec_bytes() != ty by {
        if i == 0 { assert(c[i].spec_bytes() == seq![0x6Du8, 0x6Fu8, 0x6Fu8, 0x76u8]); }
        if i == 1 { assert(c[i].spec_bytes() == seq![0x74u8, 0x72u8, 0x61u8, 0x6Bu8]); }
        if i == 2 { assert(c[i].spec_bytes() == seq![0x6Du8, 0x64u8, 0x69u8, 0x61u8]); }
        if i == 3 { assert(c[i].spec_bytes() == seq![0x6Du8, 0x69u8, 0x6Eu8, 0x66u8]); }
        if i == 4 { assert(c[i].spec_bytes() == seq![0x73u8, 0x74u8, 0x62u8, 0x6Cu8]); }
        if i == 5 { assert(c[i].spec_bytes() == seq![0x65u8, 0x64u8, 0x74u8, 0x73u8]); }
        if i == 6 { assert(c[i].spec_bytes() == seq![0x64u8, 0x69u8, 0x6Eu8, 0x66u8]); }
        if i == 7 { assert(c[i].spec_bytes() == seq![0x73u8, 0x69u8, 0x6Eu8, 0x66u8]); }
        if i == 8 { assert(c[i].spec_bytes() == seq![0x6Du8, 0x76u8, 0x65u8, 0x78u8]); }
        if i == 9 { assert(c[i].spec_bytes() == seq![0x6Du8, 0x6Fu8, 0x6Fu8, 0x66u8]); }
        if i == 10 { assert(c[i].spec_bytes() == seq![0x74u8, 0x72u8, 0x61u8, 0x66u8]); }
    }
}

/// An atom of type udta, meta, free, skip, wide, uuid or pdin is never
/// copied, at any nesting depth: the walk goes on past it with the output
/// unchanged, one more atom and its bytes counted as stripped.
pub proof fn law_mp4_drops_metadata_atoms(data: Seq<u8>, depth: int, st: Mp4Walk, fuel: nat, size: int, hs: int)
    requires
        fuel > 0,
        st.offset + 8 <= data.len(),
        spec_atom_size(data, st.offset) == Some((size, hs)),
        size == 0 || st.offset + size <= data.len(),
        ({
            let ty = data.subrange(st.offset + 4, st.offset + 8);
        ||| ty == "udta".spec_bytes()
        ||| ty == "meta".spec_bytes()
        ||| ty == "free".spec_bytes()
        ||| ty == "skip".spec_bytes()
        ||| ty == "wide".spec_bytes()
        ||| ty == "uuid".spec_bytes()
        ||| ty == "pdin".spec_bytes()
        }),
    ensures
        ({
            let ae = if size == 0 { data.len() as int } else { st.offset + size };
            level_walk(data, depth, st, fuel) == level_walk(
                data,
                depth,
                Mp4Walk {
                    offset: ae,
                    out: st.out,
                    stripped_count: sat_u32(st.stripped_count + 1),
                    stripped_bytes: st.stripped_bytes + (ae - st.offset),
                },
                (fuel - 1) as nat,
            )
        }),
{
    lemma_metadata_atoms_are_stripped_not_walked(atom_type(data, st.offset));
}

/// A container atom type, whose children are walked: movie, track, media,
/// media information, sample table, edit, data information, protection
/// scheme, movie extends, movie fragment and track fragment.
spec fn container_atom_type(ty: Seq<u8>) -> bool {
    ||| ty == "moov".spec_bytes()
    ||| ty == "trak".spec_bytes()
    ||| ty == "mdia".spec_bytes()
    ||| ty == "minf".spec_bytes()
    ||| ty == "stbl".spec_bytes()
    ||| ty == "edts".spec_bytes()
    ||| ty == "dinf".spec_bytes()
    ||| ty == "sinf".spec_bytes()
    ||| ty == "mvex".spec_bytes()
    ||| ty == "moof".spec_bytes()
    ||| ty == "traf".spec_bytes()
}

proof fn lemma_containers_are_walked_not_stripped(ty: Seq<u8>)
    requires
        container_atom_type(ty),
    ensures
        is_one_of(ty, container_types()),
        !is_one_of(ty, strip_types()),
{
    broadcast use vstd::string::group_string_axioms;
    reveal_strlit("udta");
    assert(vstd::string::is_ascii("udta"));
    assert("udta".spec_bytes() =~= seq![0x75u8, 0x64u8, 0x74u8, 0x61u8]);
    reveal_strlit("meta");
    assert(vstd::string::is_ascii("meta"));
    assert("meta".spec_bytes() =~= seq![0x6Du8, 0x65u8, 0x74u8, 0x61u8]);
    reveal_strlit("free");
    assert(vstd::string::is_ascii("free"));
    assert("free".spec_bytes() =~= seq![0x66u8, 0x72u8, 0x65u8, 0x65u8]);
    reveal_strlit("skip");
    assert(vstd::string::is_ascii("skip"));
    assert("skip".spec_bytes() =~= seq![0x73u8, 0x6Bu8, 0x69u8, 0x70u8]);
    reveal_strlit("wide");
    assert(vstd::string::is_ascii("wide"));
    assert("wide".spec_bytes() =~= seq![0x77u8, 0x69u8, 0x64u8, 0x65u8]);
    reveal_strlit("uuid");
    assert(vstd::string::is_ascii("uuid"));
    assert("uuid".spec_bytes() =~= seq![0x75u8, 0x75u8, 0x69u8, 0x64u8]);
    reveal_strlit("pdin");
    assert(vstd::string::is_ascii("pdin"));
    assert("pdin".spec_bytes() =~= seq![0x70u8, 0x64u8, 0x69u8, 0x6Eu8]);
    reveal_strlit("moov");
    assert(vstd::string::is_ascii("moov"));
    assert("moov".spec_bytes() =~= seq![0x6Du8, 0x6Fu8, 0x6Fu8, 0x76u8]);
    reveal_strlit("trak");
    assert(vstd::string::is_ascii("trak"));
    assert("trak".spec_bytes() =~= seq![0x74u8, 0x72u8, 0x61u8, 0x6Bu8]);
    reveal_strlit("mdia");
    assert(vstd::string::is_ascii("mdia"));
    assert("mdia".spec_bytes() =~= seq![0x6Du8, 0x64u8, 0x69u8, 0x61u8]);
    reveal_strlit("minf");
    assert(vstd::string::is_ascii("minf"));
    assert("minf".spec_bytes() =~= seq![0x6Du8, 0x69u8, 0x6Eu8, 0x66u8]);
    reveal_strlit("stbl");
    assert(vstd::string::is_ascii("stbl"));
    assert("stbl".spec_bytes() =~= seq![0x73u8, 0x74u8, 0x62u8, 0x6Cu8]);
    reveal_strlit("edts");
    assert(vstd::string::is_ascii("edts"));
    assert("edts".spec_bytes() =~= seq![0x65u8, 0x64u8, 0x74u8, 0x73u8]);
    reveal_strlit("dinf");
    assert(vstd::string::is_ascii("dinf"));
    assert("dinf".spec_bytes() =~= seq![0x64u8, 0x69u8, 0x6Eu8, 0x66u8]);
    reveal_strlit("sinf");
    assert(vstd::string::is_ascii("sinf"));
    assert("sinf".spec_bytes() =~= seq![0x73u8, 0x69u8, 0x6Eu8, 0x66u8]);
    reveal_strlit("mvex");
    assert(vstd::string::is_ascii("mvex"));
    assert("mvex".spec_bytes() =~= seq![0x6Du8, 0x76u8, 0x65u8, 0x78u8]);
    reveal_strlit("moof");
    assert(vstd::string::is_ascii("moof"));
    assert("moof".spec_bytes() =~= seq![0x6Du8, 0x6Fu8, 0x6Fu8, 0x66u8]);
    reveal_strlit("traf");
    assert(vstd::string::is_ascii("traf"));
    assert("traf".spec_bytes() =~= seq![0x74u8, 0x72u8, 0x61u8, 0x66u8]);
    let s = strip_types();
    let c = container_types();
    if ty == "moov".spec_bytes() { assert(c[0].spec_bytes() == ty); }
    if ty == "trak".spec_bytes() { assert(c[1].spec_bytes() == ty); }
    if ty == "mdia".spec_bytes() { assert(c[2].spec_bytes() == ty); }
    if ty == "minf".spec_bytes() { assert(c[3].spec_bytes() == ty); }
    if ty == "stbl".spec_bytes() { assert(c[4].spec_bytes() == ty); }
    if ty == "edts".spec_bytes() { assert(c[5].spec_bytes() == ty); }
    if ty == "dinf".spec_bytes() { assert(c[6].spec_bytes() == ty); }
    if ty == "sinf".spec_bytes() { assert(c[7].spec_bytes() == ty); }
    if ty == "mvex".spec_bytes() { assert(c[8].spec_bytes() == ty); }
    if ty == "moof".spec_bytes() { assert(c[9].spec_bytes() == ty); }
    if ty == "traf".spec_bytes() { assert(c[10].spec_bytes() == ty); }
    assert forall|i: int| 0 <= i < s.len() implies s[i].spec_bytes() != ty by {
        if i == 0 { assert(s[i].spec_bytes() == seq![0x75u8, 0x64u8, 0x74u8, 0x61u8]); }
        if i == 1 { assert(s[i].spec_bytes() == seq![0x6Du8, 0x65u8, 0x74u8, 0x61u8]); }
        if i == 2 { assert(s[i].spec_bytes() == seq![0x66u8, 0x72u8, 0x65u8, 0x65u8]); }
        if i == 3 { assert(s[i].spec_bytes() == seq![0x73u8, 0x6Bu8, 0x69u8, 0x70u8]); }
        if i == 4 { assert(s[i].spec_bytes() == seq![0x77u8, 0x69u8, 0x64u8, 0x65u8]); }
        if i == 5 { assert(s[i].spec_bytes() == seq![0x75u8, 0x75u8, 0x69u8, 0x64u8]); }
        if i == 6 { assert(s[i].spec_bytes() == seq![0x70u8, 0x64u8, 0x69u8, 0x6Eu8]); }
    }
}

/// A container atom (moov, trak, mdia, minf, stbl, edts, dinf, sinf, mvex,
/// moof, traf) is not copied as it stands: its children are sanitized one
/// level deeper and it is re-emitted with a header sized for the cleaned
/// children, so metadata atoms nested in it are stripped too.
pub proof fn law_mp4_walks_containers(data: Seq<u8>, depth: int, st: Mp4Walk, fuel: nat, size: int, hs: int)
    requires
        fuel > 0,
        st.offset + 8 <= data.len(),
        spec_atom_size(data, st.offset) == Some((size, hs)),
        size != 0,
        st.offset + hs <= st.offset + size <= data.len(),
        depth + 1 <= MAX_DEPTH,
        ({
            let ty = data.subrange(st.offset + 4, st.offset + 8);
            ||| ty == "moov".spec_bytes()
            ||| ty == "trak".spec_bytes()
            ||| ty == "mdia".spec_bytes()
            ||| ty == "minf".spec_bytes()
            ||| ty == "stbl".spec_bytes()
            ||| ty == "edts".spec_bytes()
            ||| ty == "dinf".spec_bytes()
            ||| ty == "sinf".spec_bytes()
            ||| ty == "mvex".spec_bytes()
            ||| ty == "moof".spec_bytes()
            ||| ty == "traf".spec_bytes()
        }),
    ensures
        ({
            let off = st.offset;
            let ae = off + size;
            let ty = data.subrange(off + 4, off + 8);
            level_walk(data, depth, st, fuel) == match level_walk(
                data.subrange(off + hs, ae),
                depth + 1,
                mp4_walk_start(),
                MAX_ATOMS_PER_LEVEL as nat,
            ) {
                Err(m) => Err(m),
                Ok(c) => level_walk(
                    data,
                    depth,
                    Mp4Walk {
                        offset: ae,
                        out: st.out + container_header(hs, ty, hs + c.out.len()) + c.out,
                        stripped_count: sat_u32(st.stripped_count + c.stripped_count),
                        stripped_bytes: st.stripped_bytes + c.stripped_bytes,
                    },
                    (fuel - 1) as nat,
                ),
            }
        }),
{
    lemma_containers_are_walked_not_stripped(atom_type(data, st.offset));
}

/// The sanitized form of one level.
pub open spec fn level_result(data: Seq<u8>, depth: int) -> Result<Mp4Walk, Seq<char>> {
    if depth > MAX_DEPTH {
        Err("MP4 atom nesting depth exceeds 32"@)
    } else {
        level_walk(data, depth, mp4_walk_start(), MAX_ATOMS_PER_LEVEL as nat)
    }
}

/// Read the size of the atom at `offset` and the length of its header.
fn read_atom_size(data: &[u8], offset: usize) -> (res: Result<(u64, usize), DefenderError>)
    requires
        offset + 8 <= data@.len(),
    ensures
        match res {
            Ok((size, hs)) => spec_atom_size(data@, offset as int) == Some((size as int, hs as int)),
            Err(e) => {
                &&& spec_atom_size(data@, offset as int) is None
                &&& e matches DefenderError::Video(t)
                &&& t@ == "MP4 atom has extended size marker but not enough bytes for 64-bit size"@
            },
        },
{
    let size32 = read_be_u32(data, offset);
    if size32 == 1 {
        if data.len() - offset < 16 {
            return Err(DefenderError::Video(
                "MP4 atom has extended size marker but not enough bytes for 64-bit size".to_owned(),
            ));
        }
        let size64 = read_be_u64(data, offset + 8);
        Ok((size64, 16))
    } else if size32 == 0 {
        Ok((0, 8))
    } else {
        Ok((size32 as u64, 8))
    }
}

/// Walk the atoms of one nesting level, dropping metadata atoms and
/// rebuilding containers from their cleaned children.
#[verifier::rlimit(40)]
fn sanitize_level(data: &[u8], depth: u32) -> (res: Result<Mp4SanitizeResult, DefenderError>)
    ensures
        match (res, level_result(data@, depth as int)) {
            (Ok(r), Ok(w)) => {
                &&& r.output_bytes@ == w.out
                &&& r.stripped_count == w.stripped_count
                &&& r.stripped_bytes == w.stripped_bytes
                &&& r.stripped_bytes + r.output_bytes@.len() <= data@.len()
            },
            (Err(e), Err(m)) => e matches DefenderError::Video(t) && t@ == m,
            _ => false,
        },
    decreases MAX_DEPTH + 1 - depth,
{
    if depth > MAX_DEPTH {
        return Err(DefenderError::Video("MP4 atom nesting depth exceeds 32".to_owned()));
    }
    let strips: [&str; 7] = ["udta", "meta", "free", "skip", "wide", "uuid", "pdin"];
    let containers: [&str; 11] = ["moov", "trak", "mdia", "minf", "stbl", "edts", "dinf", "sinf", "mvex", "moof", "traf"];
    assert(strips@ == strip_types());
    assert(containers@ == container_types());
    let len = data.len();
    let mut output: Vec<u8> = Vec::new();
    let mut stripped_count: u32 = 0;
    let mut stripped_bytes: u64 = 0;
    let mut offset: usize = 0;
    let mut fuel: u32 = MAX_ATOMS_PER_LEVEL;
    let ghost plan = level_walk(data@, depth as int, mp4_walk_start(), MAX_ATOMS_PER_LEVEL as nat);
    proof {
        assert(output@ =~= mp4_walk_start().out);
    }
    while fuel > 0 && offset < len
        invariant
            len == data@.len(),
            depth <= MAX_DEPTH,
            offset <= len,
            stripped_bytes + output@.len() <= offset,
            strips@ == strip_types(),
            containers@ == container_types(),
            plan == level_walk(data@, depth as int, mp4_walk_start(), MAX_ATOMS_PER_LEVEL as nat),
            plan == level_walk(
                data@,
                depth as int,
                Mp4Walk {
                    offset: offset as int,
                    out: output@,
                    stripped_count: stripped_count as int,
                    stripped_bytes: stripped_bytes as int,
                },
                fuel as nat,
            ),
        decreases fuel,
    {
        let ghost st = Mp4Walk {
            offset: offset as int,
            out: output@,
            stripped_count: stripped_count as int,
            stripped_bytes: stripped_bytes as int,
        };
        if len - offset < 8 {
            // Trailing bytes too short for an atom header are dropped.
            stripped_bytes = stripped_bytes + (len - offset) as u64;
            return Ok(Mp4SanitizeResult { output_bytes: output, stripped_count, stripped_bytes });
        }
        let (atom_size, header_size) = match read_atom_size(data, offset) {
            Ok(r) => r,
            Err(e) => return Err(e),
        };
        let ty = slice_subrange(data, offset + 4, offset + 8);
        let is_container = matches_any(ty, &containers);
        if atom_size != 0 && atom_size > (len - offset) as u64 {
            let mut m = "MP4 atom `".to_owned();
            crate::text::push_tag(&mut m, ty);
            m.append("` at offset ");
            crate::text::push_decimal(&mut m, offset as u64);
            m.append(" declares size ");
            crate::text::push_decimal(&mut m, atom_size);
            m.append(" but only ");
            crate::text::push_decimal(&mut m, (len - offset) as u64);
            m.append(" bytes remain");
            return Err(DefenderError::Video(m));
        }
        if atom_size == 0 && is_container {
            let mut m = "MP4 container atom `".to_owned();
            crate::text::push_tag(&mut m, ty);
            m.append("` has size 0 (ambiguous boundaries)");
            return Err(DefenderError::Video(m));
        }
        let atom_end = if atom_size == 0 { len } else { offset + atom_size as usize };
        if matches_any(ty, &strips) {
            stripped_count = stripped_count.saturating_add(1);
            stripped_bytes = stripped_bytes + (atom_end - offset) as u64;
        } else if is_container {
            if atom_end - offset < header_size {
                return Err(DefenderError::Video("MP4 container atom is smaller than its header".to_owned()));
            }
            let children = slice_subrange(data, offset + header_size, atom_end);
            let child = match sanitize_level(children, depth + 1) {
                Ok(c) => c,
                Err(e) => return Err(e),
            };
            stripped_count = stripped_count.saturating_add(child.stripped_count);
            stripped_bytes = stripped_bytes + child.stripped_bytes;
            let new_atom_size = header_size + child.output_bytes.len();
            let ghost header = container_header(
                header_size as int,
                data@.subrange(offset + 4, offset + 8),
                new_atom_size as int,
            );
            if header_size == 8 {
                push_be_u32(&mut output, ((new_atom_size as u64) % 4294967296) as u32);
            } else {
                push_be_u32(&mut output, 1);
            }
            push_range(&mut output, data, offset + 4, offset + 8);
            if header_size != 8 {
                push_be_u64(&mut output, new_atom_size as u64);
            }
            let mut k: usize = 0;
            let ghost before = output@;
            while k < child.output_bytes.len()
                invariant
                    k <= child.output_bytes@.len(),
                    output@ == before + child.output_bytes@.subrange(0, k as int),
                decreases child.output_bytes@.len() - k,
            {
                output.push(child.output_bytes[k]);
                k = k + 1;
                proof {
                    assert(output@ =~= before + child.output_bytes@.subrange(0, k as int));
                }
            }
            proof {
                assert(child.output_bytes@.subrange(0, child.output_bytes@.len() as int) =~= child.output_bytes@);
                assert(output@ =~= st.out + header + child.output_bytes@);
            }
        } else {
            push_range(&mut output, data, offset, atom_end);
        }
        offset = atom_end;
        fuel = fuel - 1;
    }
    Ok(Mp4SanitizeResult { output_bytes: output, stripped_count, stripped_bytes })
}

// ── Locating `mdat` ───────────────────────────────────────────────────────

/// Offset of the first top-level atom of type `target`, walking at most
/// `fuel` atoms from `off`; `None` when the walk runs out, meets an atom of
/// size 0 or below 8, or an atom overrunning the data.
pub open spec fn find_walk(b: Seq<u8>, target: Seq<u8>, off: int, fuel: nat) -> Option<int>
    decreases fuel,
{
    if fuel == 0 || off < 0 || off + 8 > b.len() {
        None
    } else if atom_type(b, off) == target {
        Some(off)
    } else {
        let s32 = be_u32_at(b, off);
        if s32 == 0 || (s32 == 1 && off + 16 > b.len()) {
            None
        } else {
            let size = if s32 == 1 { be_u64_at(b, off + 8) } else { s32 };
            if size < 8 || off + size > b.len() {
                None
            } else {
                find_walk(b, target, off + size, (fuel - 1) as nat)
            }
        }
    }
}

/// Find the byte offset of the first top-level atom of type `target`.
fn find_atom_offset(data: &[u8], target: &[u8]) -> (res: Option<usize>)
    ensures
        match res {
            Some(o) => find_walk(data@, target@, 0, MAX_ATOMS_PER_LEVEL as nat) == Some(o as int),
            None => find_walk(data@, target@, 0, MAX_ATOMS_PER_LEVEL as nat) is None,
        },
{
    let len = data.len();
    let mut offset: usize = 0;
    let mut fuel: u32 = MAX_ATOMS_PER_LEVEL;
    while fuel > 0
        invariant
            len == data@.len(),
            offset <= len,
            find_walk(data@, target@, 0, MAX_ATOMS_PER_LEVEL as nat) == find_walk(
                data@,
                target@,
                offset as int,
                fuel as nat,
            ),
        decreases fuel,
    {
        if len - offset < 8 {
            return None;
        }
        if bytes_eq(slice_subrange(data, offset + 4, offset + 8), target) {
            return Some(offset);
        }
        let s32 = read_be_u32(data, offset);
        if s32 == 0 {
            return None;
        }
        let size: u64 = if s32 == 1 {
            if len - offset < 16 {
                return None;
            }
            read_be_u64(data, offset + 8)
        } else {
            s32 as u64
        };
        if size < 8 || size > (len - offset) as u64 {
            return None;
        }
        offset = offset + size as usize;
        fuel = fuel - 1;
    }
    None
}

// ── Chunk-offset fixup ────────────────────────────────────────────────────

/// `stco` (32-bit entries) or `co64` (64-bit entries).
pub open spec fn is_offset_table(ty: Seq<u8>) -> bool {
    ty == "stco".spec_bytes() || ty == "co64".spec_bytes()
}

/// The chunk-offset tables found by a scan from `i`, as (offset, size,
/// 64-bit entries). A well-formed container atom is entered (the scan moves
/// past its header), any other well-formed atom is skipped whole, and
/// elsewhere the scan moves one byte on.
pub open spec fn table_scan(b: Seq<u8>, i: int) -> Seq<(int, int, bool)>
    decreases b.len() - i,
{
    if i < 0 || i + 12 > b.len() {
        Seq::empty()
    } else {
        let size = be_u32_at(b, i);
        let ty = atom_type(b, i);
        let found: Seq<(int, int, bool)> = if is_offset_table(ty) && size >= 16 && i + size <= b.len() {
            seq![(i, size, ty == "co64".spec_bytes())]
        } else {
            Seq::empty()
        };
        if size >= 8 && i + size <= b.len() && is_one_of(ty, container_types()) {
            found + table_scan(b, i + 8)
        } else if size >= 8 && i + size <= b.len() {
            found + table_scan(b, i + size)
        } else {
            found + table_scan(b, i + 1)
        }
    }
}

/// The entry at `pos` shifted back by `delta`, modulo its width.
pub open spec fn shifted_entry(b: Seq<u8>, pos: int, wide: bool, delta: int) -> Seq<u8> {
    if wide {
        be_u64_bytes((be_u64_at(b, pos) - delta) % 18446744073709551616)
    } else {
        be_u32_bytes((be_u32_at(b, pos) - delta) % 4294967296)
    }
}

pub open spec fn entry_width(wide: bool) -> int {
    if wide { 8 } else { 4 }
}

/// Shift `k` entries starting at `pos`, stopping at the end of the data.
pub open spec fn patch_entries(b: Seq<u8>, pos: int, k: nat, wide: bool, delta: int) -> Seq<u8>
    decreases k,
{
    if k == 0 || pos < 0 || pos + entry_width(wide) > b.len() {
        b
    } else {
        patch_entries(
            overwrite(b, pos, shifted_entry(b, pos, wide, delta)),
            pos + entry_width(wide),
            (k - 1) as nat,
            wide,
            delta,
        )
    }
}

/// Shift the entries of one table when its entry count fits its size.
pub open spec fn patch_table(b: Seq<u8>, t: (int, int, bool), delta: int) -> Seq<u8> {
    let ds = t.0 + 8;
    if ds + 8 > b.len() {
        b
    } else {
        let count = be_u32_at(b, ds + 4);
        if 16 + count * entry_width(t.2) > t.1 {
            b
        } else {
            patch_entries(b, ds + 8, count as nat, t.2, delta)
        }
    }
}

/// Patch the tables `ts[k..]` in order.
pub open spec fn patch_tables(b: Seq<u8>, ts: Seq<(int, int, bool)>, k: int, delta: int) -> Seq<u8>
    decreases ts.len() - k,
{
    if k < 0 || k >= ts.len() {
        b
    } else {
        patch_tables(patch_table(b, ts[k], delta), ts, k + 1, delta)
    }
}

/// Every chunk offset of `b` moved back by `delta`.
pub open spec fn fixup_offsets(b: Seq<u8>, delta: int) -> Seq<u8> {
    patch_tables(b, table_scan(b, 0), 0, delta)
}

/// `old - (orig - new_off)` modulo 2^64.
fn shift_u64(old: u64, orig: usize, new_off: usize) -> (r: u64)
    ensures
        r as int == (old - (orig - new_off)) % 18446744073709551616,
{
    let ghost m: int = 18446744073709551616;
    if orig >= new_off {
        let d = (orig - new_off) as u64;
        if old >= d {
            proof {
                vstd::arithmetic::div_mod::lemma_fundamental_div_mod_converse_mod(old - d, m, 0, old - d);
            }
            old - d
        } else {
            let r = old + (u64::MAX - d) + 1;
            proof {
                vstd::arithmetic::div_mod::lemma_fundamental_div_mod_converse_mod(old - d, m, -1, r as int);
            }
            r
        }
    } else {
        let d = (new_off - orig) as u64;
        if old <= u64::MAX - d {
            proof {
                vstd::arithmetic::div_mod::lemma_fundamental_div_mod_converse_mod(old + d, m, 0, old + d);
            }
            old + d
        } else {
            let r = old - (u64::MAX - d) - 1;
            proof {
                vstd::arithmetic::div_mod::lemma_fundamental_div_mod_converse_mod(old + d, m, 1, r as int);
            }
            r
        }
    }
}

/// `old - (orig - new_off)` modulo 2^32.
fn shift_u32(old: u32, orig: usize, new_off: usize) -> (r: u32)
    ensures
        r as int == (old - (orig - new_off)) % 4294967296,
{
    let ghost m: int = 4294967296;
    let neg = orig < new_off;
    let full: u64 = if neg { (new_off - orig) as u64 } else { (orig - new_off) as u64 };
    let d = (full % 4294967296) as u32;
    let ghost q = full as int / m;
    proof {
        vstd::arithmetic::div_mod::lemma_fundamental_div_mod(full as int, m);
        assert(full == m * q + d);
    }
    if !neg {
        if old >= d {
            let r = old - d;
            proof {
                assert(old - (orig - new_off) == (-q) * m + r) by (nonlinear_arith)
                    requires
                        full == m * q + d,
                        full == orig - new_off,
                        r == old - d,
                ;
                vstd::arithmetic::div_mod::lemma_fundamental_div_mod_converse_mod(
                    old - (orig - new_off),
                    m,
                    -q,
                    r as int,
                );
            }
            r
        } else {
            let r = old + (u32::MAX - d) + 1;
            proof {
                assert(old - (orig - new_off) == (-q - 1) * m + r) by (nonlinear_arith)
                    requires
                        full == m * q + d,
                        full == orig - new_off,
                        r == old + m - d,
                ;
                vstd::arithmetic::div_mod::lemma_fundamental_div_mod_converse_mod(
                    old - (orig - new_off),
                    m,
                    -q - 1,
                    r as int,
                );
            }
            r
        }
    } else {
        if old <= u32::MAX - d {
            let r = old + d;
            proof {
                assert(old - (orig - new_off) == q * m + r) by (nonlinear_arith)
                    requires
                        full == m * q + d,
                        full == new_off - orig,
                        r == old + d,
                ;
                vstd::arithmetic::div_mod::lemma_fundamental_div_mod_converse_mod(
                    old - (orig - new_off),
                    m,
                    q,
                    r as int,
                );
            }
            r
        } else {
            let r = old - (u32::MAX - d) - 1;
            proof {
                assert(old - (orig - new_off) == (q + 1) * m + r) by (nonlinear_arith)
                    requires
                        full == m * q + d,
                        full == new_off - orig,
                        r == old + d - m,
                ;
                vstd::arithmetic::div_mod::lemma_fundamental_div_mod_converse_mod(
                    old - (orig - new_off),
                    m,
                    q + 1,
                    r as int,
                );
            }
            r
        }
    }
}

/// The bytes of the entry at `pos` after the shift.
fn shifted_entry_exec(data: &[u8], pos: usize, wide: bool, orig: usize, new_off: usize) -> (res: Vec<u8>)
    requires
        pos + entry_width(wide) <= data@.len(),
    ensures
        res@ == shifted_entry(data@, pos as int, wide, orig - new_off),
        res@.len() == entry_width(wide),
{
    let mut bytes: Vec<u8> = Vec::new();
    if wide {
        let v = read_be_u64(data, pos);
        push_be_u64(&mut bytes, shift_u64(v, orig, new_off));
    } else {
        let v = read_be_u32(data, pos);
        push_be_u32(&mut bytes, shift_u32(v, orig, new_off));
    }
    assert(bytes@ =~= shifted_entry(data@, pos as int, wide, orig - new_off));
    bytes
}

/// Shift `count` entries of one table, starting at `pos`.
fn patch_entries_exec(output: &mut Vec<u8>, pos: usize, count: u64, wide: bool, orig: usize, new_off: usize)
    ensures
        final(output)@ == patch_entries(old(output)@, pos as int, count as nat, wide, orig - new_off),
{
    let ghost delta = orig - new_off;
    let len = output.len();
    let esz: usize = if wide { 8 } else { 4 };
    let mut p = pos;
    let mut k = count;
    while k > 0 && p <= len && len - p >= esz
        invariant
            len == output@.len(),
            esz == entry_width(wide),
            delta == orig - new_off,
            patch_entries(output@, p as int, k as nat, wide, delta) == patch_entries(
                old(output)@,
                pos as int,
                count as nat,
                wide,
                delta,
            ),
        decreases k,
    {
        let ghost cur = output@;
        let bytes = shifted_entry_exec(output.as_slice(), p, wide, orig, new_off);
        write_at(output, p, bytes.as_slice());
        proof {
            assert(patch_entries(cur, p as int, k as nat, wide, delta) == patch_entries(
                output@,
                p + esz,
                (k - 1) as nat,
                wide,
                delta,
            ));
        }
        p = p + esz;
        k = k - 1;
    }
}

/// Shift the entries of one table when its entry count fits its size.
fn patch_table_exec(output: &mut Vec<u8>, ti: usize, tsize: usize, wide: bool, orig: usize, new_off: usize)
    ensures
        final(output)@ == patch_table(old(output)@, (ti as int, tsize as int, wide), orig - new_off),
{
    if ti <= output.len() && output.len() - ti >= 16 {
        let count = read_be_u32(output.as_slice(), ti + 12) as u64;
        let expected: u64 = 16 + if wide { count * 8 } else { count * 4 };
        if expected <= tsize as u64 {
            patch_entries_exec(output, ti + 16, count, wide, orig, new_off);
        }
    }
}

/// Move every `stco` / `co64` chunk offset back by `orig - new_off`, the
/// distance `mdat` moved.
fn fixup_sample_offsets(output: &mut Vec<u8>, orig: usize, new_off: usize)
    ensures
        final(output)@ == fixup_offsets(old(output)@, orig - new_off),
{
    let ghost delta = orig - new_off;
    let ghost b = output@;
    let tables = scan_offset_tables(output.as_slice());
    let ghost ts = tables@.map_values(|t: (usize, usize, bool)| (t.0 as int, t.1 as int, t.2));
    let mut k: usize = 0;
    while k < tables.len()
        invariant
            k <= tables@.len(),
            delta == orig - new_off,
            ts == tables@.map_values(|t: (usize, usize, bool)| (t.0 as int, t.1 as int, t.2)),
            ts == table_scan(b, 0),
            patch_tables(output@, ts, k as int, delta) == fixup_offsets(b, delta),
        decreases tables@.len() - k,
    {
        let ghost cur = output@;
        let (ti, tsize, wide) = tables[k];
        proof {
            assert(ts[k as int] == (ti as int, tsize as int, wide));
        }
        patch_table_exec(output, ti, tsize, wide, orig, new_off);
        k = k + 1;
    }
}

/// The chunk-offset tables of `data`, found by the flat scan.
fn scan_offset_tables(data: &[u8]) -> (tables: Vec<(usize, usize, bool)>)
    ensures
        tables@.map_values(|t: (usize, usize, bool)| (t.0 as int, t.1 as int, t.2)) == table_scan(data@, 0),
{
    proof {
        broadcast use vstd::string::group_string_axioms;
        reveal_strlit("stco");
        reveal_strlit("co64");
    }
    let ghost b = data@;
    let len = data.len();
    let containers: [&str; 11] = ["moov", "trak", "mdia", "minf", "stbl", "edts", "dinf", "sinf", "mvex", "moof", "traf"];
    assert(containers@ == container_types());
    let mut tables: Vec<(usize, usize, bool)> = Vec::new();
    let mut i: usize = 0;
    proof {
        assert(tables@.map_values(|t: (usize, usize, bool)| (t.0 as int, t.1 as int, t.2)) + table_scan(b, 0)
            =~= table_scan(b, 0));
    }
    while i <= len && len - i >= 12
        invariant
            len == b.len(),
            data@ == b,
            i <= len,
            containers@ == container_types(),
            tables@.map_values(|t: (usize, usize, bool)| (t.0 as int, t.1 as int, t.2)) + table_scan(b, i as int)
                == table_scan(b, 0),
        decreases len - i,
    {
        let ghost before = tables@;
        let size = read_be_u32(data, i) as usize;
        let ty = slice_subrange(data, i + 4, i + 8);
        let is_co64 = bytes_eq(ty, "co64".as_bytes());
        let is_stco = bytes_eq(ty, "stco".as_bytes());
        if (is_stco || is_co64) && size >= 16 && size <= len - i {
            tables.push((i, size, is_co64));
        }
        proof {
            assert(ty@ == atom_type(b, i as int));
            assert(tables@.map_values(|t: (usize, usize, bool)| (t.0 as int, t.1 as int, t.2)) =~= before.map_values(
                |t: (usize, usize, bool)| (t.0 as int, t.1 as int, t.2),
            ) + (if is_offset_table(atom_type(b, i as int)) && size >= 16 && i + size <= b.len() {
                seq![(i as int, size as int, atom_type(b, i as int) == "co64".spec_bytes())]
            } else {
                Seq::<(int, int, bool)>::empty()
            }));
        }
        if size >= 8 && size <= len - i && matches_any(ty, &containers) {
            i = i + 8;
        } else if size >= 8 && size <= len - i {
            i = i + size;
        } else {
            i = i + 1;
        }
    }
    proof {
        assert(table_scan(b, i as int) =~= Seq::<(int, int, bool)>::empty());
        assert(tables@.map_values(|t: (usize, usize, bool)| (t.0 as int, t.1 as int, t.2)) =~= table_scan(b, 0));
    }
    tables
}

/// Sanitize, then move the chunk offsets when `mdat` moved.
fn sanitize_and_fixup(input: &[u8]) -> (res: Result<Mp4SanitizeResult, DefenderError>)
    ensures
        match (res, level_result(input@, 0)) {
            (Ok(r), Ok(w)) => {
                &&& r.output_bytes@ == mp4_fixed(input@, w.out)
                &&& r.stripped_count == w.stripped_count
                &&& r.stripped_bytes == w.stripped_bytes
            },
            (Err(e), Err(m)) => e matches DefenderError::Video(t) && t@ == m,
            _ => false,
        },
{
    let orig = find_atom_offset(input, "mdat".as_bytes());
    let mut result = match sanitize_level(input, 0) {
        Ok(r) => r,
        Err(e) => return Err(e),
    };
    let new_off = find_atom_offset(result.output_bytes.as_slice(), "mdat".as_bytes());
    match (orig, new_off) {
        (Some(o), Some(n)) => {
            if o != n {
                fixup_sample_offsets(&mut result.output_bytes, o, n);
            }
        },
        _ => {},
    }
    Ok(result)
}

/// The output after the chunk-offset fixup: the offsets move back by the
/// distance `mdat` moved, when it is found in both.
pub open spec fn mp4_fixed(input: Seq<u8>, out: Seq<u8>) -> Seq<u8> {
    let orig = find_walk(input, "mdat".spec_bytes(), 0, MAX_ATOMS_PER_LEVEL as nat);
    let moved = find_walk(out, "mdat".spec_bytes(), 0, MAX_ATOMS_PER_LEVEL as nat);
    match (orig, moved) {
        (Some(o), Some(n)) => if o != n { fixup_offsets(out, o - n) } else { out },
        _ => out,
    }
}

/// The MP4 sanitizer's decision: `None` when the type of the first atom
/// does not mark an ISO BMFF file.
pub open spec fn mp4_plan(b: Seq<u8>) -> Option<Result<Mp4Walk, Seq<char>>> {
    if b.len() < 8 || !is_one_of(b.subrange(4, 8), leading_types()) {
        None
    } else {
        match level_result(b, 0) {
            Err(m) => Some(Err(m)),
            Ok(w) => Some(
                Ok(
                    Mp4Walk {
                        offset: w.offset,
                        out: mp4_fixed(b, w.out),
                        stripped_count: w.stripped_count,
                        stripped_bytes: w.stripped_bytes,
                    },
                ),
            ),
        }
    }
}

/// What the MP4 sanitizer gives for `b`, as `mp4_plan` decides it.
pub open spec fn mp4_sanitized(res: Option<Result<Mp4SanitizeResult, DefenderError>>, b: Seq<u8>) -> bool {
    match (res, mp4_plan(b)) {
        (None, None) => true,
        (Some(Err(e)), Some(Err(m))) => e matches DefenderError::Video(t) && t@ == m,
        (Some(Ok(r)), Some(Ok(w))) => {
            &&& r.output_bytes@ == w.out
            &&& r.stripped_count == w.stripped_count
            &&& r.stripped_bytes == w.stripped_bytes
        },
        _ => false,
    }
}

/// Strip metadata atoms from an MP4/M4A/MOV file. `None` when the input does
/// not look like ISO BMFF.
pub fn try_sanitize_mp4(input: &[u8]) -> (res: Option<Result<Mp4SanitizeResult, DefenderError>>)
    ensures
        mp4_sanitized(res, input@),
{
    if input.len() < 8 {
        return None;
    }
    let leading: [&str; 7] = ["ftyp", "moov", "mdat", "free", "skip", "wide", "styp"];
    assert(leading@ == leading_types());
    if !matches_any(slice_subrange(input, 4, 8), &leading) {
        return None;
    }
    Some(sanitize_and_fixup(input))
}

} // verus!
