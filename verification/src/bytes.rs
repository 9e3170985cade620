//! Byte-level helpers shared by the container walkers and the policy checks.
use vstd::prelude::*;
use vstd::string::StringSliceAdditionalSpecFns;

verus! {

/// `needle` occurs in `hay` starting at `offset`.
pub open spec fn occurs_at(hay: Seq<u8>, needle: Seq<u8>, offset: int) -> bool {
    0 <= offset && offset + needle.len() <= hay.len() && hay.subrange(offset, offset + needle.len()) =~= needle
}

/// `needle` occurs somewhere in `hay` (the empty needle occurs everywhere).
pub open spec fn seq_contains(hay: Seq<u8>, needle: Seq<u8>) -> bool {
    exists|offset: int| occurs_at(hay, needle, offset)
}

/// Whether `needle` occurs at position `offset` of `hay`.
pub fn matches_at(hay: &[u8], needle: &[u8], offset: usize) -> (res: bool)
    ensures
        res == occurs_at(hay@, needle@, offset as int),
{
    if offset > hay.len() || needle.len() > hay.len() - offset {
        return false;
    }
    let mut i: usize = 0;
    while i < needle.len()
        invariant
            offset + needle.len() <= hay.len(),
            i <= needle.len(),
            forall|j: int| 0 <= j < i ==> hay@[offset + j] == needle@[j],
        decreases needle.len() - i,
    {
        if hay[offset + i] != needle[i] {
            assert(hay@.subrange(offset as int, offset + needle.len())[i as int] != needle@[i as int]);
            return false;
        }
        i = i + 1;
    }
    assert(hay@.subrange(offset as int, offset + needle.len()) =~= needle@);
    true
}

/// Linear substring search.
pub fn contains_bytes(haystack: &[u8], needle: &[u8]) -> (res: bool)
    ensures
        res == seq_contains(haystack@, needle@),
{
    if needle.len() > haystack.len() {
        return false;
    }
    if needle.len() == 0 {
        assert(occurs_at(haystack@, needle@, 0));
        return true;
    }
    let end = haystack.len() - needle.len();
    let mut offset: usize = 0;
    while offset <= end
        invariant
            end == haystack.len() - needle.len(),
            forall|o: int| 0 <= o < offset ==> !occurs_at(haystack@, needle@, o),
        decreases end + 1 - offset,
    {
        if matches_at(haystack, needle, offset) {
            return true;
        }
        offset = offset + 1;
    }
    false
}


/// ASCII lower-casing of a single byte (non-letters are unchanged).
pub open spec fn lower_byte(b: u8) -> u8 {
    if 65 <= b && b <= 90 { (b + 32) as u8 } else { b }
}

/// ASCII lower-casing of a byte sequence.
pub open spec fn lower(s: Seq<u8>) -> Seq<u8> {
    s.map_values(|b: u8| lower_byte(b))
}

/// `prefix` is a prefix of `s`.
pub open spec fn has_prefix(s: Seq<u8>, prefix: Seq<u8>) -> bool {
    prefix.len() <= s.len() && s.subrange(0, prefix.len() as int) =~= prefix
}

/// Big-endian value of `s[i..i+4]`.
pub open spec fn be_u32_at(s: Seq<u8>, i: int) -> int {
    s[i] * 16777216 + s[i + 1] * 65536 + s[i + 2] * 256 + s[i + 3]
}

/// Little-endian value of `s[i..i+4]`.
pub open spec fn le_u32_at(s: Seq<u8>, i: int) -> int {
    s[i + 3] * 16777216 + s[i + 2] * 65536 + s[i + 1] * 256 + s[i]
}

/// Big-endian value of `s[i..i+8]`.
pub open spec fn be_u64_at(s: Seq<u8>, i: int) -> int {
    be_u32_at(s, i) * 4294967296 + be_u32_at(s, i + 4)
}

/// Index of the last occurrence of `b` in `s[0..end]`, or -1.
pub open spec fn last_index_before(s: Seq<u8>, b: u8, end: int) -> int
    decreases end,
{
    if end <= 0 {
        -1
    } else if s[end - 1] == b {
        end - 1
    } else {
        last_index_before(s, b, end - 1)
    }
}

pub proof fn lemma_last_index_before(s: Seq<u8>, b: u8, end: int)
    requires
        0 <= end <= s.len(),
    ensures
        -1 <= last_index_before(s, b, end) < end,
        last_index_before(s, b, end) >= 0 ==> s[last_index_before(s, b, end)] == b,
        forall|k: int| last_index_before(s, b, end) < k < end ==> s[k] != b,
    decreases end,
{
    if end > 0 && s[end - 1] != b {
        lemma_last_index_before(s, b, end - 1);
    }
}

/// Number of occurrences of `b` in `s`.
pub open spec fn count_byte(s: Seq<u8>, b: u8) -> nat
    decreases s.len(),
{
    if s.len() == 0 {
        0
    } else {
        count_byte(s.drop_last(), b) + if s.last() == b { 1nat } else { 0nat }
    }
}

/// The last path component (Unix separators), skipping empty and `.` components.
pub open spec fn last_component(p: Seq<u8>) -> Option<Seq<u8>>
    decreases p.len(),
{
    if p.len() == 0 {
        None
    } else {
        let j = last_index_before(p, 47u8, p.len() as int);
        let seg = p.subrange(j + 1, p.len() as int);
        if seg.len() == 0 || seg =~= seq![46u8] {
            if j < 0 || j >= p.len() { None } else { last_component(p.subrange(0, j)) }
        } else {
            Some(seg)
        }
    }
}

/// The file name of a path: its last component unless that is `..`.
pub open spec fn file_name_of(p: Seq<u8>) -> Option<Seq<u8>> {
    match last_component(p) {
        Some(seg) => if seg =~= seq![46u8, 46u8] { None } else { Some(seg) },
        None => None,
    }
}

/// The extension of a file name: the bytes after its last `.`, unless that
/// dot is the first byte or there is none.
pub open spec fn extension_of_name(name: Seq<u8>) -> Option<Seq<u8>> {
    let k = last_index_before(name, 46u8, name.len() as int);
    if k <= 0 {
        None
    } else {
        Some(name.subrange(k + 1, name.len() as int))
    }
}

/// The extension of a path, as `Path::extension` reads it on Unix.
pub open spec fn path_extension(p: Seq<u8>) -> Option<Seq<u8>> {
    match file_name_of(p) {
        Some(name) => extension_of_name(name),
        None => None,
    }
}

/// Whether two byte slices are equal.
pub fn bytes_eq(a: &[u8], b: &[u8]) -> (res: bool)
    ensures
        res == (a@ =~= b@),
{
    if a.len() != b.len() {
        return false;
    }
    let mut i: usize = 0;
    while i < a.len()
        invariant
            a.len() == b.len(),
            i <= a.len(),
            forall|j: int| 0 <= j < i ==> a@[j] == b@[j],
        decreases a.len() - i,
    {
        if a[i] != b[i] {
            return false;
        }
        i = i + 1;
    }
    true
}

/// Whether `s` begins with `prefix`.
pub fn starts_with(s: &[u8], prefix: &[u8]) -> (res: bool)
    ensures
        res == has_prefix(s@, prefix@),
{
    let r = matches_at(s, prefix, 0);
    proof {
        if has_prefix(s@, prefix@) {
            assert(occurs_at(s@, prefix@, 0));
        }
    }
    r
}

/// ASCII lower-casing of one byte.
pub fn lower_byte_exec(b: u8) -> (res: u8)
    ensures
        res == lower_byte(b),
{
    if 65 <= b && b <= 90 { b + 32 } else { b }
}

/// ASCII lower-casing of a byte slice into a fresh vector.
pub fn to_lower(s: &[u8]) -> (res: Vec<u8>)
    ensures
        res@ =~= lower(s@),
{
    let mut out: Vec<u8> = Vec::with_capacity(s.len());
    let mut i: usize = 0;
    while i < s.len()
        invariant
            i <= s.len(),
            out@.len() == i,
            forall|j: int| 0 <= j < i ==> out@[j] == lower_byte(s@[j]),
        decreases s.len() - i,
    {
        out.push(lower_byte_exec(s[i]));
        i = i + 1;
    }
    out
}

/// Big-endian `u32` at `i`.
pub fn read_be_u32(s: &[u8], i: usize) -> (res: u32)
    requires
        i + 4 <= s@.len(),
    ensures
        res as int == be_u32_at(s@, i as int),
{
    (s[i] as u32) * 16777216 + (s[i + 1] as u32) * 65536 + (s[i + 2] as u32) * 256 + (s[i + 3] as u32)
}

/// Little-endian `u32` at `i`.
pub fn read_le_u32(s: &[u8], i: usize) -> (res: u32)
    requires
        i + 4 <= s@.len(),
    ensures
        res as int == le_u32_at(s@, i as int),
{
    let _n = s.len();
    (s[i + 3] as u32) * 16777216 + (s[i + 2] as u32) * 65536 + (s[i + 1] as u32) * 256 + (s[i] as u32)
}

/// Big-endian `u64` at `i`.
pub fn read_be_u64(s: &[u8], i: usize) -> (res: u64)
    requires
        i + 8 <= s@.len(),
    ensures
        res as int == be_u64_at(s@, i as int),
{
    let _n = s.len();
    let hi = read_be_u32(s, i) as u64;
    let lo = read_be_u32(s, i + 4) as u64;
    assert(hi * 4294967296 + lo <= u64::MAX) by (nonlinear_arith)
        requires hi <= u32::MAX, lo <= u32::MAX;
    hi * 4294967296 + lo
}

/// Index of the last `b` in `s[0..end]`, or `None`.
pub fn last_index_of(s: &[u8], b: u8, end: usize) -> (res: Option<usize>)
    requires
        end <= s@.len(),
    ensures
        match res {
            Some(k) => k as int == last_index_before(s@, b, end as int),
            None => last_index_before(s@, b, end as int) == -1,
        },
{
    let mut e = end;
    while e > 0
        invariant
            e <= end <= s@.len(),
            last_index_before(s@, b, end as int) == last_index_before(s@, b, e as int),
        decreases e,
    {
        if s[e - 1] == b {
            return Some(e - 1);
        }
        e = e - 1;
    }
    None
}

/// The byte range of the last path component, if any.
pub fn last_component_range(path: &[u8]) -> (res: Option<(usize, usize)>)
    ensures
        match res {
            Some((s, e)) => s <= e <= path@.len() && last_component(path@) == Some(
                path@.subrange(s as int, e as int),
            ),
            None => last_component(path@) is None,
        },
{
    let mut end = path.len();
    proof {
        assert(path@.subrange(0, end as int) =~= path@);
    }
    while end > 0
        invariant
            end <= path@.len(),
            last_component(path@) == last_component(path@.subrange(0, end as int)),
        decreases end,
    {
        let ghost p = path@.subrange(0, end as int);
        let j = last_index_of(path, 47u8, end);
        proof {
            lemma_same_prefix_last_index(p, path@, 47u8, end as int);
            lemma_last_index_before(path@, 47u8, end as int);
        }
        let start = match j { Some(k) => k + 1, None => 0 };
        let seg_len = end - start;
        let is_dot = seg_len == 1 && path[start] == 46u8;
        proof {
            let jj = last_index_before(p, 47u8, p.len() as int);
            assert(jj + 1 == start);
            let seg = p.subrange(jj + 1, p.len() as int);
            assert(seg =~= path@.subrange(start as int, end as int));
            if seg_len == 1 {
                assert(seg[0] == path@[start as int]);
                assert((seg =~= seq![46u8]) == is_dot);
            } else {
                assert(!(seg =~= seq![46u8]));
            }
        }
        if seg_len == 0 || is_dot {
            match j {
                Some(k) => {
                    proof {
                        assert(p.subrange(0, k as int) =~= path@.subrange(0, k as int));
                    }
                    end = k;
                }
                None => {
                    return None;
                }
            }
        } else {
            return Some((start, end));
        }
    }
    proof {
        assert(path@.subrange(0, 0) =~= Seq::<u8>::empty());
    }
    None
}

/// The extension of a path (Unix separators), as `Path::extension` reads it.
pub fn extension_of(path: &[u8]) -> (res: Option<Vec<u8>>)
    ensures
        match res {
            Some(v) => path_extension(path@) == Some(v@),
            None => path_extension(path@) is None,
        },
{
    let (name_start, end) = match last_component_range(path) {
        Some(r) => r,
        None => { return None; }
    };
    let ghost name = path@.subrange(name_start as int, end as int);
    if end - name_start == 2 && path[name_start] == 46u8 && path[name_start + 1] == 46u8 {
        proof { assert(name =~= seq![46u8, 46u8]); }
        return None;
    }
    proof {
        if name =~= seq![46u8, 46u8] {
            assert(name[0] == path@[name_start as int]);
            assert(name[1] == path@[name_start + 1]);
        }
        assert(file_name_of(path@) == Some(name));
    }
    let mut e = end;
    while e > name_start
        invariant
            name_start <= e <= end <= path@.len(),
            last_index_before(name, 46u8, name.len() as int) == last_index_before(name, 46u8, e - name_start),
            name == path@.subrange(name_start as int, end as int),
            file_name_of(path@) == Some(name),
        decreases e,
    {
        if path[e - 1] == 46u8 {
            let k = e - 1 - name_start;
            proof { assert(name[k as int] == path@[e - 1]); }
            if k == 0 {
                return None;
            }
            let mut out: Vec<u8> = Vec::new();
            let mut i = e;
            while i < end
                invariant
                    e <= i <= end <= path@.len(),
                    out@ =~= path@.subrange(e as int, i as int),
                decreases end - i,
            {
                out.push(path[i]);
                i = i + 1;
            }
            proof {
                assert(name.subrange(k + 1, name.len() as int) =~= path@.subrange(e as int, end as int));
            }
            return Some(out);
        }
        proof { assert(name[e - 1 - name_start] == path@[e - 1]); }
        e = e - 1;
    }
    None
}

pub proof fn lemma_same_prefix_last_index(p: Seq<u8>, q: Seq<u8>, b: u8, k: int)
    requires
        0 <= k <= p.len(),
        p.len() <= q.len(),
        forall|i: int| 0 <= i < p.len() ==> p[i] == q[i],
    ensures
        last_index_before(p, b, k) == last_index_before(q, b, k),
    decreases k,
{
    if k > 0 {
        lemma_same_prefix_last_index(p, q, b, k - 1);
    }
}

} // verus!

verus! {

/// `bytes` equals the UTF-8 bytes of one of `names`.
pub open spec fn is_one_of(bytes: Seq<u8>, names: Seq<&str>) -> bool {
    exists|i: int| 0 <= i < names.len() && names[i].spec_bytes() == bytes
}

/// Whether `bytes` equals one of `names`.
pub fn matches_any(bytes: &[u8], names: &[&str]) -> (res: bool)
    ensures
        res == is_one_of(bytes@, names@),
{
    let mut i: usize = 0;
    while i < names.len()
        invariant
            i <= names@.len(),
            forall|j: int| 0 <= j < i ==> names@[j].spec_bytes() != bytes@,
        decreases names@.len() - i,
    {
        let name: &str = names[i];
        if bytes_eq(bytes, name.as_bytes()) {
            return true;
        }
        i = i + 1;
    }
    false
}


} // verus!

verus! {

/// The four little-endian bytes of `v`.
pub open spec fn le_u32_bytes(v: int) -> Seq<u8> {
    seq![(v % 256) as u8, ((v / 256) % 256) as u8, ((v / 65536) % 256) as u8, ((v / 16777216) % 256) as u8]
}

/// The four big-endian bytes of `v`.
pub open spec fn be_u32_bytes(v: int) -> Seq<u8> {
    seq![((v / 16777216) % 256) as u8, ((v / 65536) % 256) as u8, ((v / 256) % 256) as u8, (v % 256) as u8]
}

/// Append the little-endian bytes of `v`.
pub fn push_le_u32(out: &mut Vec<u8>, v: u32)
    ensures
        final(out)@ == old(out)@ + le_u32_bytes(v as int),
{
    out.push((v % 256) as u8);
    out.push(((v / 256) % 256) as u8);
    out.push(((v / 65536) % 256) as u8);
    out.push(((v / 16777216) % 256) as u8);
    assert(final(out)@ =~= old(out)@ + le_u32_bytes(v as int));
}

/// Append the big-endian bytes of `v`.
pub fn push_be_u32(out: &mut Vec<u8>, v: u32)
    ensures
        final(out)@ == old(out)@ + be_u32_bytes(v as int),
{
    out.push(((v / 16777216) % 256) as u8);
    out.push(((v / 65536) % 256) as u8);
    out.push(((v / 256) % 256) as u8);
    out.push((v % 256) as u8);
    assert(final(out)@ =~= old(out)@ + be_u32_bytes(v as int));
}

/// Append `src[start..end]`.
pub fn push_range(out: &mut Vec<u8>, src: &[u8], start: usize, end: usize)
    requires
        start <= end <= src@.len(),
    ensures
        final(out)@ == old(out)@ + src@.subrange(start as int, end as int),
{
    let mut i = start;
    while i < end
        invariant
            start <= i <= end <= src@.len(),
            out@ == old(out)@ + src@.subrange(start as int, i as int),
        decreases end - i,
    {
        out.push(src[i]);
        i = i + 1;
        assert(out@ =~= old(out)@ + src@.subrange(start as int, i as int));
    }
}

/// Append all of `src`.
pub fn push_all(out: &mut Vec<u8>, src: &[u8])
    ensures
        final(out)@ == old(out)@ + src@,
{
    push_range(out, src, 0, src.len());
    assert(src@.subrange(0, src@.len() as int) =~= src@);
}

/// The eight big-endian bytes of `v`.
pub open spec fn be_u64_bytes(v: int) -> Seq<u8> {
    be_u32_bytes(v / 4294967296) + be_u32_bytes(v % 4294967296)
}

/// Append the big-endian bytes of `v`.
pub fn push_be_u64(out: &mut Vec<u8>, v: u64)
    ensures
        final(out)@ == old(out)@ + be_u64_bytes(v as int),
{
    let hi = (v / 4294967296) as u32;
    let lo = (v % 4294967296) as u32;
    push_be_u32(out, hi);
    push_be_u32(out, lo);
    assert(final(out)@ =~= old(out)@ + be_u64_bytes(v as int));
}

/// `s` with `bytes` written over it from `pos`.
pub open spec fn overwrite(s: Seq<u8>, pos: int, bytes: Seq<u8>) -> Seq<u8> {
    s.subrange(0, pos) + bytes + s.subrange(pos + bytes.len(), s.len() as int)
}

/// Write `bytes` over `out[pos..pos + bytes.len()]`.
pub fn write_at(out: &mut Vec<u8>, pos: usize, bytes: &[u8])
    requires
        pos + bytes@.len() <= old(out)@.len(),
    ensures
        final(out)@ == overwrite(old(out)@, pos as int, bytes@),
{
    let n = out.len();
    let mut k: usize = 0;
    while k < bytes.len()
        invariant
            k <= bytes@.len(),
            n == old(out)@.len(),
            pos + bytes@.len() <= old(out)@.len(),
            out@.len() == old(out)@.len(),
            forall|j: int| 0 <= j < pos ==> out@[j] == old(out)@[j],
            forall|j: int| pos + bytes@.len() <= j < out@.len() ==> out@[j] == old(out)@[j],
            forall|j: int| 0 <= j < k ==> out@[pos + j] == #[trigger] bytes@[j],
            forall|j: int| pos + k <= j < pos + bytes@.len() ==> #[trigger] out@[j] == old(out)@[j],
        decreases bytes@.len() - k,
    {
        out.set(pos + k, bytes[k]);
        k = k + 1;
    }
    assert(out@ =~= overwrite(old(out)@, pos as int, bytes@));
}

} // verus!
