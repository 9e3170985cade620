//! The protobuf wire format, as far as the FFI messages use it: varints,
//! field keys, and length-delimited fields. The messages are encoded
//! byte for byte as prost's derived encoders encode them; prost works
//! through a derive macro, which verified code cannot use, so the encoding
//! is written out here and proved against the wire format.
use vstd::prelude::*;

verus! {

/// The base-128 varint of `v`, least significant group first.
pub open spec fn varint(v: nat) -> Seq<u8>
    decreases v,
{
    if v < 128 {
        seq![v as u8]
    } else {
        seq![(v % 128 + 128) as u8] + varint(v / 128)
    }
}

/// An `int32` as protobuf writes it: negative values sign-extended to 64
/// bits.
pub open spec fn int32_wire(x: i32) -> nat {
    if x >= 0 {
        x as nat
    } else {
        (x + 0x1_0000_0000_0000_0000int) as nat
    }
}

/// The key of a field.
pub open spec fn key_bytes(tag: nat, wire_type: nat) -> Seq<u8> {
    varint(tag * 8 + wire_type)
}

/// An `int32` field, left out when zero.
pub open spec fn enc_int32(tag: nat, x: i32) -> Seq<u8> {
    if x == 0 {
        Seq::empty()
    } else {
        key_bytes(tag, 0) + varint(int32_wire(x))
    }
}

/// A `uint64` field, left out when zero.
pub open spec fn enc_u64(tag: nat, x: u64) -> Seq<u8> {
    if x == 0 {
        Seq::empty()
    } else {
        key_bytes(tag, 0) + varint(x as nat)
    }
}

/// A `bool` field, left out when false.
pub open spec fn enc_bool(tag: nat, b: bool) -> Seq<u8> {
    if b {
        key_bytes(tag, 0) + seq![1u8]
    } else {
        Seq::empty()
    }
}

/// A length-delimited field.
pub open spec fn enc_delimited(tag: nat, body: Seq<u8>) -> Seq<u8> {
    key_bytes(tag, 2) + varint(body.len()) + body
}

/// A `string` field, left out when empty.
pub open spec fn enc_string(tag: nat, s: Seq<char>) -> Seq<u8> {
    if s.len() == 0 {
        Seq::empty()
    } else {
        enc_delimited(tag, vstd::utf8::encode_utf8(s))
    }
}

/// Append the varint of `v`.
pub fn push_varint(out: &mut Vec<u8>, v: u64)
    ensures
        final(out)@ == old(out)@ + varint(v as nat),
    decreases v,
{
    if v < 128 {
        out.push(v as u8);
        proof {
            assert(out@ =~= old(out)@ + varint(v as nat));
        }
    } else {
        out.push((v % 128 + 128) as u8);
        let ghost mid = out@;
        push_varint(out, v / 128);
        proof {
            assert(out@ =~= old(out)@ + varint(v as nat));
        }
    }
}

/// The sign-extended 64-bit value of an `int32`.
pub fn int32_as_wire(x: i32) -> (res: u64)
    ensures
        res as nat == int32_wire(x),
{
    if x >= 0 {
        x as u64
    } else {
        let magnitude: u64 = (-(x as i64)) as u64;
        (u64::MAX - magnitude) + 1
    }
}

pub fn push_int32_field(out: &mut Vec<u8>, tag: u64, x: i32)
    requires
        tag < 0x1000_0000,
    ensures
        final(out)@ == old(out)@ + enc_int32(tag as nat, x),
{
    if x != 0 {
        push_varint(out, tag * 8);
        push_varint(out, int32_as_wire(x));
        proof {
            assert(out@ =~= old(out)@ + enc_int32(tag as nat, x));
        }
    } else {
        proof {
            assert(out@ =~= old(out)@ + enc_int32(tag as nat, x));
        }
    }
}

pub fn push_u64_field(out: &mut Vec<u8>, tag: u64, x: u64)
    requires
        tag < 0x1000_0000,
    ensures
        final(out)@ == old(out)@ + enc_u64(tag as nat, x),
{
    if x != 0 {
        push_varint(out, tag * 8);
        push_varint(out, x);
        proof {
            assert(out@ =~= old(out)@ + enc_u64(tag as nat, x));
        }
    } else {
        proof {
            assert(out@ =~= old(out)@ + enc_u64(tag as nat, x));
        }
    }
}

pub fn push_bool_field(out: &mut Vec<u8>, tag: u64, b: bool)
    requires
        tag < 0x1000_0000,
    ensures
        final(out)@ == old(out)@ + enc_bool(tag as nat, b),
{
    if b {
        push_varint(out, tag * 8);
        out.push(1u8);
        proof {
            assert(out@ =~= old(out)@ + enc_bool(tag as nat, b));
        }
    } else {
        proof {
            assert(out@ =~= old(out)@ + enc_bool(tag as nat, b));
        }
    }
}

pub fn push_delimited_field(out: &mut Vec<u8>, tag: u64, body: &[u8])
    requires
        tag < 0x1000_0000,
    ensures
        final(out)@ == old(out)@ + enc_delimited(tag as nat, body@),
{
    push_varint(out, tag * 8 + 2);
    push_varint(out, body.len() as u64);
    crate::bytes::push_all(out, body);
    proof {
        assert(out@ =~= old(out)@ + enc_delimited(tag as nat, body@));
    }
}

pub fn push_string_field(out: &mut Vec<u8>, tag: u64, s: &str)
    requires
        tag < 0x1000_0000,
    ensures
        final(out)@ == old(out)@ + enc_string(tag as nat, s@),
{
    let bytes = s.as_bytes();
    proof {
        vstd::utf8::encode_utf8_valid_utf8(s@);
    }
    if bytes.len() == 0 {
        proof {
            lemma_encode_empty(s@);
            assert(out@ =~= old(out)@ + enc_string(tag as nat, s@));
        }
    } else {
        proof {
            if s@.len() == 0 {
                assert(vstd::utf8::encode_utf8(s@) =~= Seq::<u8>::empty());
            }
        }
        push_delimited_field(out, tag, bytes);
    }
}

/// A string encodes to no bytes exactly when it is empty.
proof fn lemma_encode_empty(s: Seq<char>)
    ensures
        (vstd::utf8::encode_utf8(s).len() == 0) <==> (s.len() == 0),
{
    if s.len() == 0 {
        assert(vstd::utf8::encode_utf8(s) =~= Seq::<u8>::empty());
    } else {
        vstd::utf8::encode_utf8_first_scalar(s);
    }
}


/// `128^k`.
pub open spec fn pow128(k: nat) -> nat
    decreases k,
{
    if k == 0 {
        1
    } else {
        128 * pow128((k - 1) as nat)
    }
}

/// The groups of a varint from its `k`-th on, read within `[pos, end)`:
/// their value scaled by `128^k`, and where the varint ends. A varint has
/// at most ten groups, and the tenth may only hold 0 or 1.
pub open spec fn varint_tail(b: Seq<u8>, pos: int, end: int, k: nat) -> Option<(nat, int)>
    decreases 10 - k,
{
    if k >= 10 || pos < 0 || pos + k >= end || end > b.len() {
        None
    } else {
        let byte = b[pos + k];
        if byte < 128 {
            if k == 9 && byte >= 2 {
                None
            } else {
                Some(((byte as nat) * pow128(k), pos + k + 1))
            }
        } else {
            match varint_tail(b, pos, end, k + 1) {
                Some((v, n)) => Some((((byte - 128) as nat) * pow128(k) + v, n)),
                None => None,
            }
        }
    }
}

/// The varint at `pos`, read within `[pos, end)`, and where it ends.
pub open spec fn varint_at(b: Seq<u8>, pos: int, end: int) -> Option<(nat, int)> {
    varint_tail(b, pos, end, 0)
}

proof fn lemma_pow128_bounds(k: nat)
    requires
        k <= 9,
    ensures
        pow128(k) <= 0x8000_0000_0000_0000,
        k < 9 ==> pow128(k) * 128 <= 0x8000_0000_0000_0000,
        pow128(k + 1) == pow128(k) * 128,
        k == 9 ==> pow128(k) == 0x8000_0000_0000_0000,
{
    reveal_with_fuel(pow128, 11);
    assert(pow128(9) == 0x8000_0000_0000_0000);
    if k < 9 {
        lemma_pow128_mono(k, 8);
    }
}

proof fn lemma_pow128_mono(a: nat, b: nat)
    requires
        a <= b,
    ensures
        pow128(a) <= pow128(b),
    decreases b,
{
    if a < b {
        lemma_pow128_mono(a, (b - 1) as nat);
    }
}

/// Read the varint at `pos` within `[pos, end)`.
pub fn read_varint(b: &[u8], pos: usize, end: usize) -> (res: Option<(u64, usize)>)
    requires
        end <= b@.len(),
    ensures
        match res {
            Some((v, n)) => varint_at(b@, pos as int, end as int) == Some((v as nat, n as int)),
            None => varint_at(b@, pos as int, end as int) is None,
        },
{
    if pos >= end {
        return None;
    }
    let mut k: usize = 0;
    let mut acc: u64 = 0;
    let mut mult: u64 = 1;
    loop
        invariant
            pos < end <= b@.len(),
            k <= 9,
            mult as nat == pow128(k as nat),
            (acc as nat) < pow128(k as nat),
            varint_at(b@, pos as int, end as int) == match varint_tail(b@, pos as int, end as int, k as nat) {
                Some((v, n)) => Some((acc as nat + v, n)),
                None => None,
            },
        decreases 10 - k,
    {
        proof {
            lemma_pow128_bounds(k as nat);
        }
        if k >= end - pos {
            return None;
        }
        let byte = b[pos + k];
        if byte < 128 {
            if k == 9 && byte >= 2 {
                return None;
            }
            proof {
                vstd::arithmetic::mul::lemma_mul_upper_bound(byte as int, 127, mult as int, mult as int);
                if k == 9 {
                    vstd::arithmetic::mul::lemma_mul_upper_bound(byte as int, 1, mult as int, mult as int);
                }
            }
            let value = acc + (byte as u64) * mult;
            return Some((value, pos + k + 1));
        }
        if k == 9 {
            proof {
                assert(varint_tail(b@, pos as int, end as int, 10) is None);
                assert(varint_tail(b@, pos as int, end as int, k as nat) is None);
            }
            return None;
        }
        proof {
            vstd::arithmetic::mul::lemma_mul_upper_bound((byte - 128) as int, 127, mult as int, mult as int);
        }
        acc = acc + ((byte - 128) as u64) * mult;
        mult = mult * 128;
        k = k + 1;
    }
}

/// A field key read at `pos`: its tag, its wire type (0 to 5), and where
/// its value starts.
pub open spec fn key_at(b: Seq<u8>, pos: int, end: int) -> Option<(nat, nat, int)> {
    match varint_at(b, pos, end) {
        Some((k, n)) => if k > 0xFFFF_FFFF || k / 8 == 0 || k % 8 > 5 {
            None
        } else {
            Some((k / 8, k % 8, n))
        },
        None => None,
    }
}

/// Read the key of the field at `pos`.
pub fn read_key(b: &[u8], pos: usize, end: usize) -> (res: Option<(u64, u64, usize)>)
    requires
        end <= b@.len(),
    ensures
        match res {
            Some((t, w, n)) => key_at(b@, pos as int, end as int) == Some((t as nat, w as nat, n as int)),
            None => key_at(b@, pos as int, end as int) is None,
        },
{
    match read_varint(b, pos, end) {
        Some((k, n)) => {
            if k > 0xFFFF_FFFF || k / 8 == 0 || k % 8 > 5 {
                None
            } else {
                Some((k / 8, k % 8, n))
            }
        },
        None => None,
    }
}

/// The bounds of the length-delimited value at `pos`.
pub open spec fn delimited_at(b: Seq<u8>, pos: int, end: int) -> Option<(int, int)> {
    match varint_at(b, pos, end) {
        Some((l, n)) => if n + l <= end {
            Some((n, n + l))
        } else {
            None
        },
        None => None,
    }
}

pub fn read_delimited(b: &[u8], pos: usize, end: usize) -> (res: Option<(usize, usize)>)
    requires
        end <= b@.len(),
    ensures
        match res {
            Some((s, e)) => delimited_at(b@, pos as int, end as int) == Some((s as int, e as int)) && s <= e <= end,
            None => delimited_at(b@, pos as int, end as int) is None,
        },
{
    match read_varint(b, pos, end) {
        Some((l, n)) => {
            proof {
                assert(n <= end) by {
                    lemma_varint_tail_within(b@, pos as int, end as int, 0);
                }
            }
            if l <= (end - n) as u64 {
                Some((n, n + l as usize))
            } else {
                None
            }
        },
        None => None,
    }
}

proof fn lemma_varint_tail_within(b: Seq<u8>, pos: int, end: int, k: nat)
    ensures
        varint_tail(b, pos, end, k) matches Some((_, n)) ==> pos < n <= end,
    decreases 10 - k,
{
    if k < 10 && pos >= 0 && pos + k < end && end <= b.len() && b[pos + k] >= 128 {
        lemma_varint_tail_within(b, pos, end, k + 1);
    }
}

/// Where the value of an unknown field of this wire type ends; groups are
/// not accepted.
pub open spec fn skip_value(b: Seq<u8>, wire_type: nat, pos: int, end: int) -> Option<int> {
    if wire_type == 0 {
        match varint_at(b, pos, end) {
            Some((_, n)) => Some(n),
            None => None,
        }
    } else if wire_type == 1 {
        if pos + 8 <= end {
            Some(pos + 8)
        } else {
            None
        }
    } else if wire_type == 2 {
        match delimited_at(b, pos, end) {
            Some((_, e)) => Some(e),
            None => None,
        }
    } else if wire_type == 5 {
        if pos + 4 <= end {
            Some(pos + 4)
        } else {
            None
        }
    } else {
        None
    }
}

pub fn skip_field_value(b: &[u8], wire_type: u64, pos: usize, end: usize) -> (res: Option<usize>)
    requires
        end <= b@.len(),
        pos <= end,
    ensures
        match res {
            Some(n) => skip_value(b@, wire_type as nat, pos as int, end as int) == Some(n as int),
            None => skip_value(b@, wire_type as nat, pos as int, end as int) is None,
        },
{
    if wire_type == 0 {
        match read_varint(b, pos, end) {
            Some((_, n)) => Some(n),
            None => None,
        }
    } else if wire_type == 1 {
        if end - pos >= 8 {
            Some(pos + 8)
        } else {
            None
        }
    } else if wire_type == 2 {
        match read_delimited(b, pos, end) {
            Some((_, e)) => Some(e),
            None => None,
        }
    } else if wire_type == 5 {
        if end - pos >= 4 {
            Some(pos + 4)
        } else {
            None
        }
    } else {
        None
    }
}

/// The UTF-8 string in the length-delimited value at `pos`.
pub open spec fn string_at(b: Seq<u8>, pos: int, end: int) -> Option<(Seq<char>, int)> {
    match delimited_at(b, pos, end) {
        Some((s, e)) => if vstd::utf8::valid_utf8(b.subrange(s, e)) {
            Some((vstd::utf8::decode_utf8(b.subrange(s, e)), e))
        } else {
            None
        },
        None => None,
    }
}

pub fn read_string(b: &[u8], pos: usize, end: usize) -> (res: Option<(String, usize)>)
    requires
        end <= b@.len(),
    ensures
        match res {
            Some((s, n)) => string_at(b@, pos as int, end as int) == Some((s@, n as int)) && n <= end,
            None => string_at(b@, pos as int, end as int) is None,
        },
{
    match read_delimited(b, pos, end) {
        Some((s, e)) => {
            let slice = &b[s..e];
            proof {
                assert(slice@ =~= b@.subrange(s as int, e as int));
            }
            match crate::text::utf8_text(slice) {
                Some(text) => Some((text, e)),
                None => None,
            }
        },
        None => None,
    }
}


/// A varint read within `[pos, end)` ends after `pos` and by `end`.
pub proof fn lemma_varint_within(b: Seq<u8>, pos: int, end: int)
    ensures
        varint_at(b, pos, end) matches Some((_, n)) ==> pos < n <= end,
{
    lemma_varint_tail_within(b, pos, end, 0);
}

/// A skipped value ends at or after `pos`, and by `end`.
pub proof fn lemma_skip_within(b: Seq<u8>, wt: nat, pos: int, end: int)
    requires
        pos <= end,
    ensures
        skip_value(b, wt, pos, end) matches Some(n) ==> pos <= n <= end,
{
    lemma_varint_tail_within(b, pos, end, 0);
}


// ── Reading back what was written ────────────────────────────────────────

/// A varint has at least one byte, and one exactly below 128.
pub proof fn lemma_varint_len(v: nat)
    ensures
        varint(v).len() >= 1,
        v < 128 ==> varint(v).len() == 1,
    decreases v,
{
    if v >= 128 {
        lemma_varint_len(v / 128);
    }
}

proof fn lemma_varint_tail_read(b: Seq<u8>, pos: int, end: int, k: nat, w: nat)
    requires
        k < 10,
        pos >= 0,
        w * pow128(k) < 0x1_0000_0000_0000_0000,
        pos + k + varint(w).len() <= end <= b.len(),
        b.subrange(pos + k, pos + k + varint(w).len()) == varint(w),
    ensures
        varint_tail(b, pos, end, k) == Some((w * pow128(k), pos + k + varint(w).len())),
    decreases w,
{
    lemma_varint_len(w);
    lemma_pow128_bounds(if k <= 9 { k } else { 9 });
    assert(b[pos + k] == b.subrange(pos + k, pos + k + varint(w).len())[0]);
    let byte = b[pos + k];
    if w < 128 {
        assert(byte == w as u8);
        if k == 9 {
            assert(w < 2) by (nonlinear_arith)
                requires
                    w * 0x8000_0000_0000_0000nat < 0x1_0000_0000_0000_0000nat,
            ;
        }
    } else {
        assert(byte == (w % 128 + 128) as u8);
        if k == 9 {
            assert(false) by (nonlinear_arith)
                requires
                    w >= 128,
                    w * 0x8000_0000_0000_0000nat < 0x1_0000_0000_0000_0000nat,
            ;
        }
        let rest = w / 128;
        let tail = varint(rest);
        assert(varint(w) == seq![(w % 128 + 128) as u8] + tail);
        assert(b.subrange(pos + k + 1, pos + k + 1 + tail.len()) =~= varint(w).subrange(1, varint(w).len() as int));
        assert(varint(w).subrange(1, varint(w).len() as int) =~= tail);
        let pk = pow128(k);
        assert(pow128(k + 1) == 128 * pk);
        assert(rest * pow128(k + 1) <= w * pk) by (nonlinear_arith)
            requires
                rest == w / 128,
                pow128(k + 1) == 128 * pk,
                pk >= 0,
        ;
        lemma_varint_tail_read(b, pos, end, k + 1, rest);
        assert((w % 128) * pk + rest * pow128(k + 1) == w * pk) by (nonlinear_arith)
            requires
                rest == w / 128,
                pow128(k + 1) == 128 * pk,
        ;
    }
}

/// The varint of `v` written at `pos` reads back as `v`.
pub proof fn lemma_varint_read(b: Seq<u8>, pos: int, end: int, v: nat)
    requires
        v < 0x1_0000_0000_0000_0000,
        pos >= 0,
        pos + varint(v).len() <= end <= b.len(),
        b.subrange(pos, pos + varint(v).len()) == varint(v),
    ensures
        varint_at(b, pos, end) == Some((v, pos + varint(v).len())),
{
    assert(pow128(0) == 1);
    lemma_varint_tail_read(b, pos, end, 0, v);
}

/// The key of a field with a small tag is one byte and reads back.
pub proof fn lemma_key_read(b: Seq<u8>, pos: int, end: int, tag: nat, wt: nat)
    requires
        1 <= tag <= 15,
        wt <= 5,
        pos >= 0,
        pos + 1 <= end <= b.len(),
        b.subrange(pos, pos + 1) == key_bytes(tag, wt),
    ensures
        key_bytes(tag, wt).len() == 1,
        key_at(b, pos, end) == Some((tag, wt, pos + 1)),
{
    lemma_varint_len(tag * 8 + wt);
    lemma_varint_read(b, pos, end, tag * 8 + wt);
    assert((tag * 8 + wt) / 8 == tag && (tag * 8 + wt) % 8 == wt) by (nonlinear_arith)
        requires
            wt <= 5,
    ;
}

/// A length-delimited value written at `pos` (after its key) reads back
/// as its bounds.
pub proof fn lemma_delimited_read(b: Seq<u8>, pos: int, end: int, body: Seq<u8>)
    requires
        pos >= 0,
        body.len() < 0x1_0000_0000_0000_0000,
        pos + varint(body.len()).len() + body.len() <= end <= b.len(),
        b.subrange(pos, pos + varint(body.len()).len() + body.len()) == varint(body.len()) + body,
    ensures
        delimited_at(b, pos, end) == Some(
            (pos + varint(body.len()).len(), pos + varint(body.len()).len() + body.len()),
        ),
        b.subrange(pos + varint(body.len()).len(), pos + varint(body.len()).len() + body.len()) == body,
{
    let n = varint(body.len()).len();
    let all = varint(body.len()) + body;
    assert(b.subrange(pos, pos + n) =~= all.subrange(0, n as int));
    assert(all.subrange(0, n as int) =~= varint(body.len()));
    lemma_varint_read(b, pos, end, body.len());
    assert(b.subrange(pos + n, pos + n + body.len()) =~= all.subrange(n as int, all.len() as int));
    assert(all.subrange(n as int, all.len() as int) =~= body);
}

/// A string written at `pos` (after its key) reads back.
pub proof fn lemma_string_read(b: Seq<u8>, pos: int, end: int, s: Seq<char>)
    requires
        pos >= 0,
        vstd::utf8::encode_utf8(s).len() < 0x1_0000_0000_0000_0000,
        pos + varint(vstd::utf8::encode_utf8(s).len()).len() + vstd::utf8::encode_utf8(s).len() <= end <= b.len(),
        b.subrange(pos, pos + varint(vstd::utf8::encode_utf8(s).len()).len() + vstd::utf8::encode_utf8(s).len())
            == varint(vstd::utf8::encode_utf8(s).len()) + vstd::utf8::encode_utf8(s),
    ensures
        string_at(b, pos, end) == Some(
            (s, pos + varint(vstd::utf8::encode_utf8(s).len()).len() + vstd::utf8::encode_utf8(s).len()),
        ),
{
    let bytes = vstd::utf8::encode_utf8(s);
    lemma_delimited_read(b, pos, end, bytes);
    vstd::utf8::encode_utf8_valid_utf8(s);
    vstd::utf8::encode_utf8_decode_utf8(s);
}

/// An `int32` goes on the wire as a value below `2^64` whose low 32 bits
/// are the integer itself.
pub proof fn lemma_int32_wire(x: i32)
    ensures
        int32_wire(x) < 0x1_0000_0000_0000_0000,
        ((int32_wire(x) as u64) as i32) == x,
{
    assert(((x as u64) as i32) == x) by (bit_vector);
    if x >= 0 {
        assert((x as u64) as int == x as int) by (bit_vector)
            requires
                x >= 0,
        ;
    } else {
        assert((x as u64) as int == x as int + 0x1_0000_0000_0000_0000int) by (bit_vector)
            requires
                x < 0,
        ;
    }
}

} // verus!
