//! The canonical payload of a media snapshot tells snapshots apart: it is
//! built from self-delimiting pieces (quoted and escaped strings, decimal
//! numbers followed by a delimiter, fixed keys), so equal payloads come
//! from equal snapshots.
use vstd::prelude::*;

use crate::registry::{opt_provenance_view, provenance_view};
use crate::tenant::{
    json_escape, json_escaped, json_opt_string, json_opt_u64, json_string, limits_json, media_payload,
    opt_provenance_json, provenance_json, TenantMediaLimitsSnapshot, TenantOverrideProvenance,
};
use crate::text::{decimal, digit_char};

verus! {

/// A decimal digit.
pub open spec fn is_digit(c: char) -> bool {
    '0' <= c <= '9'
}

/// `x` does not go on with a digit.
pub open spec fn no_digit_next(x: Seq<char>) -> bool {
    x.len() == 0 || !is_digit(x[0])
}

proof fn lemma_decimal_shape(n: nat)
    ensures
        decimal(n).len() >= 1,
        n < 10 <==> decimal(n).len() == 1,
        forall|i: int| 0 <= i < decimal(n).len() ==> is_digit(#[trigger] decimal(n)[i]),
    decreases n,
{
    if n >= 10 {
        lemma_decimal_shape(n / 10);
        let d = decimal(n / 10);
        assert forall|i: int| 0 <= i < decimal(n).len() implies is_digit(#[trigger] decimal(n)[i]) by {
            if i < d.len() {
                assert(decimal(n)[i] == d[i]);
            }
        }
    }
}

proof fn lemma_decimal_injective(n: nat, m: nat)
    requires
        decimal(n) == decimal(m),
    ensures
        n == m,
    decreases n,
{
    lemma_decimal_shape(n);
    lemma_decimal_shape(m);
    if n >= 10 {
        assert(m >= 10);
        let dn = decimal(n);
        assert(dn.drop_last() =~= decimal(n / 10));
        assert(decimal(m).drop_last() =~= decimal(m / 10));
        assert(dn.last() == digit_char((n % 10) as int));
        assert(decimal(m).last() == digit_char((m % 10) as int));
        lemma_decimal_injective(n / 10, m / 10);
    } else {
        assert(m < 10);
        assert(decimal(n)[0] == digit_char(n as int));
        assert(decimal(m)[0] == digit_char(m as int));
    }
}

/// A decimal number followed by something that is no digit reads back.
pub proof fn lemma_decimal_prefix(n: nat, m: nat, x: Seq<char>, y: Seq<char>)
    requires
        decimal(n) + x == decimal(m) + y,
        no_digit_next(x),
        no_digit_next(y),
    ensures
        n == m,
        x == y,
{
    lemma_decimal_shape(n);
    lemma_decimal_shape(m);
    let dn = decimal(n);
    let dm = decimal(m);
    let l = dn + x;
    if dn.len() < dm.len() {
        assert(l[dn.len() as int] == dm[dn.len() as int]);
        if x.len() == 0 {
            assert(false);
        } else {
            assert(l[dn.len() as int] == x[0]);
        }
    } else if dm.len() < dn.len() {
        assert(l[dm.len() as int] == dn[dm.len() as int]);
        assert((dm + y)[dm.len() as int] == dm[dm.len() as int] || y.len() > 0);
        if y.len() == 0 {
            assert(false);
        } else {
            assert((dm + y)[dm.len() as int] == y[0]);
        }
    }
    assert(dn =~= l.subrange(0, dn.len() as int));
    assert(dm =~= (dm + y).subrange(0, dm.len() as int));
    lemma_decimal_injective(n, m);
    assert(x =~= l.subrange(dn.len() as int, l.len() as int));
    assert(y =~= (dm + y).subrange(dm.len() as int, (dm + y).len() as int));
}

/// The escape of a character is never empty and never starts with a quote.
proof fn lemma_escape_first(c: char)
    ensures
        json_escape(c).len() >= 1,
        json_escape(c)[0] != '"',
{
}

/// Escapes form a prefix code: two escaped characters that start the same
/// text are the same character.
proof fn lemma_escape_prefix(c1: char, c2: char, u: Seq<char>, v: Seq<char>)
    requires
        json_escape(c1) + u == json_escape(c2) + v,
    ensures
        c1 == c2,
        u == v,
{
    let e1 = json_escape(c1);
    let e2 = json_escape(c2);
    let l = e1 + u;
    let r = e2 + v;
    assert(l[0] == e1[0]);
    assert(r[0] == e2[0]);
    if e1.len() >= 2 && e2.len() >= 2 {
        assert(l[1] == e1[1]);
        assert(r[1] == e2[1]);
    }
    if e1.len() >= 2 && e2.len() == 1 {
        assert(l[1] == e1[1]);
    }
    if e1.len() == 6 && e2.len() == 6 {
        assert(l[4] == e1[4]);
        assert(r[4] == e2[4]);
        assert(l[5] == e1[5]);
        assert(r[5] == e2[5]);
        let a = c1 as u32;
        let b = c2 as u32;
        assert(a / 16 == b / 16 && a % 16 == b % 16) by {
            assert(crate::digest::hex_char(a as int / 16) == crate::digest::hex_char(b as int / 16));
            assert(crate::digest::hex_char(a as int % 16) == crate::digest::hex_char(b as int % 16));
        }
        assert(a == b);
    }
    assert(c1 == c2);
    assert(u =~= l.subrange(e1.len() as int, l.len() as int));
    assert(v =~= r.subrange(e2.len() as int, r.len() as int));
}

/// Escaping a string escapes its first character, then the rest.
proof fn lemma_escaped_cons(c: char, rest: Seq<char>)
    ensures
        json_escaped(seq![c] + rest) == json_escape(c) + json_escaped(rest),
    decreases rest.len(),
{
    let s = seq![c] + rest;
    if rest.len() == 0 {
        assert(s.drop_last() =~= Seq::<char>::empty());
        assert(s.last() == c);
        assert(json_escaped(s) == json_escaped(s.drop_last()) + json_escape(c));
        assert(json_escaped(Seq::<char>::empty()) =~= Seq::<char>::empty());
        assert(json_escaped(rest) =~= Seq::<char>::empty());
        assert(json_escaped(s) =~= json_escape(c) + json_escaped(rest));
    } else {
        lemma_escaped_cons(c, rest.drop_last());
        assert(s.drop_last() =~= seq![c] + rest.drop_last());
        assert(s.last() == rest.last());
        assert(json_escaped(s) == json_escaped(s.drop_last()) + json_escape(s.last()));
        assert(json_escaped(rest) == json_escaped(rest.drop_last()) + json_escape(rest.last()));
        assert(json_escaped(s) =~= json_escape(c) + json_escaped(rest));
    }
}

/// Escaped text followed by a quote reads back: the first unescaped quote
/// ends it.
proof fn lemma_escaped_prefix(a: Seq<char>, b: Seq<char>, x: Seq<char>, y: Seq<char>)
    requires
        json_escaped(a) + (seq!['"'] + x) == json_escaped(b) + (seq!['"'] + y),
    ensures
        a == b,
        x == y,
    decreases a.len() + b.len(),
{
    if a.len() == 0 && b.len() == 0 {
        assert(json_escaped(a) =~= Seq::<char>::empty());
        assert(json_escaped(b) =~= Seq::<char>::empty());
        assert(seq!['"'] + x =~= seq!['"'] + y);
        assert(x =~= (seq!['"'] + x).subrange(1, x.len() as int + 1));
        assert(y =~= (seq!['"'] + y).subrange(1, y.len() as int + 1));
        assert(a =~= b);
    } else if a.len() == 0 {
        assert(b =~= seq![b[0]] + b.subrange(1, b.len() as int));
        lemma_escaped_cons(b[0], b.subrange(1, b.len() as int));
        lemma_escape_first(b[0]);
        assert(json_escaped(a) =~= Seq::<char>::empty());
        let r = json_escaped(b) + (seq!['"'] + y);
        assert(r[0] == json_escape(b[0])[0]);
        assert((json_escaped(a) + (seq!['"'] + x))[0] == '"');
    } else if b.len() == 0 {
        assert(a =~= seq![a[0]] + a.subrange(1, a.len() as int));
        lemma_escaped_cons(a[0], a.subrange(1, a.len() as int));
        lemma_escape_first(a[0]);
        assert(json_escaped(b) =~= Seq::<char>::empty());
        let l = json_escaped(a) + (seq!['"'] + x);
        assert(l[0] == json_escape(a[0])[0]);
        assert((json_escaped(b) + (seq!['"'] + y))[0] == '"');
    } else {
        let ar = a.subrange(1, a.len() as int);
        let br = b.subrange(1, b.len() as int);
        assert(a =~= seq![a[0]] + ar);
        assert(b =~= seq![b[0]] + br);
        lemma_escaped_cons(a[0], ar);
        lemma_escaped_cons(b[0], br);
        assert(json_escaped(a) + (seq!['"'] + x) =~= json_escape(a[0]) + (json_escaped(ar) + (seq!['"'] + x)));
        assert(json_escaped(b) + (seq!['"'] + y) =~= json_escape(b[0]) + (json_escaped(br) + (seq!['"'] + y)));
        lemma_escape_prefix(a[0], b[0], json_escaped(ar) + (seq!['"'] + x), json_escaped(br) + (seq!['"'] + y));
        lemma_escaped_prefix(ar, br, x, y);
    }
}

/// A JSON string literal at the start of a text reads back.
pub proof fn lemma_json_string_prefix(a: Seq<char>, b: Seq<char>, x: Seq<char>, y: Seq<char>)
    requires
        json_string(a) + x == json_string(b) + y,
    ensures
        a == b,
        x == y,
{
    let l = json_string(a) + x;
    let r = json_string(b) + y;
    assert(l.subrange(1, l.len() as int) =~= json_escaped(a) + (seq!['"'] + x));
    assert(r.subrange(1, r.len() as int) =~= json_escaped(b) + (seq!['"'] + y));
    lemma_escaped_prefix(a, b, x, y);
}

/// A fixed prefix can be taken off both sides.
pub proof fn lemma_strip(p: Seq<char>, x: Seq<char>, y: Seq<char>)
    requires
        p + x == p + y,
    ensures
        x == y,
{
    assert(x =~= (p + x).subrange(p.len() as int, (p + x).len() as int));
    assert(y =~= (p + y).subrange(p.len() as int, (p + y).len() as int));
}

/// The pieces joined from the left.
pub open spec fn left_sum(pieces: Seq<Seq<char>>) -> Seq<char>
    decreases pieces.len(),
{
    if pieces.len() == 0 {
        Seq::empty()
    } else {
        left_sum(pieces.drop_last()) + pieces.last()
    }
}

/// The pieces, then `x`, joined from the right.
pub open spec fn right_sum(pieces: Seq<Seq<char>>, x: Seq<char>) -> Seq<char>
    decreases pieces.len(),
{
    if pieces.len() == 0 {
        x
    } else {
        pieces[0] + right_sum(pieces.subrange(1, pieces.len() as int), x)
    }
}

/// However the pieces are grouped, they join to the same text.
proof fn lemma_shape_of(pieces: Seq<Seq<char>>, x: Seq<char>)
    ensures
        left_sum(pieces) + x == right_sum(pieces, x),
    decreases pieces.len(),
{
    if pieces.len() == 0 {
        assert(Seq::<char>::empty() + x =~= x);
    } else {
        let rest = pieces.subrange(1, pieces.len() as int);
        lemma_shape_of(rest, x);
        lemma_left_sum_cons(pieces);
        assert(left_sum(pieces) + x =~= pieces[0] + (left_sum(rest) + x));
    }
}

proof fn lemma_left_sum_cons(pieces: Seq<Seq<char>>)
    requires
        pieces.len() > 0,
    ensures
        left_sum(pieces) == pieces[0] + left_sum(pieces.subrange(1, pieces.len() as int)),
    decreases pieces.len(),
{
    let rest = pieces.subrange(1, pieces.len() as int);
    if pieces.len() == 1 {
        assert(pieces.drop_last() =~= Seq::<Seq<char>>::empty());
        assert(rest =~= Seq::<Seq<char>>::empty());
        assert(left_sum(pieces) =~= pieces[0] + left_sum(rest));
    } else {
        lemma_left_sum_cons(pieces.drop_last());
        assert(pieces.drop_last().subrange(1, pieces.len() - 1) =~= rest.drop_last());
        assert(rest.last() == pieces.last());
        assert(left_sum(pieces) =~= pieces[0] + left_sum(rest));
    }
}

/// `x` goes on with a `,` or a `}`.
pub open spec fn delimiter_next(x: Seq<char>) -> bool {
    x.len() > 0 && (x[0] == ',' || x[0] == '}')
}

/// An optional number followed by a delimiter reads back.
proof fn lemma_opt_u64_prefix(a: Option<u64>, b: Option<u64>, x: Seq<char>, y: Seq<char>)
    requires
        json_opt_u64(a) + x == json_opt_u64(b) + y,
        delimiter_next(x),
        delimiter_next(y),
    ensures
        a == b,
        x == y,
{
    reveal_strlit("null");
    let l = json_opt_u64(a) + x;
    match (a, b) {
        (Some(n), Some(m)) => {
            lemma_decimal_prefix(n as nat, m as nat, x, y);
        },
        (None, None) => {
            lemma_strip("null"@, x, y);
        },
        (Some(n), None) => {
            lemma_decimal_shape(n as nat);
            assert(l[0] == decimal(n as nat)[0]);
            assert((json_opt_u64(b) + y)[0] == 'n');
        },
        (None, Some(m)) => {
            lemma_decimal_shape(m as nat);
            assert((json_opt_u64(b) + y)[0] == decimal(m as nat)[0]);
            assert(l[0] == 'n');
        },
    }
}

/// An optional string followed by a delimiter reads back.
proof fn lemma_opt_string_prefix(a: Option<String>, b: Option<String>, x: Seq<char>, y: Seq<char>)
    requires
        json_opt_string(a) + x == json_opt_string(b) + y,
        delimiter_next(x),
        delimiter_next(y),
    ensures
        (match a {
            Some(s) => Some(s@),
            None => None,
        }) == (match b {
            Some(s) => Some(s@),
            None => None,
        }),
        x == y,
{
    reveal_strlit("null");
    let l = json_opt_string(a) + x;
    let r = json_opt_string(b) + y;
    match (a, b) {
        (Some(s), Some(t)) => {
            lemma_json_string_prefix(s@, t@, x, y);
        },
        (None, None) => {
            lemma_strip("null"@, x, y);
        },
        (Some(s), None) => {
            assert(l[0] == '"');
            assert(r[0] == 'n');
        },
        (None, Some(t)) => {
            assert(r[0] == '"');
            assert(l[0] == 'n');
        },
    }
}

/// The limits of a snapshot as its payload writes them.
pub open spec fn opt_limits_json(l: Option<crate::tenant::TenantMediaLimitsOverride>) -> Seq<char> {
    match l {
        Some(v) => limits_json(v),
        None => "null"@,
    }
}

/// A key and an optional number, followed by a delimiter, read back.
proof fn lemma_number_field(k: Seq<char>, a: Option<u64>, b: Option<u64>, t: Seq<char>, u: Seq<char>)
    requires
        k + (json_opt_u64(a) + t) == k + (json_opt_u64(b) + u),
        delimiter_next(t),
        delimiter_next(u),
    ensures
        a == b,
        t == u,
{
    lemma_strip(k, json_opt_u64(a) + t, json_opt_u64(b) + u);
    lemma_opt_u64_prefix(a, b, t, u);
}

/// The limits object, followed by `x`, field by field.
proof fn lemma_limits_shape(p: crate::tenant::TenantMediaLimitsOverride, x: Seq<char>)
    ensures
        limits_json(p) + x == "{\"video_max_duration_secs\":"@ + (json_opt_u64(p.video_max_duration_secs) + (
        ",\"video_max_bitrate_kbps\":"@ + (json_opt_u64(p.video_max_bitrate_kbps) + (",\"audio_max_duration_secs\":"@
            + (json_opt_u64(p.audio_max_duration_secs) + (",\"audio_max_bitrate_kbps\":"@ + (json_opt_u64(
            p.audio_max_bitrate_kbps,
        ) + (",\"audio_max_channels\":"@ + (json_opt_u64(p.audio_max_channels) + ("}"@ + x)))))))))),
{
    let pieces = seq![
        "{\"video_max_duration_secs\":"@,
        json_opt_u64(p.video_max_duration_secs),
        ",\"video_max_bitrate_kbps\":"@,
        json_opt_u64(p.video_max_bitrate_kbps),
        ",\"audio_max_duration_secs\":"@,
        json_opt_u64(p.audio_max_duration_secs),
        ",\"audio_max_bitrate_kbps\":"@,
        json_opt_u64(p.audio_max_bitrate_kbps),
        ",\"audio_max_channels\":"@,
        json_opt_u64(p.audio_max_channels),
        "}"@,
    ];
    lemma_shape_of(pieces, x);
    assert(left_sum(pieces) == limits_json(p)) by {
        reveal_with_fuel(left_sum, 12);
    }
    assert(right_sum(pieces, x) == "{\"video_max_duration_secs\":"@ + (json_opt_u64(p.video_max_duration_secs) + (
        ",\"video_max_bitrate_kbps\":"@ + (json_opt_u64(p.video_max_bitrate_kbps) + (",\"audio_max_duration_secs\":"@
            + (json_opt_u64(p.audio_max_duration_secs) + (",\"audio_max_bitrate_kbps\":"@ + (json_opt_u64(
            p.audio_max_bitrate_kbps,
        ) + (",\"audio_max_channels\":"@ + (json_opt_u64(p.audio_max_channels) + ("}"@ + x))))))))))) by {
        reveal_with_fuel(right_sum, 12);
    }
}

/// Two limits objects followed by delimiters read back.
proof fn lemma_limits_some(
    p: crate::tenant::TenantMediaLimitsOverride,
    q: crate::tenant::TenantMediaLimitsOverride,
    x: Seq<char>,
    y: Seq<char>,
)
    requires
        limits_json(p) + x == limits_json(q) + y,
        delimiter_next(x),
        delimiter_next(y),
    ensures
        p == q,
        x == y,
{
    let k2 = ",\"video_max_bitrate_kbps\":"@;
    let k3 = ",\"audio_max_duration_secs\":"@;
    let k4 = ",\"audio_max_bitrate_kbps\":"@;
    let k5 = ",\"audio_max_channels\":"@;
    let e = "}"@;
    reveal_strlit(",\"video_max_bitrate_kbps\":");
    reveal_strlit(",\"audio_max_duration_secs\":");
    reveal_strlit(",\"audio_max_bitrate_kbps\":");
    reveal_strlit(",\"audio_max_channels\":");
    reveal_strlit("}");
    lemma_limits_shape(p, x);
    lemma_limits_shape(q, y);
    let t5 = e + x;
    let u5 = e + y;
    let t4 = k5 + (json_opt_u64(p.audio_max_channels) + t5);
    let u4 = k5 + (json_opt_u64(q.audio_max_channels) + u5);
    let t3 = k4 + (json_opt_u64(p.audio_max_bitrate_kbps) + t4);
    let u3 = k4 + (json_opt_u64(q.audio_max_bitrate_kbps) + u4);
    let t2 = k3 + (json_opt_u64(p.audio_max_duration_secs) + t3);
    let u2 = k3 + (json_opt_u64(q.audio_max_duration_secs) + u3);
    let t1 = k2 + (json_opt_u64(p.video_max_bitrate_kbps) + t2);
    let u1 = k2 + (json_opt_u64(q.video_max_bitrate_kbps) + u2);
    assert(t1[0] == ',' && u1[0] == ',' && t2[0] == ',' && u2[0] == ',');
    assert(t3[0] == ',' && u3[0] == ',' && t4[0] == ',' && u4[0] == ',');
    assert(t5[0] == '}' && u5[0] == '}');
    lemma_number_field("{\"video_max_duration_secs\":"@, p.video_max_duration_secs, q.video_max_duration_secs, t1, u1);
    lemma_number_field(k2, p.video_max_bitrate_kbps, q.video_max_bitrate_kbps, t2, u2);
    lemma_number_field(k3, p.audio_max_duration_secs, q.audio_max_duration_secs, t3, u3);
    lemma_number_field(k4, p.audio_max_bitrate_kbps, q.audio_max_bitrate_kbps, t4, u4);
    lemma_number_field(k5, p.audio_max_channels, q.audio_max_channels, t5, u5);
    lemma_strip(e, x, y);
}

/// The optional limits followed by a delimiter read back.
proof fn lemma_limits_prefix(
    a: Option<crate::tenant::TenantMediaLimitsOverride>,
    b: Option<crate::tenant::TenantMediaLimitsOverride>,
    x: Seq<char>,
    y: Seq<char>,
)
    requires
        opt_limits_json(a) + x == opt_limits_json(b) + y,
        delimiter_next(x),
        delimiter_next(y),
    ensures
        a == b,
        x == y,
{
    reveal_strlit("null");
    reveal_strlit("{\"video_max_duration_secs\":");
    let l = opt_limits_json(a) + x;
    let r = opt_limits_json(b) + y;
    match (a, b) {
        (Some(p), Some(q)) => {
            lemma_limits_some(p, q, x, y);
        },
        (None, None) => {
            lemma_strip("null"@, x, y);
        },
        (Some(p), None) => {
            lemma_limits_shape(p, x);
            assert(l[0] == '{');
            assert(r[0] == 'n');
        },
        (None, Some(q)) => {
            lemma_limits_shape(q, y);
            assert(r[0] == '{');
            assert(l[0] == 'n');
        },
    }
}

/// The provenance object, followed by `x`, field by field.
proof fn lemma_provenance_shape(p: TenantOverrideProvenance, x: Seq<char>)
    ensures
        provenance_json(p) + x == "{\"actor\":"@ + (json_string(p.actor@) + (",\"source\":"@ + (json_string(
            p.source@,
        ) + (",\"reason\":"@ + (json_opt_string(p.reason) + (",\"updated_at_unix_ms\":"@ + (decimal(
            p.updated_at_unix_ms as nat,
        ) + ("}"@ + x)))))))),
{
    let pieces = seq![
        "{\"actor\":"@,
        json_string(p.actor@),
        ",\"source\":"@,
        json_string(p.source@),
        ",\"reason\":"@,
        json_opt_string(p.reason),
        ",\"updated_at_unix_ms\":"@,
        decimal(p.updated_at_unix_ms as nat),
        "}"@,
    ];
    lemma_shape_of(pieces, x);
    assert(left_sum(pieces) == provenance_json(p)) by {
        reveal_with_fuel(left_sum, 10);
    }
    assert(right_sum(pieces, x) == "{\"actor\":"@ + (json_string(p.actor@) + (",\"source\":"@ + (json_string(
        p.source@,
    ) + (",\"reason\":"@ + (json_opt_string(p.reason) + (",\"updated_at_unix_ms\":"@ + (decimal(
        p.updated_at_unix_ms as nat,
    ) + ("}"@ + x))))))))) by {
        reveal_with_fuel(right_sum, 10);
    }
}

/// Two provenance objects followed by delimiters read back.
proof fn lemma_provenance_some(p: TenantOverrideProvenance, q: TenantOverrideProvenance, x: Seq<char>, y: Seq<char>)
    requires
        provenance_json(p) + x == provenance_json(q) + y,
        delimiter_next(x),
        delimiter_next(y),
    ensures
        provenance_view(p) == provenance_view(q),
        x == y,
{
    let k1 = "{\"actor\":"@;
    let k2 = ",\"source\":"@;
    let k3 = ",\"reason\":"@;
    let k4 = ",\"updated_at_unix_ms\":"@;
    let e = "}"@;
    reveal_strlit(",\"source\":");
    reveal_strlit(",\"reason\":");
    reveal_strlit(",\"updated_at_unix_ms\":");
    reveal_strlit("}");
    lemma_provenance_shape(p, x);
    lemma_provenance_shape(q, y);
    let t4 = e + x;
    let u4 = e + y;
    let t3 = k4 + (decimal(p.updated_at_unix_ms as nat) + t4);
    let u3 = k4 + (decimal(q.updated_at_unix_ms as nat) + u4);
    let t2 = k3 + (json_opt_string(p.reason) + t3);
    let u2 = k3 + (json_opt_string(q.reason) + u3);
    let t1 = k2 + (json_string(p.source@) + t2);
    let u1 = k2 + (json_string(q.source@) + u2);
    assert(t3[0] == ',' && u3[0] == ',' && t4[0] == '}' && u4[0] == '}');
    lemma_strip(k1, json_string(p.actor@) + t1, json_string(q.actor@) + u1);
    lemma_json_string_prefix(p.actor@, q.actor@, t1, u1);
    lemma_strip(k2, json_string(p.source@) + t2, json_string(q.source@) + u2);
    lemma_json_string_prefix(p.source@, q.source@, t2, u2);
    lemma_strip(k3, json_opt_string(p.reason) + t3, json_opt_string(q.reason) + u3);
    lemma_opt_string_prefix(p.reason, q.reason, t3, u3);
    lemma_strip(k4, decimal(p.updated_at_unix_ms as nat) + t4, decimal(q.updated_at_unix_ms as nat) + u4);
    lemma_decimal_prefix(p.updated_at_unix_ms as nat, q.updated_at_unix_ms as nat, t4, u4);
    lemma_strip(e, x, y);
}

/// The optional provenance followed by a delimiter reads back.
proof fn lemma_provenance_prefix(
    a: Option<TenantOverrideProvenance>,
    b: Option<TenantOverrideProvenance>,
    x: Seq<char>,
    y: Seq<char>,
)
    requires
        opt_provenance_json(a) + x == opt_provenance_json(b) + y,
        delimiter_next(x),
        delimiter_next(y),
    ensures
        opt_provenance_view(a) == opt_provenance_view(b),
        x == y,
{
    reveal_strlit("null");
    reveal_strlit("{\"actor\":");
    let l = opt_provenance_json(a) + x;
    let r = opt_provenance_json(b) + y;
    match (a, b) {
        (Some(p), Some(q)) => {
            lemma_provenance_some(p, q, x, y);
        },
        (None, None) => {
            lemma_strip("null"@, x, y);
        },
        (Some(p), None) => {
            lemma_provenance_shape(p, x);
            assert(l[0] == '{');
            assert(r[0] == 'n');
        },
        (None, Some(q)) => {
            lemma_provenance_shape(q, y);
            assert(r[0] == '{');
            assert(l[0] == 'n');
        },
    }
}

/// The payload of a media snapshot, field by field.
proof fn lemma_payload_shape(s: TenantMediaLimitsSnapshot)
    ensures
        media_payload(s) == "{\"tenant_id\":"@ + (json_string(s.tenant_id@) + (",\"version\":"@ + (decimal(
            s.version.0 as nat,
        ) + (",\"limits\":"@ + (opt_limits_json(s.limits) + (",\"provenance\":"@ + (opt_provenance_json(
            s.provenance,
        ) + "}"@))))))),
{
    let pieces = seq![
        "{\"tenant_id\":"@,
        json_string(s.tenant_id@),
        ",\"version\":"@,
        decimal(s.version.0 as nat),
        ",\"limits\":"@,
        opt_limits_json(s.limits),
        ",\"provenance\":"@,
        opt_provenance_json(s.provenance),
    ];
    lemma_shape_of(pieces, "}"@);
    assert(left_sum(pieces) + "}"@ == media_payload(s)) by {
        reveal_with_fuel(left_sum, 9);
    }
    assert(right_sum(pieces, "}"@) == "{\"tenant_id\":"@ + (json_string(s.tenant_id@) + (",\"version\":"@ + (
    decimal(s.version.0 as nat) + (",\"limits\":"@ + (opt_limits_json(s.limits) + (",\"provenance\":"@ + (
    opt_provenance_json(s.provenance) + "}"@)))))))) by {
        reveal_with_fuel(right_sum, 9);
    }
}

/// Equal canonical payloads come from equal media snapshots: the tenant,
/// the version, the limits and the provenance can all be read back from
/// the payload, so a signature over the payload covers every field.
pub proof fn law_media_payload_distinguishes(s1: TenantMediaLimitsSnapshot, s2: TenantMediaLimitsSnapshot)
    requires
        media_payload(s1) == media_payload(s2),
    ensures
        s1.tenant_id@ == s2.tenant_id@,
        s1.version == s2.version,
        s1.limits == s2.limits,
        opt_provenance_view(s1.provenance) == opt_provenance_view(s2.provenance),
{
    let k1 = "{\"tenant_id\":"@;
    let k2 = ",\"version\":"@;
    let k3 = ",\"limits\":"@;
    let k4 = ",\"provenance\":"@;
    let e = "}"@;
    reveal_strlit(",\"version\":");
    reveal_strlit(",\"limits\":");
    reveal_strlit(",\"provenance\":");
    reveal_strlit("}");
    lemma_payload_shape(s1);
    lemma_payload_shape(s2);
    let t3 = k4 + (opt_provenance_json(s1.provenance) + e);
    let u3 = k4 + (opt_provenance_json(s2.provenance) + e);
    let t2 = k3 + (opt_limits_json(s1.limits) + t3);
    let u2 = k3 + (opt_limits_json(s2.limits) + u3);
    let t1 = k2 + (decimal(s1.version.0 as nat) + t2);
    let u1 = k2 + (decimal(s2.version.0 as nat) + u2);
    assert(t1[0] == ',' && u1[0] == ',' && t2[0] == ',' && u2[0] == ',' && t3[0] == ',' && u3[0] == ',');
    lemma_strip(k1, json_string(s1.tenant_id@) + t1, json_string(s2.tenant_id@) + u1);
    lemma_json_string_prefix(s1.tenant_id@, s2.tenant_id@, t1, u1);
    lemma_strip(k2, decimal(s1.version.0 as nat) + t2, decimal(s2.version.0 as nat) + u2);
    lemma_decimal_prefix(s1.version.0 as nat, s2.version.0 as nat, t2, u2);
    lemma_strip(k3, opt_limits_json(s1.limits) + t3, opt_limits_json(s2.limits) + u3);
    lemma_limits_prefix(s1.limits, s2.limits, t3, u3);
    lemma_strip(k4, opt_provenance_json(s1.provenance) + e, opt_provenance_json(s2.provenance) + e);
    lemma_provenance_prefix(s1.provenance, s2.provenance, e, e);
}

} // verus!
