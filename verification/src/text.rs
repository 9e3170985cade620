//! Decimal rendering of integers, for the messages of alerts and stages,
//! and the short form of a failure message.
use vstd::prelude::*;
use vstd::string::StrSliceExecFns;

verus! {

/// The character of a decimal digit.
pub open spec fn digit_char(d: int) -> char {
    if d == 0 {
        '0'
    } else if d == 1 {
        '1'
    } else if d == 2 {
        '2'
    } else if d == 3 {
        '3'
    } else if d == 4 {
        '4'
    } else if d == 5 {
        '5'
    } else if d == 6 {
        '6'
    } else if d == 7 {
        '7'
    } else if d == 8 {
        '8'
    } else {
        '9'
    }
}

/// The decimal digits of `n`, most significant first, without leading zeros.
pub open spec fn decimal(n: nat) -> Seq<char>
    decreases n,
{
    if n < 10 {
        seq![digit_char(n as int)]
    } else {
        decimal(n / 10) + seq![digit_char((n % 10) as int)]
    }
}

fn digit_str(d: u64) -> (s: &'static str)
    requires
        d < 10,
    ensures
        s@ == seq![digit_char(d as int)],
{
    proof {
        reveal_strlit("0");
        reveal_strlit("1");
        reveal_strlit("2");
        reveal_strlit("3");
        reveal_strlit("4");
        reveal_strlit("5");
        reveal_strlit("6");
        reveal_strlit("7");
        reveal_strlit("8");
        reveal_strlit("9");
    }
    if d == 0 {
        "0"
    } else if d == 1 {
        "1"
    } else if d == 2 {
        "2"
    } else if d == 3 {
        "3"
    } else if d == 4 {
        "4"
    } else if d == 5 {
        "5"
    } else if d == 6 {
        "6"
    } else if d == 7 {
        "7"
    } else if d == 8 {
        "8"
    } else {
        "9"
    }
}

/// Append the decimal digits of `n`.
pub fn push_decimal(s: &mut String, n: u64)
    ensures
        final(s)@ == old(s)@ + decimal(n as nat),
    decreases n,
{
    if n >= 10 {
        push_decimal(s, n / 10);
    }
    s.append(digit_str(n % 10));
    proof {
        assert(final(s)@ =~= old(s)@ + decimal(n as nat));
    }
}


/// An upper-case hexadecimal digit.
pub open spec fn upper_hex_char(d: int) -> char {
    if d < 10 {
        ((d + 48) as u32) as char
    } else {
        ((d + 55) as u32) as char
    }
}

/// The upper-case hexadecimal digits of `n`, without leading zeros.
pub open spec fn upper_hex(n: nat) -> Seq<char>
    decreases n,
{
    if n < 16 {
        seq![upper_hex_char(n as int)]
    } else {
        upper_hex(n / 16) + seq![upper_hex_char((n % 16) as int)]
    }
}

fn upper_hex_str(d: u64) -> (s: &'static str)
    requires
        d < 16,
    ensures
        s@ == seq![upper_hex_char(d as int)],
{
    proof {
        reveal_strlit("0");
        reveal_strlit("1");
        reveal_strlit("2");
        reveal_strlit("3");
        reveal_strlit("4");
        reveal_strlit("5");
        reveal_strlit("6");
        reveal_strlit("7");
        reveal_strlit("8");
        reveal_strlit("9");
        reveal_strlit("A");
        reveal_strlit("B");
        reveal_strlit("C");
        reveal_strlit("D");
        reveal_strlit("E");
        reveal_strlit("F");
    }
    if d == 0 {
        "0"
    } else if d == 1 {
        "1"
    } else if d == 2 {
        "2"
    } else if d == 3 {
        "3"
    } else if d == 4 {
        "4"
    } else if d == 5 {
        "5"
    } else if d == 6 {
        "6"
    } else if d == 7 {
        "7"
    } else if d == 8 {
        "8"
    } else if d == 9 {
        "9"
    } else if d == 10 {
        "A"
    } else if d == 11 {
        "B"
    } else if d == 12 {
        "C"
    } else if d == 13 {
        "D"
    } else if d == 14 {
        "E"
    } else {
        "F"
    }
}

/// Append the upper-case hexadecimal digits of `n`.
pub fn push_upper_hex(s: &mut String, n: u64)
    ensures
        final(s)@ == old(s)@ + upper_hex(n as nat),
    decreases n,
{
    if n >= 16 {
        push_upper_hex(s, n / 16);
    }
    s.append(upper_hex_str(n % 16));
    proof {
        assert(final(s)@ =~= old(s)@ + upper_hex(n as nat));
    }
}

/// A four-character code as text: its UTF-8 decoding when it is valid
/// UTF-8, else one replacement character.
pub open spec fn tag_text(bytes: Seq<u8>) -> Seq<char> {
    if vstd::utf8::valid_utf8(bytes) {
        vstd::utf8::decode_utf8(bytes)
    } else {
        "\u{FFFD}"@
    }
}

/// Append a four-character code as text (see `tag_text`).
pub fn push_tag(s: &mut String, bytes: &[u8])
    ensures
        final(s)@ == old(s)@ + tag_text(bytes@),
{
    match utf8_text(bytes) {
        Some(t) => s.append(t.as_str()),
        None => s.append("\u{FFFD}"),
    }
}

/// `a` followed by `b`.
pub fn concat2(a: &str, b: &str) -> (s: String)
    ensures
        s@ == a@ + b@,
{
    let mut s = a.to_owned();
    s.append(b);
    s
}

/// Calls `std::str::from_utf8`: the bytes are text exactly when they are
/// valid UTF-8, and then the text is their decoding.
#[verifier::external_body]
pub(crate) fn utf8_text(bytes: &[u8]) -> (res: Option<String>)
    ensures
        res is Some <==> vstd::utf8::valid_utf8(bytes@),
        res matches Some(s) ==> s@ == vstd::utf8::decode_utf8(bytes@),
{
    match std::str::from_utf8(bytes) {
        Ok(text) => Some(text.to_owned()),
        Err(_) => None,
    }
}

/// The fractional digits of a number of thousandths `f < 1000`, without
/// trailing zeros, after a point; nothing when `f` is zero.
pub open spec fn milli_fraction(f: int) -> Seq<char> {
    if f == 0 {
        Seq::empty()
    } else if f % 100 == 0 {
        seq!['.', digit_char(f / 100)]
    } else if f % 10 == 0 {
        seq!['.', digit_char(f / 100), digit_char((f / 10) % 10)]
    } else {
        seq!['.', digit_char(f / 100), digit_char((f / 10) % 10), digit_char(f % 10)]
    }
}

/// `m` thousandths written as a decimal number with the fewest digits:
/// `12000` is `12`, `1500` is `1.5`, `12345` is `12.345`.
pub open spec fn milli_text(m: nat) -> Seq<char> {
    decimal(m / 1000) + milli_fraction((m % 1000) as int)
}

/// Append `m` thousandths as a decimal number.
pub fn push_milli(s: &mut String, m: u64)
    ensures
        final(s)@ == old(s)@ + milli_text(m as nat),
{
    push_decimal(s, m / 1000);
    let f = m % 1000;
    let ghost mid = s@;
    if f != 0 {
        s.append(".");
        s.append(digit_str(f / 100));
        if f % 100 != 0 {
            s.append(digit_str((f / 10) % 10));
            if f % 10 != 0 {
                s.append(digit_str(f % 10));
            }
        }
    }
    proof {
        reveal_strlit(".");
        assert(s@ =~= mid + milli_fraction(f as int));
        assert(s@ =~= old(s)@ + milli_text(m as nat));
    }
}


/// Where the first line of `s` ends: at its first line feed, or at its end.
pub open spec fn line_end(s: Seq<char>) -> nat
    decreases s.len(),
{
    if s.len() == 0 || s[0] == '\n' {
        0
    } else {
        1 + line_end(s.drop_first())
    }
}

/// The first line of `s`, without the carriage return of a `\r\n` ending.
pub open spec fn first_line(s: Seq<char>) -> Seq<char> {
    let n = line_end(s) as int;
    if n < s.len() && n > 0 && s[n - 1] == '\r' {
        s.take(n - 1)
    } else {
        s.take(n)
    }
}

/// A printable ASCII character or a space is shown as it is, anything else
/// as `?`.
pub open spec fn shown_char(c: char) -> char {
    if ('!' <= c && c <= '~') || c == ' ' {
        c
    } else {
        '?'
    }
}

/// The short form of a failure message: its first line with unprintable
/// characters replaced, cut after 80 characters with an ellipsis;
/// placeholders for an empty message and for one that is no text.
pub open spec fn summary_of(message: Option<Seq<char>>) -> Seq<char> {
    match message {
        None => "panic with non-string payload"@,
        Some(m) => {
            let line = first_line(m);
            let shown = Seq::new(line.len(), |i: int| shown_char(line[i]));
            if shown.len() == 0 {
                "empty panic message"@
            } else if shown.len() > 80 {
                shown.take(80).push('…')
            } else {
                shown
            }
        },
    }
}

proof fn lemma_line_end(s: Seq<char>, i: int)
    requires
        0 <= i <= s.len(),
        forall|j: int| 0 <= j < i ==> s[j] != '\n',
    ensures
        line_end(s) >= i,
        i < s.len() && s[i] == '\n' ==> line_end(s) == i,
        i == s.len() ==> line_end(s) == s.len(),
    decreases i,
{
    if i > 0 {
        lemma_line_end(s.drop_first(), i - 1);
    }
}

/// The short form of a failure message, as `summary_of` states.
pub fn panic_summary(message: Option<&str>) -> (res: String)
    ensures
        res@ == summary_of(
            match message {
                Some(m) => Some(m@),
                None => None,
            },
        ),
{
    let m = match message {
        None => {
            return "panic with non-string payload".to_owned();
        },
        Some(m) => m,
    };
    let n = m.unicode_len();
    let ghost s = m@;
    let mut end: usize = 0;
    while end < n && m.get_char(end) != '\n'
        invariant
            n == s.len(),
            s == m@,
            end <= n,
            forall|j: int| 0 <= j < end ==> s[j] != '\n',
        decreases n - end,
    {
        end = end + 1;
    }
    proof {
        lemma_line_end(s, end as int);
    }
    if end < n && end > 0 && m.get_char(end - 1) == '\r' {
        end = end - 1;
    }
    let ghost line = first_line(s);
    assert(line == s.take(end as int));
    let ghost shown = Seq::new(line.len(), |i: int| shown_char(line[i]));
    if end == 0 {
        return "empty panic message".to_owned();
    }
    let limit: usize = if end > 80 {
        80
    } else {
        end
    };
    let mut out = String::new();
    let mut i: usize = 0;
    while i < limit
        invariant
            n == s.len(),
            s == m@,
            limit <= end <= n,
            line == s.take(end as int),
            shown == Seq::new(line.len(), |k: int| shown_char(line[k])),
            i <= limit,
            out@ == shown.take(i as int),
        decreases limit - i,
    {
        let c = m.get_char(i);
        if ('!' <= c && c <= '~') || c == ' ' {
            out.append(m.substring_char(i, i + 1));
        } else {
            out.append("?");
        }
        proof {
            reveal_strlit("?");
            assert(out@ =~= shown.take(i + 1));
        }
        i = i + 1;
    }
    if end > 80 {
        out.append("…");
        proof {
            reveal_strlit("…");
            assert(out@ =~= shown.take(80).push('…'));
        }
    }
    out
}

} // verus!
