//! MIME type text: normalisation, comparison, and the MIME type a file
//! name's extension implies.
use vstd::prelude::*;
use vstd::string::StrSliceExecFns;
use vstd::string::StringSliceAdditionalSpecFns;

use crate::bytes::{extension_of, is_one_of, lower, matches_any, path_extension, to_lower};

verus! {

/// Unicode `White_Space`, which `char::is_whitespace` and `str::trim` use.
pub open spec fn is_ws(c: char) -> bool {
    ||| c == '\t' || c == '\n' || c == '\u{0B}' || c == '\u{0C}' || c == '\r' || c == ' '
    ||| c == '\u{85}' || c == '\u{A0}' || c == '\u{1680}'
    ||| ('\u{2000}' <= c && c <= '\u{200A}')
    ||| c == '\u{2028}' || c == '\u{2029}' || c == '\u{202F}' || c == '\u{205F}' || c == '\u{3000}'
}

/// Whether `c` is Unicode white space.
pub fn is_whitespace_char(c: char) -> (res: bool)
    ensures
        res == is_ws(c),
{
    c == '\t' || c == '\n' || c == '\u{0B}' || c == '\u{0C}' || c == '\r' || c == ' ' || c == '\u{85}' || c
        == '\u{A0}' || c == '\u{1680}' || ('\u{2000}' <= c && c <= '\u{200A}') || c == '\u{2028}' || c == '\u{2029}'
        || c == '\u{202F}' || c == '\u{205F}' || c == '\u{3000}'
}

/// Index of the first `c` in `s`, or `s.len()`.
pub open spec fn first_index(s: Seq<char>, c: char, from: int) -> int
    decreases s.len() - from,
{
    if from >= s.len() {
        s.len() as int
    } else if s[from] == c {
        from
    } else {
        first_index(s, c, from + 1)
    }
}

/// The part of `s` before its first `;`.
pub open spec fn upto_semicolon(s: Seq<char>) -> Seq<char> {
    s.subrange(0, first_index(s, ';', 0))
}

/// Index of the first character at or after `from` that is not white
/// space, or `s.len()`.
pub open spec fn first_non_ws(s: Seq<char>, from: int) -> int
    decreases s.len() - from,
{
    if from >= s.len() {
        s.len() as int
    } else if !is_ws(s[from]) {
        from
    } else {
        first_non_ws(s, from + 1)
    }
}

/// One past the last character before `end` that is not white space, or 0.
pub open spec fn end_non_ws(s: Seq<char>, end: int) -> int
    decreases end,
{
    if end <= 0 {
        0
    } else if !is_ws(s[end - 1]) {
        end
    } else {
        end_non_ws(s, end - 1)
    }
}

/// `s` without leading and trailing white space.
pub open spec fn trim_ws(s: Seq<char>) -> Seq<char> {
    let a = first_non_ws(s, 0);
    if a >= s.len() {
        Seq::empty()
    } else {
        s.subrange(a, end_non_ws(s, s.len() as int))
    }
}

/// ASCII lower-casing of characters.
pub open spec fn ascii_lower_char(c: char) -> char {
    if 'A' <= c && c <= 'Z' {
        ((c as u32) + 32) as char
    } else {
        c
    }
}

pub open spec fn ascii_lower_chars(s: Seq<char>) -> Seq<char> {
    s.map_values(|c: char| ascii_lower_char(c))
}

/// Calls `str::to_ascii_lowercase`, which maps `A`–`Z` to `a`–`z` and
/// leaves every other character as it is.
#[verifier::external_body]
pub(crate) fn ascii_lowercase(s: &str) -> (res: String)
    ensures
        res@ == ascii_lower_chars(s@),
{
    s.to_ascii_lowercase()
}

/// The canonical spelling of MIME types that have aliases.
pub open spec fn mime_alias(m: Seq<char>) -> Seq<char> {
    if m == "image/jpg"@ || m == "image/pjpeg"@ {
        "image/jpeg"@
    } else if m == "image/x-png"@ || m == "image/apng"@ {
        "image/png"@
    } else if m == "image/x-ms-bmp"@ {
        "image/bmp"@
    } else if m == "audio/x-wav"@ || m == "audio/wave"@ || m == "audio/vnd.wave"@ {
        "audio/wav"@
    } else if m == "audio/x-flac"@ {
        "audio/flac"@
    } else if m == "audio/m4a"@ || m == "audio/x-m4a"@ || m == "audio/mp4"@ || m == "video/mp4"@ || m
        == "video/x-m4v"@ {
        "application/mp4"@
    } else if m == "audio/x-aiff"@ {
        "audio/aiff"@
    } else if m == "application/ogg"@ || m == "audio/opus"@ {
        "audio/ogg"@
    } else if m == "video/x-matroska"@ {
        "video/matroska"@
    } else {
        m
    }
}

/// A MIME type normalised: parameters after `;` dropped, white space
/// trimmed, ASCII lower-cased, aliases mapped to one spelling.
pub open spec fn normalized(s: Seq<char>) -> Seq<char> {
    mime_alias(ascii_lower_chars(trim_ws(upto_semicolon(s))))
}

pub(crate) fn eq_str(a: &String, b: &str) -> (res: bool)
    ensures
        res == (a@ == b@),
{
    *a == b.to_owned()
}

/// Normalise a MIME type.
pub fn normalized_mime(mime: &str) -> (res: String)
    ensures
        res@ == normalized(mime@),
{
    let n = mime.unicode_len();
    let ghost s = mime@;
    // Cut at the first ';'.
    let mut cut: usize = 0;
    while cut < n && mime.get_char(cut) != ';'
        invariant
            n == s.len(),
            s == mime@,
            cut <= n,
            first_index(s, ';', 0) == first_index(s, ';', cut as int),
        decreases n - cut,
    {
        cut = cut + 1;
    }
    let ghost head = s.subrange(0, cut as int);
    // Trim white space on both ends.
    let mut a: usize = 0;
    while a < cut && is_whitespace_char(mime.get_char(a))
        invariant
            n == s.len(),
            s == mime@,
            a <= cut <= n,
            head == s.subrange(0, cut as int),
            first_non_ws(head, 0) == first_non_ws(head, a as int),
        decreases cut - a,
    {
        a = a + 1;
    }
    let mut b: usize = cut;
    while b > a && is_whitespace_char(mime.get_char(b - 1))
        invariant
            n == s.len(),
            s == mime@,
            a <= b <= cut <= n,
            head == s.subrange(0, cut as int),
            a < cut ==> !is_ws(head[a as int]),
            a < cut ==> b > a,
            end_non_ws(head, cut as int) == end_non_ws(head, b as int),
        decreases b - a,
    {
        b = b - 1;
    }
    proof {
        if a < cut {
            assert(end_non_ws(head, b as int) == b);
        }
    }
    let trimmed = mime.substring_char(a, b);
    proof {
        assert(trimmed@ =~= trim_ws(head));
    }
    let lowered = ascii_lowercase(trimmed);
    if eq_str(&lowered, "image/jpg") || eq_str(&lowered, "image/pjpeg") {
        return "image/jpeg".to_owned();
    }
    if eq_str(&lowered, "image/x-png") || eq_str(&lowered, "image/apng") {
        return "image/png".to_owned();
    }
    if eq_str(&lowered, "image/x-ms-bmp") {
        return "image/bmp".to_owned();
    }
    if eq_str(&lowered, "audio/x-wav") || eq_str(&lowered, "audio/wave") || eq_str(&lowered, "audio/vnd.wave") {
        return "audio/wav".to_owned();
    }
    if eq_str(&lowered, "audio/x-flac") {
        return "audio/flac".to_owned();
    }
    if eq_str(&lowered, "audio/m4a") || eq_str(&lowered, "audio/x-m4a") || eq_str(&lowered, "audio/mp4") || eq_str(
        &lowered,
        "video/mp4",
    ) || eq_str(&lowered, "video/x-m4v") {
        return "application/mp4".to_owned();
    }
    if eq_str(&lowered, "audio/x-aiff") {
        return "audio/aiff".to_owned();
    }
    if eq_str(&lowered, "application/ogg") || eq_str(&lowered, "audio/opus") {
        return "audio/ogg".to_owned();
    }
    if eq_str(&lowered, "video/x-matroska") {
        return "video/matroska".to_owned();
    }
    lowered
}

/// Two MIME types name the same format once normalised.
pub fn compatible_mimes(left: &str, right: &str) -> (res: bool)
    ensures
        res == (normalized(left@) == normalized(right@)),
{
    let l = normalized_mime(left);
    let r = normalized_mime(right);
    l == r
}

/// File extensions and the MIME type each implies.
pub open spec fn extension_mime(ext: Seq<u8>) -> Option<Seq<char>> {
    if is_one_of(ext, seq!["png", "apng"]) {
        Some("image/png"@)
    } else if is_one_of(ext, seq!["jpg", "jpeg"]) {
        Some("image/jpeg"@)
    } else if ext == "bmp".spec_bytes() {
        Some("image/bmp"@)
    } else if is_one_of(ext, seq!["tif", "tiff"]) {
        Some("image/tiff"@)
    } else if ext == "webp".spec_bytes() {
        Some("image/webp"@)
    } else if ext == "gif".spec_bytes() {
        Some("image/gif"@)
    } else if is_one_of(ext, seq!["mp4", "m4a"]) {
        Some("application/mp4"@)
    } else if ext == "mov".spec_bytes() {
        Some("video/quicktime"@)
    } else if ext == "avi".spec_bytes() {
        Some("video/x-msvideo"@)
    } else if ext == "mkv".spec_bytes() {
        Some("video/matroska"@)
    } else if ext == "webm".spec_bytes() {
        Some("video/webm"@)
    } else if ext == "mp3".spec_bytes() {
        Some("audio/mpeg"@)
    } else if ext == "wav".spec_bytes() {
        Some("audio/wav"@)
    } else if ext == "flac".spec_bytes() {
        Some("audio/flac"@)
    } else if ext == "aac".spec_bytes() {
        Some("audio/aac"@)
    } else if is_one_of(ext, seq!["ogg", "oga", "opus"]) {
        Some("audio/ogg"@)
    } else if ext == "amr".spec_bytes() {
        Some("audio/amr"@)
    } else if is_one_of(ext, seq!["aif", "aiff"]) {
        Some("audio/aiff"@)
    } else if ext == "pdf".spec_bytes() {
        Some("application/pdf"@)
    } else if ext == "zip".spec_bytes() {
        Some("application/zip"@)
    } else if ext == "7z".spec_bytes() {
        Some("application/x-7z-compressed"@)
    } else if is_one_of(ext, seq!["txt", "csv"]) {
        Some("text/plain"@)
    } else if ext == "json".spec_bytes() {
        Some("application/json"@)
    } else if ext == "xml".spec_bytes() {
        Some("application/xml"@)
    } else {
        None
    }
}

/// The MIME type the (lower-cased) extension of a file name implies.
pub open spec fn name_mime(name: Seq<u8>) -> Option<Seq<char>> {
    match path_extension(name) {
        Some(ext) => extension_mime(lower(ext)),
        None => None,
    }
}

fn one_of(e: &[u8], names: &[&str]) -> (res: bool)
    ensures
        res == is_one_of(e@, names@),
{
    matches_any(e, names)
}

/// The MIME type a file name's extension implies.
pub fn mime_from_filename(name: &str) -> (res: Option<&'static str>)
    ensures
        match res {
            Some(m) => name_mime(name.spec_bytes()) == Some(m@),
            None => name_mime(name.spec_bytes()) is None,
        },
{
    let ext = match extension_of(name.as_bytes()) {
        Some(e) => e,
        None => {
            return None;
        },
    };
    let lowered = to_lower(ext.as_slice());
    let e = lowered.as_slice();
    let m: &'static str = if one_of(e, &["png", "apng"]) {
        "image/png"
    } else if one_of(e, &["jpg", "jpeg"]) {
        "image/jpeg"
    } else if crate::bytes::bytes_eq(e, "bmp".as_bytes()) {
        "image/bmp"
    } else if one_of(e, &["tif", "tiff"]) {
        "image/tiff"
    } else if crate::bytes::bytes_eq(e, "webp".as_bytes()) {
        "image/webp"
    } else if crate::bytes::bytes_eq(e, "gif".as_bytes()) {
        "image/gif"
    } else if one_of(e, &["mp4", "m4a"]) {
        "application/mp4"
    } else if crate::bytes::bytes_eq(e, "mov".as_bytes()) {
        "video/quicktime"
    } else if crate::bytes::bytes_eq(e, "avi".as_bytes()) {
        "video/x-msvideo"
    } else if crate::bytes::bytes_eq(e, "mkv".as_bytes()) {
        "video/matroska"
    } else if crate::bytes::bytes_eq(e, "webm".as_bytes()) {
        "video/webm"
    } else if crate::bytes::bytes_eq(e, "mp3".as_bytes()) {
        "audio/mpeg"
    } else if crate::bytes::bytes_eq(e, "wav".as_bytes()) {
        "audio/wav"
    } else if crate::bytes::bytes_eq(e, "flac".as_bytes()) {
        "audio/flac"
    } else if crate::bytes::bytes_eq(e, "aac".as_bytes()) {
        "audio/aac"
    } else if one_of(e, &["ogg", "oga", "opus"]) {
        "audio/ogg"
    } else if crate::bytes::bytes_eq(e, "amr".as_bytes()) {
        "audio/amr"
    } else if one_of(e, &["aif", "aiff"]) {
        "audio/aiff"
    } else if crate::bytes::bytes_eq(e, "pdf".as_bytes()) {
        "application/pdf"
    } else if crate::bytes::bytes_eq(e, "zip".as_bytes()) {
        "application/zip"
    } else if crate::bytes::bytes_eq(e, "7z".as_bytes()) {
        "application/x-7z-compressed"
    } else if one_of(e, &["txt", "csv"]) {
        "text/plain"
    } else if crate::bytes::bytes_eq(e, "json".as_bytes()) {
        "application/json"
    } else if crate::bytes::bytes_eq(e, "xml".as_bytes()) {
        "application/xml"
    } else {
        return None;
    };
    Some(m)
}

/// The file extension under which a released artifact of this MIME type is
/// written.
pub open spec fn extension_for_mime(m: Seq<u8>) -> Option<Seq<char>> {
    if m == "image/png".spec_bytes() {
        Some("png"@)
    } else if m == "image/jpeg".spec_bytes() {
        Some("jpg"@)
    } else if m == "image/webp".spec_bytes() {
        Some("webp"@)
    } else if m == "image/gif".spec_bytes() {
        Some("gif"@)
    } else if is_one_of(m, seq!["video/mp4", "application/mp4"]) {
        Some("mp4"@)
    } else if m == "video/webm".spec_bytes() {
        Some("webm"@)
    } else if is_one_of(m, seq!["audio/mpeg", "audio/mp3"]) {
        Some("mp3"@)
    } else if is_one_of(m, seq!["audio/wav", "audio/x-wav", "audio/wave"]) {
        Some("wav"@)
    } else if is_one_of(m, seq!["audio/flac", "audio/x-flac"]) {
        Some("flac"@)
    } else if is_one_of(m, seq!["audio/ogg", "audio/opus"]) {
        Some("ogg"@)
    } else if is_one_of(m, seq!["audio/mp4", "audio/x-m4a"]) {
        Some("m4a"@)
    } else if m == "audio/aac".spec_bytes() {
        Some("aac"@)
    } else {
        None
    }
}

/// The file extension of a released artifact of this MIME type, or the
/// refusal when none is known.
pub fn output_extension(mime: &str) -> (res: Result<&'static str, String>)
    ensures
        match res {
            Ok(e) => extension_for_mime(mime.spec_bytes()) == Some(e@),
            Err(m) => extension_for_mime(mime.spec_bytes()) is None && m@ == "Немає вихідного розширення для "@
                + mime@,
        },
{
    let m = mime.as_bytes();
    let e: &'static str = if crate::bytes::bytes_eq(m, "image/png".as_bytes()) {
        "png"
    } else if crate::bytes::bytes_eq(m, "image/jpeg".as_bytes()) {
        "jpg"
    } else if crate::bytes::bytes_eq(m, "image/webp".as_bytes()) {
        "webp"
    } else if crate::bytes::bytes_eq(m, "image/gif".as_bytes()) {
        "gif"
    } else if one_of(m, &["video/mp4", "application/mp4"]) {
        "mp4"
    } else if crate::bytes::bytes_eq(m, "video/webm".as_bytes()) {
        "webm"
    } else if one_of(m, &["audio/mpeg", "audio/mp3"]) {
        "mp3"
    } else if one_of(m, &["audio/wav", "audio/x-wav", "audio/wave"]) {
        "wav"
    } else if one_of(m, &["audio/flac", "audio/x-flac"]) {
        "flac"
    } else if one_of(m, &["audio/ogg", "audio/opus"]) {
        "ogg"
    } else if one_of(m, &["audio/mp4", "audio/x-m4a"]) {
        "m4a"
    } else if crate::bytes::bytes_eq(m, "audio/aac".as_bytes()) {
        "aac"
    } else {
        let mut message = "Немає вихідного розширення для ".to_owned();
        message.append(mime);
        return Err(message);
    };
    Ok(e)
}

/// Whether `s` contains the character `c`.
pub fn contains_char(s: &str, c: char) -> (res: bool)
    ensures
        res == s@.contains(c),
{
    let n = s.unicode_len();
    let mut i: usize = 0;
    while i < n
        invariant
            n == s@.len(),
            i <= n,
            forall|j: int| 0 <= j < i ==> s@[j] != c,
        decreases n - i,
    {
        if s.get_char(i) == c {
            return true;
        }
        i = i + 1;
    }
    false
}

} // verus!
