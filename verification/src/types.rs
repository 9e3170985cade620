//! The vocabulary of the defense pipeline: file kinds, alerts, verdicts and
//! stage reports, and the byte-level classification of an input.
use std::sync::atomic::{AtomicBool, Ordering};
use std::sync::Arc;
use std::time::Instant;
use vstd::prelude::*;
use vstd::string::StringSliceAdditionalSpecFns;

use crate::bytes::{
    bytes_eq, extension_of, has_prefix, is_one_of, last_index_before, last_index_of, le_u32_at,
    be_u32_at, lemma_last_index_before, lower, lower_byte_exec, matches_any, matches_at,
    path_extension, read_be_u32, read_le_u32, starts_with, to_lower,
};
use crate::error::DefenderError;

verus! {

/// Coarse media family of an input.
#[derive(Debug, Clone, Copy, PartialEq, Eq, Structural)]
pub enum FileKind {
    Image,
    /// Animated PNG / animated WebP: detected from the bytes, since a MIME
    /// guess cannot tell animated and static variants apart.
    AnimatedImage,
    Gif,
    Video,
    Audio,
    Other,
}

/// The bytes of an optional string.
pub open spec fn opt_bytes(s: Option<&str>) -> Option<Seq<u8>> {
    match s {
        Some(v) => Some(v.spec_bytes()),
        None => None,
    }
}

/// Kind named by a MIME string (compared case-insensitively by prefix).
pub open spec fn kind_from_mime_bytes(mime: Seq<u8>) -> Option<FileKind> {
    let v = lower(mime);
    if has_prefix(v, "image/gif".spec_bytes()) {
        Some(FileKind::Gif)
    } else if has_prefix(v, "image/svg".spec_bytes()) {
        Some(FileKind::Other)
    } else if has_prefix(v, "image/".spec_bytes()) {
        Some(FileKind::Image)
    } else if has_prefix(v, "video/".spec_bytes()) {
        Some(FileKind::Video)
    } else if has_prefix(v, "audio/".spec_bytes()) {
        Some(FileKind::Audio)
    } else if has_prefix(v, "application/".spec_bytes()) || has_prefix(v, "text/".spec_bytes()) {
        Some(FileKind::Other)
    } else {
        None
    }
}

pub open spec fn image_extensions() -> Seq<&'static str> {
    seq!["png", "jpg", "jpeg", "bmp", "tif", "tiff", "webp"]
}

pub open spec fn video_extensions() -> Seq<&'static str> {
    seq!["mp4", "mov", "avi", "mkv", "webm"]
}

pub open spec fn audio_extensions() -> Seq<&'static str> {
    seq!["mp3", "wav", "flac", "aac", "m4a", "ogg", "oga", "opus", "wma", "amr", "aiff", "alac"]
}

pub open spec fn other_extensions() -> Seq<&'static str> {
    seq!["pdf", "txt", "csv", "json", "xml", "doc", "docx", "zip", "7z"]
}

/// Kind named by a (lower-cased) extension.
pub open spec fn kind_from_extension(ext: Seq<u8>) -> Option<FileKind> {
    if is_one_of(ext, image_extensions()) {
        Some(FileKind::Image)
    } else if ext == "apng".spec_bytes() {
        Some(FileKind::AnimatedImage)
    } else if ext == "gif".spec_bytes() {
        Some(FileKind::Gif)
    } else if is_one_of(ext, video_extensions()) {
        Some(FileKind::Video)
    } else if is_one_of(ext, audio_extensions()) {
        Some(FileKind::Audio)
    } else if is_one_of(ext, other_extensions()) {
        Some(FileKind::Other)
    } else {
        None
    }
}

/// Kind named by a file name, through its extension.
pub open spec fn kind_from_name_bytes(name: Seq<u8>) -> Option<FileKind> {
    match path_extension(name) {
        Some(ext) => kind_from_extension(lower(ext)),
        None => None,
    }
}

pub open spec fn spec_from_mime(mime: Option<Seq<u8>>) -> Option<FileKind> {
    match mime {
        Some(m) => kind_from_mime_bytes(m),
        None => None,
    }
}

pub open spec fn spec_from_name(name: Option<Seq<u8>>) -> Option<FileKind> {
    match name {
        Some(n) => kind_from_name_bytes(n),
        None => None,
    }
}

/// MIME first, then name, then `Other`.
pub open spec fn spec_from_name_and_mime(name: Option<Seq<u8>>, mime: Option<Seq<u8>>) -> FileKind {
    match spec_from_mime(mime) {
        Some(k) => k,
        None => match spec_from_name(name) {
            Some(k) => k,
            None => FileKind::Other,
        },
    }
}

pub open spec fn dangerous_extensions() -> Seq<&'static str> {
    seq![
        "exe", "dll", "bat", "cmd", "msi", "scr", "vbs", "vbe", "ps1", "psc1", "jar", "apk", "com",
        "pif", "hta", "cpl", "wsf", "wsh",
    ]
}

/// The name has at least two dots and the part between the last two dots,
/// lower-cased, is a dangerous extension (`invoice.exe.png`).
pub open spec fn suspicious_double_extension(name: Seq<u8>) -> bool {
    let k1 = last_index_before(name, 46u8, name.len() as int);
    let k2 = last_index_before(name, 46u8, k1);
    k1 >= 0 && k2 >= 0 && is_one_of(lower(name.subrange(k2 + 1, k1)), dangerous_extensions())
}

pub open spec fn png_signature() -> Seq<u8> {
    seq![0x89u8, 0x50, 0x4E, 0x47, 0x0D, 0x0A, 0x1A, 0x0A]
}

/// The four type bytes of the PNG chunk at `offset`.
pub open spec fn chunk_type_at(b: Seq<u8>, offset: int) -> Seq<u8> {
    b.subrange(offset + 4, offset + 8)
}

/// Walk PNG chunks from `offset`, at most `fuel` of them, looking for `acTL`
/// before the first `IDAT`/`IEND`.
pub open spec fn apng_walk(b: Seq<u8>, offset: int, fuel: nat) -> bool
    decreases fuel,
{
    if fuel == 0 || offset + 8 > b.len() {
        false
    } else if chunk_type_at(b, offset) == "acTL".spec_bytes() {
        true
    } else if chunk_type_at(b, offset) == "IDAT".spec_bytes() || chunk_type_at(b, offset)
        == "IEND".spec_bytes() {
        false
    } else {
        let next = offset + be_u32_at(b, offset) + 12;
        if next > b.len() {
            false
        } else {
            apng_walk(b, next, (fuel - 1) as nat)
        }
    }
}

/// A PNG whose chunk walk finds `acTL` within 256 chunks.
pub open spec fn spec_is_apng(b: Seq<u8>) -> bool {
    b.len() >= 16 && b.subrange(0, 8) == png_signature() && apng_walk(b, 8, 256)
}

/// A RIFF/WEBP file whose first chunk is VP8X with a size of at least 10 and
/// the animation flag set.
pub open spec fn spec_is_animated_webp(b: Seq<u8>) -> bool {
    &&& b.len() >= 21
    &&& b.subrange(0, 4) == "RIFF".spec_bytes()
    &&& b.subrange(8, 12) == "WEBP".spec_bytes()
    &&& b.subrange(12, 16) == "VP8X".spec_bytes()
    &&& le_u32_at(b, 16) >= 10
    &&& (b[20] as int) % 4 >= 2
}

/// Name and MIME classification, upgraded to `AnimatedImage` when the bytes
/// carry animation markers, and forced to `Other` for a dangerous double
/// extension.
pub open spec fn spec_classify(bytes: Seq<u8>, name: Option<Seq<u8>>, mime: Option<Seq<u8>>) -> FileKind {
    if name is Some && suspicious_double_extension(name.unwrap()) {
        FileKind::Other
    } else {
        let base = spec_from_name_and_mime(name, mime);
        if base == FileKind::Image && (spec_is_apng(bytes) || spec_is_animated_webp(bytes)) {
            FileKind::AnimatedImage
        } else {
            base
        }
    }
}

impl FileKind {
    /// MIME decides when it names a kind, else the extension, else `Other`.
    pub fn from_name_and_mime(file_name: Option<&str>, mime: Option<&str>) -> (res: Self)
        ensures
            res == spec_from_name_and_mime(opt_bytes(file_name), opt_bytes(mime)),
    {
        if let Some(value) = Self::from_mime(mime) {
            return value;
        }
        if let Some(value) = Self::from_name(file_name) {
            return value;
        }
        FileKind::Other
    }

    /// Classify from the byte header together with the name and MIME.
    pub fn classify(bytes: &[u8], file_name: Option<&str>, mime: Option<&str>) -> (res: Self)
        ensures
            res == spec_classify(bytes@, opt_bytes(file_name), opt_bytes(mime)),
    {
        if let Some(name) = file_name {
            if has_suspicious_double_extension(name) {
                return FileKind::Other;
            }
        }
        let base = Self::from_name_and_mime(file_name, mime);
        if base == FileKind::Image && (is_apng(bytes) || is_animated_webp(bytes)) {
            return FileKind::AnimatedImage;
        }
        base
    }

    /// Kind named by a MIME string.
    pub fn from_mime(mime: Option<&str>) -> (res: Option<Self>)
        ensures
            res == spec_from_mime(opt_bytes(mime)),
    {
        let m = match mime {
            Some(m) => m,
            None => {
                return None;
            },
        };
        let lowered = to_lower(m.as_bytes());
        let v = lowered.as_slice();
        if starts_with(v, "image/gif".as_bytes()) {
            return Some(FileKind::Gif);
        }
        if starts_with(v, "image/svg".as_bytes()) {
            return Some(FileKind::Other);
        }
        if starts_with(v, "image/".as_bytes()) {
            return Some(FileKind::Image);
        }
        if starts_with(v, "video/".as_bytes()) {
            return Some(FileKind::Video);
        }
        if starts_with(v, "audio/".as_bytes()) {
            return Some(FileKind::Audio);
        }
        if starts_with(v, "application/".as_bytes()) || starts_with(v, "text/".as_bytes()) {
            return Some(FileKind::Other);
        }
        None
    }

    /// Kind named by the extension of a file name.
    pub fn from_name(file_name: Option<&str>) -> (res: Option<Self>)
        ensures
            res == spec_from_name(opt_bytes(file_name)),
    {
        let name = match file_name {
            Some(n) => n,
            None => {
                return None;
            },
        };
        let ext = match extension_of(name.as_bytes()) {
            Some(e) => e,
            None => {
                return None;
            },
        };
        let lowered = to_lower(ext.as_slice());
        let e = lowered.as_slice();
        let images: [&str; 7] = ["png", "jpg", "jpeg", "bmp", "tif", "tiff", "webp"];
        let videos: [&str; 5] = ["mp4", "mov", "avi", "mkv", "webm"];
        let audios: [&str; 12] = [
            "mp3", "wav", "flac", "aac", "m4a", "ogg", "oga", "opus", "wma", "amr", "aiff", "alac",
        ];
        let others: [&str; 9] = ["pdf", "txt", "csv", "json", "xml", "doc", "docx", "zip", "7z"];
        assert(images@ == image_extensions());
        assert(videos@ == video_extensions());
        assert(audios@ == audio_extensions());
        assert(others@ == other_extensions());
        if matches_any(e, &images) {
            return Some(FileKind::Image);
        }
        if bytes_eq(e, "apng".as_bytes()) {
            return Some(FileKind::AnimatedImage);
        }
        if bytes_eq(e, "gif".as_bytes()) {
            return Some(FileKind::Gif);
        }
        if matches_any(e, &videos) {
            return Some(FileKind::Video);
        }
        if matches_any(e, &audios) {
            return Some(FileKind::Audio);
        }
        if matches_any(e, &others) {
            return Some(FileKind::Other);
        }
        None
    }
}

/// A dangerous extension hidden before a benign one, e.g. `report.exe.png`.
pub fn has_suspicious_double_extension(file_name: &str) -> (res: bool)
    ensures
        res == suspicious_double_extension(file_name.spec_bytes()),
{
    let b = file_name.as_bytes();
    proof {
        lemma_last_index_before(b@, 46u8, b@.len() as int);
    }
    let k1 = match last_index_of(b, 46u8, b.len()) {
        Some(k) => k,
        None => {
            return false;
        },
    };
    proof {
        lemma_last_index_before(b@, 46u8, k1 as int);
    }
    let k2 = match last_index_of(b, 46u8, k1) {
        Some(k) => k,
        None => {
            return false;
        },
    };
    let mut part: Vec<u8> = Vec::new();
    let mut i = k2 + 1;
    while i < k1
        invariant
            k2 + 1 <= i <= k1 <= b@.len(),
            part@ =~= lower(b@.subrange(k2 + 1, i as int)),
        decreases k1 - i,
    {
        part.push(lower_byte_exec(b[i]));
        i = i + 1;
    }
    let dangerous: [&str; 18] = [
        "exe", "dll", "bat", "cmd", "msi", "scr", "vbs", "vbe", "ps1", "psc1", "jar", "apk", "com",
        "pif", "hta", "cpl", "wsf", "wsh",
    ];
    assert(dangerous@ == dangerous_extensions());
    matches_any(part.as_slice(), &dangerous)
}

/// APNG detection: an `acTL` chunk before the first `IDAT`/`IEND`, within
/// 256 chunks.
pub fn is_apng(bytes: &[u8]) -> (res: bool)
    ensures
        res == spec_is_apng(bytes@),
{
    let sig: [u8; 8] = [0x89, 0x50, 0x4E, 0x47, 0x0D, 0x0A, 0x1A, 0x0A];
    if bytes.len() < 16 {
        return false;
    }
    let head = matches_at(bytes, &sig, 0);
    proof {
        assert(sig@ == png_signature());
    }
    if !head {
        return false;
    }
    let mut offset: usize = 8;
    let mut fuel: u32 = 256;
    while fuel > 0
        invariant
            fuel <= 256,
            offset <= bytes@.len(),
            spec_is_apng(bytes@) == apng_walk(bytes@, offset as int, fuel as nat),
        decreases fuel,
    {
        if bytes.len() - offset < 8 {
            return false;
        }
        let chunk_len = read_be_u32(bytes, offset) as u64;
        let is_actl = matches_at(bytes, "acTL".as_bytes(), offset + 4);
        let is_idat = matches_at(bytes, "IDAT".as_bytes(), offset + 4);
        let is_iend = matches_at(bytes, "IEND".as_bytes(), offset + 4);
        proof {
            broadcast use vstd::string::group_string_axioms;
            reveal_strlit("acTL");
            reveal_strlit("IDAT");
            reveal_strlit("IEND");
            assert(vstd::string::is_ascii("acTL"));
            assert("acTL".spec_bytes().len() == 4);
            assert(vstd::string::is_ascii("IDAT"));
            assert("IDAT".spec_bytes().len() == 4);
            assert(vstd::string::is_ascii("IEND"));
            assert("IEND".spec_bytes().len() == 4);
        }
        if is_actl {
            return true;
        }
        if is_idat || is_iend {
            return false;
        }
        let remaining = (bytes.len() - offset) as u64;
        if chunk_len + 12 > remaining {
            return false;
        }
        offset = offset + (chunk_len as usize) + 12;
        fuel = fuel - 1;
    }
    false
}

/// Animated WebP detection through the VP8X animation flag.
pub fn is_animated_webp(bytes: &[u8]) -> (res: bool)
    ensures
        res == spec_is_animated_webp(bytes@),
{
    if bytes.len() < 21 {
        return false;
    }
    if !matches_at(bytes, "RIFF".as_bytes(), 0) || !matches_at(bytes, "WEBP".as_bytes(), 8) {
        return false;
    }
    if !matches_at(bytes, "VP8X".as_bytes(), 12) {
        return false;
    }
    proof {
        broadcast use vstd::string::group_string_axioms;
        reveal_strlit("RIFF");
        reveal_strlit("WEBP");
        reveal_strlit("VP8X");
        assert(vstd::string::is_ascii("RIFF"));
            assert("RIFF".spec_bytes().len() == 4);
        assert(vstd::string::is_ascii("WEBP"));
            assert("WEBP".spec_bytes().len() == 4);
        assert(vstd::string::is_ascii("VP8X"));
            assert("VP8X".spec_bytes().len() == 4);
    }
    let vp8x_size = read_le_u32(bytes, 16);
    if vp8x_size < 10 {
        return false;
    }
    let flags = bytes[20];
    (flags % 4) >= 2
}


/// A RIFF/WEBP file whose first chunk is VP8X (declared size at least 10),
/// named or typed as an image, is classified as an animated image exactly
/// when bit 0x02 (animation) of the VP8X flags byte at offset 20 is set;
/// otherwise it stays an image.
pub proof fn law_webp_animation_flag_decides(b: Seq<u8>, name: Option<Seq<u8>>, mime: Option<Seq<u8>>)
    requires
        b.len() >= 21,
        b.subrange(0, 4) == seq![0x52u8, 0x49u8, 0x46u8, 0x46u8],
        b.subrange(8, 12) == seq![0x57u8, 0x45u8, 0x42u8, 0x50u8],
        b.subrange(12, 16) == seq![0x56u8, 0x50u8, 0x38u8, 0x58u8],
        le_u32_at(b, 16) >= 10,
        spec_from_name_and_mime(name, mime) == FileKind::Image,
        !(name is Some && suspicious_double_extension(name.unwrap())),
    ensures
        (b[20] & 0x02u8) != 0 ==> spec_classify(b, name, mime) == FileKind::AnimatedImage,
        (b[20] & 0x02u8) == 0 ==> spec_classify(b, name, mime) == FileKind::Image,
{
    broadcast use vstd::string::group_string_axioms;
    reveal_strlit("RIFF");
    reveal_strlit("WEBP");
    reveal_strlit("VP8X");
    assert(vstd::string::is_ascii("RIFF"));
    assert(vstd::string::is_ascii("WEBP"));
    assert(vstd::string::is_ascii("VP8X"));
    assert("RIFF".spec_bytes() =~= seq![0x52u8, 0x49u8, 0x46u8, 0x46u8]);
    assert("WEBP".spec_bytes() =~= seq![0x57u8, 0x45u8, 0x42u8, 0x50u8]);
    assert("VP8X".spec_bytes() =~= seq![0x56u8, 0x50u8, 0x38u8, 0x58u8]);
    let f = b[20];
    assert(((f & 0x02u8) != 0) == ((f as int) % 4 >= 2)) by (bit_vector);
    assert(b[0] == 0x52u8);
    assert(!(b.subrange(0, 8) == png_signature())) by {
        if b.subrange(0, 8) == png_signature() {
            assert(b.subrange(0, 8)[0] == png_signature()[0]);
        }
    }
}

proof fn lemma_png_chunk_names()
    ensures
        "acTL".spec_bytes() == seq![0x61u8, 0x63u8, 0x54u8, 0x4Cu8],
        "IDAT".spec_bytes() == seq![0x49u8, 0x44u8, 0x41u8, 0x54u8],
        "IEND".spec_bytes() == seq![0x49u8, 0x45u8, 0x4Eu8, 0x44u8],
{
    broadcast use vstd::string::group_string_axioms;
    reveal_strlit("acTL");
    reveal_strlit("IDAT");
    reveal_strlit("IEND");
    assert(vstd::string::is_ascii("acTL"));
    assert(vstd::string::is_ascii("IDAT"));
    assert(vstd::string::is_ascii("IEND"));
    assert("acTL".spec_bytes() =~= seq![0x61u8, 0x63u8, 0x54u8, 0x4Cu8]);
    assert("IDAT".spec_bytes() =~= seq![0x49u8, 0x44u8, 0x41u8, 0x54u8]);
    assert("IEND".spec_bytes() =~= seq![0x49u8, 0x45u8, 0x4Eu8, 0x44u8]);
}

proof fn lemma_apng_walk_finds_actl(b: Seq<u8>, offset: int, fuel: nat)
    requires
        offset >= 0,
        apng_walk(b, offset, fuel),
    ensures
        exists|k: int| 0 <= k && k + 8 <= b.len() && #[trigger] b.subrange(k + 4, k + 8) == seq![0x61u8, 0x63u8, 0x54u8, 0x4Cu8],
    decreases fuel,
{
    lemma_png_chunk_names();
    if chunk_type_at(b, offset) == "acTL".spec_bytes() {
        assert(b.subrange(offset + 4, offset + 8) == seq![0x61u8, 0x63u8, 0x54u8, 0x4Cu8]);
    } else {
        let next = offset + be_u32_at(b, offset) + 12;
        lemma_apng_walk_finds_actl(b, next, (fuel - 1) as nat);
    }
}

/// A PNG named or typed as an image is an animated image when an acTL
/// chunk directly follows its IHDR chunk, and stays an image when the
/// bytes `acTL` occur nowhere in it.
pub proof fn law_apng_detection(b: Seq<u8>, name: Option<Seq<u8>>, mime: Option<Seq<u8>>)
    requires
        b.len() >= 16,
        b.subrange(0, 8) == seq![0x89u8, 0x50u8, 0x4Eu8, 0x47u8, 0x0Du8, 0x0Au8, 0x1Au8, 0x0Au8],
        spec_from_name_and_mime(name, mime) == FileKind::Image,
        !(name is Some && suspicious_double_extension(name.unwrap())),
    ensures
        ({
            let next = 8 + be_u32_at(b, 8) + 12;
            &&& b.subrange(12, 16) == seq![0x49u8, 0x48u8, 0x44u8, 0x52u8]
            &&& next + 8 <= b.len()
            &&& b.subrange(next + 4, next + 8) == seq![0x61u8, 0x63u8, 0x54u8, 0x4Cu8]
        }) ==> spec_classify(b, name, mime) == FileKind::AnimatedImage,
        (forall|k: int| 0 <= k && k + 8 <= b.len() ==> #[trigger] b.subrange(k + 4, k + 8) != seq![0x61u8, 0x63u8, 0x54u8, 0x4Cu8])
            ==> spec_classify(b, name, mime) == FileKind::Image,
{
    lemma_png_chunk_names();
    assert(b.subrange(0, 8) == png_signature());
    assert(!spec_is_animated_webp(b)) by {
        reveal_strlit("RIFF");
        broadcast use vstd::string::group_string_axioms;
        assert(vstd::string::is_ascii("RIFF"));
        assert("RIFF".spec_bytes() =~= seq![0x52u8, 0x49u8, 0x46u8, 0x46u8]);
        assert(b[0] == b.subrange(0, 8)[0]);
        if b.subrange(0, 4) == "RIFF".spec_bytes() {
            assert(b.subrange(0, 4)[0] == b[0]);
        }
    }
    let next = 8 + be_u32_at(b, 8) + 12;
    if b.subrange(12, 16) == seq![0x49u8, 0x48u8, 0x44u8, 0x52u8] && next + 8 <= b.len() && b.subrange(next + 4, next + 8)
        == seq![0x61u8, 0x63u8, 0x54u8, 0x4Cu8] {
        assert(chunk_type_at(b, 8) == b.subrange(12, 16));
        assert(chunk_type_at(b, 8)[0] != "acTL".spec_bytes()[0]);
        assert(chunk_type_at(b, 8)[1] != "IDAT".spec_bytes()[1]);
        assert(chunk_type_at(b, 8)[1] != "IEND".spec_bytes()[1]);
        assert(chunk_type_at(b, next) == "acTL".spec_bytes());
        assert(apng_walk(b, next, 255));
        assert(apng_walk(b, 8, 256));
    }
    if spec_is_apng(b) {
        lemma_apng_walk_finds_actl(b, 8, 256);
    }
}

/// Caller-held cancellation flag, shared between threads.
#[derive(Debug, Clone)]
pub struct CancellationToken {
    flag: Arc<AtomicBool>,
}

impl CancellationToken {
    pub fn new() -> Self {
        CancellationToken { flag: Arc::new(AtomicBool::new(false)) }
    }

    pub fn cancel(&self) {
        self.flag.store(true, Ordering::Relaxed);
    }

    /// Whether `cancel` was observed; other threads may set it at any time.
    pub fn is_cancelled(&self) -> bool {
        self.flag.load(Ordering::Relaxed)
    }
}

impl Default for CancellationToken {
    fn default() -> Self {
        Self::new()
    }
}

#[verifier::external_type_specification]
#[verifier::external_body]
pub struct ExInstant(Instant);

/// Milliseconds elapsed since `start`, through `Instant::elapsed` and
/// `Duration::as_millis` (kept to its low 64 bits); the clock decides, so
/// nothing is stated of the value.
#[verifier::external_body]
pub(crate) fn elapsed_millis(start: &Instant) -> u64 {
    start.elapsed().as_millis() as u64
}


/// Direction of the file relative to the process running the defense.
#[derive(Debug, Clone, Copy, PartialEq, Eq, Structural)]
pub enum SourceRole {
    /// File is about to leave this process (pre-send / pre-encrypt).
    Outgoing,
    /// File has just arrived at this process (post-receive / post-decrypt).
    Incoming,
}

/// Per-call context: where the file comes from, who it belongs to, and the
/// limits a handler must honour.
#[derive(Debug, Clone)]
pub struct DefenseContext {
    pub source: SourceRole,
    pub tenant_id: Option<String>,
    pub cancel: Option<CancellationToken>,
    /// When the handler started (set before dispatch).
    pub started_at: Option<Instant>,
    /// Wall-clock timeout in milliseconds; 0 means none.
    pub timeout_ms: u64,
    /// MIME declared by the source of the file, if it gave one.
    pub declared_mime: Option<String>,
}

impl Default for DefenseContext {
    fn default() -> (res: Self)
        ensures
            res.source == SourceRole::Outgoing,
            res.tenant_id is None,
            res.cancel is None,
            res.started_at is None,
            res.timeout_ms == 0,
            res.declared_mime is None,
    {
        DefenseContext {
            source: SourceRole::Outgoing,
            tenant_id: None,
            cancel: None,
            started_at: None,
            timeout_ms: 0,
            declared_mime: None,
        }
    }
}

/// A context whose limits can never stop a run: no cancellation token, and
/// no timeout or no start instant.
pub open spec fn limits_inert(c: DefenseContext) -> bool {
    c.cancel is None && (c.timeout_ms == 0 || c.started_at is None)
}

/// What the limits decide, given whether the token was seen cancelled and,
/// when there is a start instant, the milliseconds elapsed since it.
pub open spec fn limits_decision(cancelled: bool, elapsed_ms: Option<u64>, timeout_ms: u64) -> Result<(), DefenderError> {
    if cancelled {
        Err(DefenderError::Cancelled)
    } else if timeout_ms > 0 && (elapsed_ms matches Some(e) && e > timeout_ms) {
        Err(DefenderError::Timeout)
    } else {
        Ok(())
    }
}

/// The outcome of the limits once the cancellation flag and the clock have
/// been read: cancellation first, then a timeout that has passed.
pub fn limits_outcome(cancelled: bool, elapsed_ms: Option<u64>, timeout_ms: u64) -> (res: Result<(), DefenderError>)
    ensures
        res == limits_decision(cancelled, elapsed_ms, timeout_ms),
{
    if cancelled {
        return Err(DefenderError::Cancelled);
    }
    if timeout_ms > 0 {
        if let Some(e) = elapsed_ms {
            if e > timeout_ms {
                return Err(DefenderError::Timeout);
            }
        }
    }
    Ok(())
}

impl DefenseContext {
    /// Check the cancellation token and the timeout. With neither a token
    /// nor a timeout the check always passes; otherwise the outcome depends
    /// on other threads and on the clock.
    pub fn check_limits(&self) -> (res: Result<(), DefenderError>)
        ensures
            match res {
                Ok(()) => true,
                Err(DefenderError::Cancelled) => self.cancel is Some,
                Err(DefenderError::Timeout) => self.timeout_ms > 0 && self.started_at is Some,
                Err(_) => false,
            },
            limits_inert(*self) ==> res is Ok,
            exists|cancelled: bool, elapsed_ms: Option<u64>|
                (cancelled ==> self.cancel is Some) && (elapsed_ms is Some ==> self.started_at is Some) && res
                    == #[trigger] limits_decision(cancelled, elapsed_ms, self.timeout_ms),
    {
        let cancelled = match &self.cancel {
            Some(token) => token.is_cancelled(),
            None => false,
        };
        let elapsed_ms = if !cancelled && self.timeout_ms > 0 {
            match &self.started_at {
                Some(started) => Some(elapsed_millis(started)),
                None => None,
            }
        } else {
            None
        };
        let res = limits_outcome(cancelled, elapsed_ms, self.timeout_ms);
        assert(res == limits_decision(cancelled, elapsed_ms, self.timeout_ms));
        res
    }
}

/// The three-state outcome of a defense run.
#[derive(Debug, Clone, Copy, PartialEq, Eq, Structural)]
pub enum DefenseVerdict {
    Clean,
    Suspicious,
    Blocked,
}

/// Severity of a single alert: `Blocking` forces `Blocked`, `Warning`
/// forces at least `Suspicious`, `Info` never affects the verdict.
#[derive(Debug, Clone, Copy, PartialEq, Eq, Structural)]
pub enum AlertSeverity {
    Info,
    Warning,
    Blocking,
}

/// One finding of the pipeline.
#[derive(Debug, Clone)]
pub struct DefenseAlert {
    pub code: String,
    pub message: String,
    pub severity: AlertSeverity,
}

impl DefenseAlert {
    pub fn info(code: &str, message: &str) -> (res: Self)
        ensures
            res.code@ == code@,
            res.message@ == message@,
            res.severity == AlertSeverity::Info,
    {
        DefenseAlert { code: code.to_owned(), message: message.to_owned(), severity: AlertSeverity::Info }
    }

    pub fn warning(code: &str, message: &str) -> (res: Self)
        ensures
            res.code@ == code@,
            res.message@ == message@,
            res.severity == AlertSeverity::Warning,
    {
        DefenseAlert { code: code.to_owned(), message: message.to_owned(), severity: AlertSeverity::Warning }
    }

    pub fn blocking(code: &str, message: &str) -> (res: Self)
        ensures
            res.code@ == code@,
            res.message@ == message@,
            res.severity == AlertSeverity::Blocking,
    {
        DefenseAlert { code: code.to_owned(), message: message.to_owned(), severity: AlertSeverity::Blocking }
    }

    /// Whether this alert forces a `Blocked` verdict.
    pub fn is_blocking(&self) -> (res: bool)
        ensures
            res == (self.severity == AlertSeverity::Blocking),
    {
        self.severity == AlertSeverity::Blocking
    }

    /// Whether this alert contributes to a `Suspicious` verdict.
    pub fn is_warning(&self) -> (res: bool)
        ensures
            res == (self.severity == AlertSeverity::Warning),
    {
        self.severity == AlertSeverity::Warning
    }

    /// Whether this alert is purely informational.
    pub fn is_info(&self) -> (res: bool)
        ensures
            res == (self.severity == AlertSeverity::Info),
    {
        self.severity == AlertSeverity::Info
    }
}

/// The rebuilt candidate and what is known of it.
#[derive(Debug, Clone)]
pub struct DefendedArtifact {
    pub file_kind: FileKind,
    pub mime: String,
    pub original_size: u64,
    pub output_size: u64,
    pub sha256: String,
    pub output_bytes: Vec<u8>,
}

/// The outcome of a defense run.
#[derive(Debug, Clone)]
pub struct DefendResult {
    pub verdict: DefenseVerdict,
    pub alerts: Vec<DefenseAlert>,
    pub stages: Vec<PipelineStageReport>,
    pub artifact: DefendedArtifact,
    pub diagnostics: DefenseDiagnostics,
}

impl DefendResult {
    /// Bytes may be handed on only for a `Clean` verdict with a candidate.
    pub fn can_release(&self) -> (res: bool)
        ensures
            res == (self.verdict == DefenseVerdict::Clean && self.artifact.output_bytes@.len() > 0),
    {
        self.verdict == DefenseVerdict::Clean && self.artifact.output_bytes.len() > 0
    }
}

/// Per-call measurements emitted alongside the verdict.
#[derive(Debug, Clone)]
pub struct DefenseDiagnostics {
    pub duration_ms: u64,
    pub input_bytes: u64,
    pub output_bytes: u64,
    pub stripped_metadata_count: u32,
    pub stripped_bytes: u64,
    pub parser_used: String,
}

impl Default for DefenseDiagnostics {
    fn default() -> (res: Self)
        ensures
            res.duration_ms == 0,
            res.input_bytes == 0,
            res.output_bytes == 0,
            res.stripped_metadata_count == 0,
            res.stripped_bytes == 0,
            res.parser_used@ == Seq::<char>::empty(),
    {
        DefenseDiagnostics {
            duration_ms: 0,
            input_bytes: 0,
            output_bytes: 0,
            stripped_metadata_count: 0,
            stripped_bytes: 0,
            parser_used: String::new(),
        }
    }
}

/// Named steps of the pipeline.
#[derive(Debug, Clone, Copy, PartialEq, Eq, Structural)]
pub enum PipelineStage {
    PreScan,
    ImageProbe,
    GifProbe,
    VideoProbe,
    AudioProbe,
    OtherProbe,
    Detect,
    Rebuild,
    SignatureScan,
    OutputValidation,
}

/// Outcome of one step.
#[derive(Debug, Clone, Copy, PartialEq, Eq, Structural)]
pub enum PipelineStageStatus {
    Success,
    Warning,
    Blocked,
}

/// Report of one step of the pipeline.
#[derive(Debug, Clone)]
pub struct PipelineStageReport {
    pub stage: PipelineStage,
    pub status: PipelineStageStatus,
    pub detail: String,
}

impl PipelineStageReport {
    pub fn new(stage: PipelineStage, status: PipelineStageStatus, detail: &str) -> (res: Self)
        ensures
            res.stage == stage,
            res.status == status,
            res.detail@ == detail@,
    {
        PipelineStageReport { stage, status, detail: detail.to_owned() }
    }
}

/// `a` has this code, message and severity.
pub open spec fn alert_is(a: DefenseAlert, code: Seq<char>, message: Seq<char>, severity: AlertSeverity) -> bool {
    a.code@ == code && a.message@ == message && a.severity == severity
}

/// `after` is `before` with one alert of this code, message and severity
/// appended.
pub open spec fn alerts_then(
    after: Seq<DefenseAlert>,
    before: Seq<DefenseAlert>,
    code: Seq<char>,
    message: Seq<char>,
    severity: AlertSeverity,
) -> bool {
    &&& after.len() == before.len() + 1
    &&& after.subrange(0, before.len() as int) == before
    &&& alert_is(after.last(), code, message, severity)
}

/// `r` reports this stage, status and detail.
pub open spec fn stage_is(
    r: PipelineStageReport,
    stage: PipelineStage,
    status: PipelineStageStatus,
    detail: Seq<char>,
) -> bool {
    r.stage == stage && r.status == status && r.detail@ == detail
}

/// `after` is `before` with one report of this stage, status and detail
/// appended.
pub open spec fn stages_then(
    after: Seq<PipelineStageReport>,
    before: Seq<PipelineStageReport>,
    stage: PipelineStage,
    status: PipelineStageStatus,
    detail: Seq<char>,
) -> bool {
    &&& after.len() == before.len() + 1
    &&& after.subrange(0, before.len() as int) == before
    &&& stage_is(after.last(), stage, status, detail)
}

/// The alerts are exactly these (code, message, severity) triples.
pub open spec fn alerts_are(v: Seq<DefenseAlert>, expected: Seq<(Seq<char>, Seq<char>, AlertSeverity)>) -> bool {
    &&& v.len() == expected.len()
    &&& forall|i: int| 0 <= i < v.len() ==> alert_is(#[trigger] v[i], expected[i].0, expected[i].1, expected[i].2)
}

/// The reports are exactly these (stage, status, detail) triples.
pub open spec fn stages_are(
    v: Seq<PipelineStageReport>,
    expected: Seq<(PipelineStage, PipelineStageStatus, Seq<char>)>,
) -> bool {
    &&& v.len() == expected.len()
    &&& forall|i: int| 0 <= i < v.len() ==> stage_is(#[trigger] v[i], expected[i].0, expected[i].1, expected[i].2)
}

/// The UTF-8 bytes of an optional string.
pub open spec fn opt_chars_bytes(o: Option<Seq<char>>) -> Option<Seq<u8>> {
    match o {
        Some(c) => Some(vstd::utf8::encode_utf8(c)),
        None => None,
    }
}

/// Append `a` to `v`, whose alerts are `expected`; afterwards they are
/// `expected` followed by `t`.
pub(crate) fn push_alert(
    v: &mut Vec<DefenseAlert>,
    a: DefenseAlert,
    Ghost(expected): Ghost<Seq<(Seq<char>, Seq<char>, AlertSeverity)>>,
    Ghost(t): Ghost<(Seq<char>, Seq<char>, AlertSeverity)>,
)
    requires
        alerts_are(old(v)@, expected),
        alert_is(a, t.0, t.1, t.2),
    ensures
        alerts_are(final(v)@, expected.push(t)),
        final(v)@ == old(v)@.push(a),
{
    v.push(a);
    proof {
        let e2 = expected.push(t);
        assert forall|i: int| 0 <= i < v@.len() implies alert_is(#[trigger] v@[i], e2[i].0, e2[i].1, e2[i].2) by {
            if i < expected.len() {
                assert(alert_is(old(v)@[i], expected[i].0, expected[i].1, expected[i].2));
            }
        }
    }
}


/// An alert as the (code, message, severity) triple its contracts speak of.
pub open spec fn alert_triple(a: DefenseAlert) -> (Seq<char>, Seq<char>, AlertSeverity) {
    (a.code@, a.message@, a.severity)
}

pub open spec fn alert_triples(v: Seq<DefenseAlert>) -> Seq<(Seq<char>, Seq<char>, AlertSeverity)> {
    v.map_values(|a: DefenseAlert| alert_triple(a))
}

/// An optional alert as zero or one triples.
pub open spec fn opt_alert_triples(a: Option<DefenseAlert>) -> Seq<(Seq<char>, Seq<char>, AlertSeverity)> {
    match a {
        Some(v) => seq![alert_triple(v)],
        None => Seq::empty(),
    }
}

/// A stage report as the (stage, status, detail) triple.
pub open spec fn stage_triple(r: PipelineStageReport) -> (PipelineStage, PipelineStageStatus, Seq<char>) {
    (r.stage, r.status, r.detail@)
}

pub open spec fn stage_triples(v: Seq<PipelineStageReport>) -> Seq<(PipelineStage, PipelineStageStatus, Seq<char>)> {
    v.map_values(|r: PipelineStageReport| stage_triple(r))
}

/// `alerts_are` is equality of the triples.
pub proof fn lemma_alerts_are_triples(v: Seq<DefenseAlert>, e: Seq<(Seq<char>, Seq<char>, AlertSeverity)>)
    ensures
        alerts_are(v, e) <==> alert_triples(v) == e,
{
    if alerts_are(v, e) {
        assert(alert_triples(v) =~= e);
    }
    if alert_triples(v) == e {
        assert forall|i: int| 0 <= i < v.len() implies alert_is(#[trigger] v[i], e[i].0, e[i].1, e[i].2) by {
            assert(alert_triples(v)[i] == alert_triple(v[i]));
        }
    }
}

/// Append one alert.
pub(crate) fn push_alert_t(v: &mut Vec<DefenseAlert>, a: DefenseAlert)
    ensures
        final(v)@ == old(v)@.push(a),
        alert_triples(final(v)@) == alert_triples(old(v)@).push(alert_triple(a)),
{
    v.push(a);
    proof {
        assert(alert_triples(v@) =~= alert_triples(old(v)@).push(alert_triple(a)));
    }
}

/// Append an optional alert.
pub(crate) fn push_opt_alert(v: &mut Vec<DefenseAlert>, a: Option<DefenseAlert>)
    ensures
        alert_triples(final(v)@) == alert_triples(old(v)@) + opt_alert_triples(a),
        final(v)@.len() >= old(v)@.len(),
        final(v)@.subrange(0, old(v)@.len() as int) == old(v)@,
{
    match a {
        Some(x) => {
            push_alert_t(v, x);
            proof {
                assert(alert_triples(old(v)@).push(alert_triple(x)) =~= alert_triples(old(v)@) + seq![alert_triple(x)]);
                assert(v@.subrange(0, old(v)@.len() as int) =~= old(v)@);
            }
        },
        None => {
            proof {
                assert(alert_triples(old(v)@) + Seq::empty() =~= alert_triples(old(v)@));
                assert(v@.subrange(0, old(v)@.len() as int) =~= old(v)@);
            }
        },
    }
}

/// Append all alerts of `w`.
pub(crate) fn append_alerts(v: &mut Vec<DefenseAlert>, w: Vec<DefenseAlert>)
    ensures
        final(v)@ == old(v)@ + w@,
        alert_triples(final(v)@) == alert_triples(old(v)@) + alert_triples(w@),
{
    let ghost w0 = w@;
    let mut w = w;
    v.append(&mut w);
    proof {
        assert(alert_triples(v@) =~= alert_triples(old(v)@) + alert_triples(w0));
    }
}

/// Append one stage report.
pub(crate) fn push_stage_t(v: &mut Vec<PipelineStageReport>, r: PipelineStageReport)
    ensures
        final(v)@ == old(v)@.push(r),
        stage_triples(final(v)@) == stage_triples(old(v)@).push(stage_triple(r)),
{
    v.push(r);
    proof {
        assert(stage_triples(v@) =~= stage_triples(old(v)@).push(stage_triple(r)));
    }
}

/// Append all reports of `w`.
pub(crate) fn append_stages(v: &mut Vec<PipelineStageReport>, w: Vec<PipelineStageReport>)
    ensures
        final(v)@ == old(v)@ + w@,
        stage_triples(final(v)@) == stage_triples(old(v)@) + stage_triples(w@),
{
    let ghost w0 = w@;
    let mut w = w;
    v.append(&mut w);
    proof {
        assert(stage_triples(v@) =~= stage_triples(old(v)@) + stage_triples(w0));
    }
}

} // verus!
