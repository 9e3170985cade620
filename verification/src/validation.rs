//! The independent read of a finished candidate: before its bytes may be
//! released, the candidate is opened again by a fresh decoder and read to
//! the end within the policy's budgets. Files of other kinds have no such
//! reader and never pass; audio and video are read by external runtimes
//! that the caller runs.
use std::io::Cursor;

use image::{AnimationDecoder, ImageDecoder};
use vstd::prelude::*;

use crate::error::DefenderError;
use crate::handlers::image::{image_header_size, probe_dimensions};
use crate::policy::DefensePolicy;
use crate::text::{decimal, push_decimal};
use crate::types::{limits_inert, DefenseContext, FileKind};

verus! {

#[verifier::external_type_specification]
#[verifier::external_body]
pub struct ExImageFrames<'a>(image::Frames<'a>);

#[verifier::external_type_specification]
#[verifier::external_body]
pub struct ExImageFrame(image::Frame);

#[verifier::external_type_specification]
#[verifier::external_body]
pub struct ExImageError(image::ImageError);

/// The width and height of the image that `image` decodes from `bytes`
/// with at most `max_alloc` bytes allocated, or none when that fails.
pub uninterp spec fn image_decoded_within(bytes: Seq<u8>, max_alloc: u64) -> Option<(u32, u32)>;

/// The width and height that the GIF decoder of `image` reads from the
/// header of `bytes`, or none when it cannot open them.
pub uninterp spec fn gif_header_size(bytes: Seq<u8>) -> Option<(u32, u32)>;

/// The width and height that the PNG decoder of `image` reads from the
/// header of `bytes`, or none when it cannot open them.
pub uninterp spec fn png_header_size(bytes: Seq<u8>) -> Option<(u32, u32)>;

/// Guesses the format with `ImageReader::with_guessed_format`, sets
/// `Limits::max_alloc` through `ImageReader::limits`, decodes with
/// `ImageReader::decode`, and reads the decoded width and height. An error
/// becomes the crate's message.
#[verifier::external_body]
fn decode_within(bytes: &[u8], max_alloc: u64) -> (res: Result<(u32, u32), String>)
    ensures
        res matches Ok(d) ==> image_decoded_within(bytes@, max_alloc) == Some(d),
        res is Err ==> image_decoded_within(bytes@, max_alloc) is None,
{
    let mut reader = image::ImageReader::new(Cursor::new(bytes)).with_guessed_format().map_err(|e| e.to_string())?;
    let mut limits = image::Limits::default();
    limits.max_alloc = Some(max_alloc);
    reader.limits(limits);
    let decoded = reader.decode().map_err(|e| e.to_string())?;
    Ok((decoded.width(), decoded.height()))
}

/// Opens the bytes with `GifDecoder::new` and reads
/// `ImageDecoder::dimensions`.
#[verifier::external_body]
fn gif_dimensions(bytes: &[u8]) -> (res: Result<(u32, u32), String>)
    ensures
        res matches Ok(d) ==> gif_header_size(bytes@) == Some(d),
        res is Err ==> gif_header_size(bytes@) is None,
{
    let decoder = image::codecs::gif::GifDecoder::new(Cursor::new(bytes)).map_err(|e| e.to_string())?;
    Ok(decoder.dimensions())
}

/// Opens the bytes with `PngDecoder::new` and reads
/// `ImageDecoder::dimensions`.
#[verifier::external_body]
fn png_dimensions(bytes: &[u8]) -> (res: Result<(u32, u32), String>)
    ensures
        res matches Ok(d) ==> png_header_size(bytes@) == Some(d),
        res is Err ==> png_header_size(bytes@) is None,
{
    let decoder = image::codecs::png::PngDecoder::new(Cursor::new(bytes)).map_err(|e| e.to_string())?;
    Ok(decoder.dimensions())
}

/// What an animation decoder of `image` yields frame by frame: each frame
/// reduced to the width and height of its buffer, or an error to its
/// message; the items run up to the end of the frames, or up to and
/// including the first error.
pub type FrameItems = Seq<Result<(u32, u32), Seq<char>>>;

/// The frames of an animation being read, through `image::Frames` over the
/// decoder's own copy of the bytes. Held here, out of Verus's sight; what it
/// yields is named below.
#[verifier::external_body]
pub struct AnimationReader {
    frames: image::Frames<'static>,
}

/// The items the GIF decoder of `image` yields for `bytes` with at most
/// `max_alloc` bytes allocated, or none when the decoder cannot be opened.
pub uninterp spec fn gif_frame_items(bytes: Seq<u8>, max_alloc: u64) -> Option<FrameItems>;

/// The items the APNG decoder of `image` yields for `bytes` with at most
/// `max_alloc` bytes allocated, or none when the decoder cannot be opened
/// or the bytes are no APNG.
pub uninterp spec fn apng_frame_items(bytes: Seq<u8>, max_alloc: u64) -> Option<FrameItems>;

/// The items a reader yields, from its first.
pub uninterp spec fn reader_items(r: AnimationReader) -> FrameItems;

/// How many items a reader has yielded.
pub uninterp spec fn reader_position(r: AnimationReader) -> nat;

/// The items of an animation kind.
pub open spec fn frame_items(gif: bool, bytes: Seq<u8>, max_alloc: u64) -> Option<FrameItems> {
    if gif {
        gif_frame_items(bytes, max_alloc)
    } else {
        apng_frame_items(bytes, max_alloc)
    }
}

/// Opens the bytes with `GifDecoder::new`, sets `Limits::max_alloc` through
/// `ImageDecoder::set_limits`, and turns the decoder into its frames with
/// `AnimationDecoder::into_frames`. An error becomes the crate's message.
#[verifier::external_body]
fn gif_frames(bytes: &[u8], max_alloc: u64) -> (res: Result<AnimationReader, String>)
    ensures
        res is Ok <==> gif_frame_items(bytes@, max_alloc) is Some,
        res matches Ok(r) ==> reader_items(r) == gif_frame_items(bytes@, max_alloc)->Some_0 && reader_position(r)
            == 0,
{
    let mut decoder = image::codecs::gif::GifDecoder::new(Cursor::new(bytes.to_vec())).map_err(|e| e.to_string())?;
    let mut limits = image::Limits::default();
    limits.max_alloc = Some(max_alloc);
    decoder.set_limits(limits).map_err(|e| e.to_string())?;
    Ok(AnimationReader { frames: decoder.into_frames() })
}

/// Opens the bytes with `PngDecoder::new`, sets `Limits::max_alloc` through
/// `ImageDecoder::set_limits`, and turns the decoder into its animation
/// frames with `PngDecoder::apng` and `AnimationDecoder::into_frames`. An
/// error becomes the crate's message.
#[verifier::external_body]
fn apng_frames(bytes: &[u8], max_alloc: u64) -> (res: Result<AnimationReader, String>)
    ensures
        res is Ok <==> apng_frame_items(bytes@, max_alloc) is Some,
        res matches Ok(r) ==> reader_items(r) == apng_frame_items(bytes@, max_alloc)->Some_0 && reader_position(r)
            == 0,
{
    let mut decoder = image::codecs::png::PngDecoder::new(Cursor::new(bytes.to_vec())).map_err(|e| e.to_string())?;
    let mut limits = image::Limits::default();
    limits.max_alloc = Some(max_alloc);
    decoder.set_limits(limits).map_err(|e| e.to_string())?;
    Ok(AnimationReader { frames: decoder.apng().map_err(|e| e.to_string())?.into_frames() })
}

/// `Iterator::next` on the frames; a decoded frame is reduced to the width
/// and height of its buffer (`Frame::buffer`), an error to its message. It
/// yields the reader's next item, then `None` after the last frame; after an
/// error nothing is stated.
#[verifier::external_body]
fn next_frame(frames: &mut AnimationReader) -> (res: Option<Result<(u32, u32), String>>)
    ensures
        reader_items(*final(frames)) == reader_items(*old(frames)),
        ({
            let items = reader_items(*old(frames));
            let i = reader_position(*old(frames));
            if i < items.len() {
                &&& reader_position(*final(frames)) == i + 1
                &&& match items[i as int] {
                    Ok(d) => res == Some(Ok::<(u32, u32), String>(d)),
                    Err(m) => res matches Some(Err(e)) && e@ == m,
                }
            } else if items.len() == 0 || items.last() is Ok {
                res is None
            } else {
                true
            }
        }),
{
    match frames.frames.next() {
        None => None,
        Some(Ok(frame)) => Some(Ok((frame.buffer().width(), frame.buffer().height()))),
        Some(Err(e)) => Some(Err(e.to_string())),
    }
}

/// A frame or image of `w`×`h` pixels fits a budget of `max` pixels.
pub open spec fn pixels_within(w: u32, h: u32, max: u64) -> bool {
    w * h != 0 && w * h <= max
}

pub open spec fn budget_message(w: u32, h: u32) -> Seq<char> {
    "Output dimensions exceed the pixel budget: "@ + decimal(w as nat) + "x"@ + decimal(h as nat)
}

/// `a * b`, or `u64::MAX` when the product does not fit.
pub open spec fn saturated_product(a: u64, b: u64) -> u64 {
    if a * b > u64::MAX {
        u64::MAX
    } else {
        (a * b) as u64
    }
}

fn saturating_product(a: u64, b: u64) -> (res: u64)
    ensures
        res == saturated_product(a, b),
{
    if a != 0 && b > u64::MAX / a {
        assert(a * b > u64::MAX) by (nonlinear_arith)
            requires
                a != 0,
                b > u64::MAX / a,
        ;
        u64::MAX
    } else {
        assert(a * b <= u64::MAX) by (nonlinear_arith)
            requires
                a == 0 || b <= u64::MAX / a,
        ;
        a * b
    }
}

/// The allocation budget of a decoder that may produce `max_pixels` pixels.
pub open spec fn alloc_budget(max_pixels: u64) -> u64 {
    saturated_product(max_pixels, 16)
}

/// The pixel count of a `width`×`height` image when it is non-zero and
/// within `max_pixels`; otherwise the refusal.
pub fn check_pixels(width: u32, height: u32, max_pixels: u64) -> (res: Result<u64, String>)
    ensures
        match res {
            Ok(p) => pixels_within(width, height, max_pixels) && p == width * height,
            Err(m) => !pixels_within(width, height, max_pixels) && m@ == budget_message(width, height),
        },
{
    let w = width as u64;
    let h = height as u64;
    assert(w * h <= 0xffff_ffffu64 * 0xffff_ffffu64) by (nonlinear_arith)
        requires
            w <= 0xffff_ffffu64,
            h <= 0xffff_ffffu64,
    ;
    let pixels = w * h;
    if pixels == 0 || pixels > max_pixels {
        let mut m = "Output dimensions exceed the pixel budget: ".to_owned();
        push_decimal(&mut m, w);
        m.append("x");
        push_decimal(&mut m, h);
        return Err(m);
    }
    Ok(pixels)
}


/// The cancellation token and the time limit of the context, as a read
/// result.
fn read_limits(context: &DefenseContext) -> (res: Result<(), String>)
    ensures
        limits_inert(*context) ==> res is Ok,
        res matches Err(m) ==> m@ == "Defense cancelled by caller"@ || m@ == "Handler exceeded time limit"@,
{
    match context.check_limits() {
        Ok(()) => Ok(()),
        Err(DefenderError::Cancelled) => Err("Defense cancelled by caller".to_owned()),
        Err(_) => Err("Handler exceeded time limit".to_owned()),
    }
}

/// A limit message of the context.
pub open spec fn is_limit_message(m: Seq<char>) -> bool {
    m == "Defense cancelled by caller"@ || m == "Handler exceeded time limit"@
}

pub open spec fn image_read_detail(w: u32, h: u32) -> Seq<char> {
    "image decoded completely, "@ + decimal(w as nat) + "x"@ + decimal(h as nat)
}

/// What the read of a still image gives, apart from a limit of the context.
pub open spec fn image_read(bytes: Seq<u8>, max_pixels: u64) -> Option<Result<Seq<char>, Seq<char>>> {
    match image_header_size(bytes) {
        None => None,
        Some((w, h)) => if !pixels_within(w, h, max_pixels) {
            Some(Err(budget_message(w, h)))
        } else {
            match image_decoded_within(bytes, alloc_budget(max_pixels)) {
                None => None,
                Some(d) => if d != (w, h) {
                    Some(Err("Output dimensions changed during decoding"@))
                } else {
                    Some(Ok(image_read_detail(w, h)))
                },
            }
        },
    }
}

/// Read a still image: its header dimensions must fit the pixel budget and
/// a full decode within the allocation budget must give the same
/// dimensions. Where `image_read` gives no outcome, the decoder refused the
/// bytes and its message is the error.
pub fn verify_image(bytes: &[u8], max_pixels: u64, context: &DefenseContext) -> (res: Result<String, String>)
    ensures
        image_read(bytes@, max_pixels) is None ==> res is Err,
        image_read(bytes@, max_pixels) matches Some(Err(m)) ==> res matches Err(e) && e@ == m,
        image_read(bytes@, max_pixels) matches Some(Ok(d)) ==> match res {
            Ok(r) => r@ == d,
            Err(e) => is_limit_message(e@) && !limits_inert(*context),
        },
        res is Ok ==> image_read(bytes@, max_pixels) is Some,
{
    let (width, height) = match probe_dimensions(bytes) {
        Ok(d) => d,
        Err(DefenderError::Io(m)) => return Err(m),
        Err(DefenderError::Image(m)) => return Err(m),
        Err(_) => return Err("image probe failed".to_owned()),
    };
    check_pixels(width, height, max_pixels)?;
    let budget = saturating_product(max_pixels, 16);
    let decoded = decode_within(bytes, budget)?;
    if decoded.0 != width || decoded.1 != height {
        return Err("Output dimensions changed during decoding".to_owned());
    }
    read_limits(context)?;
    let mut detail = "image decoded completely, ".to_owned();
    push_decimal(&mut detail, width as u64);
    detail.append("x");
    push_decimal(&mut detail, height as u64);
    Ok(detail)
}

/// The header size that the decoder of an animation kind reads.
pub open spec fn animation_header(gif: bool, bytes: Seq<u8>) -> Option<(u32, u32)> {
    if gif {
        gif_header_size(bytes)
    } else {
        png_header_size(bytes)
    }
}

/// The read failed with this message.
pub open spec fn err_is(res: Result<String, String>, m: Seq<char>) -> bool {
    res matches Err(e) && e@ == m
}

/// A successful read of an animation: its header fits the per-frame
/// budget, and `d` names how many frames were read, at least one and no
/// more than the frame budget.
pub open spec fn animation_read_ok(gif: bool, bytes: Seq<u8>, p: DefensePolicy, d: Seq<char>) -> bool {
    &&& animation_header(gif, bytes) matches Some((w, h))
    &&& pixels_within(w, h, animation_budgets(gif, p).1)
    &&& exists|n: nat| 1 <= n <= animation_budgets(gif, p).0 && d == frames_detail(n)
}

pub open spec fn frames_detail(n: nat) -> Seq<char> {
    "all "@ + decimal(n) + " animation frames decoded"@
}

/// The frame budget, the per-frame pixel budget and the aggregate pixel
/// budget of an animation kind.
pub open spec fn animation_budgets(gif: bool, p: DefensePolicy) -> (u64, u64, u64) {
    if gif {
        (
            p.gif.max_frames as u64,
            p.gif.max_pixels_per_frame,
            saturated_product(p.gif.max_frames as u64, p.gif.max_pixels_per_frame),
        )
    } else {
        (p.animated_image.max_frames as u64, p.animated_image.max_pixels_per_frame, p.animated_image.max_total_pixels)
    }
}

/// The read of the frames from item `k` on, with `total` pixels read
/// before: the frame budget is checked before each item, then the item's
/// error, its per-frame budget and the aggregate budget. Success counts the
/// frames.
pub open spec fn animation_walk(items: FrameItems, k: int, total: u64, budgets: (u64, u64, u64)) -> Result<
    nat,
    Seq<char>,
>
    decreases items.len() - k,
{
    if k >= items.len() {
        if k <= 0 {
            Err("Output animation contains no readable frames"@)
        } else {
            Ok(k as nat)
        }
    } else if k >= budgets.0 {
        Err("Output animation exceeds the frame budget"@)
    } else {
        match items[k] {
            Err(m) => Err(m),
            Ok((w, h)) => if !pixels_within(w, h, budgets.1) {
                Err(budget_message(w, h))
            } else {
                let t = if total + w * h > u64::MAX {
                    u64::MAX
                } else {
                    (total + w * h) as u64
                };
                if t > budgets.2 {
                    Err("Output animation exceeds the aggregate pixel budget"@)
                } else {
                    animation_walk(items, k + 1, t, budgets)
                }
            },
        }
    }
}

/// The read of an animation whose header fits the per-frame budget: the
/// walk over its items, or none when the decoder could not be opened.
pub open spec fn animation_read(gif: bool, bytes: Seq<u8>, p: DefensePolicy) -> Option<Result<nat, Seq<char>>> {
    match frame_items(gif, bytes, alloc_budget(animation_budgets(gif, p).1)) {
        None => None,
        Some(items) => Some(animation_walk(items, 0, 0, animation_budgets(gif, p))),
    }
}

/// Read an animation (GIF, or APNG otherwise) frame by frame within the
/// frame, per-frame and aggregate pixel budgets. Success names how many
/// frames were read: at least one, and no more than the frame budget.
pub fn verify_animation(gif: bool, bytes: &[u8], policy: &DefensePolicy, context: &DefenseContext) -> (res: Result<
    String,
    String,
>)
    ensures
        match animation_header(gif, bytes@) {
            None => res is Err,
            Some((w, h)) => !pixels_within(w, h, animation_budgets(gif, *policy).1) ==> err_is(
                res,
                budget_message(w, h),
            ),
        },
        res matches Ok(d) ==> animation_read_ok(gif, bytes@, *policy, d@),
        animation_header(gif, bytes@) matches Some((w, h)) && pixels_within(w, h, animation_budgets(gif, *policy).1)
            ==> match animation_read(gif, bytes@, *policy) {
            None => res is Err,
            Some(walk) => {
                &&& limits_inert(*context) ==> match walk {
                    Ok(n) => res matches Ok(d) && d@ == frames_detail(n),
                    Err(m) => err_is(res, m),
                }
                &&& res matches Ok(d) ==> (walk matches Ok(n) && d@ == frames_detail(n))
                &&& res matches Err(e) ==> ((walk matches Err(m) && e@ == m) || is_limit_message(e@))
            },
        },
{
    let (max_frames, max_pixels, max_total_pixels) = if gif {
        let frames = policy.gif.max_frames as u64;
        (frames, policy.gif.max_pixels_per_frame, saturating_product(frames, policy.gif.max_pixels_per_frame))
    } else {
        (
            policy.animated_image.max_frames as u64,
            policy.animated_image.max_pixels_per_frame,
            policy.animated_image.max_total_pixels,
        )
    };
    let budget = saturating_product(max_pixels, 16);
    let mut frames = if gif {
        let (width, height) = gif_dimensions(bytes)?;
        check_pixels(width, height, max_pixels)?;
        gif_frames(bytes, budget)?
    } else {
        let (width, height) = png_dimensions(bytes)?;
        check_pixels(width, height, max_pixels)?;
        apng_frames(bytes, budget)?
    };
    let ghost items = reader_items(frames);
    let ghost budgets = animation_budgets(gif, *policy);
    let mut count: u64 = 0;
    let mut total_pixels: u64 = 0;
    loop
        invariant
            count <= max_frames,
            max_frames == animation_budgets(gif, *policy).0,
            (max_frames, max_pixels, max_total_pixels) == budgets,
            budgets == animation_budgets(gif, *policy),
            animation_header(gif, bytes@) matches Some((w, h)) && pixels_within(w, h, animation_budgets(gif, *policy).1),
            frame_items(gif, bytes@, alloc_budget(max_pixels)) == Some(items),
            reader_items(frames) == items,
            reader_position(frames) == count,
            count <= items.len(),
            forall|k: int| 0 <= k < count ==> (#[trigger] items[k]) is Ok,
            animation_walk(items, 0, 0, budgets) == animation_walk(items, count as int, total_pixels, budgets),
        decreases max_frames - count,
    {
        let next = next_frame(&mut frames);
        match next {
            None => {
                if count == 0 {
                    return Err("Output animation contains no readable frames".to_owned());
                }
                let mut detail = "all ".to_owned();
                push_decimal(&mut detail, count);
                detail.append(" animation frames decoded");
                assert(detail@ == frames_detail(count as nat));
                return Ok(detail);
            },
            Some(frame) => {
                read_limits(context)?;
                if count >= max_frames {
                    return Err("Output animation exceeds the frame budget".to_owned());
                }
                count = count + 1;
                let (width, height) = frame?;
                let pixels = check_pixels(width, height, max_pixels)?;
                total_pixels = total_pixels.saturating_add(pixels);
                if total_pixels > max_total_pixels {
                    return Err("Output animation exceeds the aggregate pixel budget".to_owned());
                }
            },
        }
    }
}

/// What the independent read of a candidate came to.
pub enum OutputRead {
    /// The read ran here; its detail, or why it failed.
    Finished(Result<String, String>),
    /// Audio is read by the caller's audio reader.
    NeedsAudioReader,
    /// Video is read by the caller's external video decoder.
    NeedsVideoReader,
}

/// What a file of another kind is answered.
pub const NO_READER: &'static str = "No full output reader is implemented for this object type";

/// The read ran here and failed with `m`.
pub open spec fn finished_with_error(res: OutputRead, m: Seq<char>) -> bool {
    res matches OutputRead::Finished(Err(e)) && e@ == m
}

/// The read was stopped by the context's cancellation token or time limit.
pub open spec fn stopped_by_limits(res: OutputRead) -> bool {
    res matches OutputRead::Finished(Err(e)) && is_limit_message(e@)
}

/// The read of a still image ran here and came to `expected` (`None`: the
/// decoder refused the bytes).
pub open spec fn image_read_agrees(res: OutputRead, expected: Option<Result<Seq<char>, Seq<char>>>) -> bool {
    &&& res matches OutputRead::Finished(r)
    &&& expected is None ==> r is Err
    &&& expected matches Some(Err(m)) ==> err_is(r, m)
    &&& expected matches Some(Ok(d)) ==> (r matches Ok(o) && o@ == d)
}

/// The read of an animation ran here, and succeeded only as
/// `animation_read_ok` says.
pub open spec fn animation_read_agrees(res: OutputRead, gif: bool, bytes: Seq<u8>, p: DefensePolicy) -> bool {
    &&& res matches OutputRead::Finished(r)
    &&& r matches Ok(d) ==> animation_read_ok(gif, bytes, p, d@)
}

/// Read the candidate of the given kind again, from a fresh decoder. The
/// limits of the context are checked first. Still images and animations
/// are read here; files of other kinds have no reader and fail.
pub fn read_candidate(kind: FileKind, bytes: &[u8], policy: &DefensePolicy, context: &DefenseContext) -> (res:
    OutputRead)
    ensures
        kind == FileKind::Audio ==> (res is NeedsAudioReader || stopped_by_limits(res)),
        kind == FileKind::Video ==> (res is NeedsVideoReader || stopped_by_limits(res)),
        kind == FileKind::Other ==> (finished_with_error(res, NO_READER@) || stopped_by_limits(res)),
        kind == FileKind::Other && limits_inert(*context) ==> finished_with_error(res, NO_READER@),
        kind == FileKind::Image && limits_inert(*context) ==> image_read_agrees(
            res,
            image_read(bytes@, policy.image.max_pixels),
        ),
        kind == FileKind::Gif || kind == FileKind::AnimatedImage ==> animation_read_agrees(
            res,
            kind == FileKind::Gif,
            bytes@,
            *policy,
        ),
{
    if let Err(m) = read_limits(context) {
        return OutputRead::Finished(Err(m));
    }
    match kind {
        FileKind::Image => OutputRead::Finished(verify_image(bytes, policy.image.max_pixels, context)),
        FileKind::Gif => OutputRead::Finished(verify_animation(true, bytes, policy, context)),
        FileKind::AnimatedImage => OutputRead::Finished(verify_animation(false, bytes, policy, context)),
        FileKind::Audio => OutputRead::NeedsAudioReader,
        FileKind::Video => OutputRead::NeedsVideoReader,
        FileKind::Other => OutputRead::Finished(Err(NO_READER.to_owned())),
    }
}

} // verus!
