//! GIF: decode every frame within a frame, pixel and delay budget, and
//! re-encode the frames alone, which drops comment and application
//! extension blocks.
use vstd::prelude::*;

use crate::error::DefenderError;
use crate::handlers::HandlerResult;
use crate::policy::GifPolicy;
use crate::text::decimal;
use crate::types::{
    alert_triples, limits_inert, stage_triples, AlertSeverity, DefenseAlert, DefenseContext, PipelineStage,
    PipelineStageReport, PipelineStageStatus,
};

verus! {

/// Longest allowed animation, in centiseconds.
pub const MAX_TOTAL_DELAY_CS: u32 = 6000;

/// Shortest frame delay kept, in centiseconds; shorter ones are raised to it.
pub const MIN_FRAME_DELAY_CS: u16 = 2;

/// A `gif::Decoder` reading its own copy of the bytes. Verus refuses a
/// declaration of the decoder type, whose parameter is bound by
/// `std::io::Read`, so it is held here, out of Verus's sight; the frames it
/// hands out are named below.
#[verifier::external_body]
pub struct GifReader {
    decoder: gif::Decoder<std::io::Cursor<Vec<u8>>>,
}

/// A `gif::Encoder` writing to memory, held for the same reason.
#[verifier::external_body]
pub struct GifWriter {
    encoder: gif::Encoder<Vec<u8>>,
}

#[verifier::external_type_specification]
#[verifier::external_body]
pub struct ExGifFrame<'a>(gif::Frame<'a>);

#[verifier::external_type_specification]
#[verifier::external_body]
pub struct ExGifDisposalMethod(gif::DisposalMethod);

/// How a frame is disposed of before the next one.
#[derive(Debug, Clone, Copy, PartialEq, Eq)]
pub enum GifDisposal {
    Any,
    Keep,
    Background,
    Previous,
}

/// One decoded frame, as RGBA pixels with its placement and timing.
pub struct GifFrameData {
    pub width: u16,
    pub height: u16,
    pub delay: u16,
    pub dispose: GifDisposal,
    pub transparent: Option<u8>,
    pub top: u16,
    pub left: u16,
    pub rgba: Vec<u8>,
}

/// A decoded frame as plain values: width, height, delay, disposal,
/// transparent index, top, left and RGBA pixels.
pub type GifFrameView = (u16, u16, u16, GifDisposal, Option<u8>, u16, u16, Seq<u8>);

pub open spec fn frame_view(f: GifFrameData) -> GifFrameView {
    (f.width, f.height, f.delay, f.dispose, f.transparent, f.top, f.left, f.rgba@)
}

/// Whether `DecodeOptions::read_info` reads the header and global palette of
/// `bytes`; it reads them from the bytes alone.
pub uninterp spec fn gif_info_reads(bytes: Seq<u8>) -> bool;

/// The frames that `Decoder::read_next_frame` hands out, in order, for
/// `bytes` read with RGBA output, and whether the stream then ends in a
/// decoding error rather than at the trailer.
pub uninterp spec fn gif_frames(bytes: Seq<u8>) -> (Seq<GifFrameView>, bool);

/// The bytes a reader decodes.
pub uninterp spec fn gif_reader_bytes(r: GifReader) -> Seq<u8>;

/// How many frames a reader has handed out.
pub uninterp spec fn gif_reader_read(r: GifReader) -> nat;

/// Reads the GIF header and global palette through `DecodeOptions::read_info`,
/// set to decode frames to RGBA, from a copy of the bytes. It succeeds
/// exactly when that read does, with no frame handed out yet.
#[verifier::external_body]
fn gif_open(bytes: &[u8]) -> (res: Result<GifReader, DefenderError>)
    ensures
        res is Ok <==> gif_info_reads(bytes@),
        res matches Ok(r) ==> gif_reader_bytes(r) == bytes@ && gif_reader_read(r) == 0,
        res matches Err(e) ==> e is Gif,
{
    let mut options = gif::DecodeOptions::new();
    options.set_color_output(gif::ColorOutput::RGBA);
    options.read_info(std::io::Cursor::new(bytes.to_vec())).map(|decoder| GifReader { decoder }).map_err(
        |e| DefenderError::Gif(e.to_string()),
    )
}

/// The plain values of a decoded frame, read from its public fields.
#[verifier::external_body]
fn frame_data(frame: &gif::Frame<'static>) -> (res: GifFrameData) {
    GifFrameData {
        width: frame.width,
        height: frame.height,
        delay: frame.delay,
        dispose: disposal_of(frame.dispose),
        transparent: frame.transparent,
        top: frame.top,
        left: frame.left,
        rgba: frame.buffer.to_vec(),
    }
}

/// The disposal method of a frame, one variant for another.
#[verifier::external_body]
fn disposal_of(method: gif::DisposalMethod) -> (res: GifDisposal) {
    match method {
        gif::DisposalMethod::Any => GifDisposal::Any,
        gif::DisposalMethod::Keep => GifDisposal::Keep,
        gif::DisposalMethod::Background => GifDisposal::Background,
        gif::DisposalMethod::Previous => GifDisposal::Previous,
    }
}

/// The disposal method to encode, one variant for another.
#[verifier::external_body]
fn disposal_method(d: GifDisposal) -> (res: gif::DisposalMethod) {
    match d {
        GifDisposal::Any => gif::DisposalMethod::Any,
        GifDisposal::Keep => gif::DisposalMethod::Keep,
        GifDisposal::Background => gif::DisposalMethod::Background,
        GifDisposal::Previous => gif::DisposalMethod::Previous,
    }
}

/// Decodes the next frame through `Decoder::read_next_frame`: the next of
/// the named frames while there is one, then a decoding error or `None`
/// after the last one.
#[verifier::external_body]
fn gif_next_frame(reader: &mut GifReader) -> (res: Result<Option<GifFrameData>, DefenderError>)
    ensures
        gif_reader_bytes(*final(reader)) == gif_reader_bytes(*old(reader)),
        ({
            let (frames, fails) = gif_frames(gif_reader_bytes(*old(reader)));
            let i = gif_reader_read(*old(reader));
            if i < frames.len() {
                res matches Ok(Some(f)) && frame_view(f) == frames[i as int] && gif_reader_read(*final(reader)) == i
                    + 1
            } else if fails {
                res matches Err(e) && e is Gif
            } else {
                res matches Ok(None)
            }
        }),
{
    match reader.decoder.read_next_frame() {
        Ok(Some(frame)) => Ok(Some(frame_data(frame))),
        Ok(None) => Ok(None),
        Err(e) => Err(DefenderError::Gif(e.to_string())),
    }
}

/// The logical screen size that `read_info` reads from `bytes`.
pub uninterp spec fn gif_screen(bytes: Seq<u8>) -> (u16, u16);

/// The logical screen size, through `Decoder::width` and `Decoder::height`.
#[verifier::external_body]
fn gif_screen_size(reader: &GifReader) -> (res: (u16, u16))
    ensures
        res == gif_screen(gif_reader_bytes(*reader)),
{
    (reader.decoder.width(), reader.decoder.height())
}

/// A frame as the encoder receives it: its size, palette, indices into the
/// palette, transparent index, delay, disposal and placement.
pub struct PalettedFrame {
    pub width: u16,
    pub height: u16,
    pub palette: Vec<u8>,
    pub indices: Vec<u8>,
    pub transparent: Option<u8>,
    pub delay: u16,
    pub dispose: GifDisposal,
    pub top: u16,
    pub left: u16,
}

pub type PalettedView = (u16, u16, Seq<u8>, Seq<u8>, Option<u8>, u16, GifDisposal, u16, u16);

pub open spec fn paletted_view(f: PalettedFrame) -> PalettedView {
    (f.width, f.height, f.palette@, f.indices@, f.transparent, f.delay, f.dispose, f.top, f.left)
}

/// What the encoder has been asked to write, in order.
pub enum GifWriteStep {
    /// The extension that loops the animation forever.
    LoopForever,
    /// A frame.
    Frame(PalettedView),
}

/// The palette and the palette indices that `Frame::from_rgba_speed` (speed
/// 10) makes of the RGBA pixels of a `width`×`height` frame.
pub uninterp spec fn gif_quantized(width: u16, height: u16, rgba: Seq<u8>) -> (Seq<u8>, Seq<u8>);

/// The logical screen size a writer was opened with.
pub uninterp spec fn gif_writer_screen(w: GifWriter) -> (u16, u16);

/// What a writer has written since it was opened.
pub uninterp spec fn gif_writer_steps(w: GifWriter) -> Seq<GifWriteStep>;

/// Whether `Encoder::new` opens an encoder with this screen and no global
/// palette.
pub uninterp spec fn gif_encoder_opens(width: u16, height: u16) -> bool;

/// Whether `Encoder::set_repeat` writes the loop extension after `before`.
pub uninterp spec fn gif_repeat_writes(screen: (u16, u16), before: Seq<GifWriteStep>) -> bool;

/// Whether `Encoder::write_frame` writes `frame` after `before`.
pub uninterp spec fn gif_frame_writes(screen: (u16, u16), before: Seq<GifWriteStep>, frame: PalettedView) -> bool;

/// The bytes `Encoder::into_inner` hands back after the trailer, for these
/// steps on this screen, or none when writing the trailer fails.
pub uninterp spec fn gif_encoded(screen: (u16, u16), steps: Seq<GifWriteStep>) -> Option<Seq<u8>>;

/// A GIF encoder writing to memory, through `Encoder::new` with no global
/// palette.
#[verifier::external_body]
fn gif_encoder(width: u16, height: u16) -> (res: Result<GifWriter, DefenderError>)
    ensures
        res is Ok <==> gif_encoder_opens(width, height),
        res matches Ok(w) ==> gif_writer_screen(w) == (width, height) && gif_writer_steps(w).len() == 0,
        res matches Err(e) ==> e is Gif,
{
    gif::Encoder::new(Vec::new(), width, height, &[]).map(|encoder| GifWriter { encoder }).map_err(
        |e| DefenderError::Gif(e.to_string()),
    )
}

/// Marks the animation as looping forever, through `Encoder::set_repeat`.
#[verifier::external_body]
fn gif_repeat_forever(writer: &mut GifWriter) -> (res: Result<(), DefenderError>)
    ensures
        res is Ok <==> gif_repeat_writes(gif_writer_screen(*old(writer)), gif_writer_steps(*old(writer))),
        res is Ok ==> gif_writer_screen(*final(writer)) == gif_writer_screen(*old(writer)) && gif_writer_steps(
            *final(writer),
        ) == gif_writer_steps(*old(writer)).push(GifWriteStep::LoopForever),
        res matches Err(e) ==> e is Gif,
{
    writer.encoder.set_repeat(gif::Repeat::Infinite).map_err(|e| DefenderError::Gif(e.to_string()))
}

/// Quantises RGBA pixels into a paletted frame through
/// `Frame::from_rgba_speed` (speed 10), and takes its palette and indices
/// with the given delay and the frame's disposal, transparency and
/// placement. `from_rgba_speed` panics unless there are exactly four bytes
/// per pixel.
#[verifier::external_body]
fn gif_frame(frame: GifFrameData, delay: u16) -> (res: PalettedFrame)
    requires
        frame.rgba@.len() == frame.width as int * frame.height as int * 4,
    ensures
        (res.palette@, res.indices@) == gif_quantized(frame.width, frame.height, frame.rgba@),
        res.width == frame.width && res.height == frame.height,
        res.transparent == frame.transparent && res.delay == delay && res.dispose == frame.dispose,
        res.top == frame.top && res.left == frame.left,
{
    let mut rgba = frame.rgba;
    let out = gif::Frame::from_rgba_speed(frame.width, frame.height, &mut rgba, 10);
    PalettedFrame {
        width: out.width,
        height: out.height,
        palette: out.palette.unwrap_or_default(),
        indices: out.buffer.into_owned(),
        transparent: frame.transparent,
        delay,
        dispose: frame.dispose,
        top: frame.top,
        left: frame.left,
    }
}

/// Appends a frame through `Encoder::write_frame`.
#[verifier::external_body]
fn gif_write_frame(writer: &mut GifWriter, frame: &PalettedFrame) -> (res: Result<(), DefenderError>)
    ensures
        res is Ok <==> gif_frame_writes(
            gif_writer_screen(*old(writer)),
            gif_writer_steps(*old(writer)),
            paletted_view(*frame),
        ),
        res is Ok ==> gif_writer_screen(*final(writer)) == gif_writer_screen(*old(writer)) && gif_writer_steps(
            *final(writer),
        ) == gif_writer_steps(*old(writer)).push(GifWriteStep::Frame(paletted_view(*frame))),
        res matches Err(e) ==> e is Gif,
{
    let out = gif::Frame {
        width: frame.width,
        height: frame.height,
        buffer: std::borrow::Cow::Borrowed(frame.indices.as_slice()),
        palette: Some(frame.palette.clone()),
        transparent: frame.transparent,
        delay: frame.delay,
        dispose: disposal_method(frame.dispose),
        top: frame.top,
        left: frame.left,
        ..gif::Frame::default()
    };
    writer.encoder.write_frame(&out).map_err(|e| DefenderError::Gif(e.to_string()))
}

/// Writes the trailer and hands back the bytes, through `Encoder::into_inner`.
#[verifier::external_body]
fn gif_finish(writer: GifWriter) -> (res: Result<Vec<u8>, DefenderError>)
    ensures
        res is Ok <==> gif_encoded(gif_writer_screen(writer), gif_writer_steps(writer)) is Some,
        res matches Ok(v) ==> gif_encoded(gif_writer_screen(writer), gif_writer_steps(writer)) == Some(v@),
        res matches Err(e) ==> e is Gif,
{
    writer.encoder.into_inner().map_err(|e| DefenderError::Gif(e.to_string()))
}

/// A decoded frame as the encoder receives it: quantised, with its delay
/// raised to at least `MIN_FRAME_DELAY_CS`.
pub open spec fn paletted_of(f: GifFrameView) -> PalettedView {
    let q = gif_quantized(f.0, f.1, f.7);
    (f.0, f.1, q.0, q.1, f.4, kept_delay(f) as u16, f.3, f.5, f.6)
}

/// What re-encoding the first `n` frames writes: the loop extension, then
/// the frames, and nothing else (no comment or application extension).
pub open spec fn encoded_steps(frames: Seq<GifFrameView>, n: int) -> Seq<GifWriteStep> {
    seq![GifWriteStep::LoopForever] + Seq::new(n as nat, |k: int| GifWriteStep::Frame(paletted_of(frames[k])))
}

/// Every encoder call of re-encoding `frames` on `screen` succeeds.
pub open spec fn encoding_succeeds(screen: (u16, u16), frames: Seq<GifFrameView>) -> bool {
    &&& gif_encoder_opens(screen.0, screen.1)
    &&& gif_repeat_writes(screen, Seq::empty())
    &&& forall|k: int|
        0 <= k < frames.len() ==> #[trigger] gif_frame_writes(screen, encoded_steps(frames, k), paletted_of(frames[k]))
    &&& gif_encoded(screen, encoded_steps(frames, frames.len() as int)) is Some
}

pub open spec fn stripped_message(frames: nat) -> Seq<char> {
    "GIF rebuilt from "@ + decimal(frames)
        + " decoded frame(s). All comment and application extension blocks were dropped during re-encode."@
}

pub open spec fn clamped_message(count: nat) -> Seq<char> {
    decimal(count) + " frame(s) had delay < 2cs and were clamped to 2cs to prevent render-loop DoS."@
}

pub open spec fn duration_message(total: nat) -> Seq<char> {
    "GIF total animation duration "@ + decimal(total) + "cs exceeds cap 6000cs."@
}

/// What a rebuilt GIF of `frames` frames reports, `clamped` of which had
/// their delay raised, with `total` centiseconds of animation.
pub open spec fn gif_alerts(frames: nat, clamped: nat, total: nat) -> Seq<(Seq<char>, Seq<char>, AlertSeverity)> {
    seq![("gif_metadata_stripped"@, stripped_message(frames), AlertSeverity::Info)] + if clamped > 0 {
        seq![("gif_delay_clamped"@, clamped_message(clamped), AlertSeverity::Warning)]
    } else {
        Seq::empty()
    } + if total > MAX_TOTAL_DELAY_CS {
        seq![("gif_excessive_duration"@, duration_message(total), AlertSeverity::Warning)]
    } else {
        Seq::empty()
    }
}

/// `frames * per_frame`, saturating at `u64::MAX`.
pub open spec fn total_pixel_budget(frames: usize, per_frame: u64) -> u64 {
    if frames * per_frame > u64::MAX {
        u64::MAX
    } else {
        (frames * per_frame) as u64
    }
}

fn pixel_budget(frames: usize, per_frame: u64) -> (res: u64)
    ensures
        res == total_pixel_budget(frames, per_frame),
{
    proof {
        vstd::arithmetic::mul::lemma_mul_upper_bound(frames as int, u64::MAX as int, per_frame as int, u64::MAX as int);
    }
    let p: u128 = (frames as u128) * (per_frame as u128);
    if p > u64::MAX as u128 {
        u64::MAX
    } else {
        p as u64
    }
}

/// The pixels of a decoded frame.
pub open spec fn view_pixels(f: GifFrameView) -> int {
    f.0 * f.1
}

/// The delay a frame is given: at least `MIN_FRAME_DELAY_CS`.
pub open spec fn kept_delay(f: GifFrameView) -> int {
    if f.2 < MIN_FRAME_DELAY_CS {
        MIN_FRAME_DELAY_CS as int
    } else {
        f.2 as int
    }
}

/// Pixels of the first `k` frames, saturating at `u64::MAX`.
pub open spec fn running_pixels(frames: Seq<GifFrameView>, k: int) -> int
    decreases k,
{
    if k <= 0 {
        0
    } else {
        let t = running_pixels(frames, k - 1) + view_pixels(frames[k - 1]);
        if t > u64::MAX {
            u64::MAX as int
        } else {
            t
        }
    }
}

/// Kept delays of the first `k` frames, saturating at `u32::MAX`.
pub open spec fn running_delay(frames: Seq<GifFrameView>, k: int) -> int
    decreases k,
{
    if k <= 0 {
        0
    } else {
        let t = running_delay(frames, k - 1) + kept_delay(frames[k - 1]);
        if t > u32::MAX {
            u32::MAX as int
        } else {
            t
        }
    }
}

/// How many of the first `k` frames had their delay raised.
pub open spec fn raised_delays(frames: Seq<GifFrameView>, k: int) -> nat
    decreases k,
{
    if k <= 0 {
        0
    } else {
        raised_delays(frames, k - 1) + if frames[k - 1].2 < MIN_FRAME_DELAY_CS {
            1nat
        } else {
            0nat
        }
    }
}

/// Frame `k` is within the policy: within the frame count, the per-frame
/// and the total pixel budget, with four bytes for each pixel.
pub open spec fn frame_within(frames: Seq<GifFrameView>, k: int, p: GifPolicy) -> bool {
    &&& k < p.max_frames
    &&& view_pixels(frames[k]) <= p.max_pixels_per_frame
    &&& running_pixels(frames, k + 1) <= total_pixel_budget(p.max_frames, p.max_pixels_per_frame)
    &&& frames[k].7.len() == view_pixels(frames[k]) * 4
}

/// The header reads, every frame decodes and the stream ends at the
/// trailer, with one to `max_frames` frames, each within the policy.
pub open spec fn gif_decodes_within(bytes: Seq<u8>, p: GifPolicy) -> bool {
    let (frames, fails) = gif_frames(bytes);
    &&& gif_info_reads(bytes)
    &&& !fails
    &&& 1 <= frames.len() <= p.max_frames
    &&& forall|k: int| 0 <= k < frames.len() ==> #[trigger] frame_within(frames, k, p)
}

/// What `rebuild` returns, whatever the frames held.
pub open spec fn gif_outcome(p: GifPolicy, context: DefenseContext, res: Result<HandlerResult, DefenderError>) -> bool {
    &&& res matches Ok(r) ==> {
        &&& r.mime@ == "image/gif"@
        &&& stage_triples(r.stages@) == seq![
            (PipelineStage::GifProbe, PipelineStageStatus::Success, "gif probe succeeded"@),
        ]
        &&& exists|frames: nat, clamped: nat, total: nat|
            1 <= frames <= p.max_frames && clamped <= frames && #[trigger] alert_triples(r.alerts@) == gif_alerts(
                frames,
                clamped,
                total,
            )
    }
    &&& res matches Err(e) ==> (e is Gif || (e is Cancelled && context.cancel is Some) || (e is Timeout
        && context.timeout_ms > 0 && context.started_at is Some))
}

/// Rebuilds GIF images.
#[derive(Debug, Clone)]
pub struct GifHandler {
    policy: GifPolicy,
}

/// A frame-limit error message.
fn limit_error(head: &str, value: u64, tail: &str, limit: u64) -> (res: DefenderError)
    ensures
        res matches DefenderError::Gif(m) && m@ == head@ + decimal(value as nat) + tail@ + decimal(limit as nat),
{
    let mut m = head.to_owned();
    crate::text::push_decimal(&mut m, value);
    m.append(tail);
    crate::text::push_decimal(&mut m, limit);
    DefenderError::Gif(m)
}

impl GifHandler {
    pub closed spec fn spec_policy(&self) -> GifPolicy {
        self.policy
    }

    pub fn new(policy: GifPolicy) -> (res: Self)
        ensures
            res.spec_policy() == policy,
    {
        GifHandler { policy }
    }

    /// The header must parse and the first frame must decode.
    fn probe(&self, input_bytes: &[u8]) -> (res: Result<(), DefenderError>)
        ensures
            res matches Err(e) ==> e is Gif,
            res is Ok <==> gif_info_reads(input_bytes@) && (gif_frames(input_bytes@).0.len() > 0
                || !gif_frames(input_bytes@).1),
    {
        let mut decoder = match gif_open(input_bytes) {
            Ok(d) => d,
            Err(e) => {
                return Err(e);
            },
        };
        match gif_next_frame(&mut decoder) {
            Ok(_) => Ok(()),
            Err(e) => Err(e),
        }
    }

    /// Decode each frame and re-encode it, refusing more frames than the
    /// policy allows, a frame over the per-frame pixel limit, or more pixels
    /// in all than frames × per-frame limit; delays under 2 cs are raised to
    /// 2 cs. Reports the number of frames, the raised delays, and an
    /// animation over a minute.
    pub fn rebuild(&self, input_bytes: Vec<u8>, context: DefenseContext) -> (res: Result<HandlerResult, DefenderError>)
        ensures
            ({
                let (frames, fails) = gif_frames(input_bytes@);
                limits_inert(context) && gif_decodes_within(input_bytes@, self.spec_policy()) && encoding_succeeds(
                    gif_screen(input_bytes@),
                    frames,
                ) ==> res is Ok
            }),
            res matches Ok(r) ==> {
                let (frames, fails) = gif_frames(input_bytes@);
                &&& encoding_succeeds(gif_screen(input_bytes@), frames)
                &&& r.output_bytes@ == gif_encoded(
                    gif_screen(input_bytes@),
                    encoded_steps(frames, frames.len() as int),
                )->Some_0
                &&& r.mime@ == "image/gif"@
                &&& stage_triples(r.stages@) == seq![
                    (PipelineStage::GifProbe, PipelineStageStatus::Success, "gif probe succeeded"@),
                ]
                &&& gif_info_reads(input_bytes@)
                &&& !fails
                &&& 1 <= frames.len() <= self.spec_policy().max_frames
                &&& forall|k: int| 0 <= k < frames.len() ==> #[trigger] frame_within(frames, k, self.spec_policy())
                &&& raised_delays(frames, frames.len() as int) <= frames.len()
                &&& alert_triples(r.alerts@) == gif_alerts(
                    frames.len(),
                    raised_delays(frames, frames.len() as int),
                    running_delay(frames, frames.len() as int) as nat,
                )
            },
            res matches Err(e) ==> (e is Gif || (e is Cancelled && context.cancel is Some) || (e is Timeout
                && context.timeout_ms > 0 && context.started_at is Some)),
    {
        match self.probe(input_bytes.as_slice()) {
            Ok(()) => {},
            Err(e) => {
                return Err(e);
            },
        }
        let mut stages: Vec<PipelineStageReport> = Vec::new();
        crate::types::push_stage_t(
            &mut stages,
            PipelineStageReport::new(PipelineStage::GifProbe, PipelineStageStatus::Success, "gif probe succeeded"),
        );
        let mut decoder = match gif_open(input_bytes.as_slice()) {
            Ok(d) => d,
            Err(e) => {
                return Err(e);
            },
        };
        let (width, height) = gif_screen_size(&decoder);
        let mut encoder = match gif_encoder(width, height) {
            Ok(e) => e,
            Err(e) => {
                return Err(e);
            },
        };
        proof {
            assert(gif_writer_steps(encoder) =~= Seq::<GifWriteStep>::empty());
        }
        match gif_repeat_forever(&mut encoder) {
            Ok(()) => {},
            Err(e) => {
                return Err(e);
            },
        }
        let max_frames = self.policy.max_frames;
        let max_per_frame = self.policy.max_pixels_per_frame;
        let max_total = pixel_budget(max_frames, max_per_frame);
        let mut frame_count: usize = 0;
        let mut total_pixels: u64 = 0;
        let mut total_delay: u32 = 0;
        let mut clamped: usize = 0;
        let ghost frames = gif_frames(input_bytes@).0;
        let ghost fails = gif_frames(input_bytes@).1;
        loop
            invariant_except_break
                gif_reader_read(decoder) == frame_count,
            invariant
                frame_count <= max_frames,
                max_frames == self.spec_policy().max_frames,
                max_per_frame == self.spec_policy().max_pixels_per_frame,
                max_total == total_pixel_budget(max_frames, max_per_frame),
                clamped <= frame_count,
                gif_reader_bytes(decoder) == input_bytes@,
                (frames, fails) == gif_frames(input_bytes@),
                frame_count <= frames.len(),
                total_pixels == running_pixels(frames, frame_count as int),
                gif_writer_screen(encoder) == gif_screen(input_bytes@),
                gif_writer_steps(encoder) == encoded_steps(frames, frame_count as int),
                gif_encoder_opens(gif_screen(input_bytes@).0, gif_screen(input_bytes@).1),
                gif_repeat_writes(gif_screen(input_bytes@), Seq::empty()),
                forall|k: int|
                    0 <= k < frame_count ==> #[trigger] gif_frame_writes(
                        gif_screen(input_bytes@),
                        encoded_steps(frames, k),
                        paletted_of(frames[k]),
                    ),
                total_delay == running_delay(frames, frame_count as int),
                clamped == raised_delays(frames, frame_count as int),
                forall|k: int| 0 <= k < frame_count ==> #[trigger] frame_within(frames, k, self.spec_policy()),
            ensures
                frame_count == frames.len(),
                !fails,
            decreases usize::MAX - frame_count,
        {
            let next = match gif_next_frame(&mut decoder) {
                Ok(n) => n,
                Err(e) => {
                    return Err(e);
                },
            };
            let frame = match next {
                Some(f) => f,
                None => {
                    break ;
                },
            };
            match context.check_limits() {
                Ok(()) => {},
                Err(e) => {
                    return Err(e);
                },
            }
            if frame_count >= max_frames {
                return Err(
                    limit_error(
                        "gif frame count exceeds max_frames: ",
                        (frame_count as u64).saturating_add(1),
                        " > ",
                        max_frames as u64,
                    ),
                );
            }
            proof {
                if gif_decodes_within(input_bytes@, self.spec_policy()) {
                    assert(frame_within(frames, frame_count as int, self.spec_policy()));
                }
            }
            frame_count = frame_count + 1;
            proof {
                vstd::arithmetic::mul::lemma_mul_upper_bound(
                    frame.width as int,
                    u16::MAX as int,
                    frame.height as int,
                    u16::MAX as int,
                );
            }
            let pixels: u64 = (frame.width as u64) * (frame.height as u64);
            if pixels > max_per_frame {
                return Err(
                    limit_error(
                        "gif frame pixel count exceeds max_pixels_per_frame: ",
                        pixels,
                        " > ",
                        max_per_frame,
                    ),
                );
            }
            total_pixels = total_pixels.saturating_add(pixels);
            if total_pixels > max_total {
                return Err(
                    limit_error("gif total pixels across frames exceed budget: ", total_pixels, " > ", max_total),
                );
            }
            let mut delay = frame.delay;
            if delay < MIN_FRAME_DELAY_CS {
                delay = MIN_FRAME_DELAY_CS;
                clamped = clamped + 1;
            }
            total_delay = total_delay.saturating_add(delay as u32);
            if frame.rgba.len() as u64 != pixels * 4 {
                return Err(DefenderError::Gif("gif frame buffer does not match its size".to_owned()));
            }
            let out = gif_frame(frame, delay);
            proof {
                let k = frame_count - 1;
                assert(paletted_view(out) == paletted_of(frames[k as int]));
                if encoding_succeeds(gif_screen(input_bytes@), frames) {
                    assert(gif_frame_writes(gif_screen(input_bytes@), encoded_steps(frames, k as int), paletted_of(frames[k as int])));
                }
            }
            match gif_write_frame(&mut encoder, &out) {
                Ok(()) => {},
                Err(e) => {
                    return Err(e);
                },
            }
        }
        if frame_count == 0 {
            return Err(DefenderError::Gif("gif has no decodable frames".to_owned()));
        }
        let encoded = match gif_finish(encoder) {
            Ok(b) => b,
            Err(e) => {
                return Err(e);
            },
        };
        let mut alerts: Vec<DefenseAlert> = Vec::new();
        let mut m = "GIF rebuilt from ".to_owned();
        crate::text::push_decimal(&mut m, frame_count as u64);
        m.append(" decoded frame(s). All comment and application extension blocks were dropped during re-encode.");
        crate::types::push_alert_t(
            &mut alerts,
            DefenseAlert { code: "gif_metadata_stripped".to_owned(), message: m, severity: AlertSeverity::Info },
        );
        let ghost a1 = alert_triples(alerts@);
        if clamped > 0 {
            let mut m = String::new();
            crate::text::push_decimal(&mut m, clamped as u64);
            m.append(" frame(s) had delay < 2cs and were clamped to 2cs to prevent render-loop DoS.");
            crate::types::push_alert_t(
                &mut alerts,
                DefenseAlert { code: "gif_delay_clamped".to_owned(), message: m, severity: AlertSeverity::Warning },
            );
        }
        let ghost a2 = alert_triples(alerts@);
        if total_delay > MAX_TOTAL_DELAY_CS {
            let mut m = "GIF total animation duration ".to_owned();
            crate::text::push_decimal(&mut m, total_delay as u64);
            m.append("cs exceeds cap 6000cs.");
            crate::types::push_alert_t(
                &mut alerts,
                DefenseAlert { code: "gif_excessive_duration".to_owned(), message: m, severity: AlertSeverity::Warning },
            );
        }
        proof {
            let g = gif_alerts(frame_count as nat, clamped as nat, total_delay as nat);
            assert(alert_triples(alerts@) =~= g);
            assert(stage_triples(stages@) =~= seq![stage_triples(stages@)[0]]);
        }
        Ok(HandlerResult { mime: "image/gif".to_owned(), output_bytes: encoded, alerts, stages })
    }
}

} // verus!
