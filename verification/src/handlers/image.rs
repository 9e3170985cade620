//! Still images: probe the header, refuse decompression bombs, decode, and
//! re-encode from the decoded pixels, which drops every kind of metadata.
use std::io::Cursor;

use vstd::prelude::*;

use crate::error::DefenderError;
use crate::handlers::HandlerResult;
use crate::policy::{ImageOutputFormat, ImagePolicy};
use crate::text::decimal;
use crate::types::{
    alert_triples, stage_triples, AlertSeverity, DefenseAlert, DefenseContext, PipelineStage, PipelineStageReport,
    PipelineStageStatus,
};

verus! {

#[verifier::external_type_specification]
#[verifier::external_body]
pub struct ExDynamicImage(image::DynamicImage);

/// The width and height that `image` reads from the header of `bytes`, or
/// none when it cannot tell the format or read the header.
pub uninterp spec fn image_header_size(bytes: Seq<u8>) -> Option<(u32, u32)>;

/// What a decoded image holds: its colour type, width, height and samples,
/// as one sequence that tells any two different images apart.
pub uninterp spec fn image_content(img: image::DynamicImage) -> Seq<u8>;

/// The width, height and content of the image that `image` decodes from
/// `bytes`, or none when the format cannot be told or decoding fails.
pub uninterp spec fn image_decoded(bytes: Seq<u8>) -> Option<(u32, u32, Seq<u8>)>;

/// The bytes that `DynamicImage::write_to` writes for an image with this
/// content in this format, or none when encoding fails.
pub uninterp spec fn image_encoded(content: Seq<u8>, format: ImageOutputFormat) -> Option<Seq<u8>>;

/// The width and height of the image that `image` decodes from `bytes`, or
/// none when decoding fails.
pub open spec fn image_decoded_size(bytes: Seq<u8>) -> Option<(u32, u32)> {
    match image_decoded(bytes) {
        Some((w, h, _)) => Some((w, h)),
        None => None,
    }
}

/// Reads only the header, through `ImageReader::with_guessed_format` and
/// `ImageReader::into_dimensions`. Errors become `Io` (format guessing)
/// or `Image` (header) with the crate's message.
#[verifier::external_body]
pub(crate) fn probe_dimensions(bytes: &[u8]) -> (res: Result<(u32, u32), DefenderError>)
    ensures
        match res {
            Ok(d) => image_header_size(bytes@) == Some(d),
            Err(e) => image_header_size(bytes@) is None && (e is Io || e is Image),
        },
{
    let reader = image::ImageReader::new(Cursor::new(bytes)).with_guessed_format().map_err(
        |e| DefenderError::Io(e.to_string()),
    )?;
    reader.into_dimensions().map_err(|e| DefenderError::Image(e.to_string()))
}

/// Decodes the whole image through `ImageReader::decode` after guessing the
/// format, and reads the decoded width and height.
#[verifier::external_body]
fn decode_image(bytes: Vec<u8>) -> (res: Result<(image::DynamicImage, u32, u32), DefenderError>)
    ensures
        match res {
            Ok((img, w, h)) => image_decoded(bytes@) == Some((w, h, image_content(img))),
            Err(e) => image_decoded(bytes@) is None && (e is Io || e is Image),
        },
{
    let reader = image::ImageReader::new(Cursor::new(bytes)).with_guessed_format().map_err(
        |e| DefenderError::Io(e.to_string()),
    )?;
    let img = reader.decode().map_err(|e| DefenderError::Image(e.to_string()))?;
    let (w, h) = (img.width(), img.height());
    Ok((img, w, h))
}

/// Encodes the decoded pixels through `DynamicImage::write_to` in the given
/// format; the bytes written depend on the image and the format alone.
#[verifier::external_body]
fn encode_image(img: &image::DynamicImage, format: ImageOutputFormat) -> (res: Result<Vec<u8>, DefenderError>)
    ensures
        res is Ok <==> image_encoded(image_content(*img), format) is Some,
        res matches Ok(v) ==> image_encoded(image_content(*img), format) == Some(v@),
        res matches Err(e) ==> e is Image,
{
    let target = match format {
        ImageOutputFormat::Png => image::ImageFormat::Png,
        ImageOutputFormat::Jpeg => image::ImageFormat::Jpeg,
        ImageOutputFormat::Webp => image::ImageFormat::WebP,
    };
    let mut output = Vec::new();
    img.write_to(&mut Cursor::new(&mut output), target).map_err(|e| DefenderError::Image(e.to_string()))?;
    Ok(output)
}

/// The MIME type of an output format.
pub open spec fn format_mime(f: ImageOutputFormat) -> Seq<char> {
    match f {
        ImageOutputFormat::Png => "image/png"@,
        ImageOutputFormat::Jpeg => "image/jpeg"@,
        ImageOutputFormat::Webp => "image/webp"@,
    }
}

fn format_mime_exec(f: ImageOutputFormat) -> (res: &'static str)
    ensures
        res@ == format_mime(f),
{
    match f {
        ImageOutputFormat::Png => "image/png",
        ImageOutputFormat::Jpeg => "image/jpeg",
        ImageOutputFormat::Webp => "image/webp",
    }
}

pub open spec fn probe_detail(w: u32, h: u32) -> Seq<char> {
    "image probe succeeded width="@ + decimal(w as nat) + " height="@ + decimal(h as nat)
}

pub open spec fn mismatch_message(probed: nat, decoded: nat) -> Seq<char> {
    "Image dimensions mismatch between probe and decode: probe_pixels="@ + decimal(probed) + ", decode_pixels="@
        + decimal(decoded)
}

pub open spec fn stripped_message(mime: Seq<char>, w: u32, h: u32) -> Seq<char> {
    "Image rebuilt as "@ + mime + " from decoded pixels ("@ + decimal(w as nat) + "×"@ + decimal(h as nat)
        + "). All EXIF, ICC, XMP, and comment metadata was discarded."@
}

/// The error text of an image refused before or after decoding.
pub open spec fn pixel_limit_message(head: Seq<char>, pixels: nat, max: nat) -> Seq<char> {
    head + decimal(pixels) + " > "@ + decimal(max)
}

pub open spec fn bomb_message(decoded: nat, probed: nat) -> Seq<char> {
    "decoded pixel count "@ + decimal(decoded) + " exceeds 2× probed "@ + decimal(probed)
        + ": likely decompression bomb"@
}

/// The error is `Io` with this text.
pub open spec fn io_error_is(res: Result<HandlerResult, DefenderError>, text: Seq<char>) -> bool {
    res matches Err(DefenderError::Io(m)) && m@ == text
}

/// What `rebuild` returns.
pub open spec fn image_outcome(p: ImagePolicy, input_bytes: Seq<u8>, res: Result<HandlerResult, DefenderError>) -> bool {
    ({
        let max = p.max_pixels;
        match image_header_size(input_bytes) {
            None => res matches Err(e) && (e is Io || e is Image),
            Some((w, h)) => {
                let probed = w * h;
                if w == 0 || h == 0 {
                    io_error_is(res, "image dimensions are zero"@)
                } else if probed > max {
                    io_error_is(
                        res,
                        pixel_limit_message("image pixel count exceeds max_pixels: "@, probed as nat, max as nat),
                    )
                } else {
                    match image_decoded_size(input_bytes) {
                        None => res matches Err(e) && (e is Io || e is Image),
                        Some((dw, dh)) => {
                            let decoded = dw * dh;
                            if dw == 0 || dh == 0 {
                                io_error_is(res, "decoded image dimensions are zero"@)
                            } else if decoded > max {
                                io_error_is(
                                    res,
                                    pixel_limit_message(
                                        "decoded image pixel count exceeds max_pixels: "@,
                                        decoded as nat,
                                        max as nat,
                                    ),
                                )
                            } else if decoded != probed && decoded > 2 * probed {
                                io_error_is(res, bomb_message(decoded as nat, probed as nat))
                            } else {
                                let mime = format_mime(p.output_format);
                                &&& res matches Err(e) ==> e is Image
                                &&& res matches Ok(r) ==> {
                                    &&& r.mime@ == mime
                                    &&& stage_triples(r.stages@) == seq![
                                        (
                                            PipelineStage::ImageProbe,
                                            PipelineStageStatus::Success,
                                            probe_detail(w, h),
                                        ),
                                    ]
                                    &&& alert_triples(r.alerts@) == if decoded != probed {
                                        seq![
                                            (
                                                "image_probe_decode_mismatch"@,
                                                mismatch_message(probed as nat, decoded as nat),
                                                AlertSeverity::Warning,
                                            ),
                                        ]
                                    } else {
                                        Seq::empty()
                                    } + seq![
                                        (
                                            "image_metadata_stripped"@,
                                            stripped_message(mime, dw, dh),
                                            AlertSeverity::Info,
                                        ),
                                    ]
                                }
                            }
                        },
                    }
                }
            },
        }
    })
}

/// Rebuilds still images.
#[derive(Debug, Clone)]
pub struct ImageHandler {
    policy: ImagePolicy,
}

impl ImageHandler {
    pub closed spec fn spec_policy(&self) -> ImagePolicy {
        self.policy
    }

    pub fn new(policy: ImagePolicy) -> (res: Self)
        ensures
            res.spec_policy() == policy,
    {
        ImageHandler { policy }
    }

    /// Probe the header and refuse an image whose header gives no size,
    /// a zero size, or more pixels than the policy allows, before decoding
    /// anything; decode, and refuse a decoded image of zero size, over the
    /// limit, or more than twice the probed pixels; re-encode in the
    /// policy's format. A decoded size that differs from the probe within
    /// that bound is a warning.
    pub fn rebuild(&self, input_bytes: Vec<u8>, context: DefenseContext) -> (res: Result<HandlerResult, DefenderError>)
        ensures
            ({
                let max = self.spec_policy().max_pixels;
                match image_header_size(input_bytes@) {
                    None => res matches Err(e) && (e is Io || e is Image),
                    Some((w, h)) => {
                        let probed = w * h;
                        if w == 0 || h == 0 {
                            io_error_is(res, "image dimensions are zero"@)
                        } else if probed > max {
                            io_error_is(
                                res,
                                pixel_limit_message("image pixel count exceeds max_pixels: "@, probed as nat, max as nat),
                            )
                        } else {
                            match image_decoded_size(input_bytes@) {
                                None => res matches Err(e) && (e is Io || e is Image),
                                Some((dw, dh)) => {
                                    let decoded = dw * dh;
                                    if dw == 0 || dh == 0 {
                                        io_error_is(res, "decoded image dimensions are zero"@)
                                    } else if decoded > max {
                                        io_error_is(
                                            res,
                                            pixel_limit_message(
                                                "decoded image pixel count exceeds max_pixels: "@,
                                                decoded as nat,
                                                max as nat,
                                            ),
                                        )
                                    } else if decoded != probed && decoded > 2 * probed {
                                        io_error_is(res, bomb_message(decoded as nat, probed as nat))
                                    } else {
                                        let mime = format_mime(self.spec_policy().output_format);
                                        let encoded = image_encoded(
                                            image_decoded(input_bytes@)->Some_0.2,
                                            self.spec_policy().output_format,
                                        );
                                        &&& (res is Ok <==> encoded is Some)
                                        &&& res matches Err(e) ==> e is Image
                                        &&& res matches Ok(r) ==> {
                                            &&& r.output_bytes@ == encoded->Some_0
                                            &&& r.mime@ == mime
                                            &&& stage_triples(r.stages@) == seq![
                                                (
                                                    PipelineStage::ImageProbe,
                                                    PipelineStageStatus::Success,
                                                    probe_detail(w, h),
                                                ),
                                            ]
                                            &&& alert_triples(r.alerts@) == if decoded != probed {
                                                seq![
                                                    (
                                                        "image_probe_decode_mismatch"@,
                                                        mismatch_message(probed as nat, decoded as nat),
                                                        AlertSeverity::Warning,
                                                    ),
                                                ]
                                            } else {
                                                Seq::empty()
                                            } + seq![
                                                (
                                                    "image_metadata_stripped"@,
                                                    stripped_message(mime, dw, dh),
                                                    AlertSeverity::Info,
                                                ),
                                            ]
                                        }
                                    }
                                },
                            }
                        }
                    },
                }
            }),
    {
        let mut alerts: Vec<DefenseAlert> = Vec::new();
        let mut stages: Vec<PipelineStageReport> = Vec::new();
        let (probe_width, probe_height) = match probe_dimensions(input_bytes.as_slice()) {
            Ok(d) => d,
            Err(e) => {
                return Err(e);
            },
        };
        if probe_width == 0 || probe_height == 0 {
            return Err(DefenderError::Io("image dimensions are zero".to_owned()));
        }
        let max = self.policy.max_pixels;
        proof {
            vstd::arithmetic::mul::lemma_mul_upper_bound(
                probe_width as int,
                u32::MAX as int,
                probe_height as int,
                u32::MAX as int,
            );
        }
        let prechecked: u64 = (probe_width as u64) * (probe_height as u64);
        if prechecked > max {
            let mut m = "image pixel count exceeds max_pixels: ".to_owned();
            crate::text::push_decimal(&mut m, prechecked);
            m.append(" > ");
            crate::text::push_decimal(&mut m, max);
            return Err(DefenderError::Io(m));
        }
        let mut detail = "image probe succeeded width=".to_owned();
        crate::text::push_decimal(&mut detail, probe_width as u64);
        detail.append(" height=");
        crate::text::push_decimal(&mut detail, probe_height as u64);
        crate::types::push_stage_t(
            &mut stages,
            PipelineStageReport { stage: PipelineStage::ImageProbe, status: PipelineStageStatus::Success, detail },
        );
        let ghost input_view = input_bytes@;
        let (image, decoded_width, decoded_height) = match decode_image(input_bytes) {
            Ok(v) => v,
            Err(e) => {
                return Err(e);
            },
        };
        if decoded_width == 0 || decoded_height == 0 {
            return Err(DefenderError::Io("decoded image dimensions are zero".to_owned()));
        }
        proof {
            vstd::arithmetic::mul::lemma_mul_upper_bound(
                decoded_width as int,
                u32::MAX as int,
                decoded_height as int,
                u32::MAX as int,
            );
        }
        let decoded: u64 = (decoded_width as u64) * (decoded_height as u64);
        if decoded > max {
            let mut m = "decoded image pixel count exceeds max_pixels: ".to_owned();
            crate::text::push_decimal(&mut m, decoded);
            m.append(" > ");
            crate::text::push_decimal(&mut m, max);
            return Err(DefenderError::Io(m));
        }
        if decoded != prechecked {
            if (decoded as u128) > 2 * (prechecked as u128) {
                let mut m = "decoded pixel count ".to_owned();
                crate::text::push_decimal(&mut m, decoded);
                m.append(" exceeds 2× probed ");
                crate::text::push_decimal(&mut m, prechecked);
                m.append(": likely decompression bomb");
                return Err(DefenderError::Io(m));
            }
            let mut m = "Image dimensions mismatch between probe and decode: probe_pixels=".to_owned();
            crate::text::push_decimal(&mut m, prechecked);
            m.append(", decode_pixels=");
            crate::text::push_decimal(&mut m, decoded);
            crate::types::push_alert_t(
                &mut alerts,
                DefenseAlert { code: "image_probe_decode_mismatch".to_owned(), message: m, severity: AlertSeverity::Warning },
            );
        }
        let ghost before = alert_triples(alerts@);
        let output = match encode_image(&image, self.policy.output_format) {
            Ok(o) => o,
            Err(e) => {
                return Err(e);
            },
        };
        let mime = format_mime_exec(self.policy.output_format);
        let mut m = crate::text::concat2("Image rebuilt as ", mime);
        m.append(" from decoded pixels (");
        crate::text::push_decimal(&mut m, decoded_width as u64);
        m.append("×");
        crate::text::push_decimal(&mut m, decoded_height as u64);
        m.append("). All EXIF, ICC, XMP, and comment metadata was discarded.");
        crate::types::push_alert_t(
            &mut alerts,
            DefenseAlert { code: "image_metadata_stripped".to_owned(), message: m, severity: AlertSeverity::Info },
        );
        proof {
            assert(stage_triples(stages@) =~= seq![stage_triples(stages@)[0]]);
            if decoded == prechecked {
                assert(before =~= Seq::<(Seq<char>, Seq<char>, AlertSeverity)>::empty());
            }
        }
        Ok(HandlerResult { mime: mime.to_owned(), output_bytes: output, alerts, stages })
    }
}

} // verus!
