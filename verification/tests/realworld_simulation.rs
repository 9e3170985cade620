use std::time::Instant;

use mdo_cdr::pipeline::{Preparation, RebuildStart};
use mdo_cdr::policy::DefensePolicy;
use mdo_cdr::validation::{read_candidate, OutputRead};
use mdo_cdr::{DefendResult, DefenderError, DefenseContext, DefenseVerdict, FileDefender, FileKind};

fn entropy_label(bytes: &[u8]) -> String {
    let mut frequencies = [0usize; 256];
    for byte in bytes {
        frequencies[*byte as usize] += 1;
    }
    let length = bytes.len() as f64;
    let mut entropy = 0.0f64;
    for frequency in frequencies {
        if frequency > 0 {
            let probability = frequency as f64 / length;
            entropy -= probability * probability.log2();
        }
    }
    format!("{entropy:.3}")
}

/// One run of the pipeline for files that need no external runtime.
fn defend(
    defender: &FileDefender,
    input: Vec<u8>,
    file_name: Option<&str>,
    context: DefenseContext,
) -> Result<DefendResult, DefenderError> {
    let started = Instant::now();
    let original_size = input.len() as u64;
    let prepared = match defender.begin_defense(&input, file_name, &context, &started)? {
        Preparation::Blocked(result) => return Ok(result),
        Preparation::Ready(prepared) => prepared,
    };
    let mut rebuild_context = context.clone();
    rebuild_context.started_at = Some(Instant::now());
    rebuild_context.timeout_ms = defender.policy().max_handler_duration_ms;
    let entropy = entropy_label(&input);
    let kind = prepared.file_kind;
    let rebuilt = match defender.start_rebuild(kind, input.clone(), rebuild_context.clone(), &entropy) {
        RebuildStart::Done(rebuilt) => rebuilt,
        _ => panic!("this run needs an external media runtime"),
    };
    let artifact = defender.recover_rebuild(kind, rebuilt, input, rebuild_context.clone(), &entropy)?;
    let reviewed = defender.review_candidate(prepared, file_name, artifact, original_size)?;
    let read = match read_candidate(reviewed.file_kind, &reviewed.output_bytes, defender.policy(), &rebuild_context) {
        OutputRead::Finished(read) => read,
        _ => panic!("this run needs an external media reader"),
    };
    Ok(defender.finish_defense(reviewed, read, original_size, &context, &started))
}

fn defender() -> FileDefender {
    FileDefender::new(DefensePolicy::default())
}

#[test]
fn realworld_jpeg_rebuild_strips_exif() {
    let d = defender();
    let img = image::RgbImage::from_fn(4, 4, |x, y| image::Rgb([(x * 60) as u8, (y * 60) as u8, 128]));
    let mut jpeg_buf = Vec::new();
    img.write_to(&mut std::io::Cursor::new(&mut jpeg_buf), image::ImageFormat::Jpeg).unwrap();
    let result = defend(&d, jpeg_buf, Some("photo.jpg"), DefenseContext::default()).expect("JPEG should succeed");
    assert_eq!(result.verdict, DefenseVerdict::Clean);
    assert_eq!(result.artifact.file_kind, FileKind::Image);
    assert!(!result.artifact.output_bytes.is_empty());
    assert_eq!(&result.artifact.output_bytes[1..4], b"PNG");
    assert!(result.alerts.iter().any(|a| a.code == "image_metadata_stripped"));
}

#[test]
fn realworld_png_rebuild_preserves_pixels() {
    let d = defender();
    let img = image::RgbImage::from_fn(8, 8, |x, y| image::Rgb([((x + y) * 30) as u8, 100, 200]));
    let mut png_buf = Vec::new();
    img.write_to(&mut std::io::Cursor::new(&mut png_buf), image::ImageFormat::Png).unwrap();
    let result = defend(&d, png_buf.clone(), Some("chart.png"), DefenseContext::default()).expect("PNG should succeed");
    assert_eq!(result.verdict, DefenseVerdict::Clean);
    let rebuilt = image::load_from_memory(&result.artifact.output_bytes).unwrap();
    let original = image::load_from_memory(&png_buf).unwrap();
    assert_eq!(rebuilt.width(), original.width());
    assert_eq!(rebuilt.height(), original.height());
}

#[test]
fn realworld_gif_rebuild_preserves_frame_count() {
    let d = defender();
    let mut buf = Vec::new();
    {
        let mut enc = gif::Encoder::new(&mut buf, 4, 4, &[]).unwrap();
        enc.set_repeat(gif::Repeat::Infinite).unwrap();
        for i in 0..3u8 {
            let mut pixels = vec![i * 80; 4 * 4 * 4];
            let mut frame = gif::Frame::from_rgba_speed(4, 4, &mut pixels, 10);
            frame.delay = 20;
            enc.write_frame(&frame).unwrap();
        }
    }
    let result = defend(&d, buf, Some("sticker.gif"), DefenseContext::default()).expect("GIF should succeed");
    assert_eq!(result.verdict, DefenseVerdict::Clean);
    assert_eq!(result.artifact.file_kind, FileKind::Gif);
    assert!(result.alerts.iter().any(|a| a.code == "gif_metadata_stripped"));
    assert_eq!(&result.artifact.output_bytes[0..3], b"GIF");
}

#[test]
fn all_formats_produce_non_empty_output() {
    let d = defender();
    let img = image::RgbImage::from_pixel(1, 1, image::Rgb([128, 128, 128]));
    let mut jpeg = Vec::new();
    img.write_to(&mut std::io::Cursor::new(&mut jpeg), image::ImageFormat::Jpeg).unwrap();
    let cases: Vec<(&str, Vec<u8>)> = vec![("test.jpg", jpeg)];
    for (name, data) in cases {
        let result =
            defend(&d, data, Some(name), DefenseContext::default()).unwrap_or_else(|_| panic!("{name} should succeed"));
        assert!(!result.artifact.output_bytes.is_empty(), "{name}: output must not be empty");
        assert!(result.diagnostics.duration_ms < 10_000, "{name}: should complete in <10s");
    }
}
