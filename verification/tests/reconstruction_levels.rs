use mdo_cdr::handlers::audio::{AudioHandler, TranscodePreflight};
use mdo_cdr::handlers::video::VideoHandler;
use mdo_cdr::handlers::{HandlerResult, MediaRebuildStep, TranscodeRun};
use mdo_cdr::policy::{AudioMode, AudioPolicy, VideoMode, VideoPolicy};
use mdo_cdr::{DefenderError, DefenseContext};

fn wav_sample() -> Vec<u8> {
    let samples: Vec<i16> = (0..1600)
        .map(|index| {
            ((index as f64 * 440.0 * std::f64::consts::TAU / 8000.0).sin() * 1000.0) as i16
        })
        .collect();
    let data_size = (samples.len() * 2) as u32;
    let mut bytes = Vec::new();
    bytes.extend_from_slice(b"RIFF");
    bytes.extend_from_slice(&(36 + data_size).to_le_bytes());
    bytes.extend_from_slice(b"WAVEfmt ");
    bytes.extend_from_slice(&16_u32.to_le_bytes());
    bytes.extend_from_slice(&1_u16.to_le_bytes());
    bytes.extend_from_slice(&1_u16.to_le_bytes());
    bytes.extend_from_slice(&8000_u32.to_le_bytes());
    bytes.extend_from_slice(&16000_u32.to_le_bytes());
    bytes.extend_from_slice(&2_u16.to_le_bytes());
    bytes.extend_from_slice(&16_u16.to_le_bytes());
    bytes.extend_from_slice(b"data");
    bytes.extend_from_slice(&data_size.to_le_bytes());
    for sample in samples {
        bytes.extend_from_slice(&sample.to_le_bytes());
    }
    bytes
}

fn mp4_sample() -> Vec<u8> {
    hex::decode(
        [
        "000000206674797069736f6d0000020069736f6d69736f32617663316d7034310000000866726565000002d96d6461740000",
        "02ae0605ffffaadc45e9bde6d948b7962cd820d923eeef78323634202d20636f726520313635207233323233203034383063",
        "6230202d20482e3236342f4d5045472d342041564320636f646563202d20436f70796c65667420323030332d32303235202d",
        "20687474703a2f2f7777772e766964656f6c616e2e6f72672f783236342e68746d6c202d206f7074696f6e733a2063616261",
        "633d31207265663d33206465626c6f636b3d313a303a3020616e616c7973653d3078333a3078313133206d653d6865782073",
        "75626d653d37207073793d31207073795f72643d312e30303a302e3030206d697865645f7265663d31206d655f72616e6765",
        "3d3136206368726f6d615f6d653d31207472656c6c69733d31203878386463743d312063716d3d3020646561647a6f6e653d",
        "32312c313120666173745f70736b69703d31206368726f6d615f71705f6f66667365743d2d3220746872656164733d31206c",
        "6f6f6b61686561645f746872656164733d3120736c696365645f746872656164733d30206e723d3020646563696d6174653d",
        "3120696e7465726c616365643d3020626c757261795f636f6d7061743d3020636f6e73747261696e65645f696e7472613d30",
        "20626672616d65733d3320625f707972616d69643d3220625f61646170743d3120625f626961733d30206469726563743d31",
        "20776569676874623d31206f70656e5f676f703d3020776569676874703d32206b6579696e743d323530206b6579696e745f",
        "6d696e3d3235207363656e656375743d343020696e7472615f726566726573683d302072635f6c6f6f6b61686561643d3430",
        "2072633d637266206d62747265653d31206372663d32332e302071636f6d703d302e36302071706d696e3d302071706d6178",
        "3d3639207170737465703d342069705f726174696f3d312e34302061713d313a312e303000800000000f658884002ffffef6",
        "aefccb2b747f8100000008419a216c42bffec0000003306d6f6f760000006c6d766864000000000000000000000000000003",
        "e800000050000100000100000000000000000000000001000000000000000000000000000000010000000000000000000000",
        "00000040000000000000000000000000000000000000000000000000000000000000020000025b7472616b0000005c746b68",
        "6400000003000000000000000000000001000000000000005000000000000000000000000000000000000100000000000000",
        "000000000000000001000000000000000000000000000040000000001000000010000000000024656474730000001c656c73",
        "740000000000000001000000500000000000010000000001d36d646961000000206d64686400000000000000000000000000",
        "0032000000040055c400000000002d68646c72000000000000000076696465000000000000000000000000566964656f4861",
        "6e646c6572000000017e6d696e6600000014766d68640000000100000000000000000000002464696e660000001c64726566",
        "00000000000000010000000c75726c20000000010000013e7374626c000000be737473640000000000000001000000ae6176",
        "6331000000000000000100000000000000000000000000000000001000100048000000480000000000000001144c61766336",
        "332e312e313032206c69627832363400000000000000000000000018ffff00000034617663430164000affe100176764000a",
        "acd95ec044000003000400000300c83c48965801000668ebe3cb22c0fdf8f800000000107061737000000001000000010000",
        "00146274727400000000000119a4000000000000001873747473000000000000000100000002000002000000001473747373",
        "0000000000000001000000010000001c7374736300000000000000010000000100000002000000010000001c7374737a0000",
        "00000000000000000002000002c50000000c000000147374636f000000000000000100000030000000617564746100000059",
        "6d657461000000000000002168646c7200000000000000006d6469726170706c0000000000000000000000002c696c737400",
        "000024a9746f6f0000001c6461746100000001000000004c61766636332e312e313032",
        ]
        .concat(),
    )
    .expect("embedded MP4 fixture is valid hex")
}

fn missing_binary() -> String {
    "/nonexistent/missing-ffmpeg".to_owned()
}

fn not_found() -> String {
    "No such file or directory (os error 2)".to_owned()
}

/// The ffmpeg path of the audio handler when neither ffmpeg nor ffprobe can
/// be started: the probe fails and the transcode cannot run.
fn audio_step_without_runtime(handler: &AudioHandler, step: MediaRebuildStep) -> Result<HandlerResult, DefenderError> {
    match step {
        MediaRebuildStep::Done(result) => result,
        MediaRebuildStep::CheckTranscoder { input_bytes } => match handler.after_ffmpeg_check(input_bytes, false) {
            MediaRebuildStep::Done(result) => result,
            _ => panic!("without ffmpeg the check ends the rebuild"),
        },
        MediaRebuildStep::Transcode { input_bytes, strict } => {
            let plan = handler.ffmpeg_plan(&input_bytes)?;
            let probe = Err(DefenderError::Audio(format!("ffprobe execution failed: {}", not_found())));
            match handler.preflight(true, probe, &plan)? {
                TranscodePreflight::Finished(result) => Ok(result),
                TranscodePreflight::Proceed { alerts, stages } => handler.finish_transcode(
                    strict,
                    TranscodeRun::ExecFailed { error: not_found() },
                    input_bytes,
                    &plan,
                    alerts,
                    stages,
                ),
            }
        },
    }
}

/// The same for the video handler.
fn video_step_without_runtime(handler: &VideoHandler, step: MediaRebuildStep) -> Result<HandlerResult, DefenderError> {
    match step {
        MediaRebuildStep::Done(result) => result,
        MediaRebuildStep::CheckTranscoder { .. } => panic!("the video handler does not check for ffmpeg first"),
        MediaRebuildStep::Transcode { input_bytes, strict } => {
            handler.ffmpeg_start(&input_bytes)?;
            let probe = Err(DefenderError::Video(format!("ffprobe execution failed: {}", not_found())));
            match handler.preflight(false, probe)? {
                TranscodePreflight::Finished(result) => Ok(result),
                TranscodePreflight::Proceed { alerts, stages } => handler.finish_transcode(
                    strict,
                    TranscodeRun::ExecFailed { error: not_found() },
                    input_bytes,
                    alerts,
                    stages,
                ),
            }
        },
    }
}

#[test]
fn required_audio_transcode_never_falls_back_to_native_wav() {
    let input = wav_sample();
    let handler = AudioHandler::new(AudioPolicy::default());
    let native = audio_step_without_runtime(&handler, handler.rebuild(input.clone(), DefenseContext::default()))
        .expect("valid WAV has a native structural route");
    assert!(!native.output_bytes.is_empty());
    let policy = AudioPolicy {
        mode: AudioMode::RequireFfmpeg,
        ffmpeg_bin: missing_binary(),
        ffprobe_bin: missing_binary(),
        ..AudioPolicy::default()
    };
    let required = AudioHandler::new(policy);
    assert!(audio_step_without_runtime(&required, required.rebuild(input, DefenseContext::default())).is_err());
}

#[test]
fn required_video_transcode_never_falls_back_to_native_mp4() {
    let input = mp4_sample();
    let handler = VideoHandler::new(VideoPolicy::default());
    let native = video_step_without_runtime(&handler, handler.rebuild(input.clone(), DefenseContext::default()))
        .expect("valid MP4 has a native structural route");
    assert!(!native.output_bytes.is_empty());
    let policy = VideoPolicy {
        mode: VideoMode::RequireFfmpeg,
        ffmpeg_bin: missing_binary(),
        ffprobe_bin: missing_binary(),
        ..VideoPolicy::default()
    };
    let required = VideoHandler::new(policy);
    assert!(video_step_without_runtime(&required, required.rebuild(input, DefenseContext::default())).is_err());
}
