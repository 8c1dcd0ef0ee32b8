use fluxara_avc::capture::{capture, CaptureFormat, CaptureOptions};
use fluxara_avc::error::ToolError;

#[test]
fn default_capture_args_are_exact() {
    let opts = CaptureOptions::default();
    match capture("cap.mp4", &opts) {
        Ok(args) => assert_eq!(
            args,
            vec![
                "-f",
                "v4l2",
                "-thread_queue_size",
                "512",
                "-video_size",
                "720x480",
                "-framerate",
                "30",
                "-i",
                "/dev/video0",
                "-f",
                "alsa",
                "-thread_queue_size",
                "512",
                "-i",
                "hw:1,0",
                "-vf",
                "bwdif,hqdn3d=4:3:6:4.5",
                "-c:v",
                "libx264",
                "-preset",
                "medium",
                "-crf",
                "23",
                "-c:a",
                "aac",
                "-b:a",
                "192k",
                "-f",
                "mp4",
                "-y",
                "cap.mp4",
            ]
        ),
        Err(e) => assert!(matches!(e, ToolError::ToolMissing)),
    }
}

#[test]
fn archival_mkv_capture_uses_pcm_and_intra_only() {
    let mut opts = CaptureOptions::default();
    opts.archival_mode = true;
    opts.format = CaptureFormat::Mkv;
    opts.denoise = None;
    opts.deinterlace = false;
    opts.width = None;
    opts.height = None;
    opts.fps = None;
    match capture("cap.mkv", &opts) {
        Ok(args) => assert_eq!(
            args,
            vec![
                "-f",
                "v4l2",
                "-thread_queue_size",
                "512",
                "-i",
                "/dev/video0",
                "-f",
                "alsa",
                "-thread_queue_size",
                "512",
                "-i",
                "hw:1,0",
                "-c:v",
                "libx264",
                "-preset",
                "ultrafast",
                "-crf",
                "18",
                "-tune",
                "grain",
                "-g",
                "1",
                "-c:a",
                "pcm_s16le",
                "-f",
                "matroska",
                "-y",
                "cap.mkv",
            ]
        ),
        Err(e) => assert!(matches!(e, ToolError::ToolMissing)),
    }
}

#[test]
fn explicit_bitrate_beats_fixed_quality() {
    let mut opts = CaptureOptions::default();
    opts.video_bitrate = Some("5M".to_string());
    match capture("cap.mp4", &opts) {
        Ok(args) => {
            assert!(args.iter().any(|a| a == "-b:v"));
            assert!(args.iter().any(|a| a == "5M"));
            assert!(!args.windows(2).any(|w| w[0] == "-crf" && w[1] == "23"));
        }
        Err(e) => assert!(matches!(e, ToolError::ToolMissing)),
    }
}

#[test]
fn unknown_denoiser_name_adds_no_stage() {
    let mut opts = CaptureOptions::default();
    opts.denoise = Some("mystery".to_string());
    opts.deinterlace = false;
    opts.stabilize = false;
    match capture("cap.mp4", &opts) {
        Ok(args) => assert!(!args.iter().any(|a| a == "-vf")),
        Err(e) => assert!(matches!(e, ToolError::ToolMissing)),
    }
}
