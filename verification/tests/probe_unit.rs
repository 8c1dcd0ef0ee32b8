use fluxara_avc::capture::{parse_arecord_device_list, parse_diag_device_list,
    parse_v4l2_device_list, select_audio_devices, select_video_devices};
use fluxara_avc::probe::{default_device_caps, parse_fps_line, parse_size_line, probe_device_caps,
    scan_first_fps, scan_first_size, scan_pixel_formats};

const LISTING: &str = "ioctl: VIDIOC_ENUM_FMT\n\tPixel Format: 'YUYV'\n\t\tSize: Discrete 640x480\n\t\t\tInterval: Discrete 0.033s (30.000 fps)\n\tPixel Format: 'MJPG'\n\t\tSize: Discrete 1280x720\n";

#[test]
fn probe_without_listing_returns_default_caps() {
    let caps = probe_device_caps("/dev/video0", None);
    assert_eq!(caps.width, 720);
    assert_eq!(caps.height, 480);
    assert_eq!(caps.fps, 30);
    assert_eq!(caps.formats, vec!["yuyv422".to_string()]);
    assert!(!caps.formats.is_empty());
}

#[test]
fn probe_with_empty_listing_returns_default_caps() {
    let text = "nothing useful\nat all\n".to_string();
    let caps = probe_device_caps("/dev/video0", Some(&text));
    let d = default_device_caps();
    assert_eq!(caps.width, d.width);
    assert_eq!(caps.height, d.height);
    assert_eq!(caps.fps, d.fps);
    assert_eq!(caps.formats, d.formats);
}

#[test]
fn probe_reads_first_size_and_rate_and_all_formats() {
    let text = LISTING.to_string();
    let caps = probe_device_caps("/dev/video0", Some(&text));
    assert_eq!(caps.width, 640);
    assert_eq!(caps.height, 480);
    assert_eq!(caps.fps, 30);
    assert_eq!(caps.formats, vec!["YUYV".to_string(), "MJPG".to_string()]);
}

#[test]
fn listing_scans_find_expected_tokens() {
    assert_eq!(scan_first_size(LISTING), Some((640, 480)));
    assert_eq!(scan_first_fps(LISTING), Some(30));
    assert_eq!(
        scan_pixel_formats(LISTING),
        vec!["YUYV".to_string(), "MJPG".to_string()]
    );
}

#[test]
fn malformed_lines_are_skipped() {
    assert_eq!(parse_size_line("Size: Discrete x480"), None);
    assert_eq!(parse_size_line("Size: Discrete 640x"), None);
    assert_eq!(parse_size_line("Size: Discrete 0x480"), None);
    assert_eq!(parse_size_line("no marker here"), None);
    assert_eq!(parse_size_line("Size: Discrete 720x576"), Some((720, 576)));
    assert_eq!(parse_fps_line("Interval: Discrete 0.040s"), None);
    assert_eq!(parse_fps_line("Interval: Discrete 0.040s (25.000 fps)"), Some(25));
    assert_eq!(scan_first_fps("Interval: Discrete (0.000 fps)"), None);
}

#[test]
fn v4l2_device_lines_are_trimmed_and_filtered() {
    let text = "HD Webcam (usb-0000:00:14.0-1):\n\t/dev/video0\n\t/dev/video1\n\nother\n";
    assert_eq!(
        parse_v4l2_device_list(text),
        vec!["/dev/video0".to_string(), "/dev/video1".to_string()]
    );
}

#[test]
fn diagnostic_device_tokens_are_found() {
    let text = "[video4linux2 @ 0x55] /dev/video0 : some device\nno device here\n";
    assert_eq!(parse_diag_device_list(text), vec!["/dev/video0".to_string()]);
}

#[test]
fn video_device_selection_is_tiered() {
    let primary = "\t/dev/video2\n".to_string();
    let secondary = "[x] /dev/video9 : y\n".to_string();
    assert_eq!(
        select_video_devices(Some(&primary), Some(&secondary), true),
        vec!["/dev/video2".to_string()]
    );
    let empty = "nothing\n".to_string();
    assert_eq!(
        select_video_devices(Some(&empty), Some(&secondary), false),
        vec!["/dev/video9".to_string()]
    );
    assert_eq!(
        select_video_devices(Some(&empty), None, true),
        vec!["/dev/video0".to_string()]
    );
    let none: Vec<String> = Vec::new();
    assert_eq!(select_video_devices(None, None, false), none);
}

#[test]
fn audio_device_lines_become_hw_names() {
    let text =
        "card 1: Device [USB Audio Device], device 0: USB Audio [USB Audio]\njunk line\n";
    assert_eq!(parse_arecord_device_list(text), vec!["hw:1,0".to_string()]);
}

#[test]
fn audio_device_selection_falls_back_to_default() {
    assert_eq!(select_audio_devices(None), vec!["hw:0,0".to_string()]);
    let empty = "no cards\n".to_string();
    assert_eq!(select_audio_devices(Some(&empty)), vec!["hw:0,0".to_string()]);
    let listing = "card 2: X, device 1: Y\n".to_string();
    assert_eq!(select_audio_devices(Some(&listing)), vec!["hw:2,1".to_string()]);
}
