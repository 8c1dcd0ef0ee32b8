use fluxara_avc::error::ToolError;
use fluxara_avc::video::{build_video_filters, enhance_video, vhs_rescue, DenoiseType,
    VideoEnhanceOptions};

#[test]
fn default_video_chain_is_exact() {
    let filters = build_video_filters(&VideoEnhanceOptions::default());
    assert_eq!(
        filters,
        vec![
            "bwdif=mode=send_field:parity=auto:deint=all".to_string(),
            "hqdn3d=4:3:6:4.5".to_string(),
            "unsharp=5:5:0.8:3:3:0.4".to_string(),
            "eq=brightness=0.02:saturation=1.1".to_string(),
        ]
    );
}

#[test]
fn deinterlace_and_aspect_only() {
    let opts = VideoEnhanceOptions {
        deinterlace: true,
        stabilize: false,
        denoise: DenoiseType::Off,
        sharpen: false,
        color_adjust: false,
        scale_width: None,
        scale_height: None,
        aspect_ratio: Some("4:3".to_string()),
    };
    let filters = build_video_filters(&opts);
    assert_eq!(
        filters,
        vec![
            "bwdif=mode=send_field:parity=auto:deint=all".to_string(),
            "setdar=4:3".to_string(),
        ]
    );
    assert!(!filters.iter().any(|f| f.starts_with("scale=")));
}

#[test]
fn scale_needs_both_dimensions() {
    let mut opts = VideoEnhanceOptions::default();
    opts.scale_width = Some(1440);
    opts.scale_height = None;
    assert!(!build_video_filters(&opts).iter().any(|f| f.starts_with("scale=")));

    opts.scale_height = Some(1080);
    let filters = build_video_filters(&opts);
    assert!(filters.iter().any(|f| f == "scale=1440:1080:flags=lanczos"));
}

#[test]
fn nlmeans_variant_is_selectable() {
    let mut opts = VideoEnhanceOptions::default();
    opts.denoise = DenoiseType::Nlmeans;
    let filters = build_video_filters(&opts);
    assert!(filters.iter().any(|f| f == "nlmeans=s=3.0"));
    assert!(!filters.iter().any(|f| f.starts_with("hqdn3d")));
}

#[test]
fn enhance_video_plans_expected_args() {
    let opts = VideoEnhanceOptions::default();
    match enhance_video("in.avi", "out.mp4", &opts) {
        Ok(args) => {
            let chain = build_video_filters(&opts).join(",");
            assert_eq!(
                args,
                vec![
                    "-i".to_string(),
                    "in.avi".to_string(),
                    "-vf".to_string(),
                    chain,
                    "-c:v".to_string(),
                    "libx264".to_string(),
                    "-preset".to_string(),
                    "medium".to_string(),
                    "-crf".to_string(),
                    "18".to_string(),
                    "-c:a".to_string(),
                    "copy".to_string(),
                    "-y".to_string(),
                    "out.mp4".to_string(),
                ]
            );
        }
        Err(e) => assert!(matches!(e, ToolError::ToolMissing)),
    }
}

#[test]
fn vhs_rescue_plans_both_chains() {
    match vhs_rescue("tape.avi", "restored.mp4", Some(50)) {
        Ok(args) => {
            assert_eq!(args[0], "-i");
            assert_eq!(args[1], "tape.avi");
            assert_eq!(args[2], "-vf");
            assert!(args[3].starts_with("bwdif"));
            assert!(args[3].contains("deshake"));
            assert!(args[3].ends_with("setdar=4:3"));
            assert_eq!(args[4], "-af");
            assert!(args[5].contains("highpass=f=80"));
            assert!(args[5].contains("lowpass=f=15000"));
            assert!(args[5].contains("equalizer=f=50"));
            assert_eq!(
                &args[6..],
                &[
                    "-c:v", "libx264", "-preset", "slow", "-crf", "18", "-c:a", "aac", "-b:a",
                    "192k", "-y", "restored.mp4",
                ]
            );
        }
        Err(e) => assert!(matches!(e, ToolError::ToolMissing)),
    }
}

#[test]
fn vhs_rescue_without_notch_omits_equalizer() {
    match vhs_rescue("tape.avi", "restored.mp4", None) {
        Ok(args) => {
            assert!(!args[5].contains("equalizer"));
        }
        Err(e) => assert!(matches!(e, ToolError::ToolMissing)),
    }
}
