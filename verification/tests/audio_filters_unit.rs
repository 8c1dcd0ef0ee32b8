use fluxara_avc::audio::{build_audio_filters, enhance_audio, enhance_audio_only,
    AudioEnhanceOptions};
use fluxara_avc::error::ToolError;

#[test]
fn should_build_filters_with_defaults() {
    let opts = AudioEnhanceOptions::default();
    let filters = build_audio_filters(&opts);

    // Defaults include: highpass (80), afftdn, agate with -50dB, acompressor, loudnorm
    assert!(filters.iter().any(|f| f.starts_with("highpass=f=80")));
    assert!(filters.iter().any(|f| f.starts_with("afftdn")));
    assert!(filters.iter().any(|f| f.contains("agate=threshold=-50")));
    assert!(filters.iter().any(|f| f.starts_with("acompressor")));
    assert!(filters.iter().any(|f| f.starts_with("loudnorm")));
}

#[test]
fn should_build_filters_respecting_all_options() {
    let opts = AudioEnhanceOptions {
        denoise: false,
        normalize: false,
        highpass_freq: Some(60),
        lowpass_freq: Some(12000),
        notch_freq: Some(50),
        compressor: false,
        gate: true,
        gate_threshold_tenths: -425,
    };

    let filters = build_audio_filters(&opts);

    // Included
    assert!(filters.iter().any(|f| f == "highpass=f=60"));
    assert!(filters.iter().any(|f| f == "lowpass=f=12000"));
    assert!(filters
        .iter()
        .any(|f| f == "equalizer=f=50:width_type=h:width=10:g=-20"));
    assert!(filters
        .iter()
        .any(|f| f == "agate=threshold=-42.5dB:ratio=3:attack=20:release=250"));

    // Excluded
    assert!(!filters.iter().any(|f| f.starts_with("afftdn")));
    assert!(!filters.iter().any(|f| f.starts_with("acompressor")));
    assert!(!filters.iter().any(|f| f.starts_with("loudnorm")));
}

#[test]
fn should_build_filters_without_high_or_lowpass_when_none() {
    let opts = AudioEnhanceOptions {
        denoise: true,
        normalize: true,
        highpass_freq: None,
        lowpass_freq: None,
        notch_freq: None,
        compressor: true,
        gate: false,
        gate_threshold_tenths: -500,
    };

    let filters = build_audio_filters(&opts);
    assert!(!filters.iter().any(|f| f.starts_with("highpass")));
    assert!(!filters.iter().any(|f| f.starts_with("lowpass")));
    assert!(!filters.iter().any(|f| f.starts_with("equalizer")));
    assert!(filters.iter().any(|f| f.starts_with("afftdn")));
    assert!(filters.iter().any(|f| f.starts_with("acompressor")));
    assert!(filters.iter().any(|f| f.starts_with("loudnorm")));
}

#[test]
fn default_audio_chain_is_exact() {
    let filters = build_audio_filters(&AudioEnhanceOptions::default());
    assert_eq!(
        filters,
        vec![
            "highpass=f=80".to_string(),
            "afftdn=nf=-25".to_string(),
            "agate=threshold=-50dB:ratio=3:attack=20:release=250".to_string(),
            "acompressor=threshold=-18dB:ratio=3:attack=20:release=250:makeup=2dB".to_string(),
            "loudnorm=I=-16:TP=-1.5:LRA=11".to_string(),
        ]
    );
}

#[test]
fn configured_audio_chain_is_exact() {
    let opts = AudioEnhanceOptions {
        denoise: false,
        normalize: false,
        highpass_freq: Some(60),
        lowpass_freq: Some(12000),
        notch_freq: Some(50),
        compressor: false,
        gate: true,
        gate_threshold_tenths: -425,
    };
    let filters = build_audio_filters(&opts);
    assert_eq!(
        filters,
        vec![
            "highpass=f=60".to_string(),
            "lowpass=f=12000".to_string(),
            "equalizer=f=50:width_type=h:width=10:g=-20".to_string(),
            "agate=threshold=-42.5dB:ratio=3:attack=20:release=250".to_string(),
        ]
    );
}

#[test]
fn all_options_off_gives_empty_chain() {
    let opts = AudioEnhanceOptions {
        denoise: false,
        normalize: false,
        highpass_freq: None,
        lowpass_freq: None,
        notch_freq: None,
        compressor: false,
        gate: false,
        gate_threshold_tenths: -500,
    };
    assert!(build_audio_filters(&opts).is_empty());
}

#[test]
fn toggling_gate_off_and_on_restores_chain() {
    let opts = AudioEnhanceOptions::default();
    let original = build_audio_filters(&opts);

    let mut off = opts.clone();
    off.gate = false;
    let without = build_audio_filters(&off);
    assert_eq!(without.len(), original.len() - 1);
    assert!(!without.iter().any(|f| f.starts_with("agate")));
    let kept: Vec<String> = original
        .iter()
        .filter(|f| !f.starts_with("agate"))
        .cloned()
        .collect();
    assert_eq!(without, kept);

    let mut back = off.clone();
    back.gate = true;
    assert_eq!(build_audio_filters(&back), original);
}

#[test]
fn enhance_audio_plans_expected_args() {
    let opts = AudioEnhanceOptions::default();
    match enhance_audio("in.mp4", "out.mp4", &opts) {
        Ok(args) => {
            let chain = build_audio_filters(&opts).join(",");
            assert_eq!(
                args,
                vec![
                    "-i".to_string(),
                    "in.mp4".to_string(),
                    "-af".to_string(),
                    chain,
                    "-c:v".to_string(),
                    "copy".to_string(),
                    "-c:a".to_string(),
                    "aac".to_string(),
                    "-b:a".to_string(),
                    "192k".to_string(),
                    "-y".to_string(),
                    "out.mp4".to_string(),
                ]
            );
        }
        Err(e) => assert!(matches!(e, ToolError::ToolMissing)),
    }
}

#[test]
fn enhance_audio_only_plans_lossless_args() {
    let opts = AudioEnhanceOptions {
        denoise: true,
        normalize: true,
        highpass_freq: Some(100),
        lowpass_freq: Some(10000),
        notch_freq: None,
        compressor: true,
        gate: true,
        gate_threshold_tenths: -400,
    };
    match enhance_audio_only("in.wav", "out.flac", &opts) {
        Ok(args) => {
            assert_eq!(args[0], "-i");
            assert_eq!(args[1], "in.wav");
            assert_eq!(args[2], "-af");
            assert!(args[3].contains("highpass=f=100"));
            assert!(args[3].contains("agate=threshold=-40dB"));
            assert_eq!(&args[4..], &["-c:a", "flac", "-y", "out.flac"]);
        }
        Err(e) => assert!(matches!(e, ToolError::ToolMissing)),
    }
}
