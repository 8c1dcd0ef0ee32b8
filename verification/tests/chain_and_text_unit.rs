use fluxara_avc::audio::{build_audio_filters, AudioEnhanceOptions};
use fluxara_avc::ffmpeg::{build_complex_filtergraph, build_filtergraph};
use fluxara_avc::strnum::{tenths_to_string, u32_to_string};
use fluxara_avc::strutil::{contains_sub, find_char, find_sub, join_str, split_str, str_eq,
    trim_str};

#[test]
fn filtergraph_joins_with_commas() {
    let filters = vec!["a=1".to_string(), "b=2".to_string(), "c=3".to_string()];
    assert_eq!(build_filtergraph(&filters), "a=1,b=2,c=3");
}

#[test]
fn filtergraph_of_one_filter_has_no_comma() {
    let filters = vec!["loudnorm".to_string()];
    assert_eq!(build_filtergraph(&filters), "loudnorm");
}

#[test]
fn complex_filtergraph_handles_empty_chains() {
    let vf = vec!["bwdif".to_string()];
    let af: Vec<String> = Vec::new();
    let (v, a) = build_complex_filtergraph(&vf, &af);
    assert_eq!(v, "bwdif");
    assert_eq!(a, "");
}

#[test]
fn join_then_split_reproduces_chain() {
    let chain = build_audio_filters(&AudioEnhanceOptions::default());
    let joined = build_filtergraph(&chain);
    let split = split_str(&joined, ',');
    assert_eq!(split, chain);
}

#[test]
fn split_keeps_empty_pieces() {
    assert_eq!(split_str("a,,b", ','), vec!["a", "", "b"]);
    assert_eq!(split_str("", ','), vec![""]);
    assert_eq!(split_str(",", ','), vec!["", ""]);
}

#[test]
fn join_str_uses_separator_between_pieces() {
    let pieces = vec!["x".to_string(), "".to_string(), "z".to_string()];
    assert_eq!(join_str(&pieces, ","), "x,,z");
    let none: Vec<String> = Vec::new();
    assert_eq!(join_str(&none, ","), "");
}

#[test]
fn string_search_and_trim() {
    assert!(str_eq("abc", "abc"));
    assert!(!str_eq("abc", "abd"));
    assert_eq!(find_char("hello", 'l'), Some(2));
    assert_eq!(find_char("hello", 'z'), None);
    assert_eq!(find_sub("Interval: Discrete 0.033s", "Discrete"), Some(10));
    assert_eq!(find_sub("abc", "zz"), None);
    assert!(contains_sub("Pixel Format: 'YUYV'", "Pixel Format"));
    assert!(!contains_sub("nothing here", "Pixel Format"));
    assert_eq!(trim_str("  padded\t\r\n"), "padded");
    assert_eq!(trim_str("bare"), "bare");
}

#[test]
fn decimal_rendering_is_exact() {
    assert_eq!(u32_to_string(0), "0");
    assert_eq!(u32_to_string(7), "7");
    assert_eq!(u32_to_string(12345), "12345");
    assert_eq!(u32_to_string(u32::MAX), "4294967295");
}

#[test]
fn tenths_rendering_matches_threshold_notation() {
    assert_eq!(tenths_to_string(-500), "-50");
    assert_eq!(tenths_to_string(-425), "-42.5");
    assert_eq!(tenths_to_string(0), "0");
    assert_eq!(tenths_to_string(17), "1.7");
    assert_eq!(tenths_to_string(-7), "-0.7");
}
