use fluxara_avc::clean::{clean_file_args, cleaned_output_path};
use fluxara_avc::convert::{convert_file_args, file_stem_of};
use fluxara_avc::error::{classify_tool_outcome, ToolError};
use fluxara_avc::ffmpeg::convert_media;
use fluxara_avc::file_utils::{extension_of, filter_media_files, generate_default_output_path,
    is_audio_format, is_media_file, join_path};
use fluxara_avc::formats::list_formats;

#[test]
fn media_files_are_recognized_by_extension() {
    assert!(is_media_file("song.mp3"));
    assert!(is_media_file("clip.MP4"));
    assert!(is_media_file("dir/part.mkv"));
    assert!(is_media_file("a.b.webm"));
    assert!(!is_media_file("notes.txt"));
    assert!(!is_media_file("noextension"));
    assert!(!is_media_file(".hidden"));
    assert!(!is_media_file("dir.mp3/file"));
}

#[test]
fn audio_formats_are_recognized() {
    assert!(is_audio_format("mp3"));
    assert!(is_audio_format("FLAC"));
    assert!(is_audio_format("wav"));
    assert!(!is_audio_format("mp4"));
    assert!(!is_audio_format("mkv"));
    assert!(!is_audio_format(""));
}

#[test]
fn extension_and_stem_are_split_at_last_dot() {
    assert_eq!(extension_of("a/b/c.tar.gz"), Some("gz".to_string()));
    assert_eq!(extension_of("plain"), None);
    assert_eq!(extension_of(".bashrc"), None);
    assert_eq!(file_stem_of("a/b/c.tar.gz"), "c.tar");
    assert_eq!(file_stem_of("plain"), "plain");
    assert_eq!(file_stem_of(".bashrc"), ".bashrc");
}

#[test]
fn default_output_path_inserts_suffix() {
    assert_eq!(
        generate_default_output_path("dir/movie.mp4", "enhanced"),
        "dir/movie_enhanced.mp4"
    );
    assert_eq!(generate_default_output_path("movie.mp4", "clean"), "movie_clean.mp4");
    assert_eq!(generate_default_output_path("noext", "x"), "noext_output");
    assert_eq!(generate_default_output_path(".hidden", "x"), ".hidden_output");
}

#[test]
fn path_join_inserts_one_separator() {
    assert_eq!(join_path("out", "a.mp3"), "out/a.mp3");
    assert_eq!(join_path("out/", "a.mp3"), "out/a.mp3");
    assert_eq!(join_path("", "a.mp3"), "a.mp3");
}

#[test]
fn media_filter_keeps_order() {
    let paths = vec![
        "a.mp3".to_string(),
        "b.txt".to_string(),
        "c.mkv".to_string(),
        "d".to_string(),
    ];
    assert_eq!(
        filter_media_files(&paths),
        vec!["a.mp3".to_string(), "c.mkv".to_string()]
    );
}

#[test]
fn cleaned_path_marks_the_extension() {
    assert_eq!(cleaned_output_path("dir/a.mp4"), "dir/a.cleaned.mp4");
    assert_eq!(cleaned_output_path("a.mp4"), "a.cleaned.mp4");
    assert_eq!(cleaned_output_path("bare"), "bare.cleaned.");
}

#[test]
fn clean_args_follow_the_flags() {
    assert_eq!(
        clean_file_args("x.mp4", true, true),
        vec![
            "-i", "x.mp4", "-y", "-loglevel", "error", "-map_metadata", "-1", "-c:v", "copy",
            "-c:a", "copy", "x.cleaned.mp4",
        ]
    );
    assert_eq!(
        clean_file_args("x.mp4", false, false),
        vec!["-i", "x.mp4", "-y", "-loglevel", "error", "x.cleaned.mp4"]
    );
}

#[test]
fn convert_args_for_audio_target() {
    let r = convert_file_args("in/a.wav", "mp3", "out", "192k", None).unwrap();
    assert_eq!(
        r,
        vec!["-i", "in/a.wav", "-y", "-loglevel", "error", "-b:a", "192k", "out/a.mp3"]
    );
}

#[test]
fn convert_args_for_video_target_take_codec() {
    let codec = "libx264".to_string();
    let r = convert_file_args("clip.avi", "mp4", "", "2M", Some(&codec)).unwrap();
    assert_eq!(
        r,
        vec!["-i", "clip.avi", "-y", "-loglevel", "error", "-c:v", "libx264", "-b:a", "2M",
            "clip.mp4"]
    );
}

#[test]
fn convert_rejects_empty_file_name() {
    let r = convert_file_args("dir/", "mp3", "out", "192k", None);
    assert!(matches!(r, Err(ToolError::InvalidInput(_))));
}

#[test]
fn convert_media_plans_expected_args() {
    match convert_media("a.avi", "b.webm", "webm", "1M", "libvpx") {
        Ok(args) => assert_eq!(
            args,
            vec!["-i", "a.avi", "-c:v", "libvpx", "-b:v", "1M", "-f", "webm", "b.webm"]
        ),
        Err(e) => assert!(matches!(e, ToolError::ToolMissing)),
    }
}

#[test]
fn format_list_is_fixed() {
    let formats = list_formats();
    assert_eq!(formats.len(), 14);
    assert_eq!(formats[0], "mp3");
    assert_eq!(formats[7], "mp4");
    assert_eq!(formats[13], "wmv");
}

#[test]
fn error_messages_carry_diagnostics() {
    assert_eq!(
        ToolError::ToolFailed("boom".to_string()).message(),
        "FFmpeg error: boom"
    );
    assert!(ToolError::ToolMissing.message().contains("not installed"));
    assert_eq!(
        ToolError::InvalidInput("p".to_string()).message(),
        "Invalid input: p"
    );
    assert_eq!(ToolError::IoFailure("d".to_string()).message(), "I/O failure: d");
    assert_eq!(
        ToolError::SpawnFailed("no".to_string()).message(),
        "Failed to execute ffmpeg: no"
    );
}

#[test]
fn classify_tool_outcome_covers_the_taxonomy() {
    assert!(classify_tool_outcome(true, true, String::new()).is_ok());
    assert!(matches!(
        classify_tool_outcome(false, false, "enoent".to_string()),
        Err(ToolError::SpawnFailed(d)) if d == "enoent"
    ));
    assert!(matches!(
        classify_tool_outcome(true, false, "exit 1".to_string()),
        Err(ToolError::ToolFailed(d)) if d == "exit 1"
    ));
}
