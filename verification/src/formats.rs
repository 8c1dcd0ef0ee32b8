//! The fixed list of supported target container formats.

use vstd::prelude::*;

verus! {

/// The supported audio and video target formats, audio first.
pub open spec fn spec_supported_formats() -> Seq<Seq<char>> {
    seq![
        "mp3"@,
        "aac"@,
        "flac"@,
        "wav"@,
        "ogg"@,
        "m4a"@,
        "wma"@,
        "mp4"@,
        "avi"@,
        "mkv"@,
        "webm"@,
        "mov"@,
        "flv"@,
        "wmv"@,
    ]
}

/// The supported target formats, in their fixed order.
pub fn list_formats() -> (r: Vec<String>)
    ensures
        r.deep_view() == spec_supported_formats(),
{
    let mut formats: Vec<String> = Vec::new();
    formats.push(String::from_str("mp3"));
    formats.push(String::from_str("aac"));
    formats.push(String::from_str("flac"));
    formats.push(String::from_str("wav"));
    formats.push(String::from_str("ogg"));
    formats.push(String::from_str("m4a"));
    formats.push(String::from_str("wma"));
    formats.push(String::from_str("mp4"));
    formats.push(String::from_str("avi"));
    formats.push(String::from_str("mkv"));
    formats.push(String::from_str("webm"));
    formats.push(String::from_str("mov"));
    formats.push(String::from_str("flv"));
    formats.push(String::from_str("wmv"));
    proof {
        assert(formats.deep_view() =~~= spec_supported_formats());
    }
    formats
}

} // verus!
