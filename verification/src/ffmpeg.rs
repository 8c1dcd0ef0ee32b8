//! Presence checks for the external tools and assembly of filtergraph
//! expressions from ordered filter chains.

use vstd::prelude::*;
use crate::error::ToolError;
use crate::strutil::{join_str, spec_join};

verus! {

/// Relies on which::which: it resolves a tool name against the search
/// path and returns Ok exactly when an executable was found. The
/// outcome depends on the machine's environment, so nothing further is
/// promised of it.
#[verifier::external_body]
fn tool_on_path(name: &str) -> bool {
    which::which(name).is_ok()
}

/// Check that the external transcoding tool is available.
///
/// The only possible failure is `ToolMissing`; whether it occurs
/// depends on the execution environment alone.
pub fn check_ffmpeg() -> (r: Result<(), ToolError>)
    ensures
        r is Err ==> r == Result::<(), ToolError>::Err(ToolError::ToolMissing),
{
    if tool_on_path("ffmpeg") {
        Ok(())
    } else {
        Err(ToolError::ToolMissing)
    }
}

/// Check that the external probing tool is available.
pub fn check_ffprobe() -> (r: Result<(), ToolError>)
    ensures
        r is Err ==> r == Result::<(), ToolError>::Err(ToolError::ToolMissing),
{
    if tool_on_path("ffprobe") {
        Ok(())
    } else {
        Err(ToolError::ToolMissing)
    }
}

/// Join an ordered filter chain into one filtergraph expression,
/// comma-separated as the external tool expects.
pub fn build_filtergraph(filters: &Vec<String>) -> (r: String)
    ensures
        r@ == spec_join(filters.deep_view(), ','),
{
    proof {
        reveal_strlit(",");
    }
    join_str(filters, ",")
}

/// Join a video chain and an audio chain into the pair of filtergraph
/// expressions for a job that processes both streams; an empty chain
/// yields an empty expression.
pub fn build_complex_filtergraph(video_filters: &Vec<String>, audio_filters: &Vec<String>) -> (r: (
    String,
    String,
))
    ensures
        r.0@ == spec_join(video_filters.deep_view(), ','),
        r.1@ == spec_join(audio_filters.deep_view(), ','),
{
    let vf = if video_filters.len() == 0 {
        String::new()
    } else {
        build_filtergraph(video_filters)
    };
    let af = if audio_filters.len() == 0 {
        String::new()
    } else {
        build_filtergraph(audio_filters)
    };
    proof {
        if video_filters.deep_view().len() == 0 {
            assert(vf@ =~= spec_join(video_filters.deep_view(), ','));
        }
        if audio_filters.deep_view().len() == 0 {
            assert(af@ =~= spec_join(audio_filters.deep_view(), ','));
        }
    }
    (vf, af)
}

/// The argument vector of a whole-file conversion into the given
/// container format, codec and video bitrate.
pub open spec fn spec_convert_media_args(
    input: Seq<char>,
    output: Seq<char>,
    format: Seq<char>,
    quality: Seq<char>,
    codec: Seq<char>,
) -> Seq<Seq<char>> {
    seq!["-i"@, input, "-c:v"@, codec, "-b:v"@, quality, "-f"@, format, output]
}

/// Plan a whole-file conversion.
///
/// Fails only with `ToolMissing`, when the external tool is absent;
/// otherwise returns exactly the canonical argument vector. Walking a
/// directory tree is the caller's business: this plans the run for one
/// input path.
pub fn convert_media(
    input: &str,
    output: &str,
    format: &str,
    quality: &str,
    codec: &str,
) -> (r: Result<Vec<String>, ToolError>)
    ensures
        r matches Ok(args) ==> args.deep_view() == spec_convert_media_args(
            input@,
            output@,
            format@,
            quality@,
            codec@,
        ),
        r is Err ==> r == Result::<Vec<String>, ToolError>::Err(ToolError::ToolMissing),
{
    match check_ffmpeg() {
        Err(e) => {
            return Err(e);
        },
        Ok(()) => {},
    }
    let mut args: Vec<String> = Vec::new();
    args.push(String::from_str("-i"));
    args.push(input.to_owned());
    args.push(String::from_str("-c:v"));
    args.push(codec.to_owned());
    args.push(String::from_str("-b:v"));
    args.push(quality.to_owned());
    args.push(String::from_str("-f"));
    args.push(format.to_owned());
    args.push(output.to_owned());
    proof {
        assert(args.deep_view() =~~= spec_convert_media_args(
            input@,
            output@,
            format@,
            quality@,
            codec@,
        ));
    }
    Ok(args)
}

} // verus!
