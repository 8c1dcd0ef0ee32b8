//! Conversion jobs: the per-file argument vector and derived output
//! path of a batch conversion.

use vstd::prelude::*;
use crate::error::ToolError;
use crate::file_utils::{is_audio_format, join_path, spec_file_name, spec_file_stem,
    spec_is_audio_format, spec_join_path};

verus! {

/// The output path of a conversion: the input's stem with the target
/// format as extension, inside the output directory.
pub open spec fn spec_convert_output(
    input: Seq<char>,
    format: Seq<char>,
    output_dir: Seq<char>,
) -> Seq<char> {
    spec_join_path(output_dir, spec_file_stem(input) + "."@ + format)
}

/// The argument vector of one conversion job. An audio target takes
/// only the audio bitrate; a video target additionally takes the video
/// codec when one is named.
pub open spec fn spec_convert_file_args(
    input: Seq<char>,
    format: Seq<char>,
    output_dir: Seq<char>,
    quality: Seq<char>,
    codec: Option<Seq<char>>,
) -> Seq<Seq<char>> {
    let codec_part: Seq<Seq<char>> = if spec_is_audio_format(format) {
        Seq::<Seq<char>>::empty()
    } else {
        match codec {
            Some(c) => seq!["-c:v"@, c],
            None => Seq::<Seq<char>>::empty(),
        }
    };
    seq!["-i"@, input, "-y"@, "-loglevel"@, "error"@] + codec_part + seq!["-b:a"@, quality] + seq![
        spec_convert_output(input, format, output_dir),
    ]
}

/// Plan one conversion job: the argument vector that converts `input`
/// into the output directory under the target format.
///
/// An input whose file name is empty cannot name an output and is
/// rejected as `InvalidInput`; every other input yields exactly the
/// canonical argument vector.
pub fn convert_file_args(
    input: &str,
    format: &str,
    output_dir: &str,
    quality: &str,
    codec: Option<&String>,
) -> (r: Result<Vec<String>, ToolError>)
    ensures
        spec_file_name(input@).len() == 0 ==> (r matches Err(e) && e is InvalidInput),
        spec_file_name(input@).len() > 0 ==> (r matches Ok(args) && args.deep_view()
            == spec_convert_file_args(
            input@,
            format@,
            output_dir@,
            quality@,
            match codec {
                Some(c) => Some(c@),
                None => None::<Seq<char>>,
            },
        )),
{
    if file_name_len(input) == 0 {
        return Err(ToolError::InvalidInput(input.to_owned()));
    }
    assert(spec_file_name(input@).len() > 0);
    let stem = file_stem_of(input);
    let mut out_name = stem;
    out_name.append(".");
    out_name.append(format);
    let output_file = join_path(output_dir, out_name.as_str());
    proof {
        reveal_strlit(".");
        assert(output_file@ == spec_convert_output(input@, format@, output_dir@));
    }
    let mut args: Vec<String> = Vec::new();
    args.push(String::from_str("-i"));
    args.push(input.to_owned());
    args.push(String::from_str("-y"));
    args.push(String::from_str("-loglevel"));
    args.push(String::from_str("error"));
    if !is_audio_format(format) {
        if let Some(c) = codec {
            args.push(String::from_str("-c:v"));
            args.push(c.clone());
        }
    }
    args.push(String::from_str("-b:a"));
    args.push(quality.to_owned());
    args.push(output_file);
    proof {
        assert(args.deep_view() =~~= spec_convert_file_args(
            input@,
            format@,
            output_dir@,
            quality@,
            match codec {
                Some(c) => Some(c@),
                None => None::<Seq<char>>,
            },
        ));
    }
    Ok(args)
}

/// The stem of a path's file name, as a new string.
pub fn file_stem_of(path: &str) -> (r: String)
    ensures
        r@ == spec_file_stem(path@),
{
    let n = path.unicode_len();
    let fstart = match crate::file_utils::rfind_char(path, '/') {
        Some(i) => {
            proof {
                crate::file_utils::lemma_spec_rfind(path@, '/');
            }
            i + 1
        },
        None => 0,
    };
    assert(fstart == crate::file_utils::spec_file_start(path@));
    let name = path.substring_char(fstart, n);
    assert(name@ == spec_file_name(path@));
    let m = name.unicode_len();
    match crate::file_utils::rfind_char(name, '.') {
        None => name.to_owned(),
        Some(d) => {
            proof {
                crate::file_utils::lemma_spec_rfind(name@, '.');
            }
            if d == 0 {
                name.to_owned()
            } else {
                let stem = name.substring_char(0, d);
                proof {
                    assert(stem@ =~= spec_file_name(path@).take(d as int));
                }
                stem.to_owned()
            }
        },
    }
}

/// The length of a path's file name.
pub fn file_name_len(path: &str) -> (r: usize)
    ensures
        r == spec_file_name(path@).len(),
{
    let n = path.unicode_len();
    let fstart = match crate::file_utils::rfind_char(path, '/') {
        Some(i) => {
            proof {
                crate::file_utils::lemma_spec_rfind(path@, '/');
            }
            i + 1
        },
        None => 0,
    };
    assert(fstart == crate::file_utils::spec_file_start(path@));
    n - fstart
}

} // verus!
