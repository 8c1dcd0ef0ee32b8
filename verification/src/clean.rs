//! Cleaning jobs: the derived output path and per-file argument vector
//! of an in-place metadata-stripping and remuxing pass.

use vstd::prelude::*;
use crate::file_utils::{spec_extension, spec_file_start, spec_file_stem};

verus! {

/// The temporary output path of a cleaning pass: the input path with
/// `cleaned` inserted before its extension; a path without an
/// extension gets the `cleaned.` marker with nothing after the final
/// dot.
pub open spec fn spec_cleaned_path(input: Seq<char>) -> Seq<char> {
    input.take(spec_file_start(input)) + spec_file_stem(input) + ".cleaned."@ + (
    match spec_extension(input) {
        Some(e) => e,
        None => Seq::<char>::empty(),
    })
}

/// The temporary output path of a cleaning pass over `input`.
pub fn cleaned_output_path(input: &str) -> (r: String)
    ensures
        r@ == spec_cleaned_path(input@),
{
    let n = input.unicode_len();
    let fstart = match crate::file_utils::rfind_char(input, '/') {
        Some(i) => {
            proof {
                crate::file_utils::lemma_spec_rfind(input@, '/');
            }
            i + 1
        },
        None => 0,
    };
    assert(fstart == spec_file_start(input@));
    let name = input.substring_char(fstart, n);
    assert(name@ == crate::file_utils::spec_file_name(input@));
    let m = name.unicode_len();
    let mut s = input.substring_char(0, fstart).to_owned();
    match crate::file_utils::rfind_char(name, '.') {
        None => {
            s.append(name);
            s.append(".cleaned.");
        },
        Some(d) => {
            proof {
                crate::file_utils::lemma_spec_rfind(name@, '.');
            }
            if d == 0 {
                s.append(name);
                s.append(".cleaned.");
            } else {
                s.append(name.substring_char(0, d));
                s.append(".cleaned.");
                s.append(name.substring_char(d + 1, m));
            }
        },
    }
    proof {
        reveal_strlit(".cleaned.");
        assert(s@ =~= spec_cleaned_path(input@));
    }
    s
}

/// The argument vector of one cleaning pass: quiet, overwrite,
/// optionally dropping all metadata, optionally remuxing both streams
/// without re-encoding, into the temporary cleaned path.
pub open spec fn spec_clean_file_args(
    input: Seq<char>,
    remove_metadata: bool,
    optimize: bool,
) -> Seq<Seq<char>> {
    seq!["-i"@, input, "-y"@, "-loglevel"@, "error"@] + (if remove_metadata {
        seq!["-map_metadata"@, "-1"@]
    } else {
        Seq::<Seq<char>>::empty()
    }) + (if optimize {
        seq!["-c:v"@, "copy"@, "-c:a"@, "copy"@]
    } else {
        Seq::<Seq<char>>::empty()
    }) + seq![spec_cleaned_path(input)]
}

/// Plan one cleaning pass over `input`.
pub fn clean_file_args(input: &str, remove_metadata: bool, optimize: bool) -> (r: Vec<String>)
    ensures
        r.deep_view() == spec_clean_file_args(input@, remove_metadata, optimize),
{
    let mut args: Vec<String> = Vec::new();
    args.push(String::from_str("-i"));
    args.push(input.to_owned());
    args.push(String::from_str("-y"));
    args.push(String::from_str("-loglevel"));
    args.push(String::from_str("error"));
    if remove_metadata {
        args.push(String::from_str("-map_metadata"));
        args.push(String::from_str("-1"));
    }
    if optimize {
        args.push(String::from_str("-c:v"));
        args.push(String::from_str("copy"));
        args.push(String::from_str("-c:a"));
        args.push(String::from_str("copy"));
    }
    args.push(cleaned_output_path(input));
    proof {
        assert(args.deep_view() =~~= spec_clean_file_args(input@, remove_metadata, optimize));
    }
    args
}

} // verus!
