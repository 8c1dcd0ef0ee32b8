//! Path and file-name utilities: extension extraction, the
//! media-extension allow-list, and the derived output paths. Paths are
//! plain strings with '/' as the separator.

use vstd::prelude::*;
use vstd::seq_lib::group_seq_properties;

verus! {

/// True when `c` is an ASCII upper-case letter.
pub open spec fn is_upper(c: char) -> bool {
    65 <= c as u32 <= 90
}

/// Character equality up to ASCII case.
pub open spec fn char_eq_ic(a: char, b: char) -> bool {
    ||| a == b
    ||| (is_upper(a) && a as u32 + 32 == b as u32)
    ||| (is_upper(b) && b as u32 + 32 == a as u32)
}

/// String equality up to ASCII case.
pub open spec fn eq_ic(a: Seq<char>, b: Seq<char>) -> bool {
    a.len() == b.len() && forall|i: int| 0 <= i < a.len() ==> char_eq_ic(a[i], b[i])
}

/// Compare two string slices up to ASCII case.
pub fn eq_ignore_case(a: &str, b: &str) -> (r: bool)
    ensures
        r == eq_ic(a@, b@),
{
    let alen = a.unicode_len();
    let blen = b.unicode_len();
    if alen != blen {
        return false;
    }
    let mut i: usize = 0;
    while i < alen
        invariant
            alen == a@.len(),
            alen == b@.len(),
            i <= alen,
            forall|j: int| 0 <= j < i ==> char_eq_ic(a@[j], b@[j]),
        decreases alen - i,
    {
        let ca = a.get_char(i);
        let cb = b.get_char(i);
        let ua = ca as u32;
        let ub = cb as u32;
        let la = if 65 <= ua && ua <= 90 {
            ua + 32
        } else {
            ua
        };
        let lb = if 65 <= ub && ub <= 90 {
            ub + 32
        } else {
            ub
        };
        if la != lb {
            assert(!char_eq_ic(a@[i as int], b@[i as int]));
            return false;
        }
        assert(char_eq_ic(a@[i as int], b@[i as int]));
        i = i + 1;
    }
    true
}

/// The position of the last occurrence of `c` in `s`.
pub open spec fn spec_rfind(s: Seq<char>, c: char) -> Option<int>
    decreases s.len(),
{
    if s.len() == 0 {
        None
    } else if s.last() == c {
        Some(s.len() - 1)
    } else {
        spec_rfind(s.drop_last(), c)
    }
}

pub proof fn lemma_spec_rfind(s: Seq<char>, c: char)
    ensures
        match spec_rfind(s, c) {
            Some(i) => 0 <= i < s.len() && s[i] == c && forall|j: int| i < j < s.len() ==> s[j] != c,
            None => forall|j: int| 0 <= j < s.len() ==> s[j] != c,
        },
    decreases s.len(),
{
    if s.len() > 0 && s.last() != c {
        lemma_spec_rfind(s.drop_last(), c);
        assert(forall|j: int| 0 <= j < s.len() - 1 ==> s[j] == s.drop_last()[j]);
    }
}

/// Position of the last occurrence of the character `c` in `s`.
pub fn rfind_char(s: &str, c: char) -> (r: Option<usize>)
    ensures
        r == match spec_rfind(s@, c) {
            Some(i) => Some(i as usize),
            None => None::<usize>,
        },
{
    proof {
        lemma_spec_rfind(s@, c);
    }
    let n = s.unicode_len();
    let mut i: usize = n;
    while i > 0
        invariant
            n == s@.len(),
            i <= n,
            forall|j: int| i <= j < n ==> s@[j] != c,
        decreases i,
    {
        i = i - 1;
        if s.get_char(i) == c {
            proof {
                lemma_spec_rfind(s@, c);
                match spec_rfind(s@, c) {
                    Some(ri) => {
                        if ri < i {
                            assert(s@[i as int] == c);
                        }
                        assert(ri == i);
                    },
                    None => {
                        assert(s@[i as int] != c);
                    },
                }
            }
            return Some(i);
        }
    }
    proof {
        lemma_spec_rfind(s@, c);
        match spec_rfind(s@, c) {
            Some(ri) => {
                assert(s@[ri] != c);
            },
            None => {},
        }
    }
    None
}

/// Where the file name of a path starts: after the last '/'.
pub open spec fn spec_file_start(s: Seq<char>) -> int {
    match spec_rfind(s, '/') {
        Some(i) => i + 1,
        None => 0,
    }
}

/// The file name of a path: everything after the last '/'.
pub open spec fn spec_file_name(s: Seq<char>) -> Seq<char> {
    s.skip(spec_file_start(s))
}

/// The extension of a path: what follows the last '.' of its file
/// name, unless that dot is the name's leading character.
pub open spec fn spec_extension(s: Seq<char>) -> Option<Seq<char>> {
    let name = spec_file_name(s);
    match spec_rfind(name, '.') {
        None => None,
        Some(d) => if d == 0 {
            None
        } else {
            Some(name.skip(d + 1))
        },
    }
}

/// The stem of a path's file name: the name up to the dot that begins
/// its extension, or the whole name when there is none.
pub open spec fn spec_file_stem(s: Seq<char>) -> Seq<char> {
    let name = spec_file_name(s);
    match spec_rfind(name, '.') {
        None => name,
        Some(d) => if d == 0 {
            name
        } else {
            name.take(d)
        },
    }
}

/// The extension of a path, as a new string.
pub fn extension_of(path: &str) -> (r: Option<String>)
    ensures
        spec_extension(path@) == (match r {
            Some(e) => Some(e@),
            None => None::<Seq<char>>,
        }),
{
    let n = path.unicode_len();
    let fstart = match rfind_char(path, '/') {
        Some(i) => {
            proof {
                lemma_spec_rfind(path@, '/');
            }
            i + 1
        },
        None => 0,
    };
    assert(fstart == spec_file_start(path@));
    let name = path.substring_char(fstart, n);
    assert(name@ == spec_file_name(path@));
    let m = name.unicode_len();
    match rfind_char(name, '.') {
        None => {
            assert(spec_extension(path@) is None);
            None
        },
        Some(d) => {
            proof {
                lemma_spec_rfind(name@, '.');
            }
            if d == 0 {
                assert(spec_extension(path@) is None);
                None
            } else {
                let e = name.substring_char(d + 1, m);
                proof {
                    assert(e@ =~= spec_file_name(path@).skip(d + 1));
                }
                Some(e.to_owned())
            }
        },
    }
}

/// The fixed allow-list of media extensions, compared without case.
pub open spec fn is_media_ext(e: Seq<char>) -> bool {
    ||| eq_ic(e, "mp3"@)
    ||| eq_ic(e, "mp4"@)
    ||| eq_ic(e, "avi"@)
    ||| eq_ic(e, "mkv"@)
    ||| eq_ic(e, "flac"@)
    ||| eq_ic(e, "wav"@)
    ||| eq_ic(e, "ogg"@)
    ||| eq_ic(e, "webm"@)
    ||| eq_ic(e, "mov"@)
    ||| eq_ic(e, "flv"@)
    ||| eq_ic(e, "wmv"@)
    ||| eq_ic(e, "m4a"@)
    ||| eq_ic(e, "aac"@)
    ||| eq_ic(e, "wma"@)
    ||| eq_ic(e, "m4v"@)
    ||| eq_ic(e, "3gp"@)
}

/// True when the path's extension is on the media allow-list.
pub open spec fn spec_is_media_file(s: Seq<char>) -> bool {
    match spec_extension(s) {
        None => false,
        Some(e) => is_media_ext(e),
    }
}

/// Does this path point to a supported media file? Decided by its
/// extension against the fixed allow-list, without case.
pub fn is_media_file(path: &str) -> (r: bool)
    ensures
        r == spec_is_media_file(path@),
{
    match extension_of(path) {
        None => false,
        Some(e) => {
            let s = e.as_str();
            eq_ignore_case(s, "mp3") || eq_ignore_case(s, "mp4") || eq_ignore_case(s, "avi")
                || eq_ignore_case(s, "mkv") || eq_ignore_case(s, "flac") || eq_ignore_case(
                s,
                "wav",
            ) || eq_ignore_case(s, "ogg") || eq_ignore_case(s, "webm") || eq_ignore_case(s, "mov")
                || eq_ignore_case(s, "flv") || eq_ignore_case(s, "wmv") || eq_ignore_case(s, "m4a")
                || eq_ignore_case(s, "aac") || eq_ignore_case(s, "wma") || eq_ignore_case(s, "m4v")
                || eq_ignore_case(s, "3gp")
        },
    }
}

/// The fixed list of audio container formats, compared without case.
pub open spec fn spec_is_audio_format(f: Seq<char>) -> bool {
    ||| eq_ic(f, "mp3"@)
    ||| eq_ic(f, "flac"@)
    ||| eq_ic(f, "wav"@)
    ||| eq_ic(f, "ogg"@)
    ||| eq_ic(f, "m4a"@)
    ||| eq_ic(f, "aac"@)
    ||| eq_ic(f, "wma"@)
}

/// Is this target format an audio format? Audio targets take only a
/// bitrate, never a video codec.
pub fn is_audio_format(format: &str) -> (r: bool)
    ensures
        r == spec_is_audio_format(format@),
{
    eq_ignore_case(format, "mp3") || eq_ignore_case(format, "flac") || eq_ignore_case(
        format,
        "wav",
    ) || eq_ignore_case(format, "ogg") || eq_ignore_case(format, "m4a") || eq_ignore_case(
        format,
        "aac",
    ) || eq_ignore_case(format, "wma")
}

/// A directory path and a file name joined with exactly one separator.
pub open spec fn spec_join_path(dir: Seq<char>, name: Seq<char>) -> Seq<char> {
    if dir.len() == 0 {
        name
    } else if dir.last() == '/' {
        dir + name
    } else {
        dir + "/"@ + name
    }
}

/// Join a directory path and a file name.
pub fn join_path(dir: &str, name: &str) -> (r: String)
    ensures
        r@ == spec_join_path(dir@, name@),
{
    let n = dir.unicode_len();
    if n == 0 {
        return name.to_owned();
    }
    let mut s = dir.to_owned();
    if dir.get_char(n - 1) != '/' {
        s.append("/");
    }
    s.append(name);
    proof {
        reveal_strlit("/");
        assert(s@ =~= spec_join_path(dir@, name@));
    }
    s
}

/// The derived output path: the input path with `_` and the suffix
/// inserted between stem and extension, or, for a path without an
/// extension, the input path with `_output` appended.
pub open spec fn spec_default_output(input: Seq<char>, suffix: Seq<char>) -> Seq<char> {
    match spec_extension(input) {
        None => input + "_output"@,
        Some(e) => input.take(spec_file_start(input)) + spec_file_stem(input) + "_"@ + suffix
            + "."@ + e,
    }
}

/// Derive a default output path from an input path and a suffix, the
/// suffix standing between the file stem and the extension. A path
/// without an extension gets `_output` appended instead.
pub fn generate_default_output_path(input_path_str: &str, suffix: &str) -> (r: String)
    ensures
        r@ == spec_default_output(input_path_str@, suffix@),
{
    let n = input_path_str.unicode_len();
    let fstart = match rfind_char(input_path_str, '/') {
        Some(i) => {
            proof {
                lemma_spec_rfind(input_path_str@, '/');
            }
            i + 1
        },
        None => 0,
    };
    assert(fstart == spec_file_start(input_path_str@));
    let name = input_path_str.substring_char(fstart, n);
    assert(name@ == spec_file_name(input_path_str@));
    let m = name.unicode_len();
    match rfind_char(name, '.') {
        None => {
            let mut s = input_path_str.to_owned();
            s.append("_output");
            proof {
                assert(s@ == spec_default_output(input_path_str@, suffix@));
            }
            s
        },
        Some(d) => {
            proof {
                lemma_spec_rfind(name@, '.');
            }
            if d == 0 {
                let mut s = input_path_str.to_owned();
                s.append("_output");
                proof {
                    assert(s@ == spec_default_output(input_path_str@, suffix@));
                }
                s
            } else {
                let mut s = input_path_str.substring_char(0, fstart).to_owned();
                s.append(name.substring_char(0, d));
                s.append("_");
                s.append(suffix);
                s.append(".");
                s.append(name.substring_char(d + 1, m));
                proof {
                    reveal_strlit("_");
                    reveal_strlit(".");
                    assert(name@.take(d as int) == spec_file_stem(input_path_str@));
                    assert(name@.skip(d + 1) =~= name@.subrange(d + 1, m as int));
                    assert(s@ =~= spec_default_output(input_path_str@, suffix@));
                }
                s
            }
        },
    }
}

/// Keep, in order, exactly the paths that point to media files: the
/// filtering half of file discovery, applied to whatever candidate
/// list the directory walk produced.
#[verifier::rlimit(50)]
pub fn filter_media_files(paths: &Vec<String>) -> (r: Vec<String>)
    ensures
        r.deep_view() == paths.deep_view().filter(|p: Seq<char>| spec_is_media_file(p)),
{
    broadcast use group_seq_properties;

    let ghost dv = paths.deep_view();
    let mut out: Vec<String> = Vec::new();
    let mut i: usize = 0;
    proof {
        reveal_with_fuel(Seq::<Seq<char>>::filter, 2);
        assert(dv.take(0) =~~= Seq::<Seq<char>>::empty());
        assert(out.deep_view() =~~= Seq::<Seq<char>>::empty());
    }
    while i < paths.len()
        invariant
            dv == paths.deep_view(),
            i <= dv.len(),
            out.deep_view() == dv.take(i as int).filter(|p: Seq<char>| spec_is_media_file(p)),
        decreases dv.len() - i,
    {
        broadcast use group_seq_properties;

        let ghost before = out.deep_view();
        let keep = is_media_file(paths[i].as_str());
        if keep {
            out.push(paths[i].clone());
        }
        proof {
            reveal_with_fuel(Seq::<Seq<char>>::filter, 2);
            let pr = |p: Seq<char>| spec_is_media_file(p);
            assert(dv.take(i + 1) =~~= dv.take(i as int) + seq![dv[i as int]]);
            assert((dv.take(i as int) + seq![dv[i as int]]).filter(pr) == dv.take(i as int).filter(
                pr,
            ) + seq![dv[i as int]].filter(pr));
            assert(seq![dv[i as int]].filter(pr) =~~= if pr(dv[i as int]) {
                seq![dv[i as int]]
            } else {
                Seq::<Seq<char>>::empty()
            });
            if keep {
                assert(out.deep_view() =~~= before.push(dv[i as int]));
                assert(before.push(dv[i as int]) =~~= before + seq![dv[i as int]]);
            } else {
                assert(out.deep_view() + Seq::<Seq<char>>::empty() =~~= out.deep_view());
            }
        }
        i = i + 1;
    }
    proof {
        assert(dv.take(dv.len() as int) =~~= dv);
    }
    out
}

} // verus!
