//! Capture-device capability discovery: best-effort, line-oriented
//! scanning of a helper tool's listing, keyed on fixed marker
//! substrings, with a tiered fallback that always yields a usable
//! record. Malformed lines are skipped, never fatal.

use vstd::prelude::*;
use crate::strnum::{parse_u32_run, spec_digit_run_end, spec_digits_value};
use crate::strutil::{find_sub_from, spec_find, split_str, spec_split};

verus! {

/// What a capture device supports, as far as probing discovered it.
#[derive(Debug, Clone)]
pub struct DeviceCaps {
    pub width: u32,
    pub height: u32,
    pub fps: u32,
    pub formats: Vec<String>,
}

impl DeviceCaps {
    /// A usable record: positive geometry and rate, and at least one
    /// pixel format.
    pub open spec fn wf(self) -> bool {
        self.width > 0 && self.height > 0 && self.fps > 0 && self.formats@.len() > 0
    }
}

/// The hardcoded record of the last fallback tier: standard-definition
/// capture geometry and the packed format every capture bridge offers.
pub open spec fn is_default_caps(c: DeviceCaps) -> bool {
    c.width == 720 && c.height == 480 && c.fps == 30 && c.formats.deep_view() == seq!["yuyv422"@]
}

/// The capability record used when probing discovers nothing.
pub fn default_device_caps() -> (r: DeviceCaps)
    ensures
        is_default_caps(r),
        r.wf(),
{
    let mut formats: Vec<String> = Vec::new();
    formats.push(String::from_str("yuyv422"));
    let r = DeviceCaps { width: 720, height: 480, fps: 30, formats };
    proof {
        assert(r.formats.deep_view() =~~= seq!["yuyv422"@]);
    }
    r
}

/// The discrete frame size announced by a listing line: the first
/// "Size: Discrete " marker followed by WIDTHxHEIGHT, both positive.
pub open spec fn spec_parse_size(l: Seq<char>) -> Option<(u32, u32)> {
    let marker = "Size: Discrete "@;
    match spec_find(l, marker, 0) {
        None => None,
        Some(i) => {
            let p = i + marker.len();
            let j = spec_digit_run_end(l, p);
            let w = spec_digits_value(l, p, j);
            if j == p || w > u32::MAX {
                None
            } else if j >= l.len() || l[j] != 'x' {
                None
            } else {
                let k = spec_digit_run_end(l, j + 1);
                let h = spec_digits_value(l, j + 1, k);
                if k == j + 1 || h > u32::MAX {
                    None
                } else if w > 0 && h > 0 {
                    Some((w as u32, h as u32))
                } else {
                    None
                }
            }
        },
    }
}

/// The whole-frames-per-second part of a listing line: the first
/// "Interval: Discrete " marker followed by a parenthesized rate,
/// whose leading digits are read as a positive whole number.
pub open spec fn spec_parse_fps(l: Seq<char>) -> Option<u32> {
    let marker = "Interval: Discrete "@;
    match spec_find(l, marker, 0) {
        None => None,
        Some(i) => match spec_find(l, "("@, i + marker.len()) {
            None => None,
            Some(q) => {
                let j = spec_digit_run_end(l, q + 1);
                let v = spec_digits_value(l, q + 1, j);
                if j == q + 1 || v > u32::MAX || v <= 0 {
                    None
                } else {
                    Some(v as u32)
                }
            },
        },
    }
}

/// The pixel-format name announced by a listing line: a "Pixel Format"
/// marker followed by a non-empty token between single quotes.
pub open spec fn spec_parse_format(l: Seq<char>) -> Option<Seq<char>> {
    let marker = "Pixel Format"@;
    match spec_find(l, marker, 0) {
        None => None,
        Some(i) => match spec_find(l, "'"@, i + marker.len()) {
            None => None,
            Some(q1) => match spec_find(l, "'"@, q1 + 1) {
                None => None,
                Some(q2) => if q2 > q1 + 1 {
                    Some(l.subrange(q1 + 1, q2))
                } else {
                    None
                },
            },
        },
    }
}

/// Read the frame size announced by one listing line.
pub fn parse_size_line(line: &str) -> (r: Option<(u32, u32)>)
    ensures
        r == spec_parse_size(line@),
{
    let marker = "Size: Discrete ";
    let n = line.unicode_len();
    match find_sub_from(line, marker, 0) {
        None => None,
        Some(i) => {
            proof {
                crate::strutil::lemma_spec_find(line@, marker@, 0);
            }
            assert(i + marker@.len() <= n);
            let p = i + marker.unicode_len();
            match parse_u32_run(line, p) {
                None => None,
                Some((w, j)) => {
                    if j >= n {
                        return None;
                    }
                    if line.get_char(j) != 'x' {
                        return None;
                    }
                    match parse_u32_run(line, j + 1) {
                        None => None,
                        Some((h, _k)) => {
                            if w > 0 && h > 0 {
                                Some((w, h))
                            } else {
                                None
                            }
                        },
                    }
                },
            }
        },
    }
}

/// Read the whole frame rate announced by one listing line.
pub fn parse_fps_line(line: &str) -> (r: Option<u32>)
    ensures
        r == spec_parse_fps(line@),
{
    let marker = "Interval: Discrete ";
    let n = line.unicode_len();
    match find_sub_from(line, marker, 0) {
        None => None,
        Some(i) => {
            proof {
                crate::strutil::lemma_spec_find(line@, marker@, 0);
            }
            assert(i + marker@.len() <= n);
            let p = i + marker.unicode_len();
            match find_sub_from(line, "(", p) {
                None => None,
                Some(q) => {
                    proof {
                        crate::strutil::lemma_spec_find(line@, "("@, p as int);
                        reveal_strlit("(");
                    }
                    assert(q + 1 <= n);
                    match parse_u32_run(line, q + 1) {
                        None => None,
                        Some((v, _j)) => {
                            if v > 0 {
                                Some(v)
                            } else {
                                None
                            }
                        },
                    }
                },
            }
        },
    }
}

/// Read the pixel-format name announced by one listing line.
pub fn parse_format_line(line: &str) -> (r: Option<String>)
    ensures
        spec_parse_format(line@) == (match r {
            Some(t) => Some(t@),
            None => None::<Seq<char>>,
        }),
{
    let marker = "Pixel Format";
    let n = line.unicode_len();
    match find_sub_from(line, marker, 0) {
        None => {
            assert(spec_parse_format(line@) is None);
            None
        },
        Some(i) => {
            proof {
                crate::strutil::lemma_spec_find(line@, marker@, 0);
            }
            assert(i + marker@.len() <= n);
            let p = i + marker.unicode_len();
            match find_sub_from(line, "'", p) {
                None => {
                    assert(spec_parse_format(line@) is None);
                    None
                },
                Some(q1) => {
                    proof {
                        crate::strutil::lemma_spec_find(line@, "'"@, p as int);
                        reveal_strlit("'");
                    }
                    assert(q1 + 1 <= n);
                    match find_sub_from(line, "'", q1 + 1) {
                        None => {
                            assert(spec_parse_format(line@) is None);
                            None
                        },
                        Some(q2) => {
                            proof {
                                crate::strutil::lemma_spec_find(line@, "'"@, q1 as int + 1);
                            }
                            if q2 > q1 + 1 {
                                let tok = line.substring_char(q1 + 1, q2);
                                let owned = tok.to_owned();
                                proof {
                                    assert(owned@ == line@.subrange(q1 as int + 1, q2 as int));
                                    assert(spec_parse_format(line@) == Some(
                                        line@.subrange(q1 as int + 1, q2 as int),
                                    ));
                                }
                                Some(owned)
                            } else {
                                assert(spec_parse_format(line@) is None);
                                None
                            }
                        },
                    }
                },
            }
        },
    }
}

/// The first frame size any line of the listing announces.
pub open spec fn spec_first_size(lines: Seq<Seq<char>>) -> Option<(u32, u32)>
    decreases lines.len(),
{
    if lines.len() == 0 {
        None
    } else {
        match spec_parse_size(lines[0]) {
            Some(v) => Some(v),
            None => spec_first_size(lines.skip(1)),
        }
    }
}

/// The first frame rate any line of the listing announces.
pub open spec fn spec_first_fps(lines: Seq<Seq<char>>) -> Option<u32>
    decreases lines.len(),
{
    if lines.len() == 0 {
        None
    } else {
        match spec_parse_fps(lines[0]) {
            Some(v) => Some(v),
            None => spec_first_fps(lines.skip(1)),
        }
    }
}

/// Every pixel-format name the lines of the listing announce, in scan
/// order.
pub open spec fn spec_formats(lines: Seq<Seq<char>>) -> Seq<Seq<char>>
    decreases lines.len(),
{
    if lines.len() == 0 {
        Seq::<Seq<char>>::empty()
    } else {
        (match spec_parse_format(lines[0]) {
            Some(t) => seq![t],
            None => Seq::<Seq<char>>::empty(),
        }) + spec_formats(lines.skip(1))
    }
}

/// Scan a listing for the first announced frame size.
pub fn scan_first_size(text: &str) -> (r: Option<(u32, u32)>)
    ensures
        r == spec_first_size(spec_split(text@, '\n')),
{
    let lines = split_str(text, '\n');
    let ghost dv = lines.deep_view();
    proof {
        assert(dv.skip(0) =~~= dv);
    }
    let n = lines.len();
    let mut i: usize = 0;
    while i < n
        invariant
            n == dv.len(),
            dv == lines.deep_view(),
            dv == spec_split(text@, '\n'),
            i <= n,
            spec_first_size(dv) == spec_first_size(dv.skip(i as int)),
        decreases n - i,
    {
        let r = parse_size_line(lines[i].as_str());
        proof {
            assert(dv.skip(i as int)[0] == dv[i as int]);
            assert(dv.skip(i as int).skip(1) =~= dv.skip(i as int + 1));
        }
        if let Some(v) = r {
            return Some(v);
        }
        i = i + 1;
    }
    None
}

/// Scan a listing for the first announced frame rate.
pub fn scan_first_fps(text: &str) -> (r: Option<u32>)
    ensures
        r == spec_first_fps(spec_split(text@, '\n')),
{
    let lines = split_str(text, '\n');
    let ghost dv = lines.deep_view();
    proof {
        assert(dv.skip(0) =~~= dv);
    }
    let n = lines.len();
    let mut i: usize = 0;
    while i < n
        invariant
            n == dv.len(),
            dv == lines.deep_view(),
            dv == spec_split(text@, '\n'),
            i <= n,
            spec_first_fps(dv) == spec_first_fps(dv.skip(i as int)),
        decreases n - i,
    {
        let r = parse_fps_line(lines[i].as_str());
        proof {
            assert(dv.skip(i as int)[0] == dv[i as int]);
            assert(dv.skip(i as int).skip(1) =~= dv.skip(i as int + 1));
        }
        if let Some(v) = r {
            return Some(v);
        }
        i = i + 1;
    }
    None
}

/// Scan a listing for every announced pixel-format name.
pub fn scan_pixel_formats(text: &str) -> (r: Vec<String>)
    ensures
        r.deep_view() == spec_formats(spec_split(text@, '\n')),
{
    let lines = split_str(text, '\n');
    let ghost dv = lines.deep_view();
    let n = lines.len();
    let mut fmts: Vec<String> = Vec::new();
    proof {
        assert(dv.skip(0) =~~= dv);
        assert(Seq::<Seq<char>>::empty() + dv =~~= dv);
    }
    let mut i: usize = 0;
    while i < n
        invariant
            n == dv.len(),
            dv == lines.deep_view(),
            dv == spec_split(text@, '\n'),
            i <= n,
            spec_formats(dv) == fmts.deep_view() + spec_formats(dv.skip(i as int)),
        decreases n - i,
    {
        let ghost before = fmts.deep_view();
        let r = parse_format_line(lines[i].as_str());
        proof {
            assert(dv.skip(i as int)[0] == dv[i as int]);
            assert(dv.skip(i as int).skip(1) =~= dv.skip(i as int + 1));
        }
        if let Some(t) = r {
            fmts.push(t);
            proof {
                assert(fmts.deep_view() =~~= before.push(t@));
                assert(before.push(t@) + spec_formats(dv.skip(i as int + 1)) =~~= before + (seq![t@]
                    + spec_formats(dv.skip(i as int + 1))));
            }
        }
        i = i + 1;
    }
    proof {
        assert(dv.skip(n as int) =~~= Seq::<Seq<char>>::empty());
        assert(fmts.deep_view() + Seq::<Seq<char>>::empty() =~~= fmts.deep_view());
    }
    fmts
}

/// Discover a device's capability record from the capability listing
/// that the primary helper tool produced for it, if any.
///
/// This probe never fails: when the listing announces nothing usable,
/// or there is no listing because every helper tier came up empty, the
/// hardcoded default record is returned. Missing pieces of a partial
/// listing are filled from that default, and the first announced size
/// and rate win, in scan order.
pub fn probe_device_caps(_device: &str, listing: Option<&String>) -> (r: DeviceCaps)
    ensures
        r.wf(),
        listing is None ==> is_default_caps(r),
        listing matches Some(t) ==> ({
            let lines = spec_split(t@, '\n');
            let fs = spec_formats(lines);
            let sz = spec_first_size(lines);
            let fp = spec_first_fps(lines);
            if fs.len() > 0 || sz is Some || fp is Some {
                &&& r.width == (match sz {
                    Some(v) => v.0,
                    None => 720u32,
                })
                &&& r.height == (match sz {
                    Some(v) => v.1,
                    None => 480u32,
                })
                &&& r.fps == (match fp {
                    Some(v) => v,
                    None => 30u32,
                })
                &&& r.formats.deep_view() == (if fs.len() > 0 {
                    fs
                } else {
                    seq!["yuyv422"@]
                })
            } else {
                is_default_caps(r)
            }
        }),
{
    match listing {
        None => default_device_caps(),
        Some(text) => {
            let formats = scan_pixel_formats(text.as_str());
            let size = scan_first_size(text.as_str());
            let fps = scan_first_fps(text.as_str());
            if formats.len() == 0 && size.is_none() && fps.is_none() {
                return default_device_caps();
            }
            let (width, height) = match size {
                Some(v) => v,
                None => (720, 480),
            };
            let fps_v = match fps {
                Some(v) => v,
                None => 30,
            };
            let formats_v = if formats.len() > 0 {
                formats
            } else {
                let mut d: Vec<String> = Vec::new();
                d.push(String::from_str("yuyv422"));
                proof {
                    assert(d.deep_view() =~~= seq!["yuyv422"@]);
                }
                d
            };
            proof {
                lemma_first_size_positive(spec_split(text@, '\n'));
                lemma_first_fps_positive(spec_split(text@, '\n'));
            }
            DeviceCaps { width, height, fps: fps_v, formats: formats_v }
        },
    }
}

/// An announced size is always positive: the line parser rejects zero.
proof fn lemma_first_size_positive(lines: Seq<Seq<char>>)
    ensures
        spec_first_size(lines) matches Some(v) ==> v.0 > 0 && v.1 > 0,
    decreases lines.len(),
{
    if lines.len() > 0 {
        lemma_first_size_positive(lines.skip(1));
    }
}

/// An announced rate is always positive: the line parser rejects zero.
proof fn lemma_first_fps_positive(lines: Seq<Seq<char>>)
    ensures
        spec_first_fps(lines) matches Some(v) ==> v > 0,
    decreases lines.len(),
{
    if lines.len() > 0 {
        lemma_first_fps_positive(lines.skip(1));
    }
}

} // verus!
