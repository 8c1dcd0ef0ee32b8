//! Capture from a video and an audio device: typed options, the
//! argument vector of a capture run, and the parsing and tiered
//! selection behind device discovery.

use vstd::prelude::*;
use crate::error::ToolError;
use crate::ffmpeg::{build_filtergraph, check_ffmpeg};
use crate::strnum::{spec_decimal, u32_to_string};
use crate::strutil::{find_sub_from, matches_at, spec_find, spec_join, spec_split, spec_trim,
    split_str, starts_with, str_eq, trim_str};

verus! {

/// The target container of a capture run.
#[derive(Debug, Clone, PartialEq, Eq, Structural)]
pub enum CaptureFormat {
    /// H.264 and AAC in an MP4 container.
    Mp4,
    /// A Matroska container.
    Mkv,
}

/// Options of one capture run.
#[derive(Debug, Clone)]
pub struct CaptureOptions {
    pub format: CaptureFormat,
    /// The capture device, such as "/dev/video0".
    pub video_device: String,
    /// The sound device, such as "hw:1,0".
    pub audio_device: String,
    pub deinterlace: bool,
    pub stabilize: bool,
    /// The denoising filter by name: "hqdn3d" or "nlmeans"; any other
    /// name adds no denoising stage.
    pub denoise: Option<String>,
    /// An explicit video bitrate such as "5M"; it takes precedence
    /// over the fixed-quality value.
    pub video_bitrate: Option<String>,
    /// The fixed-quality value, used when no bitrate is set.
    pub crf: Option<u32>,
    pub width: Option<u32>,
    pub height: Option<u32>,
    pub fps: Option<u32>,
    /// The audio bitrate, such as "192k".
    pub audio_bitrate: String,
    /// Near-lossless settings for archival capture.
    pub archival_mode: bool,
}

impl Default for CaptureOptions {
    /// Standard-definition capture from the first devices, deinterlaced
    /// and denoised, at fixed quality 23 and 192k audio.
    fn default() -> (r: Self)
        ensures
            r.format == CaptureFormat::Mp4,
            r.video_device@ == "/dev/video0"@,
            r.audio_device@ == "hw:1,0"@,
            r.deinterlace == true,
            r.stabilize == false,
            r.denoise matches Some(d) && d@ == "hqdn3d"@,
            r.video_bitrate is None,
            r.crf == Some(23u32),
            r.width == Some(720u32),
            r.height == Some(480u32),
            r.fps == Some(30u32),
            r.audio_bitrate@ == "192k"@,
            r.archival_mode == false,
    {
        CaptureOptions {
            format: CaptureFormat::Mp4,
            video_device: String::from_str("/dev/video0"),
            audio_device: String::from_str("hw:1,0"),
            deinterlace: true,
            stabilize: false,
            denoise: Some(String::from_str("hqdn3d")),
            video_bitrate: None,
            crf: Some(23),
            width: Some(720),
            height: Some(480),
            fps: Some(30),
            audio_bitrate: String::from_str("192k"),
            archival_mode: false,
        }
    }
}

/// The video-input arguments: the capture interface, a deep input
/// queue, and the requested geometry and rate where given.
pub open spec fn spec_capture_input_args(o: CaptureOptions) -> Seq<Seq<char>> {
    let size: Seq<Seq<char>> = match (o.width, o.height) {
        (Some(w), Some(h)) => seq![
            "-video_size"@,
            spec_decimal(w as int) + "x"@ + spec_decimal(h as int),
        ],
        _ => Seq::<Seq<char>>::empty(),
    };
    let rate: Seq<Seq<char>> = match o.fps {
        Some(f) => seq!["-framerate"@, spec_decimal(f as int)],
        None => Seq::<Seq<char>>::empty(),
    };
    seq!["-f"@, "v4l2"@, "-thread_queue_size"@, "512"@] + size + rate + seq![
        "-i"@,
        o.video_device@,
    ] + seq!["-f"@, "alsa"@, "-thread_queue_size"@, "512"@, "-i"@, o.audio_device@]
}

/// The capture-time video filter chain: deinterlacing, stabilization
/// and the named denoiser, in that order.
pub open spec fn spec_capture_vfilters(o: CaptureOptions) -> Seq<Seq<char>> {
    (if o.deinterlace {
        seq!["bwdif"@]
    } else {
        Seq::<Seq<char>>::empty()
    }) + (if o.stabilize {
        seq!["deshake"@]
    } else {
        Seq::<Seq<char>>::empty()
    }) + (match o.denoise {
        Some(d) => if d@ == "hqdn3d"@ {
            seq!["hqdn3d=4:3:6:4.5"@]
        } else if d@ == "nlmeans"@ {
            seq!["nlmeans=s=3.0"@]
        } else {
            Seq::<Seq<char>>::empty()
        },
        None => Seq::<Seq<char>>::empty(),
    })
}

/// The filter flag of a capture run; absent when no filter is enabled.
pub open spec fn spec_capture_vf_args(o: CaptureOptions) -> Seq<Seq<char>> {
    if spec_capture_vfilters(o).len() > 0 {
        seq!["-vf"@, spec_join(spec_capture_vfilters(o), ',')]
    } else {
        Seq::<Seq<char>>::empty()
    }
}

/// The video-codec arguments. Archival capture is intra-only at high
/// quality; otherwise an explicit bitrate wins over the fixed-quality
/// value.
pub open spec fn spec_capture_vcodec_args(o: CaptureOptions) -> Seq<Seq<char>> {
    if o.archival_mode {
        seq![
            "-c:v"@,
            "libx264"@,
            "-preset"@,
            "ultrafast"@,
            "-crf"@,
            "18"@,
            "-tune"@,
            "grain"@,
            "-g"@,
            "1"@,
        ]
    } else {
        seq!["-c:v"@, "libx264"@, "-preset"@, "medium"@] + (match o.video_bitrate {
            Some(b) => seq!["-b:v"@, b@],
            None => match o.crf {
                Some(c) => seq!["-crf"@, spec_decimal(c as int)],
                None => Seq::<Seq<char>>::empty(),
            },
        })
    }
}

/// The audio-codec arguments. Archival capture stores PCM where the
/// container takes it and high-bitrate AAC where it does not.
pub open spec fn spec_capture_acodec_args(o: CaptureOptions) -> Seq<Seq<char>> {
    if o.archival_mode {
        match o.format {
            CaptureFormat::Mkv => seq!["-c:a"@, "pcm_s16le"@],
            CaptureFormat::Mp4 => seq!["-c:a"@, "aac"@, "-b:a"@, "320k"@],
        }
    } else {
        seq!["-c:a"@, "aac"@, "-b:a"@, o.audio_bitrate@]
    }
}

/// The container and output arguments.
pub open spec fn spec_capture_tail_args(o: CaptureOptions, output: Seq<char>) -> Seq<Seq<char>> {
    (match o.format {
        CaptureFormat::Mp4 => seq!["-f"@, "mp4"@],
        CaptureFormat::Mkv => seq!["-f"@, "matroska"@],
    }) + seq!["-y"@, output]
}

/// The whole argument vector of a capture run.
pub open spec fn spec_capture_args(output: Seq<char>, o: CaptureOptions) -> Seq<Seq<char>> {
    spec_capture_input_args(o) + spec_capture_vf_args(o) + spec_capture_vcodec_args(o)
        + spec_capture_acodec_args(o) + spec_capture_tail_args(o, output)
}

/// Plan a capture run to the given output path.
///
/// Fails only with `ToolMissing`, when the external tool is absent;
/// otherwise returns exactly the canonical argument vector.
#[verifier::rlimit(100)]
pub fn capture(output: &str, opts: &CaptureOptions) -> (r: Result<Vec<String>, ToolError>)
    ensures
        r matches Ok(args) ==> args.deep_view() == spec_capture_args(output@, *opts),
        r is Err ==> r == Result::<Vec<String>, ToolError>::Err(ToolError::ToolMissing),
{
    match check_ffmpeg() {
        Err(e) => {
            return Err(e);
        },
        Ok(()) => {},
    }
    let mut args: Vec<String> = Vec::new();
    args.push(String::from_str("-f"));
    args.push(String::from_str("v4l2"));
    args.push(String::from_str("-thread_queue_size"));
    args.push(String::from_str("512"));
    if let Some(w) = opts.width {
        if let Some(h) = opts.height {
            args.push(String::from_str("-video_size"));
            let mut size = u32_to_string(w);
            size.append("x");
            size.append(u32_to_string(h).as_str());
            proof {
                reveal_strlit("x");
            }
            args.push(size);
        }
    }
    if let Some(f) = opts.fps {
        args.push(String::from_str("-framerate"));
        args.push(u32_to_string(f));
    }
    args.push(String::from_str("-i"));
    args.push(opts.video_device.clone());
    args.push(String::from_str("-f"));
    args.push(String::from_str("alsa"));
    args.push(String::from_str("-thread_queue_size"));
    args.push(String::from_str("512"));
    args.push(String::from_str("-i"));
    args.push(opts.audio_device.clone());
    proof {
        assert(args.deep_view() =~~= spec_capture_input_args(*opts));
    }
    let mut vfilters: Vec<String> = Vec::new();
    if opts.deinterlace {
        vfilters.push(String::from_str("bwdif"));
    }
    if opts.stabilize {
        vfilters.push(String::from_str("deshake"));
    }
    if let Some(d) = &opts.denoise {
        if str_eq(d.as_str(), "hqdn3d") {
            vfilters.push(String::from_str("hqdn3d=4:3:6:4.5"));
        } else if str_eq(d.as_str(), "nlmeans") {
            vfilters.push(String::from_str("nlmeans=s=3.0"));
        }
    }
    proof {
        assert(vfilters.deep_view() =~~= spec_capture_vfilters(*opts));
    }
    if vfilters.len() > 0 {
        args.push(String::from_str("-vf"));
        args.push(build_filtergraph(&vfilters));
    }
    proof {
        assert(args.deep_view() =~~= spec_capture_input_args(*opts) + spec_capture_vf_args(*opts));
    }
    if opts.archival_mode {
        args.push(String::from_str("-c:v"));
        args.push(String::from_str("libx264"));
        args.push(String::from_str("-preset"));
        args.push(String::from_str("ultrafast"));
        args.push(String::from_str("-crf"));
        args.push(String::from_str("18"));
        args.push(String::from_str("-tune"));
        args.push(String::from_str("grain"));
        args.push(String::from_str("-g"));
        args.push(String::from_str("1"));
    } else {
        args.push(String::from_str("-c:v"));
        args.push(String::from_str("libx264"));
        args.push(String::from_str("-preset"));
        args.push(String::from_str("medium"));
        if let Some(b) = &opts.video_bitrate {
            args.push(String::from_str("-b:v"));
            args.push(b.clone());
        } else if let Some(c) = opts.crf {
            args.push(String::from_str("-crf"));
            args.push(u32_to_string(c));
        }
    }
    proof {
        assert(args.deep_view() =~~= spec_capture_input_args(*opts) + spec_capture_vf_args(*opts)
            + spec_capture_vcodec_args(*opts));
    }
    if opts.archival_mode {
        match opts.format {
            CaptureFormat::Mkv => {
                args.push(String::from_str("-c:a"));
                args.push(String::from_str("pcm_s16le"));
            },
            CaptureFormat::Mp4 => {
                args.push(String::from_str("-c:a"));
                args.push(String::from_str("aac"));
                args.push(String::from_str("-b:a"));
                args.push(String::from_str("320k"));
            },
        }
    } else {
        args.push(String::from_str("-c:a"));
        args.push(String::from_str("aac"));
        args.push(String::from_str("-b:a"));
        args.push(opts.audio_bitrate.clone());
    }
    match opts.format {
        CaptureFormat::Mp4 => {
            args.push(String::from_str("-f"));
            args.push(String::from_str("mp4"));
        },
        CaptureFormat::Mkv => {
            args.push(String::from_str("-f"));
            args.push(String::from_str("matroska"));
        },
    }
    args.push(String::from_str("-y"));
    args.push(output.to_owned());
    proof {
        assert(args.deep_view() =~~= spec_capture_args(output@, *opts));
    }
    Ok(args)
}

/// The lines of a primary device listing that name a capture device:
/// each line whose trimmed form starts with "/dev/video", trimmed.
pub open spec fn spec_v4l2_devices(lines: Seq<Seq<char>>) -> Seq<Seq<char>>
    decreases lines.len(),
{
    if lines.len() == 0 {
        Seq::<Seq<char>>::empty()
    } else {
        (if matches_at(spec_trim(lines[0]), "/dev/video"@, 0) {
            seq![spec_trim(lines[0])]
        } else {
            Seq::<Seq<char>>::empty()
        }) + spec_v4l2_devices(lines.skip(1))
    }
}

/// Parse the primary helper's device listing: every line that, after
/// trimming, starts with "/dev/video", in order.
pub fn parse_v4l2_device_list(text: &str) -> (r: Vec<String>)
    ensures
        r.deep_view() == spec_v4l2_devices(spec_split(text@, '\n')),
{
    let lines = split_str(text, '\n');
    let ghost dv = lines.deep_view();
    proof {
        assert(dv.skip(0) =~~= dv);
        assert(Seq::<Seq<char>>::empty() + dv =~~= dv);
    }
    let n = lines.len();
    let mut out: Vec<String> = Vec::new();
    let mut i: usize = 0;
    while i < n
        invariant
            n == dv.len(),
            dv == lines.deep_view(),
            dv == spec_split(text@, '\n'),
            i <= n,
            spec_v4l2_devices(dv) == out.deep_view() + spec_v4l2_devices(dv.skip(i as int)),
        decreases n - i,
    {
        let ghost before = out.deep_view();
        let t = trim_str(lines[i].as_str());
        let keep = starts_with(t.as_str(), "/dev/video");
        proof {
            assert(dv.skip(i as int)[0] == dv[i as int]);
            assert(dv.skip(i as int).skip(1) =~= dv.skip(i as int + 1));
        }
        if keep {
            let ghost tview = t@;
            out.push(t);
            proof {
                assert(out.deep_view() =~~= before.push(tview));
                assert(before.push(tview) + spec_v4l2_devices(dv.skip(i as int + 1)) =~~= before + (
                seq![tview] + spec_v4l2_devices(dv.skip(i as int + 1))));
            }
        }
        i = i + 1;
    }
    proof {
        assert(dv.skip(n as int) =~~= Seq::<Seq<char>>::empty());
        assert(spec_v4l2_devices(Seq::<Seq<char>>::empty()) =~~= Seq::<Seq<char>>::empty());
        assert(out.deep_view() + Seq::<Seq<char>>::empty() =~~= out.deep_view());
    }
    out
}

/// The first space-separated piece of a line that starts with the
/// given prefix.
pub open spec fn spec_first_with_prefix(pieces: Seq<Seq<char>>, prefix: Seq<char>) -> Option<
    Seq<char>,
>
    decreases pieces.len(),
{
    if pieces.len() == 0 {
        None
    } else if matches_at(pieces[0], prefix, 0) {
        Some(pieces[0])
    } else {
        spec_first_with_prefix(pieces.skip(1), prefix)
    }
}

/// The device tokens of a secondary, diagnostic-text listing: for each
/// line, its first space-separated token starting with "/dev/video".
pub open spec fn spec_diag_devices(lines: Seq<Seq<char>>) -> Seq<Seq<char>>
    decreases lines.len(),
{
    if lines.len() == 0 {
        Seq::<Seq<char>>::empty()
    } else {
        (match spec_first_with_prefix(spec_split(lines[0], ' '), "/dev/video"@) {
            Some(t) => seq![t],
            None => Seq::<Seq<char>>::empty(),
        }) + spec_diag_devices(lines.skip(1))
    }
}

/// The first space-separated piece of one line that starts with the
/// given prefix.
pub fn first_piece_with_prefix(line: &str, prefix: &str) -> (r: Option<String>)
    ensures
        spec_first_with_prefix(spec_split(line@, ' '), prefix@) == (match r {
            Some(t) => Some(t@),
            None => None::<Seq<char>>,
        }),
{
    let pieces = split_str(line, ' ');
    let ghost dv = pieces.deep_view();
    proof {
        assert(dv.skip(0) =~~= dv);
    }
    let n = pieces.len();
    let mut i: usize = 0;
    while i < n
        invariant
            n == dv.len(),
            dv == pieces.deep_view(),
            dv == spec_split(line@, ' '),
            i <= n,
            spec_first_with_prefix(dv, prefix@) == spec_first_with_prefix(
                dv.skip(i as int),
                prefix@,
            ),
        decreases n - i,
    {
        let hit = starts_with(pieces[i].as_str(), prefix);
        proof {
            assert(dv.skip(i as int)[0] == dv[i as int]);
            assert(dv.skip(i as int).skip(1) =~= dv.skip(i as int + 1));
        }
        if hit {
            return Some(pieces[i].clone());
        }
        i = i + 1;
    }
    None
}

/// Parse a secondary diagnostic listing: for each line, its first
/// token that names a capture device, in order.
pub fn parse_diag_device_list(text: &str) -> (r: Vec<String>)
    ensures
        r.deep_view() == spec_diag_devices(spec_split(text@, '\n')),
{
    let lines = split_str(text, '\n');
    let ghost dv = lines.deep_view();
    proof {
        assert(dv.skip(0) =~~= dv);
        assert(Seq::<Seq<char>>::empty() + dv =~~= dv);
    }
    let n = lines.len();
    let mut out: Vec<String> = Vec::new();
    let mut i: usize = 0;
    while i < n
        invariant
            n == dv.len(),
            dv == lines.deep_view(),
            dv == spec_split(text@, '\n'),
            i <= n,
            spec_diag_devices(dv) == out.deep_view() + spec_diag_devices(dv.skip(i as int)),
        decreases n - i,
    {
        let ghost before = out.deep_view();
        let tok = first_piece_with_prefix(lines[i].as_str(), "/dev/video");
        proof {
            assert(dv.skip(i as int)[0] == dv[i as int]);
            assert(dv.skip(i as int).skip(1) =~= dv.skip(i as int + 1));
        }
        if let Some(t) = tok {
            let ghost tview = t@;
            out.push(t);
            proof {
                assert(out.deep_view() =~~= before.push(tview));
                assert(before.push(tview) + spec_diag_devices(dv.skip(i as int + 1)) =~~= before + (
                seq![tview] + spec_diag_devices(dv.skip(i as int + 1))));
            }
        }
        i = i + 1;
    }
    proof {
        assert(dv.skip(n as int) =~~= Seq::<Seq<char>>::empty());
        assert(spec_diag_devices(Seq::<Seq<char>>::empty()) =~~= Seq::<Seq<char>>::empty());
        assert(out.deep_view() + Seq::<Seq<char>>::empty() =~~= out.deep_view());
    }
    out
}

/// Choose the video devices from the tiered listings: the primary
/// helper's listing wins when it names any device; else the secondary
/// diagnostic scan; else the conventional default device, when the
/// filesystem says it exists; else none.
pub fn select_video_devices(
    primary: Option<&String>,
    secondary: Option<&String>,
    default_exists: bool,
) -> (r: Vec<String>)
    ensures
        ({
            let a = match primary {
                Some(t) => spec_v4l2_devices(spec_split(t@, '\n')),
                None => Seq::<Seq<char>>::empty(),
            };
            let b = match secondary {
                Some(t) => spec_diag_devices(spec_split(t@, '\n')),
                None => Seq::<Seq<char>>::empty(),
            };
            if a.len() > 0 {
                r.deep_view() == a
            } else if b.len() > 0 {
                r.deep_view() == b
            } else if default_exists {
                r.deep_view() == seq!["/dev/video0"@]
            } else {
                r.deep_view() == Seq::<Seq<char>>::empty()
            }
        }),
{
    if let Some(t) = primary {
        let a = parse_v4l2_device_list(t.as_str());
        if a.len() > 0 {
            return a;
        }
    }
    if let Some(t) = secondary {
        let b = parse_diag_device_list(t.as_str());
        if b.len() > 0 {
            return b;
        }
    }
    let mut r: Vec<String> = Vec::new();
    if default_exists {
        r.push(String::from_str("/dev/video0"));
        proof {
            assert(r.deep_view() =~~= seq!["/dev/video0"@]);
        }
    } else {
        proof {
            assert(r.deep_view() =~~= Seq::<Seq<char>>::empty());
        }
    }
    r
}

/// The text of `s` up to its first ':', or all of it.
pub open spec fn spec_up_to_colon(s: Seq<char>) -> Seq<char> {
    match spec_find(s, ":"@, 0) {
        Some(j) => s.take(j),
        None => s,
    }
}

/// The sound-device name a listing line announces: a line that names
/// both a card and a device yields "hw:" with the trimmed text between
/// each marker and the following ':'.
pub open spec fn spec_arecord_device(l: Seq<char>) -> Option<Seq<char>> {
    match (spec_find(l, "card"@, 0), spec_find(l, "device"@, 0)) {
        (Some(ci), Some(di)) => {
            let card = spec_trim(spec_up_to_colon(l.skip(ci + 4)));
            let dev = spec_trim(spec_up_to_colon(l.skip(di + 6)));
            Some("hw:"@ + card + ","@ + dev)
        },
        _ => None,
    }
}

/// The text of `s` up to its first ':'.
fn up_to_colon(s: &str) -> (r: String)
    ensures
        r@ == spec_up_to_colon(s@),
{
    let n = s.unicode_len();
    proof {
        crate::strutil::lemma_spec_find(s@, ":"@, 0);
        reveal_strlit(":");
    }
    match find_sub_from(s, ":", 0) {
        Some(j) => {
            assert(j <= n);
            assert(spec_find(s@, ":"@, 0) == Some(j as int));
            assert(spec_up_to_colon(s@) == s@.take(j as int));
            let piece = s.substring_char(0, j);
            proof {
                assert(piece@ =~= s@.take(j as int));
            }
            piece.to_owned()
        },
        None => {
            assert(spec_up_to_colon(s@) == s@);
            s.to_owned()
        },
    }
}

/// Read the sound-device name one listing line announces.
pub fn parse_arecord_line(line: &str) -> (r: Option<String>)
    ensures
        spec_arecord_device(line@) == (match r {
            Some(t) => Some(t@),
            None => None::<Seq<char>>,
        }),
{
    let n = line.unicode_len();
    let ci = match find_sub_from(line, "card", 0) {
        Some(i) => i,
        None => {
            return None;
        },
    };
    let di = match find_sub_from(line, "device", 0) {
        Some(i) => i,
        None => {
            return None;
        },
    };
    proof {
        crate::strutil::lemma_spec_find(line@, "card"@, 0);
        crate::strutil::lemma_spec_find(line@, "device"@, 0);
        reveal_strlit("card");
        reveal_strlit("device");
    }
    let after_card = line.substring_char(ci + 4, n);
    let after_dev = line.substring_char(di + 6, n);
    proof {
        assert(after_card@ =~= line@.skip(ci + 4));
        assert(after_dev@ =~= line@.skip(di + 6));
    }
    let card = trim_str(up_to_colon(after_card).as_str());
    let dev = trim_str(up_to_colon(after_dev).as_str());
    let mut out = String::from_str("hw:");
    out.append(card.as_str());
    out.append(",");
    out.append(dev.as_str());
    proof {
        reveal_strlit(",");
        assert(out@ =~= "hw:"@ + card@ + ","@ + dev@);
    }
    Some(out)
}

/// The sound devices an input listing announces, one per line that
/// names a card and a device.
pub open spec fn spec_arecord_devices(lines: Seq<Seq<char>>) -> Seq<Seq<char>>
    decreases lines.len(),
{
    if lines.len() == 0 {
        Seq::<Seq<char>>::empty()
    } else {
        (match spec_arecord_device(lines[0]) {
            Some(t) => seq![t],
            None => Seq::<Seq<char>>::empty(),
        }) + spec_arecord_devices(lines.skip(1))
    }
}

/// Parse the sound-device listing: every announced device, in order.
pub fn parse_arecord_device_list(text: &str) -> (r: Vec<String>)
    ensures
        r.deep_view() == spec_arecord_devices(spec_split(text@, '\n')),
{
    let lines = split_str(text, '\n');
    let ghost dv = lines.deep_view();
    proof {
        assert(dv.skip(0) =~~= dv);
        assert(Seq::<Seq<char>>::empty() + dv =~~= dv);
    }
    let n = lines.len();
    let mut out: Vec<String> = Vec::new();
    let mut i: usize = 0;
    while i < n
        invariant
            n == dv.len(),
            dv == lines.deep_view(),
            dv == spec_split(text@, '\n'),
            i <= n,
            spec_arecord_devices(dv) == out.deep_view() + spec_arecord_devices(dv.skip(i as int)),
        decreases n - i,
    {
        let ghost before = out.deep_view();
        let tok = parse_arecord_line(lines[i].as_str());
        proof {
            assert(dv.skip(i as int)[0] == dv[i as int]);
            assert(dv.skip(i as int).skip(1) =~= dv.skip(i as int + 1));
        }
        if let Some(t) = tok {
            let ghost tview = t@;
            out.push(t);
            proof {
                assert(out.deep_view() =~~= before.push(tview));
                assert(before.push(tview) + spec_arecord_devices(dv.skip(i as int + 1))
                    =~~= before + (seq![tview] + spec_arecord_devices(dv.skip(i as int + 1))));
            }
        }
        i = i + 1;
    }
    proof {
        assert(dv.skip(n as int) =~~= Seq::<Seq<char>>::empty());
        assert(spec_arecord_devices(Seq::<Seq<char>>::empty()) =~~= Seq::<Seq<char>>::empty());
        assert(out.deep_view() + Seq::<Seq<char>>::empty() =~~= out.deep_view());
    }
    out
}

/// Choose the sound devices: the listing's devices when it announces
/// any, else the conventional default device. The result is never
/// empty.
pub fn select_audio_devices(listing: Option<&String>) -> (r: Vec<String>)
    ensures
        r.deep_view().len() > 0,
        ({
            let a = match listing {
                Some(t) => spec_arecord_devices(spec_split(t@, '\n')),
                None => Seq::<Seq<char>>::empty(),
            };
            if a.len() > 0 {
                r.deep_view() == a
            } else {
                r.deep_view() == seq!["hw:0,0"@]
            }
        }),
{
    if let Some(t) = listing {
        let a = parse_arecord_device_list(t.as_str());
        if a.len() > 0 {
            return a;
        }
    }
    let mut r: Vec<String> = Vec::new();
    r.push(String::from_str("hw:0,0"));
    proof {
        assert(r.deep_view() =~~= seq!["hw:0,0"@]);
    }
    r
}

} // verus!
