//! Video enhancement: typed options, the canonical filter chain built
//! from them, and the argument vectors of the enhancement jobs,
//! together with the combined restoration preset for analog tape.

use vstd::prelude::*;
use crate::audio::{audio_filter_exprs, build_audio_filters, AudioEnhanceOptions};
use crate::error::ToolError;
use crate::ffmpeg::{build_filtergraph, check_ffmpeg};
use crate::strnum::{spec_decimal, u32_to_string};
use crate::strutil::spec_join;

verus! {

/// The selectable denoising variants, trading speed for quality.
#[derive(Debug, Clone, PartialEq, Eq, Structural)]
pub enum DenoiseType {
    /// No denoising stage.
    Off,
    /// Fast, conservative.
    Hqdn3d,
    /// High quality, slower.
    Nlmeans,
}

/// Toggles and parameters for video enhancement.
#[derive(Debug, Clone)]
pub struct VideoEnhanceOptions {
    pub deinterlace: bool,
    pub stabilize: bool,
    pub denoise: DenoiseType,
    pub sharpen: bool,
    pub color_adjust: bool,
    pub scale_width: Option<u32>,
    pub scale_height: Option<u32>,
    pub aspect_ratio: Option<String>,
}

impl Default for VideoEnhanceOptions {
    /// Deinterlacing, fast denoising, sharpening and color adjustment;
    /// stabilization off because it is slow, and no geometry change.
    fn default() -> (r: Self)
        ensures
            r.deinterlace == true,
            r.stabilize == false,
            r.denoise == DenoiseType::Hqdn3d,
            r.sharpen == true,
            r.color_adjust == true,
            r.scale_width is None,
            r.scale_height is None,
            r.aspect_ratio is None,
    {
        VideoEnhanceOptions {
            deinterlace: true,
            stabilize: false,
            denoise: DenoiseType::Hqdn3d,
            sharpen: true,
            color_adjust: true,
            scale_width: None,
            scale_height: None,
            aspect_ratio: None,
        }
    }
}

/// One video processing stage with its parameters.
#[derive(Debug, Clone)]
pub enum VideoStage {
    Deinterlace,
    Stabilize,
    DenoiseFast,
    DenoiseHq,
    Sharpen,
    ColorAdjust,
    Scale(u32, u32),
    AspectRatio(String),
}

/// The fixed priority class of each video stage. Deinterlacing must
/// precede the motion-dependent stages, sharpening must precede the
/// geometric resampling, and the display-aspect-ratio assertion is
/// always last.
pub open spec fn video_stage_priority(s: VideoStage) -> int {
    match s {
        VideoStage::Deinterlace => 1,
        VideoStage::Stabilize => 2,
        VideoStage::DenoiseFast => 3,
        VideoStage::DenoiseHq => 3,
        VideoStage::Sharpen => 4,
        VideoStage::ColorAdjust => 5,
        VideoStage::Scale(_, _) => 6,
        VideoStage::AspectRatio(_) => 7,
    }
}

pub open spec fn deint_slot(o: VideoEnhanceOptions) -> Seq<VideoStage> {
    if o.deinterlace {
        seq![VideoStage::Deinterlace]
    } else {
        Seq::<VideoStage>::empty()
    }
}

pub open spec fn stab_slot(o: VideoEnhanceOptions) -> Seq<VideoStage> {
    if o.stabilize {
        seq![VideoStage::Stabilize]
    } else {
        Seq::<VideoStage>::empty()
    }
}

pub open spec fn vdenoise_slot(o: VideoEnhanceOptions) -> Seq<VideoStage> {
    match o.denoise {
        DenoiseType::Off => Seq::<VideoStage>::empty(),
        DenoiseType::Hqdn3d => seq![VideoStage::DenoiseFast],
        DenoiseType::Nlmeans => seq![VideoStage::DenoiseHq],
    }
}

pub open spec fn sharpen_slot(o: VideoEnhanceOptions) -> Seq<VideoStage> {
    if o.sharpen {
        seq![VideoStage::Sharpen]
    } else {
        Seq::<VideoStage>::empty()
    }
}

pub open spec fn color_slot(o: VideoEnhanceOptions) -> Seq<VideoStage> {
    if o.color_adjust {
        seq![VideoStage::ColorAdjust]
    } else {
        Seq::<VideoStage>::empty()
    }
}

pub open spec fn scale_slot(o: VideoEnhanceOptions) -> Seq<VideoStage> {
    match (o.scale_width, o.scale_height) {
        (Some(w), Some(h)) => seq![VideoStage::Scale(w, h)],
        _ => Seq::<VideoStage>::empty(),
    }
}

pub open spec fn dar_slot(o: VideoEnhanceOptions) -> Seq<VideoStage> {
    match o.aspect_ratio {
        Some(a) => seq![VideoStage::AspectRatio(a)],
        None => Seq::<VideoStage>::empty(),
    }
}

/// The canonical video chain: each stage present exactly when its
/// governing option is set, in the fixed priority order. The scale
/// stage requires both dimensions.
pub open spec fn video_stages(o: VideoEnhanceOptions) -> Seq<VideoStage> {
    deint_slot(o) + stab_slot(o) + vdenoise_slot(o) + sharpen_slot(o) + color_slot(o) + scale_slot(
        o,
    ) + dar_slot(o)
}

/// The filter expression of one video stage.
pub open spec fn video_stage_expr(s: VideoStage) -> Seq<char> {
    match s {
        VideoStage::Deinterlace => "bwdif=mode=send_field:parity=auto:deint=all"@,
        VideoStage::Stabilize => "deshake"@,
        VideoStage::DenoiseFast => "hqdn3d=4:3:6:4.5"@,
        VideoStage::DenoiseHq => "nlmeans=s=3.0"@,
        VideoStage::Sharpen => "unsharp=5:5:0.8:3:3:0.4"@,
        VideoStage::ColorAdjust => "eq=brightness=0.02:saturation=1.1"@,
        VideoStage::Scale(w, h) => "scale="@ + spec_decimal(w as int) + ":"@ + spec_decimal(
            h as int,
        ) + ":flags=lanczos"@,
        VideoStage::AspectRatio(a) => "setdar="@ + a@,
    }
}

pub open spec fn deint_exprs(o: VideoEnhanceOptions) -> Seq<Seq<char>> {
    if o.deinterlace {
        seq![video_stage_expr(VideoStage::Deinterlace)]
    } else {
        Seq::<Seq<char>>::empty()
    }
}

pub open spec fn stab_exprs(o: VideoEnhanceOptions) -> Seq<Seq<char>> {
    if o.stabilize {
        seq![video_stage_expr(VideoStage::Stabilize)]
    } else {
        Seq::<Seq<char>>::empty()
    }
}

pub open spec fn vdenoise_exprs(o: VideoEnhanceOptions) -> Seq<Seq<char>> {
    match o.denoise {
        DenoiseType::Off => Seq::<Seq<char>>::empty(),
        DenoiseType::Hqdn3d => seq![video_stage_expr(VideoStage::DenoiseFast)],
        DenoiseType::Nlmeans => seq![video_stage_expr(VideoStage::DenoiseHq)],
    }
}

pub open spec fn sharpen_exprs(o: VideoEnhanceOptions) -> Seq<Seq<char>> {
    if o.sharpen {
        seq![video_stage_expr(VideoStage::Sharpen)]
    } else {
        Seq::<Seq<char>>::empty()
    }
}

pub open spec fn color_exprs(o: VideoEnhanceOptions) -> Seq<Seq<char>> {
    if o.color_adjust {
        seq![video_stage_expr(VideoStage::ColorAdjust)]
    } else {
        Seq::<Seq<char>>::empty()
    }
}

pub open spec fn scale_exprs(o: VideoEnhanceOptions) -> Seq<Seq<char>> {
    match (o.scale_width, o.scale_height) {
        (Some(w), Some(h)) => seq![video_stage_expr(VideoStage::Scale(w, h))],
        _ => Seq::<Seq<char>>::empty(),
    }
}

pub open spec fn dar_exprs(o: VideoEnhanceOptions) -> Seq<Seq<char>> {
    match o.aspect_ratio {
        Some(a) => seq![video_stage_expr(VideoStage::AspectRatio(a))],
        None => Seq::<Seq<char>>::empty(),
    }
}

/// The ordered filter expressions of the canonical video chain.
pub open spec fn video_filter_exprs(o: VideoEnhanceOptions) -> Seq<Seq<char>> {
    deint_exprs(o) + stab_exprs(o) + vdenoise_exprs(o) + sharpen_exprs(o) + color_exprs(o)
        + scale_exprs(o) + dar_exprs(o)
}

/// The expressions are exactly the stage expressions of the canonical
/// chain, stage by stage.
#[verifier::rlimit(100)]
pub proof fn lemma_video_exprs_of_stages(o: VideoEnhanceOptions)
    ensures
        video_filter_exprs(o) == video_stages(o).map_values(|s: VideoStage| video_stage_expr(s)),
{
    let st = video_stages(o);
    let e = video_filter_exprs(o);
    let f = |s: VideoStage| video_stage_expr(s);
    let n1 = deint_slot(o).len() as int;
    let n2 = n1 + stab_slot(o).len();
    let n3 = n2 + vdenoise_slot(o).len();
    let n4 = n3 + sharpen_slot(o).len();
    let n5 = n4 + color_slot(o).len();
    let n6 = n5 + scale_slot(o).len();
    assert(e.len() == st.len());
    assert forall|i: int| 0 <= i < st.len() implies e[i] == f(st[i]) by {
        if i < n1 {
            assert(st[i] == deint_slot(o)[i]);
            assert(e[i] == deint_exprs(o)[i]);
        } else if i < n2 {
            assert(st[i] == stab_slot(o)[i - n1]);
            assert(e[i] == stab_exprs(o)[i - n1]);
        } else if i < n3 {
            assert(st[i] == vdenoise_slot(o)[i - n2]);
            assert(e[i] == vdenoise_exprs(o)[i - n2]);
        } else if i < n4 {
            assert(st[i] == sharpen_slot(o)[i - n3]);
            assert(e[i] == sharpen_exprs(o)[i - n3]);
        } else if i < n5 {
            assert(st[i] == color_slot(o)[i - n4]);
            assert(e[i] == color_exprs(o)[i - n4]);
        } else if i < n6 {
            assert(st[i] == scale_slot(o)[i - n5]);
            assert(e[i] == scale_exprs(o)[i - n5]);
        } else {
            assert(st[i] == dar_slot(o)[i - n6]);
            assert(e[i] == dar_exprs(o)[i - n6]);
        }
    }
    assert(e =~= st.map_values(f));
}

/// The whole video chain appears in strictly increasing priority
/// order, whatever the options record holds.
#[verifier::rlimit(100)]
pub proof fn lemma_video_chain_ordered(o: VideoEnhanceOptions)
    ensures
        forall|i: int, j: int|
            0 <= i < j < video_stages(o).len() ==> video_stage_priority(
                #[trigger] video_stages(o)[i],
            ) < video_stage_priority(#[trigger] video_stages(o)[j]),
{
    let st = video_stages(o);
    let n1 = deint_slot(o).len() as int;
    let n2 = n1 + stab_slot(o).len();
    let n3 = n2 + vdenoise_slot(o).len();
    let n4 = n3 + sharpen_slot(o).len();
    let n5 = n4 + color_slot(o).len();
    let n6 = n5 + scale_slot(o).len();
    assert forall|i: int| 0 <= i < st.len() implies video_stage_priority(#[trigger] st[i]) == (
    if i < n1 {
        1int
    } else if i < n2 {
        2int
    } else if i < n3 {
        3int
    } else if i < n4 {
        4int
    } else if i < n5 {
        5int
    } else if i < n6 {
        6int
    } else {
        7int
    }) by {
        if i < n1 {
            assert(st[i] == deint_slot(o)[i]);
        } else if i < n2 {
            assert(st[i] == stab_slot(o)[i - n1]);
        } else if i < n3 {
            assert(st[i] == vdenoise_slot(o)[i - n2]);
        } else if i < n4 {
            assert(st[i] == sharpen_slot(o)[i - n3]);
        } else if i < n5 {
            assert(st[i] == color_slot(o)[i - n4]);
        } else if i < n6 {
            assert(st[i] == scale_slot(o)[i - n5]);
        } else {
            assert(st[i] == dar_slot(o)[i - n6]);
        }
    }
}

fn scale_expr(w: u32, h: u32) -> (r: String)
    ensures
        r@ == video_stage_expr(VideoStage::Scale(w, h)),
{
    let mut s = String::from_str("scale=");
    s.append(u32_to_string(w).as_str());
    s.append(":");
    s.append(u32_to_string(h).as_str());
    s.append(":flags=lanczos");
    s
}

fn dar_expr(a: &String) -> (r: String)
    ensures
        r@ == video_stage_expr(VideoStage::AspectRatio(*a)),
{
    let mut s = String::from_str("setdar=");
    s.append(a.as_str());
    s
}

/// Build the ordered video filter chain for the given options.
#[verifier::rlimit(50)]
pub fn build_video_filters(opts: &VideoEnhanceOptions) -> (r: Vec<String>)
    ensures
        r.deep_view() == video_filter_exprs(*opts),
{
    let mut filters: Vec<String> = Vec::new();
    if opts.deinterlace {
        filters.push(String::from_str("bwdif=mode=send_field:parity=auto:deint=all"));
    }
    if opts.stabilize {
        filters.push(String::from_str("deshake"));
    }
    match opts.denoise {
        DenoiseType::Off => {},
        DenoiseType::Hqdn3d => {
            filters.push(String::from_str("hqdn3d=4:3:6:4.5"));
        },
        DenoiseType::Nlmeans => {
            filters.push(String::from_str("nlmeans=s=3.0"));
        },
    }
    proof {
        assert(filters.deep_view() =~~= deint_exprs(*opts) + stab_exprs(*opts) + vdenoise_exprs(
            *opts,
        ));
    }
    if opts.sharpen {
        filters.push(String::from_str("unsharp=5:5:0.8:3:3:0.4"));
    }
    if opts.color_adjust {
        filters.push(String::from_str("eq=brightness=0.02:saturation=1.1"));
    }
    proof {
        assert(filters.deep_view() =~~= deint_exprs(*opts) + stab_exprs(*opts) + vdenoise_exprs(
            *opts,
        ) + sharpen_exprs(*opts) + color_exprs(*opts));
    }
    if let Some(w) = opts.scale_width {
        if let Some(h) = opts.scale_height {
            filters.push(scale_expr(w, h));
        }
    }
    if let Some(a) = &opts.aspect_ratio {
        filters.push(dar_expr(a));
    }
    proof {
        assert(filters.deep_view() =~~= video_filter_exprs(*opts));
    }
    filters
}

/// True when the option governing `st`, with `st`'s parameters, is set.
pub open spec fn video_stage_enabled(o: VideoEnhanceOptions, st: VideoStage) -> bool {
    match st {
        VideoStage::Deinterlace => o.deinterlace,
        VideoStage::Stabilize => o.stabilize,
        VideoStage::DenoiseFast => o.denoise == DenoiseType::Hqdn3d,
        VideoStage::DenoiseHq => o.denoise == DenoiseType::Nlmeans,
        VideoStage::Sharpen => o.sharpen,
        VideoStage::ColorAdjust => o.color_adjust,
        VideoStage::Scale(w, h) => o.scale_width == Some(w) && o.scale_height == Some(h),
        VideoStage::AspectRatio(a) => o.aspect_ratio == Some(a),
    }
}

/// A stage stands in the chain exactly when its governing option is
/// set with its parameters.
#[verifier::rlimit(100)]
pub proof fn lemma_video_chain_membership(o: VideoEnhanceOptions, st: VideoStage)
    ensures
        video_stages(o).contains(st) <==> video_stage_enabled(o, st),
{
    let s = video_stages(o);
    let n1 = deint_slot(o).len() as int;
    let n2 = n1 + stab_slot(o).len();
    let n3 = n2 + vdenoise_slot(o).len();
    let n4 = n3 + sharpen_slot(o).len();
    let n5 = n4 + color_slot(o).len();
    let n6 = n5 + scale_slot(o).len();
    if video_stage_enabled(o, st) {
        match st {
            VideoStage::Deinterlace => {
                assert(s[0] == st);
            },
            VideoStage::Stabilize => {
                assert(s[n1] == st);
            },
            VideoStage::DenoiseFast => {
                assert(s[n2 as int] == st);
            },
            VideoStage::DenoiseHq => {
                assert(s[n2 as int] == st);
            },
            VideoStage::Sharpen => {
                assert(s[n3 as int] == st);
            },
            VideoStage::ColorAdjust => {
                assert(s[n4 as int] == st);
            },
            VideoStage::Scale(_, _) => {
                assert(s[n5 as int] == st);
            },
            VideoStage::AspectRatio(_) => {
                assert(s[n6 as int] == st);
            },
        }
        assert(s.contains(st));
    }
    if s.contains(st) {
        let i = choose|i: int| 0 <= i < s.len() && s[i] == st;
        if i < n1 {
            assert(s[i] == deint_slot(o)[i]);
        } else if i < n2 {
            assert(s[i] == stab_slot(o)[i - n1]);
        } else if i < n3 {
            assert(s[i] == vdenoise_slot(o)[i - n2]);
        } else if i < n4 {
            assert(s[i] == sharpen_slot(o)[i - n3]);
        } else if i < n5 {
            assert(s[i] == color_slot(o)[i - n4]);
        } else if i < n6 {
            assert(s[i] == scale_slot(o)[i - n5]);
        } else {
            assert(s[i] == dar_slot(o)[i - n6]);
        }
        assert(video_stage_enabled(o, st));
    }
}

/// The boolean options of the video chain.
#[derive(Debug, Clone, Copy)]
pub enum VideoToggle {
    Deinterlace,
    Stabilize,
    Sharpen,
    ColorAdjust,
}

/// The options record with one boolean option set to `v`.
pub open spec fn with_video_toggle(
    o: VideoEnhanceOptions,
    t: VideoToggle,
    v: bool,
) -> VideoEnhanceOptions {
    match t {
        VideoToggle::Deinterlace => VideoEnhanceOptions { deinterlace: v, ..o },
        VideoToggle::Stabilize => VideoEnhanceOptions { stabilize: v, ..o },
        VideoToggle::Sharpen => VideoEnhanceOptions { sharpen: v, ..o },
        VideoToggle::ColorAdjust => VideoEnhanceOptions { color_adjust: v, ..o },
    }
}

/// True when `s` is the stage governed by the toggle `t`.
pub open spec fn video_governed_by(t: VideoToggle, s: VideoStage) -> bool {
    match t {
        VideoToggle::Deinterlace => s is Deinterlace,
        VideoToggle::Stabilize => s is Stabilize,
        VideoToggle::Sharpen => s is Sharpen,
        VideoToggle::ColorAdjust => s is ColorAdjust,
    }
}

/// Turning exactly one boolean video option off removes exactly the
/// stage it governs and no others.
pub proof fn lemma_video_toggle_off(o: VideoEnhanceOptions, t: VideoToggle)
    ensures
        video_stages(with_video_toggle(o, t, false)) == video_stages(o).filter(
            |s: VideoStage| !video_governed_by(t, s),
        ),
{
    broadcast use vstd::seq_lib::group_seq_properties;

    let pred = |s: VideoStage| !video_governed_by(t, s);
    let off = with_video_toggle(o, t, false);
    reveal_with_fuel(Seq::<_>::filter, 3);
    assert(Seq::<VideoStage>::empty().filter(pred) =~= Seq::<VideoStage>::empty());
    assert(deint_slot(o).filter(pred) =~= deint_slot(off));
    assert(stab_slot(o).filter(pred) =~= stab_slot(off));
    assert(vdenoise_slot(o).filter(pred) =~= vdenoise_slot(off));
    assert(sharpen_slot(o).filter(pred) =~= sharpen_slot(off));
    assert(color_slot(o).filter(pred) =~= color_slot(off));
    assert(scale_slot(o).filter(pred) =~= scale_slot(off));
    assert(dar_slot(o).filter(pred) =~= dar_slot(off));
    assert(video_stages(o).filter(pred) =~= video_stages(off));
}

/// Turning a boolean video option off and back on restores the chain
/// of the record that has the option on.
pub proof fn lemma_video_toggle_roundtrip(o: VideoEnhanceOptions, t: VideoToggle)
    ensures
        video_stages(with_video_toggle(with_video_toggle(o, t, false), t, true)) == video_stages(
            with_video_toggle(o, t, true),
        ),
        video_filter_exprs(with_video_toggle(with_video_toggle(o, t, false), t, true))
            == video_filter_exprs(with_video_toggle(o, t, true)),
{
    assert(with_video_toggle(with_video_toggle(o, t, false), t, true) == with_video_toggle(
        o,
        t,
        true,
    ));
}

/// The joined filtergraph expression of the video chain.
pub open spec fn video_chain_expr(o: VideoEnhanceOptions) -> Seq<char> {
    spec_join(video_filter_exprs(o), ',')
}

/// No built-in stage expression is empty or holds the separator; the
/// aspect-ratio assertion carries the caller's string, so it is
/// covered only when that string itself is non-empty and
/// separator-free, as "4:3" is.
pub proof fn lemma_video_exprs_splittable(o: VideoEnhanceOptions)
    requires
        o.aspect_ratio matches Some(a) ==> crate::strutil::has_no_char(a@, ',') && a@.len() > 0,
    ensures
        forall|i: int|
            0 <= i < video_filter_exprs(o).len() ==> crate::strutil::has_no_char(
                #[trigger] video_filter_exprs(o)[i],
                ',',
            ) && video_filter_exprs(o)[i].len() > 0,
{
    assert forall|i: int|
        0 <= i < video_filter_exprs(o).len() implies crate::strutil::has_no_char(
        #[trigger] video_filter_exprs(o)[i],
        ',',
    ) && video_filter_exprs(o)[i].len() > 0 by {
        lemma_video_stage_expr_splittable(o, i);
    }
}

#[verifier::rlimit(100)]
proof fn lemma_video_stage_expr_splittable(o: VideoEnhanceOptions, i: int)
    requires
        0 <= i < video_filter_exprs(o).len(),
        o.aspect_ratio matches Some(a) ==> crate::strutil::has_no_char(a@, ',') && a@.len() > 0,
    ensures
        crate::strutil::has_no_char(video_filter_exprs(o)[i], ','),
        video_filter_exprs(o)[i].len() > 0,
{
    reveal_strlit("bwdif=mode=send_field:parity=auto:deint=all");
    reveal_strlit("deshake");
    reveal_strlit("hqdn3d=4:3:6:4.5");
    reveal_strlit("nlmeans=s=3.0");
    reveal_strlit("unsharp=5:5:0.8:3:3:0.4");
    reveal_strlit("eq=brightness=0.02:saturation=1.1");
    reveal_strlit("scale=");
    reveal_strlit(":");
    reveal_strlit(":flags=lanczos");
    reveal_strlit("setdar=");
    let e = video_filter_exprs(o);
    let n1 = deint_exprs(o).len() as int;
    let n2 = n1 + stab_exprs(o).len();
    let n3 = n2 + vdenoise_exprs(o).len();
    let n4 = n3 + sharpen_exprs(o).len();
    let n5 = n4 + color_exprs(o).len();
    let n6 = n5 + scale_exprs(o).len();
    if i < n1 {
        assert(e[i] == video_stage_expr(VideoStage::Deinterlace));
    } else if i < n2 {
        assert(e[i] == video_stage_expr(VideoStage::Stabilize));
    } else if i < n3 {
        assert(e[i] == vdenoise_exprs(o)[i - n2]);
    } else if i < n4 {
        assert(e[i] == video_stage_expr(VideoStage::Sharpen));
    } else if i < n5 {
        assert(e[i] == video_stage_expr(VideoStage::ColorAdjust));
    } else if i < n6 {
        let w = o.scale_width->0;
        let h = o.scale_height->0;
        crate::strnum::lemma_decimal_digits(w as int);
        crate::strnum::lemma_decimal_digits(h as int);
        assert(e[i] == "scale="@ + crate::strnum::spec_decimal(w as int) + ":"@
            + crate::strnum::spec_decimal(h as int) + ":flags=lanczos"@);
    } else {
        let a = o.aspect_ratio->0;
        assert(e[i] == "setdar="@ + a@);
    }
}

/// Splitting a non-empty joined video chain on the separator
/// reproduces the ordered stage list, whenever the caller's
/// aspect-ratio string is itself non-empty and separator-free.
pub proof fn lemma_video_chain_roundtrip(o: VideoEnhanceOptions)
    requires
        video_filter_exprs(o).len() > 0,
        o.aspect_ratio matches Some(a) ==> crate::strutil::has_no_char(a@, ',') && a@.len() > 0,
    ensures
        crate::strutil::spec_split(video_chain_expr(o), ',') == video_filter_exprs(o),
{
    lemma_video_exprs_splittable(o);
    crate::strutil::lemma_join_split_roundtrip(video_filter_exprs(o), ',');
}

/// The argument vector of a video enhancement job: filter the video,
/// encode it at fixed quality, copy the audio stream.
pub open spec fn spec_enhance_video_args(
    input: Seq<char>,
    output: Seq<char>,
    o: VideoEnhanceOptions,
) -> Seq<Seq<char>> {
    let vf: Seq<Seq<char>> = if video_filter_exprs(o).len() > 0 {
        seq!["-vf"@, video_chain_expr(o)]
    } else {
        Seq::<Seq<char>>::empty()
    };
    seq!["-i"@, input] + vf + seq![
        "-c:v"@,
        "libx264"@,
        "-preset"@,
        "medium"@,
        "-crf"@,
        "18"@,
        "-c:a"@,
        "copy"@,
        "-y"@,
        output,
    ]
}

/// Plan a video enhancement job.
///
/// Fails only with `ToolMissing`, when the external tool is absent;
/// otherwise returns exactly the canonical argument vector. An empty
/// chain contributes no filter flag, since the external tool rejects
/// an empty filter expression.
pub fn enhance_video(input: &str, output: &str, opts: &VideoEnhanceOptions) -> (r: Result<
    Vec<String>,
    ToolError,
>)
    ensures
        r matches Ok(args) ==> args.deep_view() == spec_enhance_video_args(input@, output@, *opts),
        r is Err ==> r == Result::<Vec<String>, ToolError>::Err(ToolError::ToolMissing),
{
    match check_ffmpeg() {
        Err(e) => {
            return Err(e);
        },
        Ok(()) => {},
    }
    let filters = build_video_filters(opts);
    let mut args: Vec<String> = Vec::new();
    args.push(String::from_str("-i"));
    args.push(input.to_owned());
    if filters.len() > 0 {
        args.push(String::from_str("-vf"));
        args.push(build_filtergraph(&filters));
    }
    args.push(String::from_str("-c:v"));
    args.push(String::from_str("libx264"));
    args.push(String::from_str("-preset"));
    args.push(String::from_str("medium"));
    args.push(String::from_str("-crf"));
    args.push(String::from_str("18"));
    args.push(String::from_str("-c:a"));
    args.push(String::from_str("copy"));
    args.push(String::from_str("-y"));
    args.push(output.to_owned());
    proof {
        assert(args.deep_view() =~~= spec_enhance_video_args(input@, output@, *opts));
    }
    Ok(args)
}

/// The video options of the tape-restoration preset: full cleanup with
/// stabilization and the typical 4:3 display aspect.
pub open spec fn spec_vhs_video_options(o: VideoEnhanceOptions) -> bool {
    &&& o.deinterlace == true
    &&& o.stabilize == true
    &&& o.denoise == DenoiseType::Hqdn3d
    &&& o.sharpen == true
    &&& o.color_adjust == true
    &&& o.scale_width is None
    &&& o.scale_height is None
    &&& o.aspect_ratio matches Some(a) && a@ == "4:3"@
}

/// The audio options of the tape-restoration preset: full cleanup with
/// a low-pass at 15 kHz against tape hiss and the caller's mains-hum
/// notch.
pub open spec fn spec_vhs_audio_options(a: AudioEnhanceOptions, notch_freq: Option<u32>) -> bool {
    a == (AudioEnhanceOptions {
        denoise: true,
        normalize: true,
        highpass_freq: Some(80u32),
        lowpass_freq: Some(15000u32),
        notch_freq,
        compressor: true,
        gate: true,
        gate_threshold_tenths: -500i32,
    })
}

/// The argument vector of a tape-restoration job: both chains, slow
/// high-quality video encoding, and 192k audio.
pub open spec fn spec_vhs_rescue_args(
    input: Seq<char>,
    output: Seq<char>,
    vo: VideoEnhanceOptions,
    ao: AudioEnhanceOptions,
) -> Seq<Seq<char>> {
    seq![
        "-i"@,
        input,
        "-vf"@,
        video_chain_expr(vo),
        "-af"@,
        spec_join(audio_filter_exprs(ao), ','),
        "-c:v"@,
        "libx264"@,
        "-preset"@,
        "slow"@,
        "-crf"@,
        "18"@,
        "-c:a"@,
        "aac"@,
        "-b:a"@,
        "192k"@,
        "-y"@,
        output,
    ]
}

/// Plan a combined video and audio restoration job for analog tape
/// material, with an optional mains-hum notch at the given frequency.
///
/// Fails only with `ToolMissing`. The two chains of the preset are
/// never empty, so both filter flags are always present.
pub fn vhs_rescue(input: &str, output: &str, notch_freq: Option<u32>) -> (r: Result<
    Vec<String>,
    ToolError,
>)
    ensures
        r matches Ok(args) ==> exists|vo: VideoEnhanceOptions, ao: AudioEnhanceOptions|
            spec_vhs_video_options(vo) && spec_vhs_audio_options(ao, notch_freq)
                && args.deep_view() == spec_vhs_rescue_args(input@, output@, vo, ao),
        r is Err ==> r == Result::<Vec<String>, ToolError>::Err(ToolError::ToolMissing),
{
    match check_ffmpeg() {
        Err(e) => {
            return Err(e);
        },
        Ok(()) => {},
    }
    let video_opts = VideoEnhanceOptions {
        deinterlace: true,
        stabilize: true,
        denoise: DenoiseType::Hqdn3d,
        sharpen: true,
        color_adjust: true,
        scale_width: None,
        scale_height: None,
        aspect_ratio: Some(String::from_str("4:3")),
    };
    let audio_opts = AudioEnhanceOptions {
        denoise: true,
        normalize: true,
        highpass_freq: Some(80),
        lowpass_freq: Some(15000),
        notch_freq,
        compressor: true,
        gate: true,
        gate_threshold_tenths: -500,
    };
    let vf = build_video_filters(&video_opts);
    let af = build_audio_filters(&audio_opts);
    let mut args: Vec<String> = Vec::new();
    args.push(String::from_str("-i"));
    args.push(input.to_owned());
    args.push(String::from_str("-vf"));
    args.push(build_filtergraph(&vf));
    args.push(String::from_str("-af"));
    args.push(build_filtergraph(&af));
    args.push(String::from_str("-c:v"));
    args.push(String::from_str("libx264"));
    args.push(String::from_str("-preset"));
    args.push(String::from_str("slow"));
    args.push(String::from_str("-crf"));
    args.push(String::from_str("18"));
    args.push(String::from_str("-c:a"));
    args.push(String::from_str("aac"));
    args.push(String::from_str("-b:a"));
    args.push(String::from_str("192k"));
    args.push(String::from_str("-y"));
    args.push(output.to_owned());
    proof {
        assert(spec_vhs_video_options(video_opts));
        assert(spec_vhs_audio_options(audio_opts, notch_freq));
        assert(args.deep_view() =~~= spec_vhs_rescue_args(input@, output@, video_opts, audio_opts));
    }
    Ok(args)
}

} // verus!
