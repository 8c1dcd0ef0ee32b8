//! Audio enhancement: typed options, the canonical filter chain built
//! from them, and the argument vectors of the enhancement jobs.

use vstd::prelude::*;
use vstd::seq_lib::group_seq_properties;
use crate::error::ToolError;
use crate::ffmpeg::{build_filtergraph, check_ffmpeg};
use crate::strnum::{spec_decimal, spec_tenths, tenths_to_string, u32_to_string};
use crate::strutil::spec_join;

verus! {

/// Toggles and numeric parameters for audio enhancement.
///
/// The noise-gate threshold is carried in tenths of a decibel, so the
/// default of -50 dB is -500 and a threshold of -42.5 dB is -425.
#[derive(Debug, Clone)]
pub struct AudioEnhanceOptions {
    pub denoise: bool,
    pub normalize: bool,
    pub highpass_freq: Option<u32>,
    pub lowpass_freq: Option<u32>,
    /// Hum removal, typically at 50 or 60 Hz.
    pub notch_freq: Option<u32>,
    pub compressor: bool,
    pub gate: bool,
    /// Gate threshold in tenths of a decibel.
    pub gate_threshold_tenths: i32,
}

impl Default for AudioEnhanceOptions {
    /// Rumble removal at 80 Hz, denoising, gating at -50 dB,
    /// compression and loudness normalization; no low-pass and no
    /// notch.
    fn default() -> (r: Self)
        ensures
            (r == AudioEnhanceOptions {
                denoise: true,
                normalize: true,
                highpass_freq: Some(80u32),
                lowpass_freq: None,
                notch_freq: None,
                compressor: true,
                gate: true,
                gate_threshold_tenths: -500i32,
            }),
    {
        AudioEnhanceOptions {
            denoise: true,
            normalize: true,
            highpass_freq: Some(80),
            lowpass_freq: None,
            notch_freq: None,
            compressor: true,
            gate: true,
            gate_threshold_tenths: -500,
        }
    }
}

/// One audio processing stage, identified with its parameters.
#[derive(Debug, Clone, Copy)]
pub enum AudioStage {
    HighPass(u32),
    LowPass(u32),
    Notch(u32),
    Denoise,
    Gate(i32),
    Compressor,
    Normalize,
}

/// The fixed priority class of each stage: chain position is decided
/// by this table alone, never by the order in which option fields were
/// populated. Loudness normalization is last because it corrects the
/// final signal after all other shaping.
pub open spec fn stage_priority(s: AudioStage) -> int {
    match s {
        AudioStage::HighPass(_) => 1,
        AudioStage::LowPass(_) => 2,
        AudioStage::Notch(_) => 3,
        AudioStage::Denoise => 4,
        AudioStage::Gate(_) => 5,
        AudioStage::Compressor => 6,
        AudioStage::Normalize => 7,
    }
}

pub open spec fn hp_slot(o: AudioEnhanceOptions) -> Seq<AudioStage> {
    match o.highpass_freq {
        Some(f) => seq![AudioStage::HighPass(f)],
        None => Seq::<AudioStage>::empty(),
    }
}

pub open spec fn lp_slot(o: AudioEnhanceOptions) -> Seq<AudioStage> {
    match o.lowpass_freq {
        Some(f) => seq![AudioStage::LowPass(f)],
        None => Seq::<AudioStage>::empty(),
    }
}

pub open spec fn notch_slot(o: AudioEnhanceOptions) -> Seq<AudioStage> {
    match o.notch_freq {
        Some(f) => seq![AudioStage::Notch(f)],
        None => Seq::<AudioStage>::empty(),
    }
}

pub open spec fn denoise_slot(o: AudioEnhanceOptions) -> Seq<AudioStage> {
    if o.denoise {
        seq![AudioStage::Denoise]
    } else {
        Seq::<AudioStage>::empty()
    }
}

pub open spec fn gate_slot(o: AudioEnhanceOptions) -> Seq<AudioStage> {
    if o.gate {
        seq![AudioStage::Gate(o.gate_threshold_tenths)]
    } else {
        Seq::<AudioStage>::empty()
    }
}

pub open spec fn comp_slot(o: AudioEnhanceOptions) -> Seq<AudioStage> {
    if o.compressor {
        seq![AudioStage::Compressor]
    } else {
        Seq::<AudioStage>::empty()
    }
}

pub open spec fn norm_slot(o: AudioEnhanceOptions) -> Seq<AudioStage> {
    if o.normalize {
        seq![AudioStage::Normalize]
    } else {
        Seq::<AudioStage>::empty()
    }
}

/// The canonical audio chain: each stage present exactly when its
/// governing option is set, in the fixed priority order.
pub open spec fn audio_stages(o: AudioEnhanceOptions) -> Seq<AudioStage> {
    hp_slot(o) + lp_slot(o) + notch_slot(o) + denoise_slot(o) + gate_slot(o) + comp_slot(o)
        + norm_slot(o)
}

/// The filter expression of one stage, as handed to the external tool.
pub open spec fn stage_expr(s: AudioStage) -> Seq<char> {
    match s {
        AudioStage::HighPass(f) => "highpass=f="@ + spec_decimal(f as int),
        AudioStage::LowPass(f) => "lowpass=f="@ + spec_decimal(f as int),
        AudioStage::Notch(f) => "equalizer=f="@ + spec_decimal(f as int)
            + ":width_type=h:width=10:g=-20"@,
        AudioStage::Denoise => "afftdn=nf=-25"@,
        AudioStage::Gate(t) => "agate=threshold="@ + spec_tenths(t as int)
            + "dB:ratio=3:attack=20:release=250"@,
        AudioStage::Compressor => "acompressor=threshold=-18dB:ratio=3:attack=20:release=250:makeup=2dB"@,
        AudioStage::Normalize => "loudnorm=I=-16:TP=-1.5:LRA=11"@,
    }
}

pub open spec fn hp_exprs(o: AudioEnhanceOptions) -> Seq<Seq<char>> {
    match o.highpass_freq {
        Some(f) => seq![stage_expr(AudioStage::HighPass(f))],
        None => Seq::<Seq<char>>::empty(),
    }
}

pub open spec fn lp_exprs(o: AudioEnhanceOptions) -> Seq<Seq<char>> {
    match o.lowpass_freq {
        Some(f) => seq![stage_expr(AudioStage::LowPass(f))],
        None => Seq::<Seq<char>>::empty(),
    }
}

pub open spec fn notch_exprs(o: AudioEnhanceOptions) -> Seq<Seq<char>> {
    match o.notch_freq {
        Some(f) => seq![stage_expr(AudioStage::Notch(f))],
        None => Seq::<Seq<char>>::empty(),
    }
}

pub open spec fn denoise_exprs(o: AudioEnhanceOptions) -> Seq<Seq<char>> {
    if o.denoise {
        seq![stage_expr(AudioStage::Denoise)]
    } else {
        Seq::<Seq<char>>::empty()
    }
}

pub open spec fn gate_exprs(o: AudioEnhanceOptions) -> Seq<Seq<char>> {
    if o.gate {
        seq![stage_expr(AudioStage::Gate(o.gate_threshold_tenths))]
    } else {
        Seq::<Seq<char>>::empty()
    }
}

pub open spec fn comp_exprs(o: AudioEnhanceOptions) -> Seq<Seq<char>> {
    if o.compressor {
        seq![stage_expr(AudioStage::Compressor)]
    } else {
        Seq::<Seq<char>>::empty()
    }
}

pub open spec fn norm_exprs(o: AudioEnhanceOptions) -> Seq<Seq<char>> {
    if o.normalize {
        seq![stage_expr(AudioStage::Normalize)]
    } else {
        Seq::<Seq<char>>::empty()
    }
}

/// The ordered filter expressions of the canonical audio chain.
pub open spec fn audio_filter_exprs(o: AudioEnhanceOptions) -> Seq<Seq<char>> {
    hp_exprs(o) + lp_exprs(o) + notch_exprs(o) + denoise_exprs(o) + gate_exprs(o) + comp_exprs(o)
        + norm_exprs(o)
}

/// The expressions are exactly the stage expressions of the canonical
/// chain, stage by stage.
pub proof fn lemma_audio_exprs_of_stages(o: AudioEnhanceOptions)
    ensures
        audio_filter_exprs(o) == audio_stages(o).map_values(|s: AudioStage| stage_expr(s)),
{
    let f = |s: AudioStage| stage_expr(s);
    let s2 = hp_slot(o) + lp_slot(o);
    let s3 = s2 + notch_slot(o);
    let s4 = s3 + denoise_slot(o);
    let s5 = s4 + gate_slot(o);
    let s6 = s5 + comp_slot(o);
    let s7 = s6 + norm_slot(o);
    assert(hp_slot(o).map_values(f) =~= hp_exprs(o));
    assert(lp_slot(o).map_values(f) =~= lp_exprs(o));
    assert(notch_slot(o).map_values(f) =~= notch_exprs(o));
    assert(denoise_slot(o).map_values(f) =~= denoise_exprs(o));
    assert(gate_slot(o).map_values(f) =~= gate_exprs(o));
    assert(comp_slot(o).map_values(f) =~= comp_exprs(o));
    assert(norm_slot(o).map_values(f) =~= norm_exprs(o));
    assert(s2.map_values(f) =~= hp_slot(o).map_values(f) + lp_slot(o).map_values(f));
    assert(s3.map_values(f) =~= s2.map_values(f) + notch_slot(o).map_values(f));
    assert(s4.map_values(f) =~= s3.map_values(f) + denoise_slot(o).map_values(f));
    assert(s5.map_values(f) =~= s4.map_values(f) + gate_slot(o).map_values(f));
    assert(s6.map_values(f) =~= s5.map_values(f) + comp_slot(o).map_values(f));
    assert(s7.map_values(f) =~= s6.map_values(f) + norm_slot(o).map_values(f));
    assert(audio_stages(o) == s7);
    assert(audio_filter_exprs(o) =~= s7.map_values(f));
}

fn highpass_expr(f: u32) -> (r: String)
    ensures
        r@ == stage_expr(AudioStage::HighPass(f)),
{
    let mut s = String::from_str("highpass=f=");
    s.append(u32_to_string(f).as_str());
    s
}

fn lowpass_expr(f: u32) -> (r: String)
    ensures
        r@ == stage_expr(AudioStage::LowPass(f)),
{
    let mut s = String::from_str("lowpass=f=");
    s.append(u32_to_string(f).as_str());
    s
}

fn notch_expr(f: u32) -> (r: String)
    ensures
        r@ == stage_expr(AudioStage::Notch(f)),
{
    let mut s = String::from_str("equalizer=f=");
    s.append(u32_to_string(f).as_str());
    s.append(":width_type=h:width=10:g=-20");
    s
}

fn gate_expr(t: i32) -> (r: String)
    ensures
        r@ == stage_expr(AudioStage::Gate(t)),
{
    let mut s = String::from_str("agate=threshold=");
    s.append(tenths_to_string(t).as_str());
    s.append("dB:ratio=3:attack=20:release=250");
    s
}

/// Build the ordered audio filter chain for the given options.
///
/// The result is exactly the canonical chain: stage expressions in
/// priority order, one per enabled option, and empty when every option
/// is off.
#[verifier::rlimit(50)]
pub fn build_audio_filters(opts: &AudioEnhanceOptions) -> (r: Vec<String>)
    ensures
        r.deep_view() == audio_filter_exprs(*opts),
{
    let mut filters: Vec<String> = Vec::new();
    if let Some(f) = opts.highpass_freq {
        filters.push(highpass_expr(f));
    }
    if let Some(f) = opts.lowpass_freq {
        filters.push(lowpass_expr(f));
    }
    if let Some(f) = opts.notch_freq {
        filters.push(notch_expr(f));
    }
    proof {
        assert(filters.deep_view() =~~= hp_exprs(*opts) + lp_exprs(*opts) + notch_exprs(*opts));
    }
    if opts.denoise {
        filters.push(String::from_str("afftdn=nf=-25"));
    }
    if opts.gate {
        filters.push(gate_expr(opts.gate_threshold_tenths));
    }
    if opts.compressor {
        filters.push(
            String::from_str(
                "acompressor=threshold=-18dB:ratio=3:attack=20:release=250:makeup=2dB",
            ),
        );
    }
    proof {
        assert(filters.deep_view() =~~= hp_exprs(*opts) + lp_exprs(*opts) + notch_exprs(*opts)
            + denoise_exprs(*opts) + gate_exprs(*opts) + comp_exprs(*opts));
    }
    if opts.normalize {
        filters.push(String::from_str("loudnorm=I=-16:TP=-1.5:LRA=11"));
    }
    proof {
        assert(filters.deep_view() =~~= audio_filter_exprs(*opts));
    }
    filters
}

/// The whole chain appears in strictly increasing priority order: the
/// fixed order holds regardless of how the options record was put
/// together.
#[verifier::rlimit(100)]
pub proof fn lemma_audio_chain_ordered(o: AudioEnhanceOptions)
    ensures
        forall|i: int, j: int|
            0 <= i < j < audio_stages(o).len() ==> stage_priority(#[trigger] audio_stages(o)[i])
                < stage_priority(#[trigger] audio_stages(o)[j]),
{
}

/// True when the option governing `st`, with `st`'s parameters, is set.
pub open spec fn stage_enabled(o: AudioEnhanceOptions, st: AudioStage) -> bool {
    match st {
        AudioStage::HighPass(f) => o.highpass_freq == Some(f),
        AudioStage::LowPass(f) => o.lowpass_freq == Some(f),
        AudioStage::Notch(f) => o.notch_freq == Some(f),
        AudioStage::Denoise => o.denoise,
        AudioStage::Gate(t) => o.gate && t == o.gate_threshold_tenths,
        AudioStage::Compressor => o.compressor,
        AudioStage::Normalize => o.normalize,
    }
}

/// A stage stands in the chain exactly when its governing option is
/// set with its parameters.
#[verifier::rlimit(100)]
pub proof fn lemma_audio_chain_membership(o: AudioEnhanceOptions, st: AudioStage)
    ensures
        audio_stages(o).contains(st) <==> stage_enabled(o, st),
{
    let s = audio_stages(o);
    let n1 = hp_slot(o).len() as int;
    let n2 = n1 + lp_slot(o).len();
    let n3 = n2 + notch_slot(o).len();
    let n4 = n3 + denoise_slot(o).len();
    let n5 = n4 + gate_slot(o).len();
    let n6 = n5 + comp_slot(o).len();
    if stage_enabled(o, st) {
        match st {
            AudioStage::HighPass(_) => {
                assert(s[0] == st);
            },
            AudioStage::LowPass(_) => {
                assert(s[n1] == st);
            },
            AudioStage::Notch(_) => {
                assert(s[n2 as int] == st);
            },
            AudioStage::Denoise => {
                assert(s[n3 as int] == st);
            },
            AudioStage::Gate(_) => {
                assert(s[n4 as int] == st);
            },
            AudioStage::Compressor => {
                assert(s[n5 as int] == st);
            },
            AudioStage::Normalize => {
                assert(s[n6 as int] == st);
            },
        }
        assert(s.contains(st));
    }
    if s.contains(st) {
        let i = choose|i: int| 0 <= i < s.len() && s[i] == st;
        if i < n1 {
            assert(s[i] == hp_slot(o)[i]);
        } else if i < n2 {
            assert(s[i] == lp_slot(o)[i - n1]);
        } else if i < n3 {
            assert(s[i] == notch_slot(o)[i - n2]);
        } else if i < n4 {
            assert(s[i] == denoise_slot(o)[i - n3]);
        } else if i < n5 {
            assert(s[i] == gate_slot(o)[i - n4]);
        } else if i < n6 {
            assert(s[i] == comp_slot(o)[i - n5]);
        } else {
            assert(s[i] == norm_slot(o)[i - n6]);
        }
        assert(stage_enabled(o, st));
    }
}

/// The boolean options of the audio chain.
#[derive(Debug, Clone, Copy)]
pub enum AudioToggle {
    Denoise,
    Gate,
    Compressor,
    Normalize,
}

/// The options record with one boolean option set to `v`.
pub open spec fn with_toggle(o: AudioEnhanceOptions, t: AudioToggle, v: bool) -> AudioEnhanceOptions {
    match t {
        AudioToggle::Denoise => AudioEnhanceOptions { denoise: v, ..o },
        AudioToggle::Gate => AudioEnhanceOptions { gate: v, ..o },
        AudioToggle::Compressor => AudioEnhanceOptions { compressor: v, ..o },
        AudioToggle::Normalize => AudioEnhanceOptions { normalize: v, ..o },
    }
}

/// True when `s` is the stage governed by the toggle `t`.
pub open spec fn governed_by(t: AudioToggle, s: AudioStage) -> bool {
    match t {
        AudioToggle::Denoise => s is Denoise,
        AudioToggle::Gate => s is Gate,
        AudioToggle::Compressor => s is Compressor,
        AudioToggle::Normalize => s is Normalize,
    }
}

/// Turning exactly one boolean option off removes exactly the stage it
/// governs and no others.
pub proof fn lemma_audio_toggle_off(o: AudioEnhanceOptions, t: AudioToggle)
    ensures
        audio_stages(with_toggle(o, t, false)) == audio_stages(o).filter(
            |s: AudioStage| !governed_by(t, s),
        ),
{
    broadcast use group_seq_properties;

    let pred = |s: AudioStage| !governed_by(t, s);
    let off = with_toggle(o, t, false);
    reveal_with_fuel(Seq::<_>::filter, 3);
    assert(Seq::<AudioStage>::empty().filter(pred) =~= Seq::<AudioStage>::empty());
    assert(hp_slot(o).filter(pred) =~= hp_slot(off));
    assert(lp_slot(o).filter(pred) =~= lp_slot(off));
    assert(notch_slot(o).filter(pred) =~= notch_slot(off));
    assert(denoise_slot(o).filter(pred) =~= denoise_slot(off));
    assert(gate_slot(o).filter(pred) =~= gate_slot(off));
    assert(comp_slot(o).filter(pred) =~= comp_slot(off));
    assert(norm_slot(o).filter(pred) =~= norm_slot(off));
    assert(audio_stages(o).filter(pred) =~= audio_stages(off));
}

/// Turning a boolean option off and back on restores the chain of the
/// record that has the option on: the round trip loses nothing.
pub proof fn lemma_audio_toggle_roundtrip(o: AudioEnhanceOptions, t: AudioToggle)
    ensures
        audio_stages(with_toggle(with_toggle(o, t, false), t, true)) == audio_stages(
            with_toggle(o, t, true),
        ),
        audio_filter_exprs(with_toggle(with_toggle(o, t, false), t, true)) == audio_filter_exprs(
            with_toggle(o, t, true),
        ),
{
    assert(with_toggle(with_toggle(o, t, false), t, true) == with_toggle(o, t, true));
}

/// No stage expression is empty or holds the separator that joins a
/// chain into one filtergraph expression: splitting the joined chain
/// on that separator reproduces the stage list exactly.
pub proof fn lemma_audio_exprs_splittable(o: AudioEnhanceOptions)
    ensures
        forall|i: int|
            0 <= i < audio_filter_exprs(o).len() ==> crate::strutil::has_no_char(
                #[trigger] audio_filter_exprs(o)[i],
                ',',
            ) && audio_filter_exprs(o)[i].len() > 0,
{
    reveal_strlit("highpass=f=");
    reveal_strlit("lowpass=f=");
    reveal_strlit("equalizer=f=");
    reveal_strlit(":width_type=h:width=10:g=-20");
    reveal_strlit("afftdn=nf=-25");
    reveal_strlit("agate=threshold=");
    reveal_strlit("dB:ratio=3:attack=20:release=250");
    reveal_strlit("acompressor=threshold=-18dB:ratio=3:attack=20:release=250:makeup=2dB");
    reveal_strlit("loudnorm=I=-16:TP=-1.5:LRA=11");
    assert forall|i: int| 0 <= i < audio_filter_exprs(o).len() implies crate::strutil::has_no_char(
        #[trigger] audio_filter_exprs(o)[i],
        ',',
    ) && audio_filter_exprs(o)[i].len() > 0 by {
        lemma_stage_expr_splittable(o, i);
    }
}

proof fn lemma_stage_expr_splittable(o: AudioEnhanceOptions, i: int)
    requires
        0 <= i < audio_filter_exprs(o).len(),
    ensures
        crate::strutil::has_no_char(audio_filter_exprs(o)[i], ','),
        audio_filter_exprs(o)[i].len() > 0,
{
    reveal_strlit("highpass=f=");
    reveal_strlit("lowpass=f=");
    reveal_strlit("equalizer=f=");
    reveal_strlit(":width_type=h:width=10:g=-20");
    reveal_strlit("afftdn=nf=-25");
    reveal_strlit("agate=threshold=");
    reveal_strlit("dB:ratio=3:attack=20:release=250");
    reveal_strlit("acompressor=threshold=-18dB:ratio=3:attack=20:release=250:makeup=2dB");
    reveal_strlit("loudnorm=I=-16:TP=-1.5:LRA=11");
    let e = audio_filter_exprs(o);
    let n1 = hp_exprs(o).len() as int;
    let n2 = n1 + lp_exprs(o).len();
    let n3 = n2 + notch_exprs(o).len();
    let n4 = n3 + denoise_exprs(o).len();
    let n5 = n4 + gate_exprs(o).len();
    let n6 = n5 + comp_exprs(o).len();
    if i < n1 {
        let f = o.highpass_freq->0;
        crate::strnum::lemma_decimal_digits(f as int);
        assert(e[i] == "highpass=f="@ + crate::strnum::spec_decimal(f as int));
    } else if i < n2 {
        let f = o.lowpass_freq->0;
        crate::strnum::lemma_decimal_digits(f as int);
        assert(e[i] == "lowpass=f="@ + crate::strnum::spec_decimal(f as int));
    } else if i < n3 {
        let f = o.notch_freq->0;
        crate::strnum::lemma_decimal_digits(f as int);
        assert(e[i] == "equalizer=f="@ + crate::strnum::spec_decimal(f as int)
            + ":width_type=h:width=10:g=-20"@);
    } else if i < n4 {
        assert(e[i] == "afftdn=nf=-25"@);
    } else if i < n5 {
        let t = o.gate_threshold_tenths as int;
        let m = if t < 0 {
            -t
        } else {
            t
        };
        crate::strnum::lemma_decimal_digits(m / 10);
        assert(e[i] == "agate=threshold="@ + crate::strnum::spec_tenths(t)
            + "dB:ratio=3:attack=20:release=250"@);
    } else if i < n6 {
        assert(e[i]
            == "acompressor=threshold=-18dB:ratio=3:attack=20:release=250:makeup=2dB"@);
    } else {
        assert(e[i] == "loudnorm=I=-16:TP=-1.5:LRA=11"@);
    }
}

/// The joined filtergraph expression of the audio chain.
pub open spec fn audio_chain_expr(o: AudioEnhanceOptions) -> Seq<char> {
    spec_join(audio_filter_exprs(o), ',')
}

/// Splitting a non-empty joined audio chain on the separator
/// reproduces the ordered stage list: the serialization round trip.
pub proof fn lemma_audio_chain_roundtrip(o: AudioEnhanceOptions)
    requires
        audio_filter_exprs(o).len() > 0,
    ensures
        crate::strutil::spec_split(audio_chain_expr(o), ',') == audio_filter_exprs(o),
{
    lemma_audio_exprs_splittable(o);
    crate::strutil::lemma_join_split_roundtrip(audio_filter_exprs(o), ',');
}

/// The argument vector of an enhancement job that keeps the video
/// stream: filter the audio, copy the video, encode at 192k.
pub open spec fn spec_enhance_audio_args(
    input: Seq<char>,
    output: Seq<char>,
    o: AudioEnhanceOptions,
) -> Seq<Seq<char>> {
    let af: Seq<Seq<char>> = if audio_filter_exprs(o).len() > 0 {
        seq!["-af"@, audio_chain_expr(o)]
    } else {
        Seq::<Seq<char>>::empty()
    };
    seq!["-i"@, input] + af + seq![
        "-c:v"@,
        "copy"@,
        "-c:a"@,
        "aac"@,
        "-b:a"@,
        "192k"@,
        "-y"@,
        output,
    ]
}

/// The argument vector of an audio-only enhancement job: filter and
/// encode losslessly.
pub open spec fn spec_enhance_audio_only_args(
    input: Seq<char>,
    output: Seq<char>,
    o: AudioEnhanceOptions,
) -> Seq<Seq<char>> {
    let af: Seq<Seq<char>> = if audio_filter_exprs(o).len() > 0 {
        seq!["-af"@, audio_chain_expr(o)]
    } else {
        Seq::<Seq<char>>::empty()
    };
    seq!["-i"@, input] + af + seq!["-c:a"@, "flac"@, "-y"@, output]
}

/// Plan an enhancement job for a file with both streams.
///
/// Fails only with `ToolMissing`, when the external tool is absent;
/// otherwise returns exactly the canonical argument vector. An empty
/// chain contributes no filter flag, since the external tool rejects
/// an empty filter expression.
pub fn enhance_audio(input: &str, output: &str, opts: &AudioEnhanceOptions) -> (r: Result<
    Vec<String>,
    ToolError,
>)
    ensures
        r matches Ok(args) ==> args.deep_view() == spec_enhance_audio_args(input@, output@, *opts),
        r is Err ==> r == Result::<Vec<String>, ToolError>::Err(ToolError::ToolMissing),
{
    match check_ffmpeg() {
        Err(e) => {
            return Err(e);
        },
        Ok(()) => {},
    }
    let filters = build_audio_filters(opts);
    let mut args: Vec<String> = Vec::new();
    args.push(String::from_str("-i"));
    args.push(input.to_owned());
    if filters.len() > 0 {
        args.push(String::from_str("-af"));
        args.push(build_filtergraph(&filters));
    }
    args.push(String::from_str("-c:v"));
    args.push(String::from_str("copy"));
    args.push(String::from_str("-c:a"));
    args.push(String::from_str("aac"));
    args.push(String::from_str("-b:a"));
    args.push(String::from_str("192k"));
    args.push(String::from_str("-y"));
    args.push(output.to_owned());
    proof {
        assert(args.deep_view() =~~= spec_enhance_audio_args(input@, output@, *opts));
    }
    Ok(args)
}

/// Plan an enhancement job for an audio-only file.
pub fn enhance_audio_only(input: &str, output: &str, opts: &AudioEnhanceOptions) -> (r: Result<
    Vec<String>,
    ToolError,
>)
    ensures
        r matches Ok(args) ==> args.deep_view() == spec_enhance_audio_only_args(
            input@,
            output@,
            *opts,
        ),
        r is Err ==> r == Result::<Vec<String>, ToolError>::Err(ToolError::ToolMissing),
{
    match check_ffmpeg() {
        Err(e) => {
            return Err(e);
        },
        Ok(()) => {},
    }
    let filters = build_audio_filters(opts);
    let mut args: Vec<String> = Vec::new();
    args.push(String::from_str("-i"));
    args.push(input.to_owned());
    if filters.len() > 0 {
        args.push(String::from_str("-af"));
        args.push(build_filtergraph(&filters));
    }
    args.push(String::from_str("-c:a"));
    args.push(String::from_str("flac"));
    args.push(String::from_str("-y"));
    args.push(output.to_owned());
    proof {
        assert(args.deep_view() =~~= spec_enhance_audio_only_args(input@, output@, *opts));
    }
    Ok(args)
}

} // verus!
