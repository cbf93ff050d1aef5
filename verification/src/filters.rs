//! Filter-chain and encoder argument construction: the ordered video and
//! audio filter descriptors of an operation, and the full argument lists of
//! the two encode passes.

use vstd::prelude::*;
use crate::types::{Operation, OperationV, ACodec, VCodec, Quality, spec_valid_operation};
use crate::params::{
    spec_audio_bitrate,
    spec_video_params,
    compute_audio_bitrate,
    compute_video_params,
    EncodeParameters,
};
use crate::loudnorm::{Loudnorm, LoudnormV, spec_convert_af, view_opt};
use crate::strutil::{spec_decimal, spec_join, u64_to_string, join, push_arg, push_owned, append_args};

verus! {

/// Which of the two encode passes an argument list is built for.
#[derive(Debug, Clone, Copy, PartialEq, Eq, Structural)]
pub enum EncodePass {
    /// Gathers rate-control statistics; output is discarded.
    First,
    /// Uses the statistics to produce the real output.
    Second,
}

/// The ordered video filter chain of an operation: rotation (if requested)
/// before scaling, scaling before frame-rate conversion.
pub open spec fn spec_video_filters(op: OperationV) -> Seq<Seq<char>> {
    let tail = seq![
        "scale="@ + spec_decimal(op.scale.0 as int) + "x"@ + spec_decimal(op.scale.1 as int),
        "fps=fps="@ + spec_decimal(op.video_fps.0 as int) + "/"@ + spec_decimal(
            op.video_fps.1 as int,
        ),
    ];
    match op.transpose {
        Some(t) => seq!["transpose="@ + spec_decimal(t as int)] + tail,
        None => tail,
    }
}

/// Build the ordered video filter chain.
pub fn build_video_filters(op: &Operation) -> (r: Vec<String>)
    ensures
        r.deep_view() == spec_video_filters(op@),
{
    let mut fs: Vec<String> = Vec::new();
    match op.transpose {
        Some(t) => {
            let mut s = String::from_str("transpose=");
            s.append(u64_to_string(t as u64).as_str());
            push_owned(&mut fs, s);
        },
        None => {
        },
    }
    let mut sc = String::from_str("scale=");
    sc.append(u64_to_string(op.scale.0 as u64).as_str());
    sc.append("x");
    sc.append(u64_to_string(op.scale.1 as u64).as_str());
    push_owned(&mut fs, sc);
    let mut fp = String::from_str("fps=fps=");
    fp.append(u64_to_string(op.video_fps.0 as u64).as_str());
    fp.append("/");
    fp.append(u64_to_string(op.video_fps.1 as u64).as_str());
    push_owned(&mut fs, fp);
    proof {
        assert(fs.deep_view() =~= spec_video_filters(op@));
    }
    fs
}

/// The audio filter chain of an operation: the single normalization-apply
/// filter when loudness normalization is enabled and a measurement exists,
/// else empty.
pub open spec fn spec_audio_filters(op: OperationV, m: Option<LoudnormV>) -> Seq<Seq<char>> {
    if op.loudnorm {
        match m {
            Some(l) => seq![spec_convert_af(l)],
            None => Seq::empty(),
        }
    } else {
        Seq::empty()
    }
}

/// Build the audio filter chain.
pub fn build_audio_filters(op: &Operation, m: &Option<Loudnorm>) -> (r: Vec<String>)
    ensures
        r.deep_view() == spec_audio_filters(op@, view_opt(m)),
{
    let mut fs: Vec<String> = Vec::new();
    if op.loudnorm {
        match m {
            Some(l) => {
                push_owned(&mut fs, l.convert_af());
            },
            None => {
            },
        }
    }
    proof {
        assert(fs.deep_view() =~= spec_audio_filters(op@, view_opt(m)));
    }
    fs
}

/// The arguments selecting the opus audio codec at a tier's fixed bitrate.
pub open spec fn spec_opus_args(quality: Quality) -> Seq<Seq<char>> {
    seq!["-c:a"@, "libopus"@, "-b:a"@, spec_decimal(spec_audio_bitrate(quality)) + "k"@]
}

/// The arguments selecting the opus audio codec at the tier's bitrate.
pub fn opus(quality: Quality) -> (r: Vec<String>)
    ensures
        r.deep_view() == spec_opus_args(quality),
{
    let mut args: Vec<String> = Vec::new();
    push_arg(&mut args, "-c:a");
    push_arg(&mut args, "libopus");
    push_arg(&mut args, "-b:a");
    let mut b = u64_to_string(compute_audio_bitrate(quality) as u64);
    b.append("k");
    push_owned(&mut args, b);
    proof {
        assert(args.deep_view() =~= spec_opus_args(quality));
    }
    args
}

/// The arguments naming the video encoder of a codec choice.
pub open spec fn spec_codec_selection_args(c: VCodec) -> Seq<Seq<char>> {
    match c {
        VCodec::Copy => Seq::empty(),
        VCodec::Vp9 => seq!["-c:v"@, "libvpx-vp9"@, "-quality"@, "good"@],
        VCodec::Av1 => seq!["-c:v"@, "libaom-av1"@, "-strict"@, "-2"@],
    }
}

/// The rate-control and parallelism arguments of a parameter set.
pub open spec fn spec_rate_control_args(p: EncodeParameters) -> Seq<Seq<char>> {
    seq![
        "-b:v"@,
        spec_decimal(p.bitrate as int),
        "-minrate"@,
        spec_decimal(p.minrate as int),
        "-maxrate"@,
        spec_decimal(p.maxrate as int),
        "-tile-columns"@,
        spec_decimal(p.tile_columns as int),
        "-g"@,
        "240"@,
        "-threads"@,
        spec_decimal(p.threads as int),
        "-crf"@,
        spec_decimal(p.crf as int),
    ]
}

/// The parameter set the encode arguments of an operation embed.
pub open spec fn spec_params_of(op: OperationV) -> EncodeParameters {
    spec_video_params(
        op.video_codec,
        op.video_quality,
        op.scale.0,
        op.scale.1,
        op.video_fps.0,
        op.video_fps.1,
    )
}

/// The video codec arguments of an operation: stream copy, or the encoder
/// selection followed by the derived rate-control parameters.
pub open spec fn spec_video_codec_args(op: OperationV) -> Seq<Seq<char>> {
    match op.video_codec {
        VCodec::Copy => seq!["-c:v"@, "copy"@],
        _ => spec_codec_selection_args(op.video_codec) + spec_rate_control_args(spec_params_of(op)),
    }
}

/// The encoder selection and rate-control arguments for an encoded (non
/// copy) video codec.
pub fn vp9_or_av1(op: &Operation) -> (r: Vec<String>)
    requires
        spec_valid_operation(op@),
        op@.video_codec != VCodec::Copy,
    ensures
        r.deep_view() == spec_video_codec_args(op@),
{
    let mut args: Vec<String> = Vec::new();
    match op.video_codec {
        VCodec::Copy => {
        },
        VCodec::Vp9 => {
            push_arg(&mut args, "-c:v");
            push_arg(&mut args, "libvpx-vp9");
            push_arg(&mut args, "-quality");
            push_arg(&mut args, "good");
        },
        VCodec::Av1 => {
            push_arg(&mut args, "-c:v");
            push_arg(&mut args, "libaom-av1");
            push_arg(&mut args, "-strict");
            push_arg(&mut args, "-2");
        },
    }
    let p = compute_video_params(
        op.video_codec,
        op.video_quality,
        op.scale.0,
        op.scale.1,
        op.video_fps.0,
        op.video_fps.1,
    );
    push_arg(&mut args, "-b:v");
    push_owned(&mut args, u64_to_string(p.bitrate));
    push_arg(&mut args, "-minrate");
    push_owned(&mut args, u64_to_string(p.minrate));
    push_arg(&mut args, "-maxrate");
    push_owned(&mut args, u64_to_string(p.maxrate));
    push_arg(&mut args, "-tile-columns");
    push_owned(&mut args, u64_to_string(p.tile_columns as u64));
    push_arg(&mut args, "-g");
    push_arg(&mut args, "240");
    push_arg(&mut args, "-threads");
    push_owned(&mut args, u64_to_string(p.threads as u64));
    push_arg(&mut args, "-crf");
    push_owned(&mut args, u64_to_string(p.crf as u64));
    proof {
        assert(args.deep_view() =~= spec_video_codec_args(op@));
    }
    args
}

/// The audio codec arguments of an operation.
pub open spec fn spec_audio_codec_args(op: OperationV) -> Seq<Seq<char>> {
    match op.audio_codec {
        ACodec::Copy => seq!["-c:a"@, "copy"@],
        ACodec::Opus => spec_opus_args(op.audio_quality),
    }
}

/// The `-af` arguments of a pass: present only in the second pass, for an
/// encoded audio stream, when the filter chain is nonempty. The first pass
/// omits the audio filter chain: only the accumulated rate-control
/// statistics matter there, and applying normalization twice must be
/// avoided.
pub open spec fn spec_audio_filter_args(
    op: OperationV,
    m: Option<LoudnormV>,
    pass: EncodePass,
) -> Seq<Seq<char>> {
    if pass == EncodePass::Second && op.audio_codec != ACodec::Copy && spec_audio_filters(
        op,
        m,
    ).len() > 0 {
        seq!["-af"@, spec_join(spec_audio_filters(op, m), ","@)]
    } else {
        Seq::empty()
    }
}

/// The `-vf` arguments of an operation: the joined video filter chain,
/// omitted entirely when the video stream is copied (filters are
/// incompatible with stream copy).
pub open spec fn spec_video_filter_args(op: OperationV) -> Seq<Seq<char>> {
    if op.video_codec != VCodec::Copy {
        seq!["-vf"@, spec_join(spec_video_filters(op), ","@)]
    } else {
        Seq::empty()
    }
}

/// The final arguments of a pass: pass number, encode speed, and the
/// target. The first pass writes to a null sink at a fast preset; the
/// second writes the real output at a slower, higher-quality preset.
pub open spec fn spec_pass_args(op: OperationV, pass: EncodePass, output: Seq<char>) -> Seq<
    Seq<char>,
> {
    match pass {
        EncodePass::First => seq!["-pass"@, "1"@, "-speed"@, "4"@, "-f"@, "null"@, "-"@],
        EncodePass::Second => seq![
            "-pass"@,
            "2"@,
            "-speed"@,
            if op.scale.0 < 1024 {
                "1"@
            } else {
                "2"@
            },
            output,
        ],
    }
}

/// With loudness normalization disabled, the audio filter chain is empty
/// and neither encode pass receives an `-af` argument.
pub proof fn lemma_no_audio_filters_without_loudnorm(
    op: OperationV,
    m: Option<LoudnormV>,
    pass: EncodePass,
)
    requires
        !op.loudnorm,
    ensures
        spec_audio_filters(op, m) == Seq::<Seq<char>>::empty(),
        spec_audio_filter_args(op, m, pass) == Seq::<Seq<char>>::empty(),
{
}

/// The complete encoder argument list of one pass: input, audio filters
/// (second pass only), video filters, audio codec, video codec, pass
/// selection and target.
pub open spec fn spec_encode_args(
    op: OperationV,
    m: Option<LoudnormV>,
    input: Seq<char>,
    pass: EncodePass,
    output: Seq<char>,
) -> Seq<Seq<char>> {
    seq!["-y"@, "-i"@, input] + spec_audio_filter_args(op, m, pass) + spec_video_filter_args(op)
        + spec_audio_codec_args(op) + spec_video_codec_args(op) + spec_pass_args(op, pass, output)
}

/// Build the complete encoder argument list of one pass.
///
/// When loudness normalization is enabled the measurement must already
/// exist: measurement always precedes the encode passes.
#[verifier::rlimit(100)]
pub fn build_encode_args(
    op: &Operation,
    m: &Option<Loudnorm>,
    input: &str,
    pass: EncodePass,
    output: &str,
) -> (r: Vec<String>)
    requires
        spec_valid_operation(op@),
        op@.loudnorm ==> view_opt(m) is Some,
    ensures
        r.deep_view() == spec_encode_args(op@, view_opt(m), input@, pass, output@),
{
    let mut args: Vec<String> = Vec::new();
    push_arg(&mut args, "-y");
    push_arg(&mut args, "-i");
    push_arg(&mut args, input);
    let ghost s0 = args.deep_view();
    proof {
        assert(s0 =~= seq!["-y"@, "-i"@, input@]);
    }
    // Audio filters: second pass only, never for a copied audio stream.
    if pass == EncodePass::Second && !matches!(op.audio_codec, ACodec::Copy) {
        let af_list = build_audio_filters(op, m);
        if af_list.len() > 0 {
            let af = join(&af_list, ",");
            push_arg(&mut args, "-af");
            push_owned(&mut args, af);
        }
    }
    let ghost s1 = args.deep_view();
    proof {
        assert(s1 =~= s0 + spec_audio_filter_args(op@, view_opt(m), pass));
    }
    // Video filters, omitted for a copied video stream.
    if !matches!(op.video_codec, VCodec::Copy) {
        let vf_list = build_video_filters(op);
        let vf = join(&vf_list, ",");
        push_arg(&mut args, "-vf");
        push_owned(&mut args, vf);
    }
    let ghost s2 = args.deep_view();
    proof {
        assert(s2 =~= s1 + spec_video_filter_args(op@));
    }
    match op.audio_codec {
        ACodec::Copy => {
            push_arg(&mut args, "-c:a");
            push_arg(&mut args, "copy");
        },
        ACodec::Opus => {
            append_args(&mut args, opus(op.audio_quality));
        },
    }
    let ghost s3 = args.deep_view();
    proof {
        assert(s3 =~= s2 + spec_audio_codec_args(op@));
    }
    match op.video_codec {
        VCodec::Copy => {
            push_arg(&mut args, "-c:v");
            push_arg(&mut args, "copy");
        },
        _ => {
            append_args(&mut args, vp9_or_av1(op));
        },
    }
    let ghost s4 = args.deep_view();
    proof {
        assert(s4 =~= s3 + spec_video_codec_args(op@));
    }
    match pass {
        EncodePass::First => {
            push_arg(&mut args, "-pass");
            push_arg(&mut args, "1");
            push_arg(&mut args, "-speed");
            push_arg(&mut args, "4");
            push_arg(&mut args, "-f");
            push_arg(&mut args, "null");
            push_arg(&mut args, "-");
        },
        EncodePass::Second => {
            push_arg(&mut args, "-pass");
            push_arg(&mut args, "2");
            push_arg(&mut args, "-speed");
            if op.scale.0 < 1024 {
                push_arg(&mut args, "1");
            } else {
                push_arg(&mut args, "2");
            }
            push_arg(&mut args, output);
        },
    }
    proof {
        assert(args.deep_view() =~= s4 + spec_pass_args(op@, pass, output@));
        assert(args.deep_view() =~= spec_encode_args(op@, view_opt(m), input@, pass, output@));
    }
    args
}

} // verus!
