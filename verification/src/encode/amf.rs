//! AMD hardware encoder support: capability data and the option table
//! handed to the backend at open time. Probing the driver and running
//! the backend are the host program's work.

use vstd::prelude::*;
use vstd::string::StringExecFns;
use crate::config::{EncoderConfig, EncoderPreset, EncoderTuning, RateControl};
use crate::encode::nvenc::{spec_kbps_value, spec_opts_view};
use crate::text;

verus! {

/// AMD encoder capabilities.
#[derive(Debug, Clone)]
pub struct AmfCapabilities {
    /// Encoder present.
    pub available: bool,
    /// H.264 support.
    pub h264: bool,
    /// HEVC support.
    pub hevc: bool,
    /// AV1 support.
    pub av1: bool,
    /// GPU description, where known.
    pub gpu_info: Option<String>,
}

impl Default for AmfCapabilities {
    fn default() -> (r: AmfCapabilities)
        ensures
            !r.available && !r.h264 && !r.hevc && !r.av1,
            r.gpu_info is None,
    {
        AmfCapabilities { available: false, h264: false, hevc: false, av1: false, gpu_info: None }
    }
}

/// Assemble the capability report from what a probe of the driver
/// found.
pub fn get_capabilities(
    available: bool,
    h264: bool,
    hevc: bool,
    av1: bool,
    gpu_info: Option<String>,
) -> (r: AmfCapabilities)
    ensures
        r.available == available,
        r.h264 == h264,
        r.hevc == hevc,
        r.av1 == av1,
        r.gpu_info == gpu_info,
{
    AmfCapabilities { available, h264, hevc, av1, gpu_info }
}

/// The usage mode of a configuration's tuning: the low-latency
/// regimes run in the backend's realtime usage, everything else in
/// transcoding.
pub open spec fn spec_amf_usage(c: &EncoderConfig) -> Seq<char> {
    if c.tuning == EncoderTuning::LowLatency || c.tuning == EncoderTuning::UltraLowLatency {
        "ultralowlatency"@
    } else {
        "transcoding"@
    }
}

/// The quality preset of a configuration's speed setting.
pub open spec fn spec_amf_quality(c: &EncoderConfig) -> Seq<char> {
    match c.preset {
        EncoderPreset::Fastest => "speed"@,
        EncoderPreset::Fast => "speed"@,
        EncoderPreset::Medium => "balanced"@,
        EncoderPreset::Slow => "quality"@,
        EncoderPreset::Slowest => "quality"@,
    }
}

/// The option table the AMD backend opens with, in order: the usage
/// mode and quality preset, the rate-control rows of the configured
/// discipline (bitrate targets travel through the context, not the
/// table), and the B-frame depth when one is configured.
pub open spec fn spec_amf_options(c: &EncoderConfig) -> Seq<(Seq<char>, Seq<char>)> {
    let head: Seq<(Seq<char>, Seq<char>)> = seq![
        ("usage"@, spec_amf_usage(c)),
        ("quality"@, spec_amf_quality(c)),
    ];
    let rc: Seq<(Seq<char>, Seq<char>)> = match c.rate_control {
        RateControl::Cbr => seq![("rc"@, "cbr"@)],
        RateControl::Vbr => seq![("rc"@, "vbr_peak"@)] + (match c.max_bitrate_kbps {
            Some(m) => seq![("maxrate"@, spec_kbps_value(m as int))],
            None => Seq::<(Seq<char>, Seq<char>)>::empty(),
        }),
        RateControl::Cqp { qp } => seq![
            ("rc"@, "cqp"@),
            ("qp_i"@, text::spec_decimal(qp as int)),
            ("qp_p"@, text::spec_decimal(qp as int)),
        ],
        RateControl::Crf { crf } => seq![
            ("rc"@, "vbr_latency"@),
            ("qp_i"@, text::spec_decimal(crf as int)),
            ("qp_p"@, text::spec_decimal(crf as int)),
        ],
    };
    let bf: Seq<(Seq<char>, Seq<char>)> = if c.b_frames > 0 {
        seq![("bf"@, text::spec_decimal(c.b_frames as int))]
    } else {
        Seq::<(Seq<char>, Seq<char>)>::empty()
    };
    head + rc + bf
}

/// Build the option table the AMD backend opens with; see
/// [`spec_amf_options`] for the table.
pub fn build_amf_options(config: &EncoderConfig) -> (r: Vec<(String, String)>)
    ensures
        spec_opts_view(r@) == spec_amf_options(config),
{
    let mut opts: Vec<(String, String)> = Vec::new();
    let usage: &'static str = match config.tuning {
        EncoderTuning::LowLatency | EncoderTuning::UltraLowLatency => "ultralowlatency",
        _ => "transcoding",
    };
    let quality: &'static str = match config.preset {
        EncoderPreset::Fastest | EncoderPreset::Fast => "speed",
        EncoderPreset::Medium => "balanced",
        EncoderPreset::Slow | EncoderPreset::Slowest => "quality",
    };
    opts.push((String::from_str("usage"), String::from_str(usage)));
    opts.push((String::from_str("quality"), String::from_str(quality)));
    proof {
        assert(spec_opts_view(opts@) =~= seq![
            ("usage"@, spec_amf_usage(config)),
            ("quality"@, spec_amf_quality(config)),
        ]);
    }
    match config.rate_control {
        RateControl::Cbr => {
            opts.push((String::from_str("rc"), String::from_str("cbr")));
        },
        RateControl::Vbr => {
            opts.push((String::from_str("rc"), String::from_str("vbr_peak")));
            match config.max_bitrate_kbps {
                Some(m) => {
                    opts.push((
                        String::from_str("maxrate"),
                        text::u64_to_string(m as u64).concat("k"),
                    ));
                },
                None => {
                },
            }
        },
        RateControl::Cqp { qp } => {
            opts.push((String::from_str("rc"), String::from_str("cqp")));
            opts.push((String::from_str("qp_i"), text::u64_to_string(qp as u64)));
            opts.push((String::from_str("qp_p"), text::u64_to_string(qp as u64)));
        },
        RateControl::Crf { crf } => {
            opts.push((String::from_str("rc"), String::from_str("vbr_latency")));
            opts.push((String::from_str("qp_i"), text::u64_to_string(crf as u64)));
            opts.push((String::from_str("qp_p"), text::u64_to_string(crf as u64)));
        },
    }
    if config.b_frames > 0 {
        opts.push((String::from_str("bf"), text::u64_to_string(config.b_frames as u64)));
    }
    proof {
        assert(spec_opts_view(opts@) =~= spec_amf_options(config));
    }
    opts
}

} // verus!
