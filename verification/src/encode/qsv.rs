//! Intel hardware encoder support: capability data and the option
//! table handed to the backend at open time. Probing the driver and
//! running the backend are the host program's work.

use vstd::prelude::*;
use vstd::string::StringExecFns;
use crate::config::{EncoderConfig, EncoderPreset, EncoderTuning, RateControl};
use crate::encode::nvenc::{spec_kbps_value, spec_opts_view};
use crate::text;

verus! {

/// Intel encoder capabilities.
#[derive(Debug, Clone)]
pub struct QsvCapabilities {
    /// Encoder present.
    pub available: bool,
    /// H.264 support.
    pub h264: bool,
    /// HEVC support.
    pub hevc: bool,
    /// AV1 support.
    pub av1: bool,
    /// GPU description, where known.
    pub gpu_info: Option<String>,
}

impl Default for QsvCapabilities {
    fn default() -> (r: QsvCapabilities)
        ensures
            !r.available && !r.h264 && !r.hevc && !r.av1,
            r.gpu_info is None,
    {
        QsvCapabilities { available: false, h264: false, hevc: false, av1: false, gpu_info: None }
    }
}

/// Assemble the capability report from what a probe of the driver
/// found.
pub fn get_capabilities(
    available: bool,
    h264: bool,
    hevc: bool,
    av1: bool,
    gpu_info: Option<String>,
) -> (r: QsvCapabilities)
    ensures
        r.available == available,
        r.h264 == h264,
        r.hevc == hevc,
        r.av1 == av1,
        r.gpu_info == gpu_info,
{
    QsvCapabilities { available, h264, hevc, av1, gpu_info }
}

/// The preset name of a configuration's speed setting.
pub open spec fn spec_qsv_preset_name(c: &EncoderConfig) -> Seq<char> {
    match c.preset {
        EncoderPreset::Fastest => "veryfast"@,
        EncoderPreset::Fast => "fast"@,
        EncoderPreset::Medium => "medium"@,
        EncoderPreset::Slow => "slow"@,
        EncoderPreset::Slowest => "veryslow"@,
    }
}

/// The option table the Intel backend opens with, in order: the speed
/// preset, the rate-control rows of the configured discipline
/// (bitrate targets travel through the context, not the table), and
/// the low-power switches for the low-latency tunings. A key repeated
/// later in the table replaces the earlier value in the backend's
/// dictionary.
pub open spec fn spec_qsv_options(c: &EncoderConfig) -> Seq<(Seq<char>, Seq<char>)> {
    let head: Seq<(Seq<char>, Seq<char>)> = seq![("preset"@, spec_qsv_preset_name(c))];
    let rc: Seq<(Seq<char>, Seq<char>)> = match c.rate_control {
        RateControl::Cbr => seq![("look_ahead"@, "0"@)],
        RateControl::Vbr => seq![("look_ahead"@, "1"@)] + (match c.max_bitrate_kbps {
            Some(m) => seq![("maxrate"@, spec_kbps_value(m as int))],
            None => Seq::<(Seq<char>, Seq<char>)>::empty(),
        }),
        RateControl::Cqp { qp } => seq![("global_quality"@, text::spec_decimal(qp as int))],
        RateControl::Crf { crf } => seq![("global_quality"@, text::spec_decimal(crf as int))],
    };
    let low_latency: Seq<(Seq<char>, Seq<char>)> = if c.tuning == EncoderTuning::LowLatency
        || c.tuning == EncoderTuning::UltraLowLatency {
        seq![("low_power"@, "1"@), ("look_ahead"@, "0"@)]
    } else {
        Seq::<(Seq<char>, Seq<char>)>::empty()
    };
    head + rc + low_latency
}

/// Build the option table the Intel backend opens with; see
/// [`spec_qsv_options`] for the table.
pub fn build_qsv_options(config: &EncoderConfig) -> (r: Vec<(String, String)>)
    ensures
        spec_opts_view(r@) == spec_qsv_options(config),
{
    let mut opts: Vec<(String, String)> = Vec::new();
    let preset: &'static str = match config.preset {
        EncoderPreset::Fastest => "veryfast",
        EncoderPreset::Fast => "fast",
        EncoderPreset::Medium => "medium",
        EncoderPreset::Slow => "slow",
        EncoderPreset::Slowest => "veryslow",
    };
    opts.push((String::from_str("preset"), String::from_str(preset)));
    proof {
        assert(spec_opts_view(opts@) =~= seq![("preset"@, spec_qsv_preset_name(config))]);
    }
    match config.rate_control {
        RateControl::Cbr => {
            opts.push((String::from_str("look_ahead"), String::from_str("0")));
        },
        RateControl::Vbr => {
            opts.push((String::from_str("look_ahead"), String::from_str("1")));
            match config.max_bitrate_kbps {
                Some(m) => {
                    opts.push((
                        String::from_str("maxrate"),
                        text::u64_to_string(m as u64).concat("k"),
                    ));
                },
                None => {
                },
            }
        },
        RateControl::Cqp { qp } => {
            opts.push((String::from_str("global_quality"), text::u64_to_string(qp as u64)));
        },
        RateControl::Crf { crf } => {
            opts.push((String::from_str("global_quality"), text::u64_to_string(crf as u64)));
        },
    }
    if matches!(config.tuning, EncoderTuning::LowLatency | EncoderTuning::UltraLowLatency) {
        opts.push((String::from_str("low_power"), String::from_str("1")));
        opts.push((String::from_str("look_ahead"), String::from_str("0")));
    }
    proof {
        assert(spec_opts_view(opts@) =~= spec_qsv_options(config));
    }
    opts
}

} // verus!
