//! Hardware encoder support: capability classification and the option
//! table handed to the backend at open time. Probing the driver and
//! running the backend are the host program's work.

use vstd::prelude::*;
use vstd::string::StringExecFns;
use crate::config::{EncoderConfig, EncoderTuning, RateControl};
use crate::text;

verus! {

/// Whether a GPU name names a generation with two hardware encoder
/// units.
pub open spec fn spec_dual_encoder_gpu(gpu_name: Option<String>) -> bool {
    match gpu_name {
        Some(name) => text::spec_contains_sub(name@, "RTX 40"@) || text::spec_contains_sub(
            name@,
            "RTX 50"@,
        ),
        None => false,
    }
}

/// Whether the named GPU carries two encoder units, judged from the
/// product generations that ship them.
pub fn has_dual_encoder(gpu_name: &Option<String>) -> (r: bool)
    ensures
        r == spec_dual_encoder_gpu(*gpu_name),
{
    match gpu_name {
        Some(name) => {
            let forty: bool = text::str_contains(name.as_str(), "RTX 40");
            let fifty: bool = text::str_contains(name.as_str(), "RTX 50");
            forty || fifty
        },
        None => false,
    }
}

/// Hardware encoder capabilities.
#[derive(Debug, Clone)]
pub struct NvencCapabilities {
    /// Encoder present.
    pub available: bool,
    /// H.264 support.
    pub h264: bool,
    /// HEVC support.
    pub hevc: bool,
    /// AV1 support.
    pub av1: bool,
    /// Two encoder units.
    pub dual_encoder: bool,
    /// GPU name, where known.
    pub gpu_name: Option<String>,
    /// Driver version, where known.
    pub driver_version: Option<String>,
}

impl Default for NvencCapabilities {
    fn default() -> (r: NvencCapabilities)
        ensures
            !r.available && !r.h264 && !r.hevc && !r.av1 && !r.dual_encoder,
            r.gpu_name is None,
            r.driver_version is None,
    {
        NvencCapabilities {
            available: false,
            h264: false,
            hevc: false,
            av1: false,
            dual_encoder: false,
            gpu_name: None,
            driver_version: None,
        }
    }
}

/// Assemble the capability report from what a probe of the driver
/// found; the dual-encoder flag is judged from the GPU name.
pub fn get_capabilities(
    available: bool,
    h264: bool,
    hevc: bool,
    av1: bool,
    gpu_name: Option<String>,
    driver_version: Option<String>,
) -> (r: NvencCapabilities)
    ensures
        r.available == available,
        r.h264 == h264,
        r.hevc == hevc,
        r.av1 == av1,
        r.dual_encoder == spec_dual_encoder_gpu(gpu_name),
        r.gpu_name == gpu_name,
        r.driver_version == driver_version,
{
    let dual: bool = has_dual_encoder(&gpu_name);
    NvencCapabilities {
        available,
        h264,
        hevc,
        av1,
        dual_encoder: dual,
        gpu_name,
        driver_version,
    }
}

/// A kilobit-per-second value as the backend's option string: the
/// decimal digits followed by `k`.
pub open spec fn spec_kbps_value(kbps: int) -> Seq<char> {
    text::spec_decimal(kbps) + "k"@
}

/// The option table the hardware backend opens with, in order: the
/// speed preset and the tuning; the rate-control options of the
/// configured discipline; the lookahead depth when one is set; and the
/// zero-delay switches for the low-latency tunings.
pub open spec fn spec_nvenc_options(c: &EncoderConfig) -> Seq<(Seq<char>, Seq<char>)> {
    let head: Seq<(Seq<char>, Seq<char>)> = seq![
        ("preset"@, spec_nvenc_preset_name(c)),
        ("tune"@, spec_nvenc_tuning_name(c)),
    ];
    let rc: Seq<(Seq<char>, Seq<char>)> = match c.rate_control {
        RateControl::Cbr => seq![
            ("rc"@, "cbr"@),
            ("b"@, spec_kbps_value(c.bitrate_kbps as int)),
        ],
        RateControl::Vbr => seq![
            ("rc"@, "vbr"@),
            ("b"@, spec_kbps_value(c.bitrate_kbps as int)),
        ] + (match c.max_bitrate_kbps {
            Some(m) => seq![("maxrate"@, spec_kbps_value(m as int))],
            None => Seq::<(Seq<char>, Seq<char>)>::empty(),
        }),
        RateControl::Cqp { qp } => seq![
            ("rc"@, "constqp"@),
            ("qp"@, text::spec_decimal(qp as int)),
        ],
        RateControl::Crf { crf } => seq![("cq"@, text::spec_decimal(crf as int))],
    };
    let lookahead: Seq<(Seq<char>, Seq<char>)> = match c.lookahead {
        Some(la) => seq![("rc-lookahead"@, text::spec_decimal(la as int))],
        None => Seq::<(Seq<char>, Seq<char>)>::empty(),
    };
    let low_latency: Seq<(Seq<char>, Seq<char>)> = if c.tuning == EncoderTuning::LowLatency
        || c.tuning == EncoderTuning::UltraLowLatency {
        seq![("delay"@, "0"@), ("zerolatency"@, "1"@)]
    } else {
        Seq::<(Seq<char>, Seq<char>)>::empty()
    };
    head + rc + lookahead + low_latency
}

/// The preset name of a configuration's speed setting.
pub open spec fn spec_nvenc_preset_name(c: &EncoderConfig) -> Seq<char> {
    match c.preset {
        crate::config::EncoderPreset::Fastest => "p1"@,
        crate::config::EncoderPreset::Fast => "p3"@,
        crate::config::EncoderPreset::Medium => "p4"@,
        crate::config::EncoderPreset::Slow => "p5"@,
        crate::config::EncoderPreset::Slowest => "p7"@,
    }
}

/// The tuning name of a configuration's latency regime.
pub open spec fn spec_nvenc_tuning_name(c: &EncoderConfig) -> Seq<char> {
    match c.tuning {
        EncoderTuning::HighQuality => "hq"@,
        EncoderTuning::LowLatency => "ll"@,
        EncoderTuning::UltraLowLatency => "ull"@,
        EncoderTuning::Lossless => "lossless"@,
    }
}

/// The views of an option list.
pub open spec fn spec_opts_view(v: Seq<(String, String)>) -> Seq<(Seq<char>, Seq<char>)> {
    v.map_values(|p: (String, String)| (p.0@, p.1@))
}

/// Build the option table the hardware backend opens with; see
/// [`spec_nvenc_options`] for the table.
pub fn build_nvenc_options(config: &EncoderConfig) -> (r: Vec<(String, String)>)
    ensures
        spec_opts_view(r@) == spec_nvenc_options(config),
{
    let mut opts: Vec<(String, String)> = Vec::new();
    opts.push((kv("preset"), kv(config.preset.to_nvenc_preset())));
    opts.push((kv("tune"), kv(config.tuning.to_nvenc_tuning())));
    proof {
        assert(spec_opts_view(opts@) =~= seq![
            ("preset"@, spec_nvenc_preset_name(config)),
            ("tune"@, spec_nvenc_tuning_name(config)),
        ]);
    }
    match config.rate_control {
        RateControl::Cbr => {
            opts.push((kv("rc"), kv("cbr")));
            opts.push((kv("b"), kbps_string(config.bitrate_kbps)));
        },
        RateControl::Vbr => {
            opts.push((kv("rc"), kv("vbr")));
            opts.push((kv("b"), kbps_string(config.bitrate_kbps)));
            match config.max_bitrate_kbps {
                Some(m) => {
                    opts.push((kv("maxrate"), kbps_string(m)));
                },
                None => {
                },
            }
        },
        RateControl::Cqp { qp } => {
            opts.push((kv("rc"), kv("constqp")));
            opts.push((kv("qp"), text::u64_to_string(qp as u64)));
        },
        RateControl::Crf { crf } => {
            opts.push((kv("cq"), text::u64_to_string(crf as u64)));
        },
    }
    match config.lookahead {
        Some(la) => {
            opts.push((kv("rc-lookahead"), text::u64_to_string(la as u64)));
        },
        None => {
        },
    }
    if matches!(config.tuning, EncoderTuning::LowLatency | EncoderTuning::UltraLowLatency) {
        opts.push((kv("delay"), kv("0")));
        opts.push((kv("zerolatency"), kv("1")));
    }
    proof {
        assert(spec_opts_view(opts@) =~= spec_nvenc_options(config));
    }
    opts
}

/// An owned copy of a literal option token.
fn kv(s: &str) -> (r: String)
    ensures
        r@ == s@,
{
    String::from_str(s)
}

/// A kilobit-per-second value rendered for the backend: digits then `k`.
fn kbps_string(kbps: u32) -> (r: String)
    ensures
        r@ == spec_kbps_value(kbps as int),
{
    text::u64_to_string(kbps as u64).concat("k")
}

} // verus!
