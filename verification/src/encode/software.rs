//! CPU encoder support: presets, capability data, and the option table
//! handed to the software codecs at open time. Probing the codecs and
//! running them is the host program's work.

use vstd::prelude::*;
use vstd::string::StringExecFns;
use crate::config::{EncoderConfig, EncoderTuning, RateControl};
use crate::encode::Codec;
use crate::text;
use crate::types::Resolution;

verus! {

/// CPU encoder preset: the speed/quality tradeoff handed to the
/// software codecs.
#[derive(Debug, Clone, Copy, PartialEq, Eq, Structural)]
pub enum CpuPreset {
    Ultrafast,
    Superfast,
    Veryfast,
    Faster,
    Fast,
    Medium,
    Slow,
    Slower,
    Veryslow,
    Placebo,
}

impl CpuPreset {
    /// The preset name understood by the H.264 and HEVC software
    /// codecs.
    pub fn to_x26x_preset(&self) -> (r: &'static str)
        ensures
            *self == CpuPreset::Ultrafast ==> r@ == "ultrafast"@,
            *self == CpuPreset::Superfast ==> r@ == "superfast"@,
            *self == CpuPreset::Veryfast ==> r@ == "veryfast"@,
            *self == CpuPreset::Faster ==> r@ == "faster"@,
            *self == CpuPreset::Fast ==> r@ == "fast"@,
            *self == CpuPreset::Medium ==> r@ == "medium"@,
            *self == CpuPreset::Slow ==> r@ == "slow"@,
            *self == CpuPreset::Slower ==> r@ == "slower"@,
            *self == CpuPreset::Veryslow ==> r@ == "veryslow"@,
            *self == CpuPreset::Placebo ==> r@ == "placebo"@,
    {
        match self {
            CpuPreset::Ultrafast => "ultrafast",
            CpuPreset::Superfast => "superfast",
            CpuPreset::Veryfast => "veryfast",
            CpuPreset::Faster => "faster",
            CpuPreset::Fast => "fast",
            CpuPreset::Medium => "medium",
            CpuPreset::Slow => "slow",
            CpuPreset::Slower => "slower",
            CpuPreset::Veryslow => "veryslow",
            CpuPreset::Placebo => "placebo",
        }
    }

    /// The numeric preset understood by the AV1 software codec: zero
    /// is slowest and best, thirteen fastest.
    pub fn to_svtav1_preset(&self) -> (r: &'static str)
        ensures
            *self == CpuPreset::Ultrafast ==> r@ == "12"@,
            *self == CpuPreset::Superfast ==> r@ == "11"@,
            *self == CpuPreset::Veryfast ==> r@ == "10"@,
            *self == CpuPreset::Faster ==> r@ == "9"@,
            *self == CpuPreset::Fast ==> r@ == "8"@,
            *self == CpuPreset::Medium ==> r@ == "6"@,
            *self == CpuPreset::Slow ==> r@ == "4"@,
            *self == CpuPreset::Slower ==> r@ == "2"@,
            *self == CpuPreset::Veryslow ==> r@ == "1"@,
            *self == CpuPreset::Placebo ==> r@ == "0"@,
    {
        match self {
            CpuPreset::Ultrafast => "12",
            CpuPreset::Superfast => "11",
            CpuPreset::Veryfast => "10",
            CpuPreset::Faster => "9",
            CpuPreset::Fast => "8",
            CpuPreset::Medium => "6",
            CpuPreset::Slow => "4",
            CpuPreset::Slower => "2",
            CpuPreset::Veryslow => "1",
            CpuPreset::Placebo => "0",
        }
    }

    /// The preset that keeps encoding realtime at the given rate and
    /// geometry, by pixel throughput.
    pub fn for_realtime(fps: u32, resolution: Resolution) -> (r: CpuPreset)
        ensures
            ({
                let pps = resolution.width as int * resolution.height as int * fps as int;
                &&& pps > 500_000_000 ==> r == CpuPreset::Ultrafast
                &&& 250_000_000 < pps <= 500_000_000 ==> r == CpuPreset::Superfast
                &&& 125_000_000 < pps <= 250_000_000 ==> r == CpuPreset::Veryfast
                &&& 60_000_000 < pps <= 125_000_000 ==> r == CpuPreset::Faster
                &&& pps <= 60_000_000 ==> r == CpuPreset::Fast
            }),
    {
        let pixels: u64 = resolution.pixels();
        proof {
            assert(pixels as int * fps as int
                <= 0xFFFF_FFFF_FFFF_FFFFint * 0xFFFF_FFFFint) by (nonlinear_arith)
                requires
                    0 <= pixels as int <= 0xFFFF_FFFF_FFFF_FFFFint,
                    0 <= fps as int <= 0xFFFF_FFFFint,
            ;
        }
        let pps: u128 = (pixels as u128) * (fps as u128);
        if pps > 500_000_000 {
            CpuPreset::Ultrafast
        } else if pps > 250_000_000 {
            CpuPreset::Superfast
        } else if pps > 125_000_000 {
            CpuPreset::Veryfast
        } else if pps > 60_000_000 {
            CpuPreset::Faster
        } else {
            CpuPreset::Fast
        }
    }
}

impl Default for CpuPreset {
    fn default() -> (r: CpuPreset)
        ensures
            r == CpuPreset::Medium,
    {
        CpuPreset::Medium
    }
}

/// The software encoder name for a codec.
pub fn encoder_name(codec: Codec) -> (r: &'static str)
    ensures
        codec == Codec::H264 ==> r@ == "libx264"@,
        codec == Codec::Hevc ==> r@ == "libx265"@,
        codec == Codec::Av1 ==> r@ == "libsvtav1"@,
{
    match codec {
        Codec::H264 => "libx264",
        Codec::Hevc => "libx265",
        Codec::Av1 => "libsvtav1",
    }
}

/// CPU description relevant to software encoding.
#[derive(Debug, Clone)]
pub struct CpuInfo {
    /// Logical cores.
    pub cores: usize,
    /// Whether the vendor string names the vendor with the strongest
    /// software-encoder throughput per core.
    pub is_amd: bool,
    /// Model name, where known.
    pub model: Option<String>,
    /// 256-bit vector units present.
    pub has_avx2: bool,
    /// 512-bit vector units present.
    pub has_avx512: bool,
    /// Software H.264 encoder present.
    pub x264_available: bool,
    /// Software HEVC encoder present.
    pub x265_available: bool,
    /// Software AV1 encoder present.
    pub svtav1_available: bool,
}

/// The rate-control option rows of the software backends for a
/// configuration.
pub open spec fn spec_software_rc_options(c: &EncoderConfig) -> Seq<(Seq<char>, Seq<char>)> {
    match c.rate_control {
        RateControl::Cbr => {
            if c.codec == Codec::Av1 {
                seq![
                    ("rc"@, "1"@),
                    ("tbr"@, crate::encode::nvenc::spec_kbps_value(c.bitrate_kbps as int)),
                ]
            } else {
                seq![
                    ("b"@, crate::encode::nvenc::spec_kbps_value(c.bitrate_kbps as int)),
                    ("maxrate"@, crate::encode::nvenc::spec_kbps_value(c.bitrate_kbps as int)),
                    ("bufsize"@, crate::encode::nvenc::spec_kbps_value(2 * c.bitrate_kbps as int)),
                ]
            }
        },
        RateControl::Vbr => seq![
            ("b"@, crate::encode::nvenc::spec_kbps_value(c.bitrate_kbps as int)),
        ] + (match c.max_bitrate_kbps {
            Some(m) => seq![("maxrate"@, crate::encode::nvenc::spec_kbps_value(m as int))],
            None => Seq::<(Seq<char>, Seq<char>)>::empty(),
        }),
        RateControl::Cqp { qp } => seq![("qp"@, text::spec_decimal(qp as int))],
        RateControl::Crf { crf } => seq![("crf"@, text::spec_decimal(crf as int))],
    }
}

/// The option table a software backend opens with: its preset, the
/// thread count, the rate-control rows of the configured discipline,
/// and the zero-latency tune for the low-latency regimes.
pub open spec fn spec_software_options(c: &EncoderConfig, preset: CpuPreset, threads: int) -> Seq<
    (Seq<char>, Seq<char>),
> {
    let head: Seq<(Seq<char>, Seq<char>)> = seq![
        ("preset"@, spec_software_preset_name(c.codec, preset)),
        ("threads"@, text::spec_decimal(threads)),
    ];
    let tune: Seq<(Seq<char>, Seq<char>)> = if c.tuning == EncoderTuning::LowLatency || c.tuning
        == EncoderTuning::UltraLowLatency {
        seq![("tune"@, "zerolatency"@)]
    } else {
        Seq::<(Seq<char>, Seq<char>)>::empty()
    };
    head + spec_software_rc_options(c) + tune
}

/// The preset value for a codec: the named preset for the H.264 and
/// HEVC codecs, the numeric one for AV1.
pub open spec fn spec_software_preset_name(codec: Codec, preset: CpuPreset) -> Seq<char> {
    if codec == Codec::Av1 {
        spec_svtav1_preset_name(preset)
    } else {
        spec_x26x_preset_name(preset)
    }
}

pub open spec fn spec_x26x_preset_name(preset: CpuPreset) -> Seq<char> {
    match preset {
        CpuPreset::Ultrafast => "ultrafast"@,
        CpuPreset::Superfast => "superfast"@,
        CpuPreset::Veryfast => "veryfast"@,
        CpuPreset::Faster => "faster"@,
        CpuPreset::Fast => "fast"@,
        CpuPreset::Medium => "medium"@,
        CpuPreset::Slow => "slow"@,
        CpuPreset::Slower => "slower"@,
        CpuPreset::Veryslow => "veryslow"@,
        CpuPreset::Placebo => "placebo"@,
    }
}

pub open spec fn spec_svtav1_preset_name(preset: CpuPreset) -> Seq<char> {
    match preset {
        CpuPreset::Ultrafast => "12"@,
        CpuPreset::Superfast => "11"@,
        CpuPreset::Veryfast => "10"@,
        CpuPreset::Faster => "9"@,
        CpuPreset::Fast => "8"@,
        CpuPreset::Medium => "6"@,
        CpuPreset::Slow => "4"@,
        CpuPreset::Slower => "2"@,
        CpuPreset::Veryslow => "1"@,
        CpuPreset::Placebo => "0"@,
    }
}

/// Build the option table a software backend opens with; see
/// [`spec_software_options`] for the table.
pub fn build_software_options(config: &EncoderConfig, preset: CpuPreset, threads: u32) -> (r: Vec<
    (String, String),
>)
    requires
        config.bitrate_kbps * 2 <= u32::MAX,
    ensures
        crate::encode::nvenc::spec_opts_view(r@) == spec_software_options(
            config,
            preset,
            threads as int,
        ),
{
    let mut opts: Vec<(String, String)> = Vec::new();
    let preset_value: &'static str = if matches!(config.codec, Codec::Av1) {
        preset.to_svtav1_preset()
    } else {
        preset.to_x26x_preset()
    };
    opts.push((owned("preset"), owned(preset_value)));
    opts.push((owned("threads"), text::u64_to_string(threads as u64)));
    proof {
        assert(crate::encode::nvenc::spec_opts_view(opts@) =~= seq![
            ("preset"@, spec_software_preset_name(config.codec, preset)),
            ("threads"@, text::spec_decimal(threads as int)),
        ]);
    }
    match config.rate_control {
        RateControl::Cbr => {
            if matches!(config.codec, Codec::Av1) {
                opts.push((owned("rc"), owned("1")));
                opts.push((owned("tbr"), kbps(config.bitrate_kbps)));
            } else {
                opts.push((owned("b"), kbps(config.bitrate_kbps)));
                opts.push((owned("maxrate"), kbps(config.bitrate_kbps)));
                opts.push((owned("bufsize"), kbps(config.bitrate_kbps * 2)));
            }
        },
        RateControl::Vbr => {
            opts.push((owned("b"), kbps(config.bitrate_kbps)));
            match config.max_bitrate_kbps {
                Some(m) => {
                    opts.push((owned("maxrate"), kbps(m)));
                },
                None => {
                },
            }
        },
        RateControl::Cqp { qp } => {
            opts.push((owned("qp"), text::u64_to_string(qp as u64)));
        },
        RateControl::Crf { crf } => {
            opts.push((owned("crf"), text::u64_to_string(crf as u64)));
        },
    }
    if matches!(config.tuning, EncoderTuning::LowLatency | EncoderTuning::UltraLowLatency) {
        opts.push((owned("tune"), owned("zerolatency")));
    }
    proof {
        assert(crate::encode::nvenc::spec_opts_view(opts@) =~= spec_software_options(
            config,
            preset,
            threads as int,
        ));
    }
    opts
}

/// An owned copy of a literal option token.
fn owned(s: &str) -> (r: String)
    ensures
        r@ == s@,
{
    String::from_str(s)
}

/// A kilobit-per-second value rendered for the backend: digits then `k`.
fn kbps(v: u32) -> (r: String)
    ensures
        r@ == crate::encode::nvenc::spec_kbps_value(v as int),
{
    text::u64_to_string(v as u64).concat("k")
}

} // verus!
