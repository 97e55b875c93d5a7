//! Audio/video muxer: one container holding a video and an audio
//! elementary stream with independent time bases.
//!
//! The muxer model validates the add-stream/start/write/finish
//! protocol, rescales timestamps between time bases, and accounts both
//! streams; the container serialization is the media library's work,
//! driven by the host program.

use vstd::prelude::*;
use vstd::string::StringExecFns;
use crate::audio::types::{AudioPacket, AudioParams};
use crate::error::Error;
use crate::output::{sat_u64, PacketLedger, PacketStamp};
use crate::types::{CodecParams, Packet};

verus! {

/// Which elementary stream a muxer packet belongs to.
#[derive(Debug, Clone, Copy, PartialEq, Eq, Structural)]
pub enum StreamType {
    Video,
    Audio,
}

/// A packet on its way into the muxer: video or audio.
#[derive(Debug)]
pub enum MuxerPacket {
    Video(Packet),
    Audio(AudioPacket),
}

impl MuxerPacket {
    /// The stream this packet belongs to.
    pub fn stream_type(&self) -> (r: StreamType)
        ensures
            self is Video ==> r == StreamType::Video,
            self is Audio ==> r == StreamType::Audio,
    {
        match self {
            MuxerPacket::Video(_) => StreamType::Video,
            MuxerPacket::Audio(_) => StreamType::Audio,
        }
    }

    /// The packet's presentation timestamp, in its stream's time base.
    pub fn pts(&self) -> (r: i64)
        ensures
            self matches MuxerPacket::Video(p) ==> r == p.pts,
            self matches MuxerPacket::Audio(p) ==> r == p.pts,
    {
        match self {
            MuxerPacket::Video(p) => p.pts,
            MuxerPacket::Audio(p) => p.pts,
        }
    }
}

/// `a / b` rounded to the nearest integer, halves away from zero;
/// `b` must be positive.
pub open spec fn spec_round_div_nearest(a: int, b: int) -> int {
    if a >= 0 {
        (a + b / 2) / b
    } else {
        -((-a + b / 2) / b)
    }
}

/// A timestamp rescaled from time base `src_num/src_den` to
/// `dst_num/dst_den`, rounded to nearest with halves away from zero.
pub open spec fn spec_rescale_ts(ts: int, src_num: int, src_den: int, dst_num: int, dst_den: int) -> int {
    spec_round_div_nearest(ts * src_num * dst_den, src_den * dst_num)
}

/// `v` clamped into the signed 64-bit range.
pub open spec fn sat_i64(v: int) -> int {
    if v > i64::MAX {
        i64::MAX as int
    } else if v < i64::MIN {
        i64::MIN as int
    } else {
        v
    }
}

/// Rescale a timestamp between two time bases, rounding to the nearest
/// tick with halves away from zero, and saturating at the 64-bit range.
pub fn rescale_ts(ts: i64, src_num: i32, src_den: i32, dst_num: i32, dst_den: i32) -> (r: i64)
    requires
        src_num >= 1,
        src_den >= 1,
        dst_num >= 1,
        dst_den >= 1,
    ensures
        r as int == sat_i64(spec_rescale_ts(ts as int, src_num as int, src_den as int,
            dst_num as int, dst_den as int)),
{
    proof {
        assert((ts as int) * (src_num as int) * (dst_den as int)
            <= 0x2000_0000_0000_0000_0000_0000_0000_0000int
            && (ts as int) * (src_num as int) * (dst_den as int)
                >= -0x2000_0000_0000_0000_0000_0000_0000_0000int
            && (ts as int) * (src_num as int) < 0x8000_0000_0000_0000_0000_0000_0000_0000int
            && (ts as int) * (src_num as int) >= -0x8000_0000_0000_0000_0000_0000_0000_0000int)
            by (nonlinear_arith)
            requires
                -0x8000_0000_0000_0000int <= ts as int <= 0x7FFF_FFFF_FFFF_FFFFint,
                1 <= src_num as int <= 0x7FFF_FFFFint,
                1 <= dst_den as int <= 0x7FFF_FFFFint,
        ;
        assert(1 <= (src_den as int) * (dst_num as int) <= 0x7FFF_FFFFint * 0x7FFF_FFFFint)
            by (nonlinear_arith)
            requires
                1 <= src_den as int <= 0x7FFF_FFFFint,
                1 <= dst_num as int <= 0x7FFF_FFFFint,
        ;
    }
    let a: i128 = (ts as i128) * (src_num as i128) * (dst_den as i128);
    let b: i128 = (src_den as i128) * (dst_num as i128);
    let rounded: i128 = if a >= 0 {
        (a + b / 2) / b
    } else {
        -((-a + b / 2) / b)
    };
    if rounded > i64::MAX as i128 {
        i64::MAX
    } else if rounded < i64::MIN as i128 {
        i64::MIN
    } else {
        rounded as i64
    }
}

/// Rescaling between a time base and itself is the identity: the
/// numerator and denominator cancel, and rounding a whole quotient
/// changes nothing.
pub proof fn lemma_rescale_same_base(ts: int, num: int, den: int)
    requires
        num >= 1,
        den >= 1,
    ensures
        spec_rescale_ts(ts, num, den, num, den) == ts,
{
    assert(den * num >= 1) by (nonlinear_arith)
        requires
            den >= 1,
            num >= 1,
    ;
    assert(ts * num * den == ts * (den * num)) by (nonlinear_arith);
    assert(ts >= 0 ==> ts * (den * num) >= 0) by (nonlinear_arith)
        requires
            den * num >= 1,
    ;
    assert(ts < 0 ==> ts * (den * num) < 0) by (nonlinear_arith)
        requires
            den * num >= 1,
    ;
    let b = den * num;
    if ts >= 0 {
        vstd::arithmetic::div_mod::lemma_div_multiples_vanish_fancy(ts, b / 2, b);
        assert(b * ts == ts * b) by (nonlinear_arith);
    } else {
        vstd::arithmetic::div_mod::lemma_div_multiples_vanish_fancy(-ts, b / 2, b);
        assert(b * (-ts) == (-ts) * b) by (nonlinear_arith);
        assert(-(ts * b) == (-ts) * b) by (nonlinear_arith);
    }
}

/// Audio/video container muxer.
pub struct AvMuxer {
    /// Output file path.
    pub path: String,
    /// Container format name.
    pub format: String,
    /// Whether a video stream has been added.
    pub has_video_stream: bool,
    /// Whether an audio stream has been added, and its sample rate.
    pub audio_sample_rate: Option<u32>,
    /// Video stream time base numerator.
    pub video_time_base_num: i32,
    /// Video stream time base denominator.
    pub video_time_base_den: i32,
    /// Whether the header has been written.
    pub initialized: bool,
    /// Video stream accounting.
    pub video_ledger: PacketLedger,
    /// Audio stream accounting.
    pub audio_ledger: PacketLedger,
}

impl AvMuxer {
    pub open spec fn wf(&self) -> bool {
        &&& self.video_ledger.wf()
        &&& self.audio_ledger.wf()
        &&& self.video_time_base_num >= 1
        &&& self.video_time_base_den >= 1
        &&& (self.audio_sample_rate matches Some(sr) ==> 1 <= sr <= i32::MAX)
    }

    /// Create a muxer for a file in the given container format.
    pub fn new(path: String, format: String) -> (r: Result<AvMuxer, Error>)
        ensures
            r matches Ok(m) && m.wf() && m.path@ == path@ && m.format@ == format@
                && !m.has_video_stream && m.audio_sample_rate is None && !m.initialized
                && m.video_ledger.log@ == Seq::<PacketStamp>::empty()
                && m.audio_ledger.log@ == Seq::<PacketStamp>::empty()
                && m.video_time_base_num == 1 && m.video_time_base_den == 1000,
    {
        Ok(AvMuxer {
            path,
            format,
            has_video_stream: false,
            audio_sample_rate: None,
            video_time_base_num: 1,
            video_time_base_den: 1000,
            initialized: false,
            video_ledger: PacketLedger::new(),
            audio_ledger: PacketLedger::new(),
        })
    }

    /// Declare the video stream from the encoder's parameters. A time
    /// base is a positive rational; parameters carrying a nonpositive
    /// component are rejected.
    pub fn add_video_stream(&mut self, params: &CodecParams) -> (r: Result<(), Error>)
        requires
            old(self).wf(),
        ensures
            final(self).wf(),
            r is Ok <==> (params.time_base_num >= 1 && params.time_base_den >= 1),
            r is Err ==> *final(self) == *old(self) && r->Err_0 is Muxer,
            r is Ok ==> {
                &&& final(self).has_video_stream
                &&& final(self).video_time_base_num == params.time_base_num
                &&& final(self).video_time_base_den == params.time_base_den
            },
            final(self).audio_sample_rate == old(self).audio_sample_rate,
            final(self).initialized == old(self).initialized,
            final(self).video_ledger == old(self).video_ledger,
            final(self).audio_ledger == old(self).audio_ledger,
            final(self).path@ == old(self).path@,
    {
        if params.time_base_num < 1 || params.time_base_den < 1 {
            return Err(Error::Muxer(String::from_str("time base must be positive")));
        }
        self.has_video_stream = true;
        self.video_time_base_num = params.time_base_num;
        self.video_time_base_den = params.time_base_den;
        Ok(())
    }

    /// Declare the audio stream from the encoder's parameters; its
    /// time base is one over the sample rate, so the rate must be
    /// positive and fit the stream's rational components.
    pub fn add_audio_stream(&mut self, params: &AudioParams) -> (r: Result<(), Error>)
        requires
            old(self).wf(),
        ensures
            final(self).wf(),
            r is Ok <==> (1 <= params.sample_rate <= i32::MAX),
            r is Err ==> *final(self) == *old(self) && r->Err_0 is Muxer,
            r is Ok ==> final(self).audio_sample_rate == Some(params.sample_rate),
            final(self).has_video_stream == old(self).has_video_stream,
            final(self).initialized == old(self).initialized,
            final(self).video_ledger == old(self).video_ledger,
            final(self).audio_ledger == old(self).audio_ledger,
            final(self).path@ == old(self).path@,
    {
        if params.sample_rate < 1 || params.sample_rate > 0x7FFF_FFFF {
            return Err(Error::Muxer(String::from_str("sample rate out of range")));
        }
        self.audio_sample_rate = Some(params.sample_rate);
        Ok(())
    }

    /// Write the container header. Starting an already started muxer is
    /// a no-op that succeeds.
    pub fn start(&mut self) -> (r: Result<(), Error>)
        requires
            old(self).wf(),
        ensures
            final(self).wf(),
            r is Ok,
            old(self).initialized ==> *final(self) == *old(self),
            !old(self).initialized ==> {
                &&& final(self).initialized
                &&& final(self).video_ledger == old(self).video_ledger
                &&& final(self).audio_ledger == old(self).audio_ledger
                &&& final(self).has_video_stream == old(self).has_video_stream
                &&& final(self).audio_sample_rate == old(self).audio_sample_rate
            },
    {
        if self.initialized {
            return Ok(());
        }
        self.initialized = true;
        Ok(())
    }

    /// Accept one video packet, its stamps rescaled from the declared
    /// video time base into the stream's — the same base in this
    /// model, so the rescaling is provably the identity. Fails exactly
    /// when the muxer has not been started.
    pub fn write_video(&mut self, packet: &Packet) -> (r: Result<(), Error>)
        requires
            old(self).wf(),
        ensures
            final(self).wf(),
            !old(self).initialized ==> (r matches Err(e) && e is Muxer) && *final(self) == *old(self),
            old(self).initialized ==> {
                &&& r is Ok
                &&& final(self).video_ledger.log@ == old(self).video_ledger.log@.push(
                    PacketStamp {
                        pts: packet.pts as int,
                        dts: packet.dts as int,
                        size: packet.data@.len() as int,
                    },
                )
                &&& final(self).audio_ledger == old(self).audio_ledger
                &&& final(self).initialized
            },
    {
        if !self.initialized {
            return Err(Error::Muxer(String::from_str("muxer not started")));
        }
        let stream_pts: i64 = rescale_ts(
            packet.pts,
            self.video_time_base_num,
            self.video_time_base_den,
            self.video_time_base_num,
            self.video_time_base_den,
        );
        let stream_dts: i64 = rescale_ts(
            packet.dts,
            self.video_time_base_num,
            self.video_time_base_den,
            self.video_time_base_num,
            self.video_time_base_den,
        );
        proof {
            lemma_rescale_same_base(
                packet.pts as int,
                self.video_time_base_num as int,
                self.video_time_base_den as int,
            );
            lemma_rescale_same_base(
                packet.dts as int,
                self.video_time_base_num as int,
                self.video_time_base_den as int,
            );
        }
        self.video_ledger.record(stream_pts, stream_dts, packet.data.len());
        Ok(())
    }

    /// Accept one audio packet, its sample-count stamps rescaled from
    /// the audio time base (one over the sample rate) into the
    /// stream's — the same base in this model, so the rescaling is
    /// provably the identity. Fails exactly when the muxer has not
    /// been started or carries no audio stream.
    pub fn write_audio(&mut self, packet: &AudioPacket) -> (r: Result<(), Error>)
        requires
            old(self).wf(),
        ensures
            final(self).wf(),
            !old(self).initialized ==> (r matches Err(e) && e is Muxer) && *final(self) == *old(self),
            old(self).initialized && old(self).audio_sample_rate is None ==> (r matches Err(e)
                && e is Muxer) && *final(self) == *old(self),
            old(self).initialized && old(self).audio_sample_rate is Some ==> {
                &&& r is Ok
                &&& final(self).audio_ledger.log@ == old(self).audio_ledger.log@.push(
                    PacketStamp {
                        pts: packet.pts as int,
                        dts: packet.dts as int,
                        size: packet.data@.len() as int,
                    },
                )
                &&& final(self).video_ledger == old(self).video_ledger
                &&& final(self).initialized
            },
    {
        if !self.initialized {
            return Err(Error::Muxer(String::from_str("muxer not started")));
        }
        let rate: i32 = match self.audio_sample_rate {
            Some(sr) => sr as i32,
            None => {
                return Err(Error::Muxer(String::from_str("no audio stream declared")));
            },
        };
        let stream_pts: i64 = rescale_ts(packet.pts, 1, rate, 1, rate);
        let stream_dts: i64 = rescale_ts(packet.dts, 1, rate, 1, rate);
        proof {
            lemma_rescale_same_base(packet.pts as int, 1, rate as int);
            lemma_rescale_same_base(packet.dts as int, 1, rate as int);
        }
        self.audio_ledger.record(stream_pts, stream_dts, packet.data.len());
        Ok(())
    }

    /// Accept one packet for whichever stream it belongs to.
    pub fn write_packet(&mut self, packet: &MuxerPacket) -> (r: Result<(), Error>)
        requires
            old(self).wf(),
        ensures
            final(self).wf(),
            !old(self).initialized ==> (r matches Err(e) && e is Muxer) && *final(self) == *old(self),
    {
        match packet {
            MuxerPacket::Video(p) => self.write_video(p),
            MuxerPacket::Audio(p) => self.write_audio(p),
        }
    }

    /// Write the container trailer. Finishing a muxer that never
    /// started is a no-op; finishing twice behaves as finishing once.
    /// The accounting of both streams survives finishing.
    pub fn finish(&mut self) -> (r: Result<(), Error>)
        requires
            old(self).wf(),
        ensures
            final(self).wf(),
            r is Ok,
            !old(self).initialized ==> *final(self) == *old(self),
            old(self).initialized ==> {
                &&& !final(self).initialized
                &&& final(self).video_ledger == old(self).video_ledger
                &&& final(self).audio_ledger == old(self).audio_ledger
            },
    {
        if !self.initialized {
            return Ok(());
        }
        self.initialized = false;
        Ok(())
    }

    /// Total payload bytes accepted across both streams, saturating.
    pub fn bytes_written(&self) -> (r: u64)
        ensures
            r as int == sat_u64(
                self.video_ledger.bytes_written as int + self.audio_ledger.bytes_written as int,
            ),
    {
        if self.video_ledger.bytes_written <= u64::MAX - self.audio_ledger.bytes_written {
            self.video_ledger.bytes_written + self.audio_ledger.bytes_written
        } else {
            u64::MAX
        }
    }

    /// Whether an audio stream has been declared.
    pub fn has_audio(&self) -> (r: bool)
        ensures
            r == (self.audio_sample_rate is Some),
    {
        self.audio_sample_rate.is_some()
    }
}

} // verus!
