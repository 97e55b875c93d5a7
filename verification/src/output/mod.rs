//! Output sinks: file recording, wire streaming, the virtual camera,
//! and fan-out across several destinations.
//!
//! Each sink is a verified state machine over the stream it accepts: it
//! validates its configuration, counts the bytes handed to it, and
//! monitors the timestamp discipline of the packets it writes. The byte
//! transport underneath — container muxing, network sockets, the
//! media-graph node — is driven by the host program.

pub mod camera;
pub mod file;
pub mod ledger;
pub mod muxer;
pub mod rtmp;
pub mod srt;

pub use camera::VirtualCamera;
pub use file::FileOutput;
pub use ledger::{
    lemma_bytes_written_exact, lemma_ordered_stream, sat_u64, stream_ordered, total_bytes,
    PacketLedger, PacketStamp,
};
pub use muxer::{AvMuxer, MuxerPacket, StreamType};
pub use rtmp::{RtmpOutput, RtmpService};
pub use srt::{SrtMode, SrtOutput};

use vstd::prelude::*;
use vstd::string::StringExecFns;
use crate::error::Error;
use crate::types::CodecParams;
use crate::types::Packet;

verus! {

/// Output destination configuration.
#[derive(Debug)]
pub enum Output {
    /// A virtual camera node other applications can open.
    VirtualCamera {
        /// Node name shown to applications.
        name: String,
    },
    /// Container file recording.
    File {
        /// Output file path.
        path: String,
        /// Container format.
        container: Container,
    },
    /// RTMP streaming.
    Rtmp {
        /// RTMP URL carrying the stream key.
        url: String,
    },
    /// SRT streaming.
    Srt {
        /// SRT URL.
        url: String,
        /// Target latency in milliseconds.
        latency_ms: u32,
    },
    /// Several outputs fed the same stream.
    Multiple(Vec<Output>),
    /// Discard everything; used for measurement.
    Null,
}

impl Output {
    /// A virtual camera output with the given node name.
    pub fn virtual_camera(name: String) -> (r: Output)
        ensures
            r matches Output::VirtualCamera { name: n } && n@ == name@,
    {
        Output::VirtualCamera { name }
    }

    /// A file recording output.
    pub fn file(path: String, container: Container) -> (r: Output)
        ensures
            r matches Output::File { path: p, container: c } && p@ == path@ && c == container,
    {
        Output::File { path, container }
    }

    /// An RTMP streaming output.
    pub fn rtmp(url: String) -> (r: Output)
        ensures
            r matches Output::Rtmp { url: u } && u@ == url@,
    {
        Output::Rtmp { url }
    }

    /// An SRT streaming output.
    pub fn srt(url: String, latency_ms: u32) -> (r: Output)
        ensures
            r matches Output::Srt { url: u, latency_ms: l } && u@ == url@ && l == latency_ms,
    {
        Output::Srt { url, latency_ms }
    }

    /// A fan-out over several outputs.
    pub fn multiple(outputs: Vec<Output>) -> (r: Output)
        ensures
            r matches Output::Multiple(v) && v == outputs,
    {
        Output::Multiple(outputs)
    }

    /// Combine this output with another, flattening into an existing
    /// fan-out when there is one.
    pub fn and(self, other: Output) -> (r: Output)
        ensures
            self matches Output::Multiple(v)
                ==> (r matches Output::Multiple(w) && w@ == v@.push(other)),
            !(self is Multiple)
                ==> (r matches Output::Multiple(w) && w@.len() == 2 && w@[0] == self && w@[1]
                    == other),
    {
        match self {
            Output::Multiple(mut outputs) => {
                outputs.push(other);
                Output::Multiple(outputs)
            },
            _ => {
                let mut pair: Vec<Output> = Vec::new();
                pair.push(self);
                pair.push(other);
                Output::Multiple(pair)
            },
        }
    }
}

impl Default for Output {
    /// A virtual camera under the engine's own name.
    fn default() -> (r: Output)
        ensures
            r matches Output::VirtualCamera { name } && name@ == "GhostStream Camera"@,
    {
        Output::VirtualCamera { name: String::from_str("GhostStream Camera") }
    }
}

/// Container format for file output.
#[derive(Debug, Clone, Copy, PartialEq, Eq, Structural)]
pub enum Container {
    /// Matroska, the recording default.
    Matroska,
    /// MP4, for wide compatibility.
    Mp4,
    /// WebM, for the web.
    WebM,
    /// MPEG transport stream.
    Ts,
}

impl Container {
    /// File extension for this container.
    pub fn extension(&self) -> (r: &'static str)
        ensures
            *self == Container::Matroska ==> r@ == "mkv"@,
            *self == Container::Mp4 ==> r@ == "mp4"@,
            *self == Container::WebM ==> r@ == "webm"@,
            *self == Container::Ts ==> r@ == "ts"@,
    {
        match self {
            Container::Matroska => "mkv",
            Container::Mp4 => "mp4",
            Container::WebM => "webm",
            Container::Ts => "ts",
        }
    }

    /// The media library's format name for this container.
    pub fn ffmpeg_format(&self) -> (r: &'static str)
        ensures
            *self == Container::Matroska ==> r@ == "matroska"@,
            *self == Container::Mp4 ==> r@ == "mp4"@,
            *self == Container::WebM ==> r@ == "webm"@,
            *self == Container::Ts ==> r@ == "mpegts"@,
    {
        match self {
            Container::Matroska => "matroska",
            Container::Mp4 => "mp4",
            Container::WebM => "webm",
            Container::Ts => "mpegts",
        }
    }
}

impl Default for Container {
    fn default() -> (r: Container)
        ensures
            r == Container::Matroska,
    {
        Container::Matroska
    }
}

/// Whether `s` ends with `suffix`, at the spec level.
pub open spec fn spec_ends_with(s: Seq<char>, suffix: Seq<char>) -> bool {
    suffix.len() <= s.len() && s.subrange(s.len() - suffix.len(), s.len() as int) == suffix
}

/// Route a target path or URL to its output configuration: the
/// literal camera name publishes a virtual camera; the known file
/// extensions pick their container; an RTMP or SRT scheme picks the
/// matching wire sink (SRT with the default latency budget); anything
/// else records to the default container.
pub fn route_output(target: String) -> (r: Output)
    ensures
        target@ == "camera"@ ==> (r matches Output::VirtualCamera { name }
            && name@ == "GhostStream Camera"@),
        target@ != "camera"@ && spec_ends_with(target@, ".mkv"@) ==> (r matches Output::File {
            path,
            container,
        } && path@ == target@ && container == Container::Matroska),
        target@ != "camera"@ && spec_ends_with(target@, ".mp4"@) ==> (r matches Output::File {
            path,
            container,
        } && path@ == target@ && container == Container::Mp4),
        target@ != "camera"@ && spec_ends_with(target@, ".webm"@) ==> (r matches Output::File {
            path,
            container,
        } && path@ == target@ && container == Container::WebM),
        target@ != "camera"@ && spec_ends_with(target@, ".ts"@) && !spec_ends_with(
            target@,
            ".mkv"@,
        ) && !spec_ends_with(target@, ".mp4"@) && !spec_ends_with(target@, ".webm"@) ==> (
        r matches Output::File { path, container } && path@ == target@ && container
            == Container::Ts),
        ({
            &&& target@ != "camera"@
            &&& !spec_ends_with(target@, ".mkv"@)
            &&& !spec_ends_with(target@, ".mp4"@)
            &&& !spec_ends_with(target@, ".webm"@)
            &&& !spec_ends_with(target@, ".ts"@)
            &&& (target@.len() >= "rtmp://"@.len() && target@.subrange(0, "rtmp://"@.len() as int)
                == "rtmp://"@ || target@.len() >= "rtmps://"@.len() && target@.subrange(
                0,
                "rtmps://"@.len() as int,
            ) == "rtmps://"@)
        }) ==> (r matches Output::Rtmp { url } && url@ == target@),
        ({
            &&& target@ != "camera"@
            &&& !spec_ends_with(target@, ".mkv"@)
            &&& !spec_ends_with(target@, ".mp4"@)
            &&& !spec_ends_with(target@, ".webm"@)
            &&& !spec_ends_with(target@, ".ts"@)
            &&& !(target@.len() >= "rtmp://"@.len() && target@.subrange(0, "rtmp://"@.len() as int)
                == "rtmp://"@)
            &&& !(target@.len() >= "rtmps://"@.len() && target@.subrange(
                0,
                "rtmps://"@.len() as int,
            ) == "rtmps://"@)
            &&& target@.len() >= "srt://"@.len() && target@.subrange(0, "srt://"@.len() as int)
                == "srt://"@
        }) ==> (r matches Output::Srt { url, latency_ms } && url@ == target@ && latency_ms == 200),
        ({
            &&& target@ != "camera"@
            &&& !spec_ends_with(target@, ".mkv"@)
            &&& !spec_ends_with(target@, ".mp4"@)
            &&& !spec_ends_with(target@, ".webm"@)
            &&& !spec_ends_with(target@, ".ts"@)
            &&& !(target@.len() >= "rtmp://"@.len() && target@.subrange(0, "rtmp://"@.len() as int)
                == "rtmp://"@)
            &&& !(target@.len() >= "rtmps://"@.len() && target@.subrange(
                0,
                "rtmps://"@.len() as int,
            ) == "rtmps://"@)
            &&& !(target@.len() >= "srt://"@.len() && target@.subrange(0, "srt://"@.len() as int)
                == "srt://"@)
        }) ==> (r matches Output::File { path, container } && path@ == target@ && container
            == Container::Matroska),
{
    proof {
        // The extension suffixes differ in their final characters, so
        // at most one of them can match.
        reveal_strlit(".mkv");
        reveal_strlit(".mp4");
        reveal_strlit(".webm");
        reveal_strlit(".ts");
        let t = target@;
        let l = t.len() as int;
        if spec_ends_with(t, ".mkv"@) && spec_ends_with(t, ".mp4"@) {
            assert(t.subrange(l - 4, l)[2] == ".mkv"@[2]);
            assert(t.subrange(l - 4, l)[2] == ".mp4"@[2]);
            assert(false);
        }
        if spec_ends_with(t, ".mkv"@) && spec_ends_with(t, ".webm"@) {
            assert(t.subrange(l - 4, l)[3] == t[l - 1]);
            assert(t.subrange(l - 5, l)[4] == t[l - 1]);
            assert(".mkv"@[3] == ".webm"@[4]);
            assert(false);
        }
        if spec_ends_with(t, ".mp4"@) && spec_ends_with(t, ".webm"@) {
            assert(t.subrange(l - 4, l)[3] == t[l - 1]);
            assert(t.subrange(l - 5, l)[4] == t[l - 1]);
            assert(".mp4"@[3] == ".webm"@[4]);
            assert(false);
        }
    }
    if crate::text::str_eq(target.as_str(), "camera") {
        return Output::VirtualCamera { name: String::from_str("GhostStream Camera") };
    }
    if crate::text::str_ends_with(target.as_str(), ".mkv") {
        return Output::File { path: target, container: Container::Matroska };
    }
    if crate::text::str_ends_with(target.as_str(), ".mp4") {
        return Output::File { path: target, container: Container::Mp4 };
    }
    if crate::text::str_ends_with(target.as_str(), ".webm") {
        return Output::File { path: target, container: Container::WebM };
    }
    if crate::text::str_ends_with(target.as_str(), ".ts") {
        return Output::File { path: target, container: Container::Ts };
    }
    if crate::text::str_starts_with(target.as_str(), "rtmp://") || crate::text::str_starts_with(
        target.as_str(),
        "rtmps://",
    ) {
        return Output::Rtmp { url: target };
    }
    if crate::text::str_starts_with(target.as_str(), "srt://") {
        return Output::Srt { url: target, latency_ms: 200 };
    }
    Output::File { path: target, container: Container::Matroska }
}

/// Discard-everything sink, used for measurement and tests.
pub struct NullOutput {
    /// Byte and timestamp accounting.
    pub ledger: PacketLedger,
}

impl NullOutput {
    pub open spec fn wf(&self) -> bool {
        self.ledger.wf()
    }

    pub fn new() -> (r: NullOutput)
        ensures
            r.wf(),
            r.ledger.bytes_written == 0,
            r.ledger.log@ == Seq::<PacketStamp>::empty(),
    {
        NullOutput { ledger: PacketLedger::new() }
    }

    /// Accept and discard one packet, accounting its bytes.
    pub fn write(&mut self, packet: &Packet) -> (r: Result<(), Error>)
        requires
            old(self).wf(),
        ensures
            final(self).wf(),
            r is Ok,
            final(self).ledger.log@ == old(self).ledger.log@.push(
                PacketStamp {
                    pts: packet.pts as int,
                    dts: packet.dts as int,
                    size: packet.data@.len() as int,
                },
            ),
    {
        self.ledger.record(packet.pts, packet.dts, packet.data.len());
        Ok(())
    }

    /// Total payload bytes accepted so far.
    pub fn bytes_written(&self) -> (r: u64)
        ensures
            r == self.ledger.bytes_written,
    {
        self.ledger.bytes_written
    }
}

/// One output destination inside a fan-out.
pub enum SingleSink {
    VirtualCamera(camera::VirtualCamera),
    File(file::FileOutput),
    Rtmp(rtmp::RtmpOutput),
    Srt(srt::SrtOutput),
    Null(NullOutput),
}

impl SingleSink {
    pub open spec fn wf(&self) -> bool {
        match self {
            SingleSink::VirtualCamera(c) => c.wf(),
            SingleSink::File(f) => f.wf(),
            SingleSink::Rtmp(r) => r.wf(),
            SingleSink::Srt(s) => s.wf(),
            SingleSink::Null(n) => n.wf(),
        }
    }

    /// The sink's packet history.
    pub open spec fn spec_log(&self) -> Seq<PacketStamp> {
        match self {
            SingleSink::VirtualCamera(c) => c.ledger.log@,
            SingleSink::File(f) => f.ledger.log@,
            SingleSink::Rtmp(r) => r.ledger.log@,
            SingleSink::Srt(s) => s.ledger.log@,
            SingleSink::Null(n) => n.ledger.log@,
        }
    }

    /// The sink's byte counter.
    pub open spec fn spec_bytes(&self) -> int {
        match self {
            SingleSink::VirtualCamera(c) => c.ledger.bytes_written as int,
            SingleSink::File(f) => f.ledger.bytes_written as int,
            SingleSink::Rtmp(r) => r.ledger.bytes_written as int,
            SingleSink::Srt(s) => s.ledger.bytes_written as int,
            SingleSink::Null(n) => n.ledger.bytes_written as int,
        }
    }

    /// Whether initialization (and hence a write on a fresh sink) can
    /// succeed: it can, unless a wire sink carries an invalid URL.
    pub open spec fn spec_can_init(&self) -> bool {
        match self {
            SingleSink::Rtmp(r) => r.initialized || rtmp::spec_valid_rtmp_url(r.url@),
            SingleSink::Srt(s) => s.initialized || srt::spec_valid_srt_url(s.url@),
            _ => true,
        }
    }

    /// Whether the sink's variant is initialized; the discard sink
    /// needs no initialization and always counts as initialized.
    pub open spec fn spec_initialized(&self) -> bool {
        match self {
            SingleSink::VirtualCamera(c) => c.initialized,
            SingleSink::File(f) => f.initialized,
            SingleSink::Rtmp(r) => r.initialized,
            SingleSink::Srt(s) => s.initialized,
            SingleSink::Null(_) => true,
        }
    }

    /// The stream time base of the sinks that store one; the others
    /// report the millisecond default.
    pub open spec fn spec_time_base(&self) -> (i32, i32) {
        match self {
            SingleSink::File(f) => (f.time_base_num, f.time_base_den),
            SingleSink::Rtmp(r) => (r.time_base_num, r.time_base_den),
            SingleSink::Srt(s) => (s.time_base_num, s.time_base_den),
            _ => (1i32, 1000i32),
        }
    }

    /// Initialize this sink with the given codec parameters: its
    /// variant ends initialized with the requested time base stored;
    /// on an already initialized sink the call is a no-op that
    /// succeeds, and a failure leaves the sink untouched.
    pub fn init_with_codec(&mut self, codec_params: Option<&CodecParams>) -> (r: Result<(), Error>)
        requires
            old(self).wf(),
        ensures
            final(self).wf(),
            spec_same_variant(old(self), final(self)),
            r is Ok <==> old(self).spec_can_init(),
            final(self).spec_log() == old(self).spec_log(),
            final(self).spec_bytes() == old(self).spec_bytes(),
            old(self).spec_initialized() ==> *final(self) == *old(self),
            r is Err ==> *final(self) == *old(self),
            r is Ok ==> final(self).spec_initialized(),
            !old(self).spec_initialized() && r is Ok && !(*old(self) is Null) && !(*old(
                self,
            ) is VirtualCamera) ==> final(self).spec_time_base() == (match codec_params {
                Some(p) => (p.time_base_num, p.time_base_den),
                None => (1i32, 1000i32),
            }),
    {
        match self {
            SingleSink::VirtualCamera(c) => c.init_with_codec(codec_params),
            SingleSink::File(f) => f.init_with_codec(codec_params),
            SingleSink::Rtmp(r) => r.init_with_codec(codec_params),
            SingleSink::Srt(s) => s.init_with_codec(codec_params),
            SingleSink::Null(_) => Ok(()),
        }
    }

    /// Write one packet to this sink: its stamp lands on the variant's
    /// ledger; a failed write leaves the sink untouched.
    pub fn write(&mut self, packet: &Packet) -> (r: Result<(), Error>)
        requires
            old(self).wf(),
        ensures
            final(self).wf(),
            spec_same_variant(old(self), final(self)),
            r is Ok <==> old(self).spec_can_init(),
            old(self).spec_can_init() ==> final(self).spec_log() == old(self).spec_log().push(
                PacketStamp {
                    pts: packet.pts as int,
                    dts: packet.dts as int,
                    size: packet.data@.len() as int,
                },
            ),
            !old(self).spec_can_init() ==> *final(self) == *old(self),
            r is Ok ==> final(self).spec_initialized(),
    {
        match self {
            SingleSink::VirtualCamera(c) => c.write(packet),
            SingleSink::File(f) => f.write(packet),
            SingleSink::Rtmp(r) => r.write(packet),
            SingleSink::Srt(s) => s.write(packet),
            SingleSink::Null(n) => n.write(packet),
        }
    }

    /// Finalize this sink: its variant ends uninitialized while the
    /// accounting survives.
    pub fn finish(&mut self) -> (r: Result<(), Error>)
        requires
            old(self).wf(),
        ensures
            final(self).wf(),
            spec_same_variant(old(self), final(self)),
            r is Ok,
            final(self).spec_log() == old(self).spec_log(),
            final(self).spec_bytes() == old(self).spec_bytes(),
            !(*old(self) is Null) ==> !final(self).spec_initialized(),
    {
        match self {
            SingleSink::VirtualCamera(c) => c.finish(),
            SingleSink::File(f) => f.finish(),
            SingleSink::Rtmp(r) => r.finish(),
            SingleSink::Srt(s) => s.finish(),
            SingleSink::Null(_) => Ok(()),
        }
    }

    /// Total payload bytes accepted so far.
    pub fn bytes_written(&self) -> (r: u64)
        ensures
            r as int == self.spec_bytes(),
    {
        match self {
            SingleSink::VirtualCamera(c) => c.bytes_written(),
            SingleSink::File(f) => f.bytes_written(),
            SingleSink::Rtmp(r) => r.bytes_written(),
            SingleSink::Srt(s) => s.bytes_written(),
            SingleSink::Null(n) => n.bytes_written(),
        }
    }
}

/// Whether two sink values are the same variant.
pub open spec fn spec_same_variant(a: &SingleSink, b: &SingleSink) -> bool {
    &&& (a is VirtualCamera <==> b is VirtualCamera)
    &&& (a is File <==> b is File)
    &&& (a is Rtmp <==> b is Rtmp)
    &&& (a is Srt <==> b is Srt)
    &&& (a is Null <==> b is Null)
}

/// The destinations of a configuration list that stand for one sink
/// each — every entry but the nested fan-outs.
pub open spec fn spec_single_configs(s: Seq<Output>) -> Seq<Output>
    decreases s.len(),
{
    if s.len() == 0 {
        Seq::empty()
    } else {
        spec_single_configs(s.drop_last()) + (if s.last() is Multiple {
            Seq::empty()
        } else {
            seq![s.last()]
        })
    }
}

/// Whether `sink` is the sink that configuration `o` asks for.
pub open spec fn spec_sink_matches(o: Output, sink: SingleSink) -> bool {
    match o {
        Output::VirtualCamera { name } => sink matches SingleSink::VirtualCamera(c) && c.name@
            == name@ && !c.initialized,
        Output::File { path, container } => sink matches SingleSink::File(f) && f.path@ == path@
            && f.container == container && !f.initialized,
        Output::Rtmp { url } => sink matches SingleSink::Rtmp(r) && r.url@ == url@
            && !r.initialized,
        Output::Srt { url, latency_ms } => sink matches SingleSink::Srt(s) && s.url@ == url@
            && !s.initialized,
        Output::Null => sink is Null,
        Output::Multiple(_) => false,
    }
}

/// Fan-out sink: every packet goes to every destination.
pub struct MultiOutput {
    /// The destinations.
    pub outputs: Vec<SingleSink>,
}

impl MultiOutput {
    pub open spec fn wf(&self) -> bool {
        forall|i: int| 0 <= i < self.outputs@.len() ==> #[trigger] self.outputs@[i].wf()
    }

    /// Build one sink per destination, skipping nested fan-outs. Fails
    /// exactly when that leaves no destination at all.
    pub fn new(configs: Vec<Output>) -> (r: Result<MultiOutput, Error>)
        ensures
            spec_single_configs(configs@).len() == 0 ==> (r matches Err(e) && e is OutputInit),
            spec_single_configs(configs@).len() > 0 ==> (r matches Ok(m) && {
                &&& m.wf()
                &&& m.outputs@.len() == spec_single_configs(configs@).len()
                &&& forall|i: int| 0 <= i < m.outputs@.len()
                    ==> #[trigger] spec_sink_matches(spec_single_configs(configs@)[i], m.outputs@[i])
            }),
    {
        let mut remaining: Vec<Output> = configs;
        let ghost all: Seq<Output> = remaining@;
        let total0: usize = remaining.len();
        let mut outputs: Vec<SingleSink> = Vec::new();
        let mut i: usize = 0;
        proof {
            assert(all.subrange(0, 0) =~= Seq::<Output>::empty());
            assert(remaining@ =~= all.subrange(0, all.len() as int));
        }
        while remaining.len() > 0
            invariant
                all.len() == total0,
                0 <= i <= all.len(),
                remaining@ == all.subrange(i as int, all.len() as int),
                outputs@.len() == spec_single_configs(all.subrange(0, i as int)).len(),
                forall|j: int| 0 <= j < outputs@.len() ==> #[trigger] spec_sink_matches(
                    spec_single_configs(all.subrange(0, i as int))[j],
                    outputs@[j],
                ),
                forall|j: int| 0 <= j < outputs@.len() ==> #[trigger] outputs@[j].wf(),
            decreases remaining@.len(),
        {
            let config = remaining.remove(0);
            proof {
                assert(config == all[i as int]);
                assert(remaining@ =~= all.subrange(i as int + 1, all.len() as int));
                assert(all.subrange(0, i as int + 1) =~= all.subrange(0, i as int).push(
                    all[i as int],
                ));
                assert(all.subrange(0, i as int + 1).drop_last() =~= all.subrange(0, i as int));
            }
            match config {
                Output::VirtualCamera { name } => {
                    outputs.push(SingleSink::VirtualCamera(camera::VirtualCamera::new(name)));
                },
                Output::File { path, container } => {
                    outputs.push(SingleSink::File(file::FileOutput::new(path, container)));
                },
                Output::Rtmp { url } => {
                    outputs.push(SingleSink::Rtmp(rtmp::RtmpOutput::new(url)));
                },
                Output::Srt { url, latency_ms } => {
                    outputs.push(SingleSink::Srt(srt::SrtOutput::new(url, latency_ms)));
                },
                Output::Multiple(_) => {
                    // A nested fan-out has no single sink; skip it.
                },
                Output::Null => {
                    outputs.push(SingleSink::Null(NullOutput::new()));
                },
            }
            proof {
                assert(i < all.len());
            }
            i = i + 1;
        }
        proof {
            assert(all.subrange(0, i as int) =~= all);
        }
        if outputs.len() == 0 {
            return Err(Error::OutputInit(String::from_str("no destination in the fan-out")));
        }
        Ok(MultiOutput { outputs })
    }

    /// Initialize every destination with the same codec parameters,
    /// collecting failures; fails only when every destination fails.
    pub fn init_with_codec(&mut self, codec_params: Option<&CodecParams>) -> (r: Result<(), Error>)
        requires
            old(self).wf(),
        ensures
            final(self).wf(),
            final(self).outputs@.len() == old(self).outputs@.len(),
            (r is Ok) <==> (old(self).outputs@.len() == 0 || exists|i: int|
                0 <= i < old(self).outputs@.len() && (#[trigger] old(self).outputs@[i]).spec_can_init()),
            forall|i: int| 0 <= i < final(self).outputs@.len()
                ==> (#[trigger] final(self).outputs@[i]).spec_log() == old(self).outputs@[i].spec_log(),
            forall|i: int| 0 <= i < old(self).outputs@.len() && (#[trigger] old(
                self,
            ).outputs@[i]).spec_can_init() ==> final(self).outputs@[i].spec_initialized(),
    {
        let mut any_ok: bool = false;
        let mut first_err: Option<Error> = None;
        let total: usize = self.outputs.len();
        let mut i: usize = 0;
        while i < total
            invariant
                0 <= i <= total,
                total == self.outputs@.len(),
                self.outputs@.len() == old(self).outputs@.len(),
                forall|j: int| 0 <= j < self.outputs@.len() ==> (#[trigger] self.outputs@[j]).wf(),
                forall|j: int| i <= j < self.outputs@.len() ==> #[trigger] self.outputs@[j]
                    == old(self).outputs@[j],
                any_ok <==> exists|j: int| 0 <= j < i
                    && (#[trigger] old(self).outputs@[j]).spec_can_init(),
                first_err is Some <==> exists|j: int| 0 <= j < i
                    && !(#[trigger] old(self).outputs@[j]).spec_can_init(),
                forall|j: int| 0 <= j < self.outputs@.len()
                    ==> (#[trigger] self.outputs@[j]).spec_log() == old(self).outputs@[j].spec_log(),
                forall|j: int| 0 <= j < i && (#[trigger] old(self).outputs@[j]).spec_can_init()
                    ==> self.outputs@[j].spec_initialized(),
            decreases total - i,
        {
            let sink: &mut SingleSink = &mut self.outputs[i];
            let result = sink.init_with_codec(codec_params);
            match result {
                Ok(_) => {
                    any_ok = true;
                },
                Err(e) => {
                    if first_err.is_none() {
                        first_err = Some(e);
                    }
                },
            }
            i = i + 1;
        }
        if any_ok {
            return Ok(());
        }
        match first_err {
            Some(e) => {
                proof {
                    assert(forall|j: int| 0 <= j < old(self).outputs@.len()
                        ==> !(#[trigger] old(self).outputs@[j]).spec_can_init());
                }
                Err(e)
            },
            None => {
                proof {
                    if old(self).outputs@.len() > 0 {
                        if old(self).outputs@[0].spec_can_init() {
                            assert(exists|j: int| 0 <= j < i
                                && (#[trigger] old(self).outputs@[j]).spec_can_init());
                        }
                        assert(false);
                    }
                }
                Ok(())
            },
        }
    }

    /// Write one packet to every destination, carrying on past
    /// individual failures.
    pub fn write(&mut self, packet: &Packet) -> (r: Result<(), Error>)
        requires
            old(self).wf(),
        ensures
            final(self).wf(),
            r is Ok,
            final(self).outputs@.len() == old(self).outputs@.len(),
            forall|i: int| 0 <= i < old(self).outputs@.len()
                && (#[trigger] old(self).outputs@[i]).spec_can_init()
                ==> final(self).outputs@[i].spec_log() == old(self).outputs@[i].spec_log().push(
                    PacketStamp {
                        pts: packet.pts as int,
                        dts: packet.dts as int,
                        size: packet.data@.len() as int,
                    },
                ),
            forall|i: int| 0 <= i < old(self).outputs@.len() && !(#[trigger] old(
                self,
            ).outputs@[i]).spec_can_init() ==> final(self).outputs@[i] == old(self).outputs@[i],
    {
        let total: usize = self.outputs.len();
        let mut i: usize = 0;
        while i < total
            invariant
                0 <= i <= total,
                total == self.outputs@.len(),
                self.outputs@.len() == old(self).outputs@.len(),
                forall|j: int| 0 <= j < self.outputs@.len() ==> (#[trigger] self.outputs@[j]).wf(),
                forall|j: int| i <= j < self.outputs@.len() ==> #[trigger] self.outputs@[j]
                    == old(self).outputs@[j],
                forall|j: int| 0 <= j < i && (#[trigger] old(self).outputs@[j]).spec_can_init()
                    ==> self.outputs@[j].spec_log() == old(self).outputs@[j].spec_log().push(
                        PacketStamp {
                            pts: packet.pts as int,
                            dts: packet.dts as int,
                            size: packet.data@.len() as int,
                        },
                    ),
                forall|j: int| 0 <= j < i && !(#[trigger] old(self).outputs@[j]).spec_can_init()
                    ==> self.outputs@[j] == old(self).outputs@[j],
            decreases total - i,
        {
            let sink: &mut SingleSink = &mut self.outputs[i];
            // Per-destination failures are tolerated; the fan-out carries on.
            let _ignored = sink.write(packet);
            i = i + 1;
        }
        Ok(())
    }

    /// Finalize every destination.
    pub fn finish(&mut self) -> (r: Result<(), Error>)
        requires
            old(self).wf(),
        ensures
            final(self).wf(),
            r is Ok,
            final(self).outputs@.len() == old(self).outputs@.len(),
            forall|i: int| 0 <= i < final(self).outputs@.len()
                ==> (#[trigger] final(self).outputs@[i]).spec_bytes()
                    == old(self).outputs@[i].spec_bytes(),
            forall|i: int| 0 <= i < old(self).outputs@.len() && !(old(self).outputs@[i] is Null)
                ==> !(#[trigger] final(self).outputs@[i]).spec_initialized(),
    {
        let total: usize = self.outputs.len();
        let mut i: usize = 0;
        while i < total
            invariant
                0 <= i <= total,
                total == self.outputs@.len(),
                self.outputs@.len() == old(self).outputs@.len(),
                forall|j: int| 0 <= j < self.outputs@.len() ==> (#[trigger] self.outputs@[j]).wf(),
                forall|j: int| i <= j < self.outputs@.len() ==> #[trigger] self.outputs@[j]
                    == old(self).outputs@[j],
                forall|j: int| 0 <= j < self.outputs@.len()
                    ==> (#[trigger] self.outputs@[j]).spec_bytes()
                        == old(self).outputs@[j].spec_bytes(),
                forall|j: int| 0 <= j < i && !(old(self).outputs@[j] is Null)
                    ==> !(#[trigger] self.outputs@[j]).spec_initialized(),
            decreases total - i,
        {
            let sink: &mut SingleSink = &mut self.outputs[i];
            let _ignored = sink.finish();
            i = i + 1;
        }
        Ok(())
    }

    /// The largest byte count across the destinations — they all see
    /// the same stream, so this is the fan-out's own progress.
    pub fn bytes_written(&self) -> (r: u64)
        ensures
            forall|i: int| 0 <= i < self.outputs@.len()
                ==> (#[trigger] self.outputs@[i]).spec_bytes() <= r as int,
            self.outputs@.len() == 0 ==> r == 0,
            self.outputs@.len() > 0 ==> exists|i: int| 0 <= i < self.outputs@.len()
                && (#[trigger] self.outputs@[i]).spec_bytes() == r as int,
    {
        let total: usize = self.outputs.len();
        let mut best: u64 = 0;
        let mut i: usize = 0;
        while i < total
            invariant
                0 <= i <= total,
                total == self.outputs@.len(),
                forall|j: int| 0 <= j < i ==> (#[trigger] self.outputs@[j]).spec_bytes()
                    <= best as int,
                i == 0 ==> best == 0,
                i > 0 ==> exists|j: int| 0 <= j < i && (#[trigger] self.outputs@[j]).spec_bytes()
                    == best as int,
            decreases total - i,
        {
            let b: u64 = self.outputs[i].bytes_written();
            if b > best || i == 0 {
                best = b;
            }
            i = i + 1;
        }
        best
    }
}

/// All sinks an output configuration can stand for.
pub enum AnySink {
    VirtualCamera(camera::VirtualCamera),
    File(file::FileOutput),
    Rtmp(rtmp::RtmpOutput),
    Srt(srt::SrtOutput),
    Multi(MultiOutput),
    Null(NullOutput),
}

impl AnySink {
    pub open spec fn wf(&self) -> bool {
        match self {
            AnySink::VirtualCamera(c) => c.wf(),
            AnySink::File(f) => f.wf(),
            AnySink::Rtmp(r) => r.wf(),
            AnySink::Srt(s) => s.wf(),
            AnySink::Multi(m) => m.wf(),
            AnySink::Null(n) => n.wf(),
        }
    }

    /// Whether initialization can succeed: it can, unless a wire sink
    /// carries an invalid URL; a fan-out needs only one destination
    /// that can.
    pub open spec fn spec_can_init(&self) -> bool {
        match self {
            AnySink::Rtmp(r) => r.initialized || rtmp::spec_valid_rtmp_url(r.url@),
            AnySink::Srt(s) => s.initialized || srt::spec_valid_srt_url(s.url@),
            AnySink::Multi(m) => m.outputs@.len() == 0 || exists|i: int|
                0 <= i < m.outputs@.len() && (#[trigger] m.outputs@[i]).spec_can_init(),
            _ => true,
        }
    }

    /// Whether a write can succeed: a fan-out tolerates individual
    /// failures, every other sink needs its own initialization to work.
    pub open spec fn spec_can_write(&self) -> bool {
        match self {
            AnySink::Multi(_) => true,
            AnySink::Rtmp(r) => r.initialized || rtmp::spec_valid_rtmp_url(r.url@),
            AnySink::Srt(s) => s.initialized || srt::spec_valid_srt_url(s.url@),
            _ => true,
        }
    }

    /// The packet history of a single-destination sink; a fan-out
    /// keeps one history per destination instead.
    pub open spec fn spec_log(&self) -> Seq<PacketStamp> {
        match self {
            AnySink::VirtualCamera(c) => c.ledger.log@,
            AnySink::File(f) => f.ledger.log@,
            AnySink::Rtmp(r) => r.ledger.log@,
            AnySink::Srt(s) => s.ledger.log@,
            AnySink::Multi(_) => Seq::empty(),
            AnySink::Null(n) => n.ledger.log@,
        }
    }

    /// The byte counter of a single-destination sink; a fan-out
    /// reports the maximum over its destinations instead.
    pub open spec fn spec_bytes(&self) -> int {
        match self {
            AnySink::VirtualCamera(c) => c.ledger.bytes_written as int,
            AnySink::File(f) => f.ledger.bytes_written as int,
            AnySink::Rtmp(r) => r.ledger.bytes_written as int,
            AnySink::Srt(s) => s.ledger.bytes_written as int,
            AnySink::Multi(_) => 0,
            AnySink::Null(n) => n.ledger.bytes_written as int,
        }
    }

    /// Whether the sink's variant is initialized; the discard sink
    /// counts as initialized, and a fan-out as its destinations.
    pub open spec fn spec_initialized(&self) -> bool {
        match self {
            AnySink::VirtualCamera(c) => c.initialized,
            AnySink::File(f) => f.initialized,
            AnySink::Rtmp(r) => r.initialized,
            AnySink::Srt(s) => s.initialized,
            AnySink::Multi(m) => forall|i: int|
                0 <= i < m.outputs@.len() ==> (#[trigger] m.outputs@[i]).spec_initialized(),
            AnySink::Null(_) => true,
        }
    }

    /// The stream time base of the sinks that store one; the others
    /// report the millisecond default.
    pub open spec fn spec_time_base(&self) -> (i32, i32) {
        match self {
            AnySink::File(f) => (f.time_base_num, f.time_base_den),
            AnySink::Rtmp(r) => (r.time_base_num, r.time_base_den),
            AnySink::Srt(s) => (s.time_base_num, s.time_base_den),
            _ => (1i32, 1000i32),
        }
    }

    /// Initialize the sink with the given codec parameters: the
    /// variant ends initialized with the requested time base stored
    /// (in a fan-out, every destination that can initialize does); on
    /// an already initialized sink the call is a no-op that succeeds,
    /// and a failure leaves the sink untouched.
    pub fn init_with_codec(&mut self, codec_params: Option<&CodecParams>) -> (r: Result<(), Error>)
        requires
            old(self).wf(),
        ensures
            final(self).wf(),
            spec_same_sink_kind(old(self), final(self)),
            r is Ok <==> old(self).spec_can_init(),
            !(*old(self) is Multi) && r is Err ==> *final(self) == *old(self),
            !(*old(self) is Multi) ==> final(self).spec_log() == old(self).spec_log()
                && final(self).spec_bytes() == old(self).spec_bytes(),
            !(*old(self) is Multi) && old(self).spec_initialized() ==> *final(self) == *old(self),
            !(*old(self) is Multi) && r is Ok ==> final(self).spec_initialized(),
            !(*old(self) is Multi) && !old(self).spec_initialized() && r is Ok && !(*old(
                self,
            ) is Null) && !(*old(self) is VirtualCamera) ==> final(self).spec_time_base() == (
            match codec_params {
                Some(p) => (p.time_base_num, p.time_base_den),
                None => (1i32, 1000i32),
            }),
            *old(self) matches AnySink::Multi(m) ==> (*final(self) matches AnySink::Multi(m2) && {
                &&& m2.outputs@.len() == m.outputs@.len()
                &&& forall|i: int|
                    0 <= i < m2.outputs@.len() ==> (#[trigger] m2.outputs@[i]).spec_log()
                        == m.outputs@[i].spec_log()
                &&& forall|i: int|
                    0 <= i < m.outputs@.len() && (#[trigger] m.outputs@[i]).spec_can_init()
                        ==> m2.outputs@[i].spec_initialized()
            }),
    {
        match self {
            AnySink::VirtualCamera(c) => c.init_with_codec(codec_params),
            AnySink::File(f) => f.init_with_codec(codec_params),
            AnySink::Rtmp(t) => t.init_with_codec(codec_params),
            AnySink::Srt(t) => t.init_with_codec(codec_params),
            AnySink::Multi(m) => m.init_with_codec(codec_params),
            AnySink::Null(_) => Ok(()),
        }
    }

    /// Write one packet to the sink: its stamp lands on the active
    /// variant's ledger (in a fan-out, on every destination that can
    /// take it); a failed write leaves the sink untouched.
    pub fn write(&mut self, packet: &Packet) -> (r: Result<(), Error>)
        requires
            old(self).wf(),
        ensures
            final(self).wf(),
            spec_same_sink_kind(old(self), final(self)),
            r is Ok <==> old(self).spec_can_write(),
            !(*old(self) is Multi) && old(self).spec_can_init() ==> final(self).spec_log() == old(
                self,
            ).spec_log().push(
                PacketStamp {
                    pts: packet.pts as int,
                    dts: packet.dts as int,
                    size: packet.data@.len() as int,
                },
            ),
            !(*old(self) is Multi) && !old(self).spec_can_init() ==> *final(self) == *old(self),
            *old(self) matches AnySink::Multi(m) ==> (*final(self) matches AnySink::Multi(m2) && {
                &&& m2.outputs@.len() == m.outputs@.len()
                &&& forall|i: int|
                    0 <= i < m.outputs@.len() && (#[trigger] m.outputs@[i]).spec_can_init()
                        ==> m2.outputs@[i].spec_log() == m.outputs@[i].spec_log().push(
                        PacketStamp {
                            pts: packet.pts as int,
                            dts: packet.dts as int,
                            size: packet.data@.len() as int,
                        },
                    )
                &&& forall|i: int|
                    0 <= i < m.outputs@.len() && !(#[trigger] m.outputs@[i]).spec_can_init()
                        ==> m2.outputs@[i] == m.outputs@[i]
            }),
    {
        match self {
            AnySink::VirtualCamera(c) => c.write(packet),
            AnySink::File(f) => f.write(packet),
            AnySink::Rtmp(t) => t.write(packet),
            AnySink::Srt(t) => t.write(packet),
            AnySink::Multi(m) => m.write(packet),
            AnySink::Null(n) => n.write(packet),
        }
    }

    /// Finalize the sink: the variant ends uninitialized (in a
    /// fan-out, every destination) while the byte accounting survives.
    pub fn finish(&mut self) -> (r: Result<(), Error>)
        requires
            old(self).wf(),
        ensures
            final(self).wf(),
            spec_same_sink_kind(old(self), final(self)),
            r is Ok,
            !(*old(self) is Multi) ==> final(self).spec_log() == old(self).spec_log()
                && final(self).spec_bytes() == old(self).spec_bytes(),
            !(*old(self) is Multi) && !(*old(self) is Null) ==> !final(self).spec_initialized(),
            *old(self) matches AnySink::Multi(m) ==> (*final(self) matches AnySink::Multi(m2) && {
                &&& m2.outputs@.len() == m.outputs@.len()
                &&& forall|i: int|
                    0 <= i < m2.outputs@.len() ==> (#[trigger] m2.outputs@[i]).spec_bytes()
                        == m.outputs@[i].spec_bytes()
                &&& forall|i: int|
                    0 <= i < m.outputs@.len() && !(m.outputs@[i] is Null)
                        ==> !(#[trigger] m2.outputs@[i]).spec_initialized()
            }),
    {
        match self {
            AnySink::VirtualCamera(c) => c.finish(),
            AnySink::File(f) => f.finish(),
            AnySink::Rtmp(t) => t.finish(),
            AnySink::Srt(t) => t.finish(),
            AnySink::Multi(m) => m.finish(),
            AnySink::Null(_) => Ok(()),
        }
    }

    /// Total payload bytes accepted so far: the variant's own counter,
    /// or for a fan-out the largest count across its destinations.
    pub fn bytes_written(&self) -> (r: u64)
        ensures
            !(self is Multi) ==> r as int == self.spec_bytes(),
            self matches AnySink::Multi(m) ==> {
                &&& forall|i: int|
                    0 <= i < m.outputs@.len() ==> (#[trigger] m.outputs@[i]).spec_bytes()
                        <= r as int
                &&& m.outputs@.len() == 0 ==> r == 0
                &&& m.outputs@.len() > 0 ==> exists|i: int|
                    0 <= i < m.outputs@.len() && (#[trigger] m.outputs@[i]).spec_bytes()
                        == r as int
            },
    {
        match self {
            AnySink::VirtualCamera(c) => c.bytes_written(),
            AnySink::File(f) => f.bytes_written(),
            AnySink::Rtmp(t) => t.bytes_written(),
            AnySink::Srt(t) => t.bytes_written(),
            AnySink::Multi(m) => m.bytes_written(),
            AnySink::Null(n) => n.bytes_written(),
        }
    }
}

/// Whether two sink values are the same kind of sink.
pub open spec fn spec_same_sink_kind(a: &AnySink, b: &AnySink) -> bool {
    &&& (a is VirtualCamera <==> b is VirtualCamera)
    &&& (a is File <==> b is File)
    &&& (a is Rtmp <==> b is Rtmp)
    &&& (a is Srt <==> b is Srt)
    &&& (a is Multi <==> b is Multi)
    &&& (a is Null <==> b is Null)
}

/// Build the sink an output configuration asks for. Each configuration
/// maps to its own sink kind — a path to the file muxer, an RTMP URL to
/// the RTMP sink, an SRT URL to the SRT sink, a camera name to the
/// virtual camera, a list to the fan-out — and only an empty fan-out
/// fails.
pub fn create_output(output: Output) -> (r: Result<AnySink, Error>)
    ensures
        output matches Output::VirtualCamera { name } ==> (r matches Ok(s)
            && s matches AnySink::VirtualCamera(c) && c.name@ == name@ && !c.initialized),
        output matches Output::File { path, container } ==> (r matches Ok(s)
            && s matches AnySink::File(f) && f.path@ == path@ && f.container == container
            && !f.initialized),
        output matches Output::Rtmp { url } ==> (r matches Ok(s) && s matches AnySink::Rtmp(t)
            && t.url@ == url@ && !t.initialized),
        output matches Output::Srt { url, latency_ms } ==> (r matches Ok(s)
            && s matches AnySink::Srt(t) && t.url@ == url@ && !t.initialized),
        output matches Output::Multiple(configs) ==> {
            &&& spec_single_configs(configs@).len() == 0 ==> (r matches Err(e) && e is OutputInit)
            &&& spec_single_configs(configs@).len() > 0 ==> (r matches Ok(s)
                && s matches AnySink::Multi(m)
                && m.outputs@.len() == spec_single_configs(configs@).len())
        },
        output is Null ==> (r matches Ok(s) && s is Null),
{
    match output {
        Output::VirtualCamera { name } => Ok(AnySink::VirtualCamera(camera::VirtualCamera::new(name))),
        Output::File { path, container } => Ok(AnySink::File(file::FileOutput::new(path, container))),
        Output::Rtmp { url } => Ok(AnySink::Rtmp(rtmp::RtmpOutput::new(url))),
        Output::Srt { url, latency_ms } => Ok(AnySink::Srt(srt::SrtOutput::new(url, latency_ms))),
        Output::Multiple(configs) => {
            let multi = MultiOutput::new(configs)?;
            Ok(AnySink::Multi(multi))
        },
        Output::Null => Ok(AnySink::Null(NullOutput::new())),
    }
}

} // verus!
