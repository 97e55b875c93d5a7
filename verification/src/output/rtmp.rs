//! RTMP streaming sink.
//!
//! Validates RTMP URLs, masks the stream key for logs, accounts the
//! written stream, and tracks the bounded reconnection budget. The FLV
//! muxing and the network connection are the media library's work,
//! driven by the host program.

use vstd::prelude::*;
use vstd::string::StrSliceExecFns;
use vstd::string::StringExecFns;
use crate::error::Error;
use crate::output::{PacketLedger, PacketStamp};
use crate::text;
use crate::types::{CodecParams, Packet};

verus! {

/// Whether `url` names an RTMP endpoint: it begins with `rtmp://` or
/// `rtmps://`.
pub open spec fn spec_valid_rtmp_url(url: Seq<char>) -> bool {
    ||| (url.len() >= "rtmp://"@.len() && url.subrange(0, "rtmp://"@.len() as int) == "rtmp://"@)
    ||| (url.len() >= "rtmps://"@.len() && url.subrange(0, "rtmps://"@.len() as int)
        == "rtmps://"@)
}

/// RTMP streaming output.
pub struct RtmpOutput {
    /// Endpoint URL, stream key included.
    pub url: String,
    /// Whether the connection has been initialized (header sent).
    pub initialized: bool,
    /// Whether the endpoint accepted the handshake.
    pub connected: bool,
    /// Reconnection attempts spent so far.
    pub reconnect_attempts: u32,
    /// Reconnection attempts allowed.
    pub max_reconnect_attempts: u32,
    /// Stream time base numerator.
    pub time_base_num: i32,
    /// Stream time base denominator.
    pub time_base_den: i32,
    /// Byte and timestamp accounting.
    pub ledger: PacketLedger,
}

impl RtmpOutput {
    pub open spec fn wf(&self) -> bool {
        self.ledger.wf()
    }

    /// Create an RTMP output; the URL is validated at initialization.
    pub fn new(url: String) -> (r: RtmpOutput)
        ensures
            r.wf(),
            r.url@ == url@,
            !r.initialized,
            !r.connected,
            r.reconnect_attempts == 0,
            r.max_reconnect_attempts == 5,
            r.time_base_num == 1 && r.time_base_den == 1000,
            r.ledger.bytes_written == 0,
            r.ledger.log@ == Seq::<PacketStamp>::empty(),
    {
        RtmpOutput {
            url,
            initialized: false,
            connected: false,
            reconnect_attempts: 0,
            max_reconnect_attempts: 5,
            time_base_num: 1,
            time_base_den: 1000,
            ledger: PacketLedger::new(),
        }
    }

    /// Change the reconnection budget.
    pub fn with_max_reconnects(self, attempts: u32) -> (r: RtmpOutput)
        ensures
            r == (RtmpOutput { max_reconnect_attempts: attempts, ..self }),
    {
        RtmpOutput { max_reconnect_attempts: attempts, ..self }
    }

    /// The URL with the final path segment — the stream key — masked,
    /// for logging.
    pub fn url_masked(&self) -> (r: String)
        ensures
            (forall|j: int| 0 <= j < self.url@.len() ==> self.url@[j] != '/') ==> r@
                == "rtmp://*****"@,
            (exists|j: int| 0 <= j < self.url@.len() && self.url@[j] == '/') ==> exists|i: int|
                {
                    &&& 0 <= i < self.url@.len()
                    &&& self.url@[i] == '/'
                    &&& (forall|j: int| i < j < self.url@.len() ==> self.url@[j] != '/')
                    &&& #[trigger] r@ == self.url@.subrange(0, i) + "/*****"@
                },
    {
        match text::rfind_char(self.url.as_str(), '/') {
            Some(idx) => {
                let prefix: &str = self.url.as_str().substring_char(0, idx);
                let masked: String = String::from_str(prefix).concat("/*****");
                proof {
                    assert(masked@ == self.url@.subrange(0, idx as int) + "/*****"@);
                }
                masked
            },
            None => String::from_str("rtmp://*****"),
        }
    }

    /// Check whether the stored URL names an RTMP endpoint.
    fn url_is_valid(&self) -> (r: bool)
        ensures
            r == spec_valid_rtmp_url(self.url@),
    {
        let plain: bool = text::str_starts_with(self.url.as_str(), "rtmp://");
        let secure: bool = text::str_starts_with(self.url.as_str(), "rtmps://");
        plain || secure
    }

    /// Initialize the connection. Fails exactly when the URL does not
    /// begin with `rtmp://` or `rtmps://`. On an already initialized
    /// sink this is a no-op that succeeds.
    pub fn init_with_codec(&mut self, codec_params: Option<&CodecParams>) -> (r: Result<(), Error>)
        requires
            old(self).wf(),
        ensures
            final(self).wf(),
            old(self).initialized ==> r is Ok && *final(self) == *old(self),
            !old(self).initialized && !spec_valid_rtmp_url(old(self).url@) ==> (r matches Err(e)
                && e is Rtmp) && *final(self) == *old(self),
            !old(self).initialized && spec_valid_rtmp_url(old(self).url@) ==> {
                &&& r is Ok
                &&& final(self).initialized
                &&& final(self).connected
                &&& final(self).url@ == old(self).url@
                &&& final(self).ledger == old(self).ledger
                &&& final(self).reconnect_attempts == old(self).reconnect_attempts
                &&& final(self).max_reconnect_attempts == old(self).max_reconnect_attempts
                &&& match codec_params {
                    Some(p) => final(self).time_base_num == p.time_base_num && final(self).time_base_den
                        == p.time_base_den,
                    None => final(self).time_base_num == 1 && final(self).time_base_den == 1000,
                }
            },
    {
        if self.initialized {
            return Ok(());
        }
        if !self.url_is_valid() {
            return Err(Error::Rtmp(String::from_str("URL must begin with an RTMP scheme")));
        }
        match codec_params {
            Some(params) => {
                self.time_base_num = params.time_base_num;
                self.time_base_den = params.time_base_den;
            },
            None => {
                self.time_base_num = 1;
                self.time_base_den = 1000;
            },
        }
        self.initialized = true;
        self.connected = true;
        Ok(())
    }

    /// Spend one reconnection attempt. Fails exactly when the budget is
    /// exhausted or the URL is invalid; otherwise the connection state
    /// is reset and re-established.
    pub fn try_reconnect(&mut self) -> (r: Result<(), Error>)
        requires
            old(self).wf(),
        ensures
            final(self).wf(),
            old(self).reconnect_attempts >= old(self).max_reconnect_attempts ==> (r matches Err(e)
                && e is Rtmp) && *final(self) == *old(self),
            old(self).reconnect_attempts < old(self).max_reconnect_attempts ==> {
                &&& final(self).reconnect_attempts == old(self).reconnect_attempts + 1
                &&& final(self).url@ == old(self).url@
                &&& final(self).ledger == old(self).ledger
                &&& (spec_valid_rtmp_url(old(self).url@) ==> r is Ok && final(self).initialized
                    && final(self).connected)
                &&& (!spec_valid_rtmp_url(old(self).url@) ==> (r matches Err(e) && e is Rtmp)
                    && !final(self).initialized)
            },
    {
        if self.reconnect_attempts >= self.max_reconnect_attempts {
            return Err(Error::Rtmp(String::from_str("reconnection budget exhausted")));
        }
        self.reconnect_attempts = self.reconnect_attempts + 1;
        self.initialized = false;
        self.connected = false;
        self.init_with_codec(None)
    }

    /// Accept one encoded packet. An uninitialized sink connects first
    /// with the default parameters, so a write fails exactly when that
    /// connection fails; a successful write resets the reconnection
    /// budget.
    pub fn write(&mut self, packet: &Packet) -> (r: Result<(), Error>)
        requires
            old(self).wf(),
        ensures
            final(self).wf(),
            !old(self).initialized && !spec_valid_rtmp_url(old(self).url@) ==> (r matches Err(e)
                && e is Rtmp) && *final(self) == *old(self),
            old(self).initialized || spec_valid_rtmp_url(old(self).url@) ==> {
                &&& r is Ok
                &&& final(self).initialized
                &&& final(self).reconnect_attempts == 0
                &&& final(self).url@ == old(self).url@
                &&& final(self).ledger.log@ == old(self).ledger.log@.push(
                    PacketStamp {
                        pts: packet.pts as int,
                        dts: packet.dts as int,
                        size: packet.data@.len() as int,
                    },
                )
            },
    {
        if !self.initialized {
            let init_result = self.init_with_codec(None);
            if init_result.is_err() {
                return init_result;
            }
        }
        self.ledger.record(packet.pts, packet.dts, packet.data.len());
        self.reconnect_attempts = 0;
        Ok(())
    }

    /// Close the stream. Finishing an uninitialized sink is a no-op;
    /// finishing twice behaves as finishing once.
    pub fn finish(&mut self) -> (r: Result<(), Error>)
        requires
            old(self).wf(),
        ensures
            final(self).wf(),
            r is Ok,
            !old(self).initialized ==> *final(self) == *old(self),
            old(self).initialized ==> {
                &&& !final(self).initialized
                &&& !final(self).connected
                &&& final(self).ledger == old(self).ledger
                &&& final(self).url@ == old(self).url@
            },
    {
        if !self.initialized {
            return Ok(());
        }
        self.initialized = false;
        self.connected = false;
        Ok(())
    }

    /// Total payload bytes accepted so far.
    pub fn bytes_written(&self) -> (r: u64)
        ensures
            r == self.ledger.bytes_written,
    {
        self.ledger.bytes_written
    }
}

/// URL builders for well-known RTMP services.
pub struct RtmpService;

impl RtmpService {
    /// Ingest URL for a given ingest server and stream key.
    pub fn twitch(ingest_server: &str, stream_key: &str) -> (r: String)
        ensures
            r@ == "rtmp://"@ + ingest_server@ + "/app/"@ + stream_key@,
    {
        String::from_str("rtmp://").concat(ingest_server).concat("/app/").concat(stream_key)
    }

    /// Live ingest URL for a stream key.
    pub fn youtube(stream_key: &str) -> (r: String)
        ensures
            r@ == "rtmp://a.rtmp.youtube.com/live2/"@ + stream_key@,
    {
        String::from_str("rtmp://a.rtmp.youtube.com/live2/").concat(stream_key)
    }

    /// Live ingest URL for a stream key, over secure RTMP.
    pub fn facebook(stream_key: &str) -> (r: String)
        ensures
            r@ == "rtmps://live-api-s.facebook.com:443/rtmp/"@ + stream_key@,
    {
        String::from_str("rtmps://live-api-s.facebook.com:443/rtmp/").concat(stream_key)
    }

    /// Ingest URL from a caller-supplied endpoint and stream key.
    pub fn kick(ingest_url: &str, stream_key: &str) -> (r: String)
        ensures
            r@ == ingest_url@ + "/"@ + stream_key@,
    {
        String::from_str(ingest_url).concat("/").concat(stream_key)
    }

    /// Well-known ingest endpoints by region.
    pub fn twitch_ingest_servers() -> (r: Vec<(&'static str, &'static str)>)
        ensures
            r@.len() == 7,
    {
        let mut servers: Vec<(&'static str, &'static str)> = Vec::new();
        servers.push(("Auto", "live.twitch.tv"));
        servers.push(("US West", "sea.contribute.live-video.net"));
        servers.push(("US East", "iad05.contribute.live-video.net"));
        servers.push(("EU West", "ams03.contribute.live-video.net"));
        servers.push(("EU Central", "fra05.contribute.live-video.net"));
        servers.push(("Asia", "tyo05.contribute.live-video.net"));
        servers.push(("Australia", "syd02.contribute.live-video.net"));
        servers
    }
}

} // verus!
