//! SRT streaming sink.
//!
//! Builds the SRT endpoint URL with its transport options, clamps the
//! latency budget, validates the scheme, and accounts the written
//! stream. The transport-stream muxing and the socket are the media
//! library's work, driven by the host program.

use vstd::prelude::*;
use vstd::string::StringExecFns;
use crate::error::Error;
use crate::output::{PacketLedger, PacketStamp};
use crate::text;
use crate::types::{CodecParams, Packet};

verus! {

/// SRT connection mode.
#[derive(Debug, Clone, Copy, PartialEq, Eq, Structural)]
pub enum SrtMode {
    /// Initiate the connection.
    Caller,
    /// Wait for a peer to connect.
    Listener,
    /// Peer-to-peer rendezvous.
    Rendezvous,
}

impl Default for SrtMode {
    fn default() -> (r: SrtMode)
        ensures
            r == SrtMode::Caller,
    {
        SrtMode::Caller
    }
}

/// The query-parameter name of an SRT mode.
pub open spec fn spec_srt_mode_name(m: SrtMode) -> Seq<char> {
    match m {
        SrtMode::Caller => "caller"@,
        SrtMode::Listener => "listener"@,
        SrtMode::Rendezvous => "rendezvous"@,
    }
}

/// Whether `url` names an SRT endpoint: it begins with `srt://`.
pub open spec fn spec_valid_srt_url(url: Seq<char>) -> bool {
    url.len() >= "srt://"@.len() && url.subrange(0, "srt://"@.len() as int) == "srt://"@
}

/// SRT streaming output.
pub struct SrtOutput {
    /// Endpoint URL without transport options.
    pub url: String,
    /// Target latency in milliseconds, clamped to 20 through 8000.
    pub latency_ms: u32,
    /// Connection mode.
    pub mode: SrtMode,
    /// Whether the connection has been initialized (header sent).
    pub initialized: bool,
    /// Whether the endpoint accepted the handshake.
    pub connected: bool,
    /// Encryption passphrase, when set.
    pub passphrase: Option<String>,
    /// Stream identifier for multiplexing, when set.
    pub streamid: Option<String>,
    /// Encryption key length, when set.
    pub pbkeylen: Option<u32>,
    /// Bandwidth cap in bytes per second, when set.
    pub max_bandwidth: Option<i64>,
    /// Stream time base numerator.
    pub time_base_num: i32,
    /// Stream time base denominator.
    pub time_base_den: i32,
    /// Byte and timestamp accounting.
    pub ledger: PacketLedger,
}

/// The full endpoint URL: the base URL, then the transport options as
/// query parameters — mode, latency in microseconds, the optional
/// secrets and caps, and the live transport type.
pub open spec fn spec_srt_url(o: &SrtOutput) -> Seq<char> {
    let sep: Seq<char> = if o.url@.contains('?') {
        seq!['&']
    } else {
        seq!['?']
    };
    o.url@ + sep + "mode="@ + spec_srt_mode_name(o.mode) + "&latency="@ + text::spec_decimal(
        o.latency_ms as int * 1000,
    ) + (match o.passphrase {
        Some(p) => "&passphrase="@ + p@,
        None => Seq::<char>::empty(),
    }) + (match o.streamid {
        Some(s) => "&streamid="@ + s@,
        None => Seq::<char>::empty(),
    }) + (match o.pbkeylen {
        Some(k) => "&pbkeylen="@ + text::spec_decimal(k as int),
        None => Seq::<char>::empty(),
    }) + (match o.max_bandwidth {
        Some(b) => "&maxbw="@ + text::spec_decimal_signed(b as int),
        None => Seq::<char>::empty(),
    }) + "&transtype=live"@
}

impl SrtOutput {
    pub open spec fn wf(&self) -> bool {
        &&& self.ledger.wf()
        &&& 20 <= self.latency_ms <= 8000
    }

    /// Create an SRT output; the latency budget is clamped to the
    /// protocol's sensible range of 20 through 8000 milliseconds.
    pub fn new(url: String, latency_ms: u32) -> (r: SrtOutput)
        ensures
            r.wf(),
            r.url@ == url@,
            latency_ms < 20 ==> r.latency_ms == 20,
            20 <= latency_ms <= 8000 ==> r.latency_ms == latency_ms,
            latency_ms > 8000 ==> r.latency_ms == 8000,
            r.mode == SrtMode::Caller,
            !r.initialized,
            !r.connected,
            r.passphrase is None,
            r.streamid is None,
            r.pbkeylen is None,
            r.max_bandwidth is None,
            r.time_base_num == 1 && r.time_base_den == 1000,
            r.ledger.bytes_written == 0,
            r.ledger.log@ == Seq::<PacketStamp>::empty(),
    {
        let clamped: u32 = if latency_ms < 20 {
            20
        } else if latency_ms > 8000 {
            8000
        } else {
            latency_ms
        };
        SrtOutput {
            url,
            latency_ms: clamped,
            mode: SrtMode::Caller,
            initialized: false,
            connected: false,
            passphrase: None,
            streamid: None,
            pbkeylen: None,
            max_bandwidth: None,
            time_base_num: 1,
            time_base_den: 1000,
            ledger: PacketLedger::new(),
        }
    }

    /// Change the connection mode.
    pub fn with_mode(self, mode: SrtMode) -> (r: SrtOutput)
        ensures
            r == (SrtOutput { mode, ..self }),
    {
        SrtOutput { mode, ..self }
    }

    /// Set the encryption passphrase.
    pub fn with_passphrase(self, passphrase: String) -> (r: SrtOutput)
        ensures
            r == (SrtOutput { passphrase: Some(passphrase), ..self }),
    {
        SrtOutput { passphrase: Some(passphrase), ..self }
    }

    /// Set the stream identifier.
    pub fn with_streamid(self, streamid: String) -> (r: SrtOutput)
        ensures
            r == (SrtOutput { streamid: Some(streamid), ..self }),
    {
        SrtOutput { streamid: Some(streamid), ..self }
    }

    /// Set the encryption key length.
    pub fn with_key_length(self, pbkeylen: u32) -> (r: SrtOutput)
        ensures
            r == (SrtOutput { pbkeylen: Some(pbkeylen), ..self }),
    {
        SrtOutput { pbkeylen: Some(pbkeylen), ..self }
    }

    /// Cap the bandwidth in bytes per second; a negative cap means
    /// unlimited.
    pub fn with_max_bandwidth(self, bandwidth: i64) -> (r: SrtOutput)
        ensures
            r == (SrtOutput { max_bandwidth: Some(bandwidth), ..self }),
    {
        SrtOutput { max_bandwidth: Some(bandwidth), ..self }
    }

    /// The base URL.
    pub fn url(&self) -> (r: &String)
        ensures
            r@ == self.url@,
    {
        &self.url
    }

    /// Build the full endpoint URL with the transport options as query
    /// parameters.
    #[verifier::rlimit(100)]
    pub fn build_srt_url(&self) -> (r: String)
        requires
            self.latency_ms <= 8000,
        ensures
            r@ == spec_srt_url(self),
    {
        let sep: &'static str = if text::contains_char(self.url.as_str(), '?') {
            "&"
        } else {
            "?"
        };
        proof {
            reveal_strlit("&");
            reveal_strlit("?");
        }
        let mode_name: &'static str = match self.mode {
            SrtMode::Caller => "caller",
            SrtMode::Listener => "listener",
            SrtMode::Rendezvous => "rendezvous",
        };
        let latency_us: u64 = (self.latency_ms as u64) * 1000;
        let latency_str: String = text::u64_to_string(latency_us);
        let pass_part: String = match &self.passphrase {
            Some(p) => String::from_str("&passphrase=").concat(p.as_str()),
            None => String::new(),
        };
        let sid_part: String = match &self.streamid {
            Some(sid) => String::from_str("&streamid=").concat(sid.as_str()),
            None => String::new(),
        };
        let key_part: String = match &self.pbkeylen {
            Some(k) => String::from_str("&pbkeylen=").concat(
                text::u64_to_string(*k as u64).as_str(),
            ),
            None => String::new(),
        };
        let bw_part: String = match &self.max_bandwidth {
            Some(b) => String::from_str("&maxbw=").concat(text::i64_to_string(*b).as_str()),
            None => String::new(),
        };
        proof {
            assert(pass_part@ == match self.passphrase {
                Some(p) => "&passphrase="@ + p@,
                None => Seq::<char>::empty(),
            });
            assert(sid_part@ == match self.streamid {
                Some(sid) => "&streamid="@ + sid@,
                None => Seq::<char>::empty(),
            });
            assert(key_part@ == match self.pbkeylen {
                Some(k) => "&pbkeylen="@ + text::spec_decimal(k as int),
                None => Seq::<char>::empty(),
            });
            assert(bw_part@ == match self.max_bandwidth {
                Some(b) => "&maxbw="@ + text::spec_decimal_signed(b as int),
                None => Seq::<char>::empty(),
            });
        }
        let built: String = self.url.clone().concat(sep).concat("mode=").concat(mode_name)
            .concat("&latency=").concat(latency_str.as_str()).concat(pass_part.as_str()).concat(
            sid_part.as_str(),
        ).concat(key_part.as_str()).concat(bw_part.as_str()).concat("&transtype=live");
        built
    }

    /// Initialize the connection. Fails exactly when the URL does not
    /// begin with `srt://`. On an already initialized sink this is a
    /// no-op that succeeds.
    pub fn init_with_codec(&mut self, codec_params: Option<&CodecParams>) -> (r: Result<(), Error>)
        requires
            old(self).wf(),
        ensures
            final(self).wf(),
            old(self).initialized ==> r is Ok && *final(self) == *old(self),
            !old(self).initialized && !spec_valid_srt_url(old(self).url@) ==> (r matches Err(e)
                && e is Srt) && *final(self) == *old(self),
            !old(self).initialized && spec_valid_srt_url(old(self).url@) ==> {
                &&& r is Ok
                &&& final(self).initialized
                &&& final(self).connected
                &&& final(self).url@ == old(self).url@
                &&& final(self).latency_ms == old(self).latency_ms
                &&& final(self).ledger == old(self).ledger
                &&& match codec_params {
                    Some(p) => final(self).time_base_num == p.time_base_num && final(self).time_base_den
                        == p.time_base_den,
                    None => final(self).time_base_num == 1 && final(self).time_base_den == 1000,
                }
            },
    {
        if self.initialized {
            return Ok(());
        }
        if !text::str_starts_with(self.url.as_str(), "srt://") {
            return Err(Error::Srt(String::from_str("URL must begin with the SRT scheme")));
        }
        match codec_params {
            Some(params) => {
                self.time_base_num = params.time_base_num;
                self.time_base_den = params.time_base_den;
            },
            None => {
                self.time_base_num = 1;
                self.time_base_den = 1000;
            },
        }
        self.initialized = true;
        self.connected = true;
        Ok(())
    }

    /// Accept one encoded packet. An uninitialized sink connects first
    /// with the default parameters, so a write fails exactly when that
    /// connection fails.
    pub fn write(&mut self, packet: &Packet) -> (r: Result<(), Error>)
        requires
            old(self).wf(),
        ensures
            final(self).wf(),
            !old(self).initialized && !spec_valid_srt_url(old(self).url@) ==> (r matches Err(e)
                && e is Srt) && *final(self) == *old(self),
            old(self).initialized || spec_valid_srt_url(old(self).url@) ==> {
                &&& r is Ok
                &&& final(self).initialized
                &&& final(self).url@ == old(self).url@
                &&& final(self).ledger.log@ == old(self).ledger.log@.push(
                    PacketStamp {
                        pts: packet.pts as int,
                        dts: packet.dts as int,
                        size: packet.data@.len() as int,
                    },
                )
            },
    {
        if !self.initialized {
            let init_result = self.init_with_codec(None);
            if init_result.is_err() {
                return init_result;
            }
        }
        self.ledger.record(packet.pts, packet.dts, packet.data.len());
        Ok(())
    }

    /// Close the stream. Finishing an uninitialized sink is a no-op;
    /// finishing twice behaves as finishing once.
    pub fn finish(&mut self) -> (r: Result<(), Error>)
        requires
            old(self).wf(),
        ensures
            final(self).wf(),
            r is Ok,
            !old(self).initialized ==> *final(self) == *old(self),
            old(self).initialized ==> {
                &&& !final(self).initialized
                &&& !final(self).connected
                &&& final(self).ledger == old(self).ledger
                &&& final(self).url@ == old(self).url@
            },
    {
        if !self.initialized {
            return Ok(());
        }
        self.initialized = false;
        self.connected = false;
        Ok(())
    }

    /// Total payload bytes accepted so far.
    pub fn bytes_written(&self) -> (r: u64)
        ensures
            r == self.ledger.bytes_written,
    {
        self.ledger.bytes_written
    }
}

} // verus!
