//! File recording sink.
//!
//! The sink validates and accounts the elementary stream for a
//! container file: initialization is idempotent, every written packet
//! is counted byte-exactly, and a monitor tracks the timestamp order of
//! the stream. The container muxing itself is the media library's work,
//! driven by the host program.

use vstd::prelude::*;
use crate::error::Error;
use crate::output::{Container, PacketLedger, PacketStamp};
use crate::types::{CodecParams, Packet};

verus! {

/// File output for recording one video elementary stream.
pub struct FileOutput {
    /// Output file path.
    pub path: String,
    /// Container format.
    pub container: Container,
    /// Whether the muxer has been initialized (header written).
    pub initialized: bool,
    /// Stream time base numerator, fixed at initialization.
    pub time_base_num: i32,
    /// Stream time base denominator, fixed at initialization.
    pub time_base_den: i32,
    /// Byte and timestamp accounting.
    pub ledger: PacketLedger,
}

impl FileOutput {
    pub open spec fn wf(&self) -> bool {
        self.ledger.wf()
    }

    /// Create a file output; nothing is opened until initialization.
    pub fn new(path: String, container: Container) -> (r: FileOutput)
        ensures
            r.wf(),
            r.path@ == path@,
            r.container == container,
            !r.initialized,
            r.time_base_num == 1 && r.time_base_den == 1000,
            r.ledger.log@ == Seq::<PacketStamp>::empty(),
            r.ledger.bytes_written == 0,
    {
        FileOutput {
            path,
            container,
            initialized: false,
            time_base_num: 1,
            time_base_den: 1000,
            ledger: PacketLedger::new(),
        }
    }

    /// The output path.
    pub fn path(&self) -> (r: &String)
        ensures
            r@ == self.path@,
    {
        &self.path
    }

    /// Initialize the muxer with the encoder's parameters, or with the
    /// default parameter set when none are given. On an already
    /// initialized sink this is a no-op that succeeds — calling it
    /// twice behaves as calling it once.
    pub fn init_with_codec(&mut self, codec_params: Option<&CodecParams>) -> (r: Result<(), Error>)
        requires
            old(self).wf(),
        ensures
            final(self).wf(),
            r is Ok,
            old(self).initialized ==> *final(self) == *old(self),
            !old(self).initialized ==> {
                &&& final(self).initialized
                &&& final(self).path@ == old(self).path@
                &&& final(self).container == old(self).container
                &&& final(self).ledger == old(self).ledger
                &&& match codec_params {
                    Some(p) => final(self).time_base_num == p.time_base_num && final(self).time_base_den
                        == p.time_base_den,
                    None => final(self).time_base_num == 1 && final(self).time_base_den == 1000,
                }
            },
    {
        if self.initialized {
            return Ok(());
        }
        match codec_params {
            Some(params) => {
                self.time_base_num = params.time_base_num;
                self.time_base_den = params.time_base_den;
            },
            None => {
                self.time_base_num = 1;
                self.time_base_den = 1000;
            },
        }
        self.initialized = true;
        Ok(())
    }

    /// Accept one encoded packet: account its bytes and update the
    /// order monitor. An uninitialized sink initializes itself with the
    /// default parameters first.
    pub fn write(&mut self, packet: &Packet) -> (r: Result<(), Error>)
        requires
            old(self).wf(),
        ensures
            final(self).wf(),
            r is Ok,
            final(self).initialized,
            final(self).path@ == old(self).path@,
            final(self).container == old(self).container,
            final(self).ledger.log@ == old(self).ledger.log@.push(
                PacketStamp {
                    pts: packet.pts as int,
                    dts: packet.dts as int,
                    size: packet.data@.len() as int,
                },
            ),
            old(self).initialized ==> final(self).time_base_num == old(self).time_base_num
                && final(self).time_base_den == old(self).time_base_den,
    {
        if !self.initialized {
            let init_result = self.init_with_codec(None);
            if init_result.is_err() {
                return init_result;
            }
        }
        self.ledger.record(packet.pts, packet.dts, packet.data.len());
        Ok(())
    }

    /// Finalize the container. Finishing an uninitialized sink is a
    /// no-op; finishing twice behaves as finishing once. The byte
    /// accounting survives finishing.
    pub fn finish(&mut self) -> (r: Result<(), Error>)
        requires
            old(self).wf(),
        ensures
            final(self).wf(),
            r is Ok,
            !old(self).initialized ==> *final(self) == *old(self),
            old(self).initialized ==> {
                &&& !final(self).initialized
                &&& final(self).ledger == old(self).ledger
                &&& final(self).path@ == old(self).path@
                &&& final(self).container == old(self).container
            },
    {
        if !self.initialized {
            return Ok(());
        }
        self.initialized = false;
        Ok(())
    }

    /// Total payload bytes accepted so far.
    pub fn bytes_written(&self) -> (r: u64)
        ensures
            r == self.ledger.bytes_written,
    {
        self.ledger.bytes_written
    }
}

} // verus!
