//! Virtual camera sink.
//!
//! Publishes raw frames under a camera node name. The sink converts
//! incoming frames to the packed BGRA layout the node serves, and
//! accounts every frame it accepts; the media-graph node itself is
//! driven by the host program.

use vstd::prelude::*;
use crate::error::Error;
use crate::output::{PacketLedger, PacketStamp};
use crate::processing::convert;
use crate::types::{CodecParams, Frame, FrameFormat, Packet, Resolution};

verus! {

/// Virtual camera output.
pub struct VirtualCamera {
    /// Node name shown to applications.
    pub name: String,
    /// Whether the node has been published.
    pub initialized: bool,
    /// Whether the node is serving frames.
    pub active: bool,
    /// Published frame width.
    pub width: u32,
    /// Published frame height.
    pub height: u32,
    /// Format of the frames handed in.
    pub format: FrameFormat,
    /// Byte and timestamp accounting.
    pub ledger: PacketLedger,
}

impl VirtualCamera {
    pub open spec fn wf(&self) -> bool {
        self.ledger.wf()
    }

    /// Create a virtual camera with the default full-HD BGRA geometry.
    pub fn new(name: String) -> (r: VirtualCamera)
        ensures
            r.wf(),
            r.name@ == name@,
            !r.initialized,
            !r.active,
            r.width == 1920 && r.height == 1080,
            r.format == FrameFormat::Bgra,
            r.ledger.bytes_written == 0,
            r.ledger.log@ == Seq::<PacketStamp>::empty(),
    {
        VirtualCamera {
            name,
            initialized: false,
            active: false,
            width: 1920,
            height: 1080,
            format: FrameFormat::Bgra,
            ledger: PacketLedger::new(),
        }
    }

    /// Change the published geometry.
    pub fn with_resolution(self, width: u32, height: u32) -> (r: VirtualCamera)
        ensures
            r == (VirtualCamera { width, height, ..self }),
    {
        VirtualCamera { width, height, ..self }
    }

    /// Change the expected frame format.
    pub fn with_format(self, format: FrameFormat) -> (r: VirtualCamera)
        ensures
            r == (VirtualCamera { format, ..self }),
    {
        VirtualCamera { format, ..self }
    }

    /// Publish the node for the given geometry and format. On an
    /// already published node this is a no-op that succeeds.
    pub fn init_raw(&mut self, resolution: Resolution, format: FrameFormat) -> (r: Result<
        (),
        Error,
    >)
        requires
            old(self).wf(),
        ensures
            final(self).wf(),
            r is Ok,
            old(self).initialized ==> *final(self) == *old(self),
            !old(self).initialized ==> {
                &&& final(self).initialized
                &&& final(self).active
                &&& final(self).width == resolution.width
                &&& final(self).height == resolution.height
                &&& final(self).format == format
                &&& final(self).name@ == old(self).name@
                &&& final(self).ledger == old(self).ledger
            },
    {
        if self.initialized {
            return Ok(());
        }
        self.width = resolution.width;
        self.height = resolution.height;
        self.format = format;
        self.active = true;
        self.initialized = true;
        Ok(())
    }

    /// Accept one raw frame: convert it to the packed BGRA layout the
    /// node serves, and account its bytes. An unpublished node
    /// publishes itself with the frame's own geometry first. Fails
    /// exactly when the frame's format has no direct conversion to
    /// BGRA.
    pub fn write_frame(&mut self, frame: &Frame) -> (r: Result<(), Error>)
        requires
            old(self).wf(),
            frame.width as int * frame.height as int <= usize::MAX / 8,
        ensures
            final(self).wf(),
            convert::spec_direct_pair(frame.format, FrameFormat::Bgra) ==> {
                &&& r is Ok
                &&& final(self).initialized
                &&& final(self).ledger.log@ == old(self).ledger.log@.push(
                    PacketStamp {
                        pts: frame.pts as int,
                        dts: frame.pts as int,
                        size: frame.data@.len() as int,
                    },
                )
            },
            !convert::spec_direct_pair(frame.format, FrameFormat::Bgra) ==> (r matches Err(e)
                && e is ColorspaceConversion),
    {
        if !self.initialized {
            let init_result = self.init_raw(
                Resolution { width: frame.width, height: frame.height },
                frame.format,
            );
            if init_result.is_err() {
                return init_result;
            }
        }
        // The node serves packed BGRA; bring the frame into that layout.
        let converted = convert::convert_colorspace(
            frame.data.as_slice(),
            frame.format,
            FrameFormat::Bgra,
            frame.width,
            frame.height,
        );
        if let Err(e) = converted {
            return Err(e);
        }
        self.ledger.record(frame.pts, frame.pts, frame.data.len());
        Ok(())
    }

    /// Publish the node without geometry hints, for callers that treat
    /// the camera as a packet sink. On an already published node this
    /// is a no-op that succeeds.
    pub fn init_with_codec(&mut self, codec_params: Option<&CodecParams>) -> (r: Result<(), Error>)
        requires
            old(self).wf(),
        ensures
            final(self).wf(),
            r is Ok,
            old(self).initialized ==> *final(self) == *old(self),
            !old(self).initialized ==> {
                &&& final(self).initialized
                &&& final(self).active
                &&& final(self).name@ == old(self).name@
                &&& final(self).width == old(self).width
                &&& final(self).height == old(self).height
                &&& final(self).ledger == old(self).ledger
            },
    {
        if self.initialized {
            return Ok(());
        }
        self.active = true;
        self.initialized = true;
        Ok(())
    }

    /// Accept one packet whose payload is raw frame bytes, passed
    /// through to the node unchanged.
    pub fn write(&mut self, packet: &Packet) -> (r: Result<(), Error>)
        requires
            old(self).wf(),
        ensures
            final(self).wf(),
            r is Ok,
            final(self).initialized,
            final(self).ledger.log@ == old(self).ledger.log@.push(
                PacketStamp {
                    pts: packet.pts as int,
                    dts: packet.dts as int,
                    size: packet.data@.len() as int,
                },
            ),
    {
        if !self.initialized {
            let init_result = self.init_with_codec(None);
            if init_result.is_err() {
                return init_result;
            }
        }
        self.ledger.record(packet.pts, packet.dts, packet.data.len());
        Ok(())
    }

    /// Unpublish the node. Finishing an unpublished node is a no-op;
    /// finishing twice behaves as finishing once.
    pub fn finish(&mut self) -> (r: Result<(), Error>)
        requires
            old(self).wf(),
        ensures
            final(self).wf(),
            r is Ok,
            !old(self).initialized ==> *final(self) == *old(self),
            old(self).initialized ==> {
                &&& !final(self).initialized
                &&& !final(self).active
                &&& final(self).ledger == old(self).ledger
            },
    {
        if !self.initialized {
            return Ok(());
        }
        self.active = false;
        self.initialized = false;
        Ok(())
    }

    /// Total frame bytes accepted so far.
    pub fn bytes_written(&self) -> (r: u64)
        ensures
            r == self.ledger.bytes_written,
    {
        self.ledger.bytes_written
    }
}

} // verus!
