//! Byte and timestamp accounting shared by every packet sink.
//!
//! Each sink keeps a ledger of the packets it accepted: the saturating
//! byte total, the packet count, and a monitor that records whether the
//! stream kept its timestamp discipline — presentation and decode
//! stamps non-decreasing, decode never after presentation.

use vstd::prelude::*;

verus! {

/// Timestamps and size of one packet a sink accepted, kept in the
/// sink's ghost history.
pub struct PacketStamp {
    pub pts: int,
    pub dts: int,
    pub size: int,
}

/// An elementary stream is ordered when decode stamps never run ahead
/// of presentation stamps and both are non-decreasing.
pub open spec fn stream_ordered(log: Seq<PacketStamp>) -> bool {
    &&& forall|i: int| 0 <= i < log.len() ==> #[trigger] log[i].dts <= log[i].pts
    &&& forall|i: int| 0 < i < log.len() ==> #[trigger] log[i].pts >= log[i - 1].pts
    &&& forall|i: int| 0 < i < log.len() ==> #[trigger] log[i].dts >= log[i - 1].dts
}

/// Total payload bytes of a packet history.
pub open spec fn total_bytes(log: Seq<PacketStamp>) -> int
    decreases log.len(),
{
    if log.len() == 0 {
        0
    } else {
        total_bytes(log.drop_last()) + log.last().size
    }
}

/// `v` clamped from above at the unsigned 64-bit maximum; the sums
/// and counts it is applied to are nonnegative.
pub open spec fn sat_u64(v: int) -> int {
    if v > u64::MAX {
        u64::MAX as int
    } else {
        v
    }
}

pub proof fn lemma_total_bytes_push(log: Seq<PacketStamp>, s: PacketStamp)
    ensures
        total_bytes(log.push(s)) == total_bytes(log) + s.size,
{
    assert(log.push(s).drop_last() =~= log);
    assert(log.push(s).last() == s);
}

pub proof fn lemma_stream_ordered_push(log: Seq<PacketStamp>, s: PacketStamp)
    ensures
        stream_ordered(log.push(s)) == (stream_ordered(log) && s.dts <= s.pts && (log.len() == 0
            || (s.pts >= log.last().pts && s.dts >= log.last().dts))),
{
    let l2 = log.push(s);
    if stream_ordered(log) && s.dts <= s.pts && (log.len() == 0 || (s.pts >= log.last().pts
        && s.dts >= log.last().dts)) {
        assert forall|i: int| 0 <= i < l2.len() implies #[trigger] l2[i].dts <= l2[i].pts by {
            if i < log.len() {
                assert(l2[i] == log[i]);
            }
        }
        assert forall|i: int| 0 < i < l2.len() implies #[trigger] l2[i].pts >= l2[i - 1].pts by {
            if i < log.len() {
                assert(l2[i] == log[i] && l2[i - 1] == log[i - 1]);
            } else {
                assert(l2[i] == s && l2[i - 1] == log[i - 1] && log[i - 1] == log.last());
            }
        }
        assert forall|i: int| 0 < i < l2.len() implies #[trigger] l2[i].dts >= l2[i - 1].dts by {
            if i < log.len() {
                assert(l2[i] == log[i] && l2[i - 1] == log[i - 1]);
            } else {
                assert(l2[i] == s && l2[i - 1] == log.last());
            }
        }
    }
    if stream_ordered(l2) {
        assert forall|i: int| 0 <= i < log.len() implies #[trigger] log[i].dts <= log[i].pts by {
            assert(l2[i] == log[i]);
        }
        assert forall|i: int| 0 < i < log.len() implies #[trigger] log[i].pts >= log[i - 1].pts by {
            assert(l2[i] == log[i] && l2[i - 1] == log[i - 1]);
        }
        assert forall|i: int| 0 < i < log.len() implies #[trigger] log[i].dts >= log[i - 1].dts by {
            assert(l2[i] == log[i] && l2[i - 1] == log[i - 1]);
        }
        if log.len() > 0 {
            let j = log.len() as int;
            assert(l2[j] == s && l2[j - 1] == log.last());
            assert(s.pts >= log.last().pts && s.dts >= log.last().dts);
        }
        assert(l2[log.len() as int].dts <= l2[log.len() as int].pts);
    }
}

/// Byte and timestamp accounting shared by every packet sink: the total
/// bytes written (saturating at the counter's width), the packet count,
/// and a monitor that records whether every packet so far arrived in
/// stream order.
pub struct PacketLedger {
    /// Total payload bytes accepted, saturating.
    pub bytes_written: u64,
    /// Packets accepted, saturating.
    pub frame_count: u64,
    /// Whether every packet so far kept the stream's timestamp order.
    pub ordered: bool,
    /// Presentation stamp of the last packet.
    pub last_pts: i64,
    /// Decode stamp of the last packet.
    pub last_dts: i64,
    /// History of accepted packets.
    pub log: Ghost<Seq<PacketStamp>>,
}

impl PacketLedger {
    /// The ledger agrees with its history: exact byte totals up to
    /// counter saturation, an order monitor that is true exactly when
    /// the history is stream-ordered, and the last stamps cached.
    pub open spec fn wf(&self) -> bool {
        &&& self.bytes_written as int == sat_u64(total_bytes(self.log@))
        &&& self.frame_count as int == sat_u64(self.log@.len() as int)
        &&& self.ordered == stream_ordered(self.log@)
        &&& self.log@.len() > 0 ==> self.last_pts as int == self.log@.last().pts
        &&& self.log@.len() > 0 ==> self.last_dts as int == self.log@.last().dts
        &&& total_bytes(self.log@) >= 0
    }

    pub fn new() -> (r: PacketLedger)
        ensures
            r.wf(),
            r.log@ == Seq::<PacketStamp>::empty(),
            r.bytes_written == 0,
            r.frame_count == 0,
            r.ordered,
    {
        PacketLedger {
            bytes_written: 0,
            frame_count: 0,
            ordered: true,
            last_pts: 0,
            last_dts: 0,
            log: Ghost(Seq::empty()),
        }
    }

    /// Account one accepted packet.
    pub fn record(&mut self, pts: i64, dts: i64, size: usize)
        requires
            old(self).wf(),
        ensures
            final(self).wf(),
            final(self).log@ == old(self).log@.push(
                PacketStamp { pts: pts as int, dts: dts as int, size: size as int },
            ),
            final(self).ordered == (old(self).ordered && dts <= pts && (old(self).log@.len() == 0 || (
            pts as int >= old(self).log@.last().pts && dts as int >= old(self).log@.last().dts))),
    {
        let ghost stamp = PacketStamp { pts: pts as int, dts: dts as int, size: size as int };
        proof {
            lemma_total_bytes_push(self.log@, stamp);
            lemma_stream_ordered_push(self.log@, stamp);
        }
        let in_order: bool = dts <= pts && (self.frame_count == 0 || (pts >= self.last_pts && dts
            >= self.last_dts));
        self.ordered = self.ordered && in_order;
        let size64: u64 = size as u64;
        self.bytes_written = if self.bytes_written <= u64::MAX - size64 {
            self.bytes_written + size64
        } else {
            u64::MAX
        };
        self.frame_count = if self.frame_count < u64::MAX {
            self.frame_count + 1
        } else {
            u64::MAX
        };
        self.last_pts = pts;
        self.last_dts = dts;
        self.log = Ghost(self.log@.push(stamp));
    }
}

/// When a sink's order monitor still holds, every packet of the session
/// kept the stream discipline: presentation stamps non-decreasing,
/// decode stamps non-decreasing, and decode never after presentation.
pub proof fn lemma_ordered_stream(l: &PacketLedger)
    requires
        l.wf(),
        l.ordered,
    ensures
        forall|i: int| 0 <= i < l.log@.len() ==> #[trigger] l.log@[i].dts <= l.log@[i].pts,
        forall|i: int| 0 < i < l.log@.len() ==> #[trigger] l.log@[i].pts >= l.log@[i - 1].pts,
        forall|i: int| 0 < i < l.log@.len() ==> #[trigger] l.log@[i].dts >= l.log@[i - 1].dts,
{
}

/// A sink's byte counter equals the summed payload sizes of every
/// packet it accepted, whenever that sum fits the counter.
pub proof fn lemma_bytes_written_exact(l: &PacketLedger)
    requires
        l.wf(),
        total_bytes(l.log@) <= u64::MAX,
    ensures
        l.bytes_written as int == total_bytes(l.log@),
{
}

} // verus!
