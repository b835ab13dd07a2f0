//! The traffic accumulator: running totals of the active capture session.

use vstd::prelude::*;

verus! {

/// Running statistics of one capture session.
pub struct InfoTraffic {
    /// Number of packets observed.
    pub all_packets: u128,
    /// Number of bytes observed.
    pub all_bytes: u128,
}

/// Mathematical content of an accumulator.
pub struct TrafficView {
    pub packets: nat,
    pub bytes: nat,
}

impl View for InfoTraffic {
    type V = TrafficView;

    open spec fn view(&self) -> TrafficView {
        TrafficView { packets: self.all_packets as nat, bytes: self.all_bytes as nat }
    }
}

/// The accumulator in which nothing has been recorded.
pub open spec fn empty_traffic() -> TrafficView {
    TrafficView { packets: 0, bytes: 0 }
}

/// The accumulator after one more packet of `bytes` bytes.
pub open spec fn traffic_with_packet(traffic: TrafficView, bytes: nat) -> TrafficView {
    TrafficView { packets: traffic.packets + 1, bytes: traffic.bytes + bytes }
}

/// Whether one more packet of `bytes` bytes still fits the counters.
pub open spec fn packet_fits(traffic: TrafficView, bytes: nat) -> bool {
    traffic.packets + 1 <= u128::MAX && traffic.bytes + bytes <= u128::MAX
}

impl InfoTraffic {
    /// A fresh, empty accumulator.
    pub fn new() -> (traffic: InfoTraffic)
        ensures
            traffic@ == empty_traffic(),
    {
        InfoTraffic { all_packets: 0, all_bytes: 0 }
    }

    /// Whether one more packet of `bytes` bytes can be recorded without
    /// exceeding the counters.
    pub fn has_room(&self, bytes: u128) -> (fits: bool)
        ensures
            fits == packet_fits(self@, bytes as nat),
    {
        self.all_packets < u128::MAX && bytes <= u128::MAX - self.all_bytes
    }

    /// Records one packet of `bytes` bytes.
    pub fn add_packet(&mut self, bytes: u128)
        requires
            packet_fits(old(self)@, bytes as nat),
        ensures
            final(self)@ == traffic_with_packet(old(self)@, bytes as nat),
    {
        self.all_packets = self.all_packets + 1;
        self.all_bytes = self.all_bytes + bytes;
    }
}

} // verus!
