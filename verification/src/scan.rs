//! Scanning a range of channels for receivers: one packet per channel, from
//! the first channel of the range to the last, and a list of the channels
//! on which the packet was acknowledged.

use vstd::prelude::*;
use crate::ack::Ack;
use crate::params::{Channel, CHANNEL_COUNT};
use crate::radio::Crazyradio;

verus! {

/// A scan as a mathematical value: the range, and for each channel probed
/// so far, from the first of the range on, whether the packet was
/// acknowledged there.
pub struct ScanState {
    /// First channel of the range.
    pub start: nat,
    /// Last channel of the range.
    pub stop: nat,
    /// Outcome of each probe made so far.
    pub answers: Seq<bool>,
}

/// The channels on which a packet was acknowledged, when channel
/// `start + i` met with `answers[i]`: lowest channel first.
pub open spec fn acked_channels(start: nat, answers: Seq<bool>) -> Seq<nat>
    decreases answers.len(),
{
    if answers.len() == 0 {
        Seq::empty()
    } else if answers.last() {
        acked_channels(start, answers.drop_last()).push((start + answers.len() - 1) as nat)
    } else {
        acked_channels(start, answers.drop_last())
    }
}

/// The numbers of a list of channels.
pub open spec fn channel_numbers(channels: Seq<Channel>) -> Seq<nat> {
    channels.map_values(|channel: Channel| channel@)
}

impl ScanState {
    /// A scan of the channels from `start` to `stop` on which nothing has
    /// been probed yet.
    pub open spec fn new(start: nat, stop: nat) -> ScanState {
        ScanState { start, stop, answers: Seq::empty() }
    }

    /// The channel to probe next: the one after the last that was probed,
    /// and none once the last channel of the range has been probed.
    pub open spec fn current(self) -> Option<nat> {
        if self.start + self.answers.len() <= self.stop {
            Some(self.start + self.answers.len())
        } else {
            None
        }
    }

    /// The scan after the probe of the current channel met with `received`.
    /// A scan that has no channel left stays as it is.
    pub open spec fn record(self, received: bool) -> ScanState {
        if self.current() is Some {
            ScanState { answers: self.answers.push(received), ..self }
        } else {
            self
        }
    }

    /// The channels found so far.
    pub open spec fn found(self) -> Seq<nat> {
        acked_channels(self.start, self.answers)
    }
}

/// A scan lists the channels it found from the lowest to the highest, each
/// once, and it lists a channel if and only if that channel was probed and
/// the packet was acknowledged there.
pub proof fn lemma_acked_channels(start: nat, answers: Seq<bool>)
    ensures
        forall|i: int, j: int|
            0 <= i < j < acked_channels(start, answers).len() ==> acked_channels(start, answers)[i]
                < acked_channels(start, answers)[j],
        forall|channel: nat|
            acked_channels(start, answers).contains(channel) <==> (start <= channel < start
                + answers.len() && answers[channel - start]),
        acked_channels(start, answers).len() <= answers.len(),
    decreases answers.len(),
{
    let acked = acked_channels(start, answers);
    if answers.len() == 0 {
        assert forall|channel: nat| !acked.contains(channel) by {}
    } else {
        let before = answers.drop_last();
        let earlier = acked_channels(start, before);
        let last = (start + answers.len() - 1) as nat;
        lemma_acked_channels(start, before);
        assert forall|k: int| 0 <= k < earlier.len() implies earlier[k] < last by {
            assert(earlier.contains(earlier[k]));
        }
        assert forall|channel: nat|
            acked.contains(channel) <==> (start <= channel < start + answers.len()
                && answers[channel - start]) by {
            if start <= channel < last {
                assert(before[channel - start] == answers[channel - start]);
            }
            if answers.last() {
                assert(acked == earlier.push(last));
                assert(acked[earlier.len() as int] == last);
                if earlier.contains(channel) {
                    let k = choose|k: int| 0 <= k < earlier.len() && earlier[k] == channel;
                    assert(acked[k] == channel);
                }
                if acked.contains(channel) && channel != last {
                    let k = choose|k: int| 0 <= k < acked.len() && acked[k] == channel;
                    assert(earlier[k] == channel);
                }
            }
        }
    }
}

/// A scan of the channels from `start` to `stop` probes `start` first, then
/// each time the next channel, and ends once it has probed `stop`: after
/// `probes` probes the current channel is `start + probes`, as long as there
/// is one.
pub proof fn lemma_scan_order(scan: ScanState, probes: nat)
    requires
        scan.answers.len() == probes,
    ensures
        scan.start + probes <= scan.stop ==> scan.current() == Some(scan.start + probes),
        scan.start + probes > scan.stop ==> scan.current() is None,
        forall|received: bool|
            scan.current() is Some ==> (#[trigger] scan.record(received)).answers.len() == probes
                + 1,
{
}

/// A scan in progress.
pub struct ChannelScan {
    start: u8,
    stop: u8,
    next: u8,
    found: Vec<Channel>,
    answers: Ghost<Seq<bool>>,
}

impl View for ChannelScan {
    type V = ScanState;

    closed spec fn view(&self) -> ScanState {
        ScanState { start: self.start as nat, stop: self.stop as nat, answers: self.answers@ }
    }
}

impl ChannelScan {
    #[verifier::type_invariant]
    spec fn wf(self) -> bool {
        &&& self.stop < CHANNEL_COUNT
        &&& self.next == self.start + self.answers@.len()
        &&& self.next <= self.stop + 1 || self.answers@.len() == 0
        &&& channel_numbers(self.found@) == acked_channels(self.start as nat, self.answers@)
    }

    /// The channel to probe next, none once the scan is over.
    pub fn channel(&self) -> (channel: Option<Channel>)
        ensures
            channel is Some <==> self@.current() is Some,
            channel is Some ==> channel->Some_0@ == self@.current()->Some_0,
    {
        proof {
            use_type_invariant(self);
        }
        if self.next <= self.stop {
            Some(Channel::in_range_number(self.next))
        } else {
            None
        }
    }

    /// Takes the acknowledgement that the probe of the current channel
    /// brought: the channel is found if a receiver acknowledged the packet,
    /// and the scan moves on to the next channel. A scan that is over stays
    /// as it is.
    pub fn record(self, ack: &Ack) -> (scan: ChannelScan)
        ensures
            scan@ == self@.record(ack.received),
    {
        proof {
            use_type_invariant(&self);
        }
        let ChannelScan { start, stop, next, found, answers } = self;
        if next <= stop {
            let mut found = found;
            let ghost earlier = found@;
            let ghost before = answers@;
            let ghost after = before.push(ack.received);
            proof {
                assert(after.drop_last() =~= before);
            }
            if ack.received {
                found.push(Channel::in_range_number(next));
                proof {
                    assert(found@.drop_last() =~= earlier);
                    assert(channel_numbers(found@) =~= channel_numbers(earlier).push(next as nat));
                }
            }
            ChannelScan { start, stop, next: next + 1, found, answers: Ghost(after) }
        } else {
            ChannelScan { start, stop, next, found, answers }
        }
    }

    /// The channels found, lowest first.
    pub fn finish(self) -> (channels: Vec<Channel>)
        ensures
            channel_numbers(channels@) == self@.found(),
    {
        proof {
            use_type_invariant(&self);
        }
        self.found
    }
}

impl Crazyradio {
    /// Begins a scan of the channels from `start` to `stop`, both included.
    ///
    /// For each channel that [`ChannelScan::channel`] gives, the caller sets
    /// the channel, sends the packet and hands the acknowledgement to
    /// [`ChannelScan::record`]. A range that ends before it begins holds no
    /// channel.
    pub fn scan_channels(&self, start: Channel, stop: Channel) -> (scan: ChannelScan)
        ensures
            scan@ == ScanState::new(start@, stop@),
    {
        let first: u8 = start.number();
        let last: u8 = stop.number();
        let found: Vec<Channel> = Vec::new();
        assert(channel_numbers(found@) =~= acked_channels(first as nat, Seq::empty()));
        ChannelScan { start: first, stop: last, next: first, found, answers: Ghost(Seq::empty()) }
    }
}

} // verus!
