//! The driver's state: the settings it knows the dongle to have, and the
//! decision, for every change asked of it, which transfer the transport has
//! to carry out.
//!
//! The driver itself performs no transfer. A setter returns the transfer
//! that is due, the caller has the transport carry it out and reports the
//! outcome to [`Crazyradio::complete`], which is the only place where the
//! remembered settings change.

use vstd::prelude::*;
use crate::command::{
    ControlTransfer, Transfer, UsbCommand, ack_enable_transfer, address_transfer, arc_transfer,
    ard_bytes_transfer, ard_time_transfer, channel_transfer, cont_carrier_transfer,
    datarate_transfer, launch_bootloader_transfer, lemma_ard_bytes_sets_top_bit, planned,
    power_transfer, whole_milliseconds,
    ADDRESS_LENGTH, MAX_ARC, MAX_PAYLOAD, VENDOR_WRITE,
};
use crate::error::{Error, UsbError};
use crate::params::{Channel, Datarate, Power, CHANNEL_COUNT};

verus! {

/// Channel of a dongle that has just been reset.
pub const BOOT_CHANNEL: u8 = 2;

/// Every byte of the address of a dongle that has just been reset.
pub const BOOT_ADDRESS_BYTE: u8 = 0xe7;

/// Number of retries of a dongle that has just been reset.
pub const BOOT_ARC: usize = 3;

/// Minor version of the oldest supported firmware, which is 0.5.
pub const MIN_MINOR_VERSION: u8 = 5;

/// The settings of the dongle as the driver remembers them, as a
/// mathematical value: what [`Crazyradio`] stands for.
pub struct RadioState {
    /// Whether a setter may skip a write that would change nothing.
    pub cache_settings: bool,
    /// Channel last written.
    pub channel: nat,
    /// Address last written.
    pub address: Seq<u8>,
    /// Datarate last written.
    pub datarate: Datarate,
}

/// The address of a dongle that has just been reset.
pub open spec fn boot_address() -> Seq<u8> {
    Seq::new(ADDRESS_LENGTH as nat, |i: int| BOOT_ADDRESS_BYTE)
}

/// Whether firmware of this version is supported: compared part by part,
/// major first, the version is not before 0.5.0.
pub open spec fn version_supported(major: u8, minor: u8, sub_minor: u8) -> bool {
    major > 0 || minor >= MIN_MINOR_VERSION
}

/// Whether the first version comes before the second: the major parts
/// decide, then the minor parts, then the sub-minor parts.
pub open spec fn version_before(a: (u8, u8, u8), b: (u8, u8, u8)) -> bool {
    a.0 < b.0 || (a.0 == b.0 && (a.1 < b.1 || (a.1 == b.1 && a.2 < b.2)))
}

/// A version is supported if and only if it does not come before 0.5.0.
pub proof fn lemma_version_supported_from_0_5(major: u8, minor: u8, sub_minor: u8)
    ensures
        version_supported(major, minor, sub_minor) <==> !version_before(
            (major, minor, sub_minor),
            (0, MIN_MINOR_VERSION, 0),
        ),
{
}

/// The writes that bring the dongle back to its boot values, in the order in
/// which they are made.
pub open spec fn reset_transfers() -> Seq<Transfer> {
    seq![
        datarate_transfer(Datarate::Dr2M),
        channel_transfer(BOOT_CHANNEL as nat),
        cont_carrier_transfer(false),
        address_transfer(boot_address()),
        power_transfer(Power::P0dBm),
        arc_transfer(BOOT_ARC as nat),
        ard_bytes_transfer(MAX_PAYLOAD as u8),
        ack_enable_transfer(true),
    ]
}

impl RadioState {
    /// The channel is one that exists and the address has five bytes.
    pub open spec fn wf(self) -> bool {
        self.channel < CHANNEL_COUNT && self.address.len() == ADDRESS_LENGTH
    }

    /// What the driver remembers of a dongle that has just been reset.
    pub open spec fn boot(cache_settings: bool) -> RadioState {
        RadioState {
            cache_settings,
            channel: BOOT_CHANNEL as nat,
            address: boot_address(),
            datarate: Datarate::Dr2M,
        }
    }

    /// The write that setting the channel takes: none if writes may be
    /// skipped and the dongle is on that channel already.
    pub open spec fn channel_write(self, channel: nat) -> Option<Transfer> {
        if self.cache_settings && self.channel == channel {
            None
        } else {
            Some(channel_transfer(channel))
        }
    }

    /// The write that setting the address takes: none if writes may be
    /// skipped and the dongle has that address already.
    pub open spec fn address_write(self, address: Seq<u8>) -> Option<Transfer> {
        if self.cache_settings && self.address == address {
            None
        } else {
            Some(address_transfer(address))
        }
    }

    /// The write that setting the datarate takes: none if writes may be
    /// skipped and the dongle has that datarate already.
    pub open spec fn datarate_write(self, datarate: Datarate) -> Option<Transfer> {
        if self.cache_settings && self.datarate == datarate {
            None
        } else {
            Some(datarate_transfer(datarate))
        }
    }

    /// The settings once the dongle has taken `transfer`: a write of the
    /// channel, the address or the datarate is remembered, any other
    /// transfer changes nothing.
    pub open spec fn confirm(self, transfer: Transfer) -> RadioState {
        if transfer.value < CHANNEL_COUNT && transfer == channel_transfer(transfer.value as nat) {
            RadioState { channel: transfer.value as nat, ..self }
        } else if transfer.data.len() == ADDRESS_LENGTH && transfer == address_transfer(
            transfer.data,
        ) {
            RadioState { address: transfer.data, ..self }
        } else if transfer == datarate_transfer(Datarate::Dr250K) {
            RadioState { datarate: Datarate::Dr250K, ..self }
        } else if transfer == datarate_transfer(Datarate::Dr1M) {
            RadioState { datarate: Datarate::Dr1M, ..self }
        } else if transfer == datarate_transfer(Datarate::Dr2M) {
            RadioState { datarate: Datarate::Dr2M, ..self }
        } else {
            self
        }
    }

    /// The settings once the dongle has taken every one of `transfers`, the
    /// first of them first.
    pub open spec fn confirm_all(self, transfers: Seq<Transfer>) -> RadioState
        decreases transfers.len(),
    {
        if transfers.len() == 0 {
            self
        } else {
            self.confirm_all(transfers.drop_last()).confirm(transfers.last())
        }
    }
}

/// Once the dongle has taken a write of the channel, the driver remembers
/// that channel and nothing else has changed.
pub proof fn lemma_channel_write_is_remembered(state: RadioState, channel: nat)
    requires
        channel < CHANNEL_COUNT,
    ensures
        state.confirm(channel_transfer(channel)) == (RadioState { channel, ..state }),
{
}

/// Once the dongle has taken a write of the address, the driver remembers
/// that address and nothing else has changed.
pub proof fn lemma_address_write_is_remembered(state: RadioState, address: Seq<u8>)
    requires
        address.len() == ADDRESS_LENGTH,
    ensures
        state.confirm(address_transfer(address)) == (RadioState { address, ..state }),
{
}

/// Once the dongle has taken a write of the datarate, the driver remembers
/// that datarate and nothing else has changed.
pub proof fn lemma_datarate_write_is_remembered(state: RadioState, datarate: Datarate)
    ensures
        state.confirm(datarate_transfer(datarate)) == (RadioState { datarate, ..state }),
{
}

/// Power, retry delay, retry count, acknowledgement switch, carrier switch
/// and the start of the bootloader are not remembered: such a write leaves
/// the driver as it was.
pub proof fn lemma_other_writes_are_not_remembered(
    state: RadioState,
    power: Power,
    delay_ms: int,
    nbytes: u8,
    arc: nat,
    flag: bool,
)
    requires
        250 <= delay_ms <= 4000,
        nbytes <= MAX_PAYLOAD,
        arc <= MAX_ARC,
    ensures
        state.confirm(power_transfer(power)) == state,
        state.confirm(ard_time_transfer(delay_ms)) == state,
        state.confirm(ard_bytes_transfer(nbytes)) == state,
        state.confirm(arc_transfer(arc)) == state,
        state.confirm(ack_enable_transfer(flag)) == state,
        state.confirm(cont_carrier_transfer(flag)) == state,
        state.confirm(launch_bootloader_transfer()) == state,
{
}

/// Setting the channel to the value the driver remembers takes no transfer
/// while writes may be skipped, and exactly one while they may not, however
/// often it is asked: the dongle taking that write changes nothing in what
/// the next identical request takes.
pub proof fn lemma_set_channel_again(state: RadioState)
    requires
        state.channel < CHANNEL_COUNT,
    ensures
        state.cache_settings ==> state.channel_write(state.channel) is None,
        !state.cache_settings ==> state.channel_write(state.channel) == Some(
            channel_transfer(state.channel),
        ),
        state.confirm(channel_transfer(state.channel)) == state,
{
}

/// Once a channel has been set, by a write that the dongle took or without
/// one, setting it again takes no transfer while writes may be skipped and
/// exactly one while they may not.
pub proof fn lemma_set_channel_idempotent(state: RadioState, channel: nat)
    requires
        channel < CHANNEL_COUNT,
    ensures
        ({
            let after = match state.channel_write(channel) {
                Some(transfer) => state.confirm(transfer),
                None => state,
            };
            &&& after == (RadioState { channel, ..state })
            &&& state.cache_settings ==> after.channel_write(channel) is None
            &&& !state.cache_settings ==> after.channel_write(channel) == Some(
                channel_transfer(channel),
            )
        }),
{
}

/// The same holds of the address.
pub proof fn lemma_set_address_idempotent(state: RadioState, address: Seq<u8>)
    requires
        address.len() == ADDRESS_LENGTH,
    ensures
        ({
            let after = match state.address_write(address) {
                Some(transfer) => state.confirm(transfer),
                None => state,
            };
            &&& after == (RadioState { address, ..state })
            &&& state.cache_settings ==> after.address_write(address) is None
            &&& !state.cache_settings ==> after.address_write(address) == Some(
                address_transfer(address),
            )
        }),
{
}

/// The same holds of the datarate.
pub proof fn lemma_set_datarate_idempotent(state: RadioState, datarate: Datarate)
    ensures
        ({
            let after = match state.datarate_write(datarate) {
                Some(transfer) => state.confirm(transfer),
                None => state,
            };
            &&& after == (RadioState { datarate, ..state })
            &&& state.cache_settings ==> after.datarate_write(datarate) is None
            &&& !state.cache_settings ==> after.datarate_write(datarate) == Some(
                datarate_transfer(datarate),
            )
        }),
{
}

/// Once the dongle has taken every write of a reset, the driver remembers
/// the boot values, whatever it remembered before, and skips writes or not
/// as it did before.
pub proof fn lemma_reset_restores_boot_values(state: RadioState)
    ensures
        state.confirm_all(reset_transfers()) == RadioState::boot(state.cache_settings),
{
    let transfers = reset_transfers();
    let t1 = transfers.subrange(0, 1);
    let t2 = transfers.subrange(0, 2);
    let t3 = transfers.subrange(0, 3);
    let t4 = transfers.subrange(0, 4);
    let t5 = transfers.subrange(0, 5);
    let t6 = transfers.subrange(0, 6);
    let t7 = transfers.subrange(0, 7);
    assert(t1.drop_last() =~= Seq::<Transfer>::empty());
    assert(t2.drop_last() =~= t1);
    assert(t3.drop_last() =~= t2);
    assert(t4.drop_last() =~= t3);
    assert(t5.drop_last() =~= t4);
    assert(t6.drop_last() =~= t5);
    assert(t7.drop_last() =~= t6);
    assert(transfers.drop_last() =~= t7);
    let s0 = state.confirm_all(Seq::<Transfer>::empty());
    assert(s0 == state);
    let s1 = state.confirm_all(t1);
    assert(s1 == s0.confirm(transfers[0]));
    let s2 = state.confirm_all(t2);
    assert(s2 == s1.confirm(transfers[1]));
    let s3 = state.confirm_all(t3);
    assert(s3 == s2.confirm(transfers[2]));
    let s4 = state.confirm_all(t4);
    assert(s4 == s3.confirm(transfers[3]));
    let s5 = state.confirm_all(t5);
    assert(s5 == s4.confirm(transfers[4]));
    let s6 = state.confirm_all(t6);
    assert(s6 == s5.confirm(transfers[5]));
    let s7 = state.confirm_all(t7);
    assert(s7 == s6.confirm(transfers[6]));
    let s8 = state.confirm_all(transfers);
    assert(s8 == s7.confirm(transfers[7]));
    assert(boot_address().len() == ADDRESS_LENGTH);
    assert(s8.address =~= boot_address());
}

/// What a list of control transfers stands for.
pub open spec fn planned_all(transfers: Seq<ControlTransfer>) -> Seq<Transfer> {
    transfers.map_values(|transfer: ControlTransfer| transfer@)
}

/// The driver of one dongle.
///
/// It holds what it knows the dongle's channel, address and datarate to be,
/// and whether a setter may skip a write that would change nothing.
#[derive(Debug)]
pub struct Crazyradio {
    cache_settings: bool,
    channel: Channel,
    address: [u8; 5],
    datarate: Datarate,
}

impl View for Crazyradio {
    type V = RadioState;

    closed spec fn view(&self) -> RadioState {
        RadioState {
            cache_settings: self.cache_settings,
            channel: self.channel@,
            address: self.address@,
            datarate: self.datarate,
        }
    }
}

/// The bytes of an address as a payload.
fn address_payload(address: &[u8; 5]) -> (payload: Vec<u8>)
    ensures
        payload@ == address@,
{
    let mut payload: Vec<u8> = Vec::new();
    let mut i: usize = 0;
    while i < 5
        invariant
            i <= 5,
            payload@ == address@.subrange(0, i as int),
        decreases 5 - i,
    {
        payload.push(address[i]);
        i += 1;
    }
    payload
}

/// Whether two addresses are the same.
fn same_address(a: &[u8; 5], b: &[u8; 5]) -> (same: bool)
    ensures
        same == (a@ == b@),
{
    let mut i: usize = 0;
    while i < 5
        invariant
            i <= 5,
            forall|j: int| 0 <= j < i ==> a@[j] == b@[j],
        decreases 5 - i,
    {
        if a[i] != b[i] {
            return false;
        }
        i += 1;
    }
    assert(a@ =~= b@);
    true
}

/// The write that puts the dongle on `channel`.
fn channel_command(channel: Channel) -> (transfer: ControlTransfer)
    ensures
        transfer@ == channel_transfer(channel@),
{
    let number: u8 = channel.number();
    ControlTransfer::command(UsbCommand::SetRadioChannel, number as u16, Vec::new())
}

/// The write that gives the dongle `datarate`.
fn datarate_command(datarate: Datarate) -> (transfer: ControlTransfer)
    ensures
        transfer@ == datarate_transfer(datarate),
{
    ControlTransfer::command(UsbCommand::SetDataRate, datarate.ordinal(), Vec::new())
}

/// The write that gives the dongle `address`.
fn address_command(address: &[u8; 5]) -> (transfer: ControlTransfer)
    ensures
        transfer@ == address_transfer(address@),
{
    ControlTransfer::command(UsbCommand::SetRadioAddress, 0, address_payload(address))
}

/// The write that sets the time to wait for an acknowledgement by the
/// greatest length of its payload.
fn ard_bytes_command(nbytes: u8) -> (transfer: ControlTransfer)
    requires
        nbytes <= MAX_PAYLOAD,
    ensures
        transfer@ == ard_bytes_transfer(nbytes),
        transfer.value == 0x80u16 | (nbytes as u16),
{
    let value: u16 = 0x80 | nbytes as u16;
    proof {
        lemma_ard_bytes_sets_top_bit(nbytes);
    }
    ControlTransfer::command(UsbCommand::SetRadioArd, value, Vec::new())
}

/// The write that sets the number of retries.
fn arc_command(arc: u16) -> (transfer: ControlTransfer)
    requires
        arc <= MAX_ARC,
    ensures
        transfer@ == arc_transfer(arc as nat),
{
    ControlTransfer::command(UsbCommand::SetRadioArc, arc, Vec::new())
}

impl Crazyradio {
    /// The driver of a dongle that has just been opened and whose firmware
    /// has the given version.
    ///
    /// Firmware older than 0.5 is refused. Otherwise the driver starts with
    /// the boot values and with skipping of writes enabled; the caller is to
    /// carry out the writes of [`Crazyradio::reset`] before anything else.
    pub fn open(major: u8, minor: u8, sub_minor: u8) -> (result: Result<Crazyradio, Error>)
        ensures
            version_supported(major, minor, sub_minor) ==> result is Ok && result->Ok_0@
                == RadioState::boot(true),
            !version_supported(major, minor, sub_minor) ==> result == Err::<Crazyradio, Error>(
                Error::DongleVersionNotSupported,
            ),
            result is Ok ==> result->Ok_0@.wf(),
    {
        if major == 0 && minor < MIN_MINOR_VERSION {
            return Err(Error::DongleVersionNotSupported);
        }
        let radio = Crazyradio {
            cache_settings: true,
            channel: Channel::in_range_number(BOOT_CHANNEL),
            address: [BOOT_ADDRESS_BYTE;5],
            datarate: Datarate::Dr2M,
        };
        assert(radio@.address =~= boot_address());
        Ok(radio)
    }

    /// Enables or disables the skipping of writes.
    ///
    /// While it is enabled, setting the channel, the address or the datarate
    /// to the value the dongle already has takes no transfer. While it is
    /// disabled every setter writes.
    pub fn set_cache_settings(&mut self, cache_settings: bool)
        ensures
            final(self)@ == (RadioState { cache_settings, ..old(self)@ }),
            old(self)@.wf(),
            final(self)@.wf(),
    {
        proof {
            use_type_invariant(self.channel);
        }
        self.cache_settings = cache_settings;
    }

    /// The write that setting the radio channel takes, if any.
    pub fn set_channel(&self, channel: Channel) -> (transfer: Option<ControlTransfer>)
        ensures
            planned(transfer) == self@.channel_write(channel@),
            self@.wf(),
            channel@ < CHANNEL_COUNT,
    {
        proof {
            use_type_invariant(self.channel);
            use_type_invariant(channel);
        }
        if !self.cache_settings || self.channel.number() != channel.number() {
            Some(channel_command(channel))
        } else {
            None
        }
    }

    /// The write that setting the datarate takes, if any.
    pub fn set_datarate(&self, datarate: Datarate) -> (transfer: Option<ControlTransfer>)
        ensures
            planned(transfer) == self@.datarate_write(datarate),
            self@.wf(),
    {
        proof {
            use_type_invariant(self.channel);
        }
        if !self.cache_settings || self.datarate != datarate {
            Some(datarate_command(datarate))
        } else {
            None
        }
    }

    /// The write that setting the radio address takes, if any.
    pub fn set_address(&self, address: &[u8; 5]) -> (transfer: Option<ControlTransfer>)
        ensures
            planned(transfer) == self@.address_write(address@),
            self@.wf(),
    {
        proof {
            use_type_invariant(self.channel);
        }
        if !self.cache_settings || !same_address(&self.address, address) {
            Some(address_command(address))
        } else {
            None
        }
    }

    /// The write that sets the transmit power.
    pub fn set_power(&self, power: Power) -> (transfer: ControlTransfer)
        ensures
            transfer@ == power_transfer(power),
    {
        ControlTransfer::command(UsbCommand::SetRadioPower, power.ordinal(), Vec::new())
    }

    /// The write that sets the time the radio waits for an acknowledgement
    /// before it sends the packet again, for a delay given in nanoseconds.
    ///
    /// The delay is at most 4000 ms, else it is rejected. The radio counts
    /// in steps of 250 ms and takes the number of whole steps less one, so
    /// the delay is one step at least.
    pub fn set_ard_time(&self, delay_ns: u128) -> (result: Result<ControlTransfer, Error>)
        requires
            250_000_000 <= delay_ns,
        ensures
            delay_ns <= 4_000_000_000 ==> result is Ok && result->Ok_0@ == ard_time_transfer(
                whole_milliseconds(delay_ns as int),
            ),
            delay_ns > 4_000_000_000 ==> result == Err::<ControlTransfer, Error>(
                Error::InvalidArgument,
            ),
    {
        if delay_ns <= 4_000_000_000 {
            let delay_ms: u16 = (delay_ns / 1_000_000) as u16;
            let ard: u16 = delay_ms / 250 - 1;
            Ok(ControlTransfer::command(UsbCommand::SetRadioArd, ard, Vec::new()))
        } else {
            Err(Error::InvalidArgument)
        }
    }

    /// The write that sets the time the radio waits for an acknowledgement
    /// by the greatest length of its payload, which is rejected above 32
    /// bytes.
    pub fn set_ard_bytes(&self, nbytes: u8) -> (result: Result<ControlTransfer, Error>)
        ensures
            nbytes <= MAX_PAYLOAD ==> result is Ok && result->Ok_0@ == ard_bytes_transfer(nbytes),
            nbytes <= MAX_PAYLOAD ==> result->Ok_0.value == 0x80u16 | (nbytes as u16),
            nbytes > MAX_PAYLOAD ==> result == Err::<ControlTransfer, Error>(
                Error::InvalidArgument,
            ),
    {
        if nbytes <= 32 {
            Ok(ard_bytes_command(nbytes))
        } else {
            Err(Error::InvalidArgument)
        }
    }

    /// The write that sets how many times the radio sends a packet again
    /// when no acknowledgement comes in time, which is rejected above 15.
    pub fn set_arc(&self, arc: usize) -> (result: Result<ControlTransfer, Error>)
        ensures
            arc <= MAX_ARC ==> result is Ok && result->Ok_0@ == arc_transfer(arc as nat),
            arc > MAX_ARC ==> result == Err::<ControlTransfer, Error>(Error::InvalidArgument),
    {
        if arc <= MAX_ARC {
            Ok(arc_command(arc as u16))
        } else {
            Err(Error::InvalidArgument)
        }
    }

    /// The write that makes the radio wait for acknowledgements, or not.
    pub fn set_ack_enable(&self, ack_enable: bool) -> (transfer: ControlTransfer)
        ensures
            transfer@ == ack_enable_transfer(ack_enable),
    {
        let value: u16 = if ack_enable { 1 } else { 0 };
        ControlTransfer::command(UsbCommand::AckEnable, value, Vec::new())
    }

    /// The write that switches the continuous carrier on or off.
    pub fn set_cont_carrier(&self, enable: bool) -> (transfer: ControlTransfer)
        ensures
            transfer@ == cont_carrier_transfer(enable),
    {
        let value: u16 = if enable { 1 } else { 0 };
        ControlTransfer::command(UsbCommand::SetContCarrier, value, Vec::new())
    }

    /// The write that starts the bootloader.
    ///
    /// The dongle then speaks another protocol, so the driver ends here: it
    /// is given up with this call and nothing more can be asked of it.
    pub fn launch_bootloader(self) -> (transfer: ControlTransfer)
        ensures
            transfer@ == launch_bootloader_transfer(),
    {
        ControlTransfer::command(UsbCommand::LaunchBootloader, 0, Vec::new())
    }

    /// Takes the outcome of a transfer that the transport has carried out.
    ///
    /// If the transfer succeeded and wrote the channel, the address or the
    /// datarate, the driver remembers the new value. If it failed the driver
    /// remembers what it did before and the failure is returned.
    pub fn complete(&mut self, transfer: &ControlTransfer, outcome: Result<(), UsbError>) -> (result:
        Result<(), Error>)
        ensures
            outcome is Ok ==> result is Ok && final(self)@ == old(self)@.confirm(transfer@),
            outcome is Err ==> result == Err::<(), Error>(Error::UsbError(outcome->Err_0))
                && *final(self) == *old(self),
            old(self)@.wf(),
            final(self)@.wf(),
    {
        proof {
            use_type_invariant(self.channel);
        }
        match outcome {
            Ok(()) => {
                if transfer.request_type == VENDOR_WRITE && transfer.index == 0 {
                    self.remember(transfer);
                }
                proof {
                    use_type_invariant(self.channel);
                }
                Ok(())
            },
            Err(usb_error) => Err(Error::from(usb_error)),
        }
    }

    /// Remembers what a command that the dongle has taken wrote.
    fn remember(&mut self, transfer: &ControlTransfer)
        requires
            transfer.request_type == VENDOR_WRITE,
            transfer.index == 0,
        ensures
            final(self)@ == old(self)@.confirm(transfer@),
    {
        let request: u8 = transfer.request;
        if request == UsbCommand::SetRadioChannel.code() {
            if transfer.data.len() == 0 && transfer.value < CHANNEL_COUNT as u16 {
                assert(transfer@.data =~= Seq::<u8>::empty());
                self.channel = Channel::in_range_number(transfer.value as u8);
            }
        } else if request == UsbCommand::SetRadioAddress.code() {
            if transfer.data.len() == 5 && transfer.value == 0 {
                let mut i: usize = 0;
                while i < 5
                    invariant
                        i <= 5,
                        transfer.data@.len() == 5,
                        forall|j: int| 0 <= j < i ==> self.address@[j] == transfer.data@[j],
                        self.cache_settings == old(self).cache_settings,
                        self.channel == old(self).channel,
                        self.datarate == old(self).datarate,
                    decreases 5 - i,
                {
                    self.address[i] = transfer.data[i];
                    i += 1;
                }
                assert(self.address@ =~= transfer.data@);
            }
        } else if request == UsbCommand::SetDataRate.code() {
            if transfer.data.len() == 0 {
                assert(transfer@.data =~= Seq::<u8>::empty());
                if transfer.value == 0 {
                    self.datarate = Datarate::Dr250K;
                } else if transfer.value == 1 {
                    self.datarate = Datarate::Dr1M;
                } else if transfer.value == 2 {
                    self.datarate = Datarate::Dr2M;
                }
            }
        }
    }

    /// The writes that bring the dongle back to its boot values, in the
    /// order in which they are to be carried out. None of them is skipped,
    /// whatever the driver remembers.
    pub fn reset(&self) -> (transfers: Vec<ControlTransfer>)
        ensures
            planned_all(transfers@) == reset_transfers(),
            self@.wf(),
    {
        proof {
            use_type_invariant(self.channel);
        }
        let boot_address_bytes: [u8; 5] = [BOOT_ADDRESS_BYTE;5];
        assert(boot_address_bytes@ =~= boot_address());
        let mut transfers: Vec<ControlTransfer> = Vec::new();
        transfers.push(datarate_command(Datarate::Dr2M));
        transfers.push(channel_command(Channel::in_range_number(BOOT_CHANNEL)));
        transfers.push(self.set_cont_carrier(false));
        transfers.push(address_command(&boot_address_bytes));
        transfers.push(self.set_power(Power::P0dBm));
        transfers.push(arc_command(BOOT_ARC as u16));
        transfers.push(ard_bytes_command(MAX_PAYLOAD as u8));
        transfers.push(self.set_ack_enable(true));
        proof {
            let planned = planned_all(transfers@);
            let wanted = reset_transfers();
            assert(planned.len() == 8);
            assert(planned[0] == wanted[0]);
            assert(planned[1] == wanted[1]);
            assert(planned[2] == wanted[2]);
            assert(planned[3] == wanted[3]);
            assert(planned[4] == wanted[4]);
            assert(planned[5] == wanted[5]);
            assert(planned[6] == wanted[6]);
            assert(planned[7] == wanted[7]);
            assert(planned =~= wanted);
        }
        transfers
    }
}

} // verus!
