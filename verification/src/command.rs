//! The dongle's command set: one vendor control transfer per command, with
//! the command's code as the request and the encoded parameter as the value.

use vstd::prelude::*;
use crate::params::{Datarate, Power};

verus! {

/// Request type of every command: host to device, vendor-defined, addressed
/// to the device.
pub const VENDOR_WRITE: u8 = 0x40;

/// Time allowed to every transfer, in milliseconds.
pub const TRANSFER_TIMEOUT_MS: u64 = 1000;

/// Longest delay the auto-retry delay can be set to, in milliseconds.
pub const ARD_MAX_DELAY_MS: u64 = 4000;

/// Length of one auto-retry delay step, in milliseconds.
pub const ARD_STEP_MS: u64 = 250;

/// Longest acknowledgement payload, in bytes.
pub const MAX_PAYLOAD: usize = 32;

/// Greatest number of retries the radio can be asked for.
pub const MAX_ARC: usize = 15;

/// Length of a radio address, in bytes.
pub const ADDRESS_LENGTH: usize = 5;

/// The commands the dongle understands.
#[derive(Debug, Copy, Clone, PartialEq, Eq, Structural)]
pub enum UsbCommand {
    SetRadioChannel,
    SetRadioAddress,
    SetDataRate,
    SetRadioPower,
    SetRadioArd,
    SetRadioArc,
    AckEnable,
    SetContCarrier,
    LaunchBootloader,
}

impl UsbCommand {
    /// The code of the command on the wire.
    pub open spec fn spec_code(self) -> u8 {
        match self {
            UsbCommand::SetRadioChannel => 0x01,
            UsbCommand::SetRadioAddress => 0x02,
            UsbCommand::SetDataRate => 0x03,
            UsbCommand::SetRadioPower => 0x04,
            UsbCommand::SetRadioArd => 0x05,
            UsbCommand::SetRadioArc => 0x06,
            UsbCommand::AckEnable => 0x10,
            UsbCommand::SetContCarrier => 0x20,
            UsbCommand::LaunchBootloader => 0xff,
        }
    }

    /// The code of the command on the wire.
    #[verifier::when_used_as_spec(spec_code)]
    pub fn code(self) -> (code: u8)
        ensures
            code == self.spec_code(),
    {
        match self {
            UsbCommand::SetRadioChannel => 0x01,
            UsbCommand::SetRadioAddress => 0x02,
            UsbCommand::SetDataRate => 0x03,
            UsbCommand::SetRadioPower => 0x04,
            UsbCommand::SetRadioArd => 0x05,
            UsbCommand::SetRadioArc => 0x06,
            UsbCommand::AckEnable => 0x10,
            UsbCommand::SetContCarrier => 0x20,
            UsbCommand::LaunchBootloader => 0xff,
        }
    }
}

/// A control transfer as a mathematical value: what [`ControlTransfer`]
/// stands for.
pub struct Transfer {
    pub request_type: u8,
    pub request: u8,
    pub value: u16,
    pub index: u16,
    pub data: Seq<u8>,
}

/// A control transfer for the transport to carry out.
#[derive(Debug, PartialEq, Eq)]
pub struct ControlTransfer {
    /// Direction, type and recipient of the request.
    pub request_type: u8,
    /// Code of the command.
    pub request: u8,
    /// Encoded parameter of the command.
    pub value: u16,
    /// Always zero.
    pub index: u16,
    /// Bytes sent after the setup packet.
    pub data: Vec<u8>,
}

impl View for ControlTransfer {
    type V = Transfer;

    open spec fn view(&self) -> Transfer {
        Transfer {
            request_type: self.request_type,
            request: self.request,
            value: self.value,
            index: self.index,
            data: self.data@,
        }
    }
}

/// What an optional control transfer stands for.
pub open spec fn planned(transfer: Option<ControlTransfer>) -> Option<Transfer> {
    match transfer {
        Some(transfer) => Some(transfer@),
        None => None,
    }
}

/// The transfer that carries `command` with the encoded parameter `value` and
/// the payload `data`.
pub open spec fn command_transfer(command: UsbCommand, value: u16, data: Seq<u8>) -> Transfer {
    Transfer { request_type: VENDOR_WRITE, request: command.code(), value, index: 0, data }
}

/// Sets the radio channel: the value is the channel's number.
pub open spec fn channel_transfer(channel: nat) -> Transfer {
    command_transfer(UsbCommand::SetRadioChannel, channel as u16, Seq::empty())
}

/// Sets the radio address: the address is the payload.
pub open spec fn address_transfer(address: Seq<u8>) -> Transfer {
    command_transfer(UsbCommand::SetRadioAddress, 0, address)
}

/// Sets the datarate: the value is the datarate's ordinal.
pub open spec fn datarate_transfer(datarate: Datarate) -> Transfer {
    command_transfer(UsbCommand::SetDataRate, datarate.ordinal(), Seq::empty())
}

/// Sets the transmit power: the value is the power level's ordinal.
pub open spec fn power_transfer(power: Power) -> Transfer {
    command_transfer(UsbCommand::SetRadioPower, power.ordinal(), Seq::empty())
}

/// Number of whole milliseconds in a delay given in nanoseconds.
pub open spec fn whole_milliseconds(delay_ns: int) -> int {
    delay_ns / 1_000_000
}

/// The auto-retry delay register for a delay in milliseconds: the number of
/// whole 250 ms steps in it, less one.
pub open spec fn ard_steps(delay_ms: int) -> int {
    delay_ms / 250 - 1
}

/// Sets the auto-retry delay to the step that `ard_steps` gives.
pub open spec fn ard_time_transfer(delay_ms: int) -> Transfer {
    command_transfer(UsbCommand::SetRadioArd, ard_steps(delay_ms) as u16, Seq::empty())
}

/// The auto-retry delay register for an expected acknowledgement payload of
/// `nbytes` bytes: the length with the top bit of the byte set.
pub open spec fn ard_bytes_value(nbytes: u8) -> u16 {
    (0x80 + nbytes) as u16
}

/// Sets the auto-retry delay by the length of the acknowledgement payload.
pub open spec fn ard_bytes_transfer(nbytes: u8) -> Transfer {
    command_transfer(UsbCommand::SetRadioArd, ard_bytes_value(nbytes), Seq::empty())
}

/// Sets the number of retries: the value is the count.
pub open spec fn arc_transfer(arc: nat) -> Transfer {
    command_transfer(UsbCommand::SetRadioArc, arc as u16, Seq::empty())
}

/// The value that stands for a flag: 1 when set, 0 when clear.
pub open spec fn flag_value(flag: bool) -> u16 {
    if flag {
        1
    } else {
        0
    }
}

/// Switches waiting for acknowledgements on or off.
pub open spec fn ack_enable_transfer(enable: bool) -> Transfer {
    command_transfer(UsbCommand::AckEnable, flag_value(enable), Seq::empty())
}

/// Switches the continuous carrier on or off.
pub open spec fn cont_carrier_transfer(enable: bool) -> Transfer {
    command_transfer(UsbCommand::SetContCarrier, flag_value(enable), Seq::empty())
}

/// Starts the bootloader: neither parameter nor payload.
pub open spec fn launch_bootloader_transfer() -> Transfer {
    command_transfer(UsbCommand::LaunchBootloader, 0, Seq::empty())
}

impl ControlTransfer {
    /// The transfer that carries `command` with the encoded parameter `value`
    /// and the payload `data`.
    pub fn command(command: UsbCommand, value: u16, data: Vec<u8>) -> (transfer: ControlTransfer)
        ensures
            transfer@ == command_transfer(command, value, data@),
    {
        ControlTransfer { request_type: VENDOR_WRITE, request: command.code(), value, index: 0, data }
    }
}

/// With at most 32 bytes announced, setting the top bit adds 128 to the
/// length.
pub proof fn lemma_ard_bytes_sets_top_bit(nbytes: u8)
    requires
        nbytes <= MAX_PAYLOAD,
    ensures
        ard_bytes_value(nbytes) == 0x80u16 | (nbytes as u16),
{
    assert(nbytes <= 32 ==> (0x80u16 + (nbytes as u16)) as u16 == 0x80u16 | (nbytes as u16))
        by (bit_vector);
}

/// A longer delay never gives an earlier step: between 0 and 4000 ms the
/// step grows with the delay.
pub proof fn lemma_ard_steps_monotonic(shorter_ms: int, longer_ms: int)
    requires
        0 <= shorter_ms <= longer_ms <= ARD_MAX_DELAY_MS,
    ensures
        ard_steps(shorter_ms) <= ard_steps(longer_ms),
        -1 <= ard_steps(shorter_ms),
        ard_steps(longer_ms) <= 15,
{
}

} // verus!
