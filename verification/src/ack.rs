//! The answer to a packet: a status byte, followed by the payload of the
//! acknowledgement.

use vstd::prelude::*;
use crate::command::MAX_PAYLOAD;
use crate::error::{Error, UsbError};
use crate::radio::Crazyradio;

verus! {

/// Endpoint on which packets are sent.
pub const DATA_OUT_ENDPOINT: u8 = 0x01;

/// Endpoint on which the answer to a packet is read.
pub const DATA_IN_ENDPOINT: u8 = 0x81;

/// Greatest length of an answer: the status byte and a full payload.
pub const MAX_ANSWER: usize = 33;

/// Ack status of a sent packet.
#[derive(Debug, Copy, Clone, PartialEq, Eq, Structural)]
pub struct Ack {
    /// At true if an ack packet has been received.
    pub received: bool,
    /// Value of the nRF24 power detector when receiving the ack packet.
    pub power_detector: bool,
    /// Number of time the packet was sent before an ack was received.
    pub retry: usize,
    /// Length of the ack payload.
    pub length: usize,
}

/// Bit 0 of the status byte: an acknowledgement was received.
pub open spec fn status_received(status: u8) -> bool {
    status % 2 == 1
}

/// Bit 1 of the status byte: the power detector was triggered.
pub open spec fn status_power_detector(status: u8) -> bool {
    (status / 2) % 2 == 1
}

/// Bits 4 to 7 of the status byte: how many times the packet was sent again.
pub open spec fn status_retry(status: u8) -> nat {
    (status / 16) as nat
}

/// The acknowledgement that an answer of at least one byte reports: the
/// first byte is the status, all that follows is payload.
pub open spec fn ack_of(answer: Seq<u8>) -> Ack
    recommends
        1 <= answer.len(),
{
    Ack {
        received: status_received(answer[0]),
        power_detector: status_power_detector(answer[0]),
        retry: status_retry(answer[0]) as usize,
        length: (answer.len() - 1) as usize,
    }
}

/// Byte `i` of the payload in an answer, and zero from the end of the
/// payload on.
pub open spec fn payload_byte(answer: Seq<u8>, i: int) -> u8 {
    if 0 <= i && i + 1 < answer.len() {
        answer[i + 1]
    } else {
        0
    }
}

/// The caller's buffer once the payload of `answer` has been copied into it:
/// its first 32 bytes, or all of it if it is shorter, hold the payload,
/// followed by zeros where the payload is shorter. What lies beyond stays.
pub open spec fn payload_copied(answer: Seq<u8>, buffer: Seq<u8>) -> Seq<u8> {
    Seq::new(
        buffer.len(),
        |i: int|
            if i < MAX_PAYLOAD {
                payload_byte(answer, i)
            } else {
                buffer[i]
            },
    )
}

/// The status bits as the hardware lays them out agree with their
/// arithmetic reading.
proof fn lemma_status_bits(status: u8)
    ensures
        (status & 0x01 != 0) == status_received(status),
        (status & 0x02 != 0) == status_power_detector(status),
        ((status & 0xf0) >> 4) == status_retry(status),
        status_retry(status) <= 15,
{
    assert((status & 0x01 != 0) == (status % 2 == 1)) by (bit_vector);
    assert((status & 0x02 != 0) == ((status / 2) % 2 == 1)) by (bit_vector);
    assert(((status & 0xf0) >> 4) == status / 16) by (bit_vector);
    assert(status / 16 <= 15) by (bit_vector);
}

impl Ack {
    /// Reads an answer of the dongle: decodes the status byte and copies the
    /// payload into `ack_data`.
    ///
    /// A buffer shorter than the payload receives the beginning of it, and
    /// `length` is the length of the whole payload all the same. A buffer
    /// longer than the payload is filled with zeros up to its 32nd byte.
    pub fn decode(answer: &[u8], ack_data: &mut [u8]) -> (ack: Ack)
        requires
            1 <= answer@.len() <= MAX_ANSWER,
        ensures
            ack == ack_of(answer@),
            ack.retry <= 15,
            ack.length <= MAX_PAYLOAD,
            final(ack_data)@ == payload_copied(answer@, old(ack_data)@),
    {
        let count: usize = if ack_data.len() <= MAX_PAYLOAD {
            ack_data.len()
        } else {
            MAX_PAYLOAD
        };
        let mut i: usize = 0;
        while i < count
            invariant
                i <= count,
                count <= MAX_PAYLOAD,
                count <= ack_data@.len(),
                ack_data@.len() == old(ack_data)@.len(),
                1 <= answer@.len() <= MAX_ANSWER,
                forall|j: int| 0 <= j < i ==> ack_data@[j] == payload_byte(answer@, j),
                forall|j: int| i <= j < ack_data@.len() ==> ack_data@[j] == old(ack_data)@[j],
            decreases count - i,
        {
            let byte: u8 = if i + 1 < answer.len() {
                answer[i + 1]
            } else {
                0
            };
            ack_data[i] = byte;
            i += 1;
        }
        let status: u8 = answer[0];
        proof {
            lemma_status_bits(status);
            assert(ack_data@ =~= payload_copied(answer@, old(ack_data)@));
        }
        Ack {
            received: status & 0x01 != 0,
            power_detector: status & 0x02 != 0,
            retry: ((status & 0xf0) >> 4) as usize,
            length: answer.len() - 1,
        }
    }
}

impl Crazyradio {
    /// Takes the outcome of sending a packet: what the dongle answered, or
    /// the failure of the transport.
    ///
    /// The caller sends the packet on [`DATA_OUT_ENDPOINT`] and reads up to
    /// [`MAX_ANSWER`] bytes on [`DATA_IN_ENDPOINT`]. An answer is decoded as
    /// [`Ack::decode`] does. A failure is returned and leaves `ack_data` as
    /// it was.
    pub fn send_packet(&self, outcome: Result<&[u8], UsbError>, ack_data: &mut [u8]) -> (result:
        Result<Ack, Error>)
        requires
            outcome is Ok ==> 1 <= outcome->Ok_0@.len() <= MAX_ANSWER,
        ensures
            outcome is Ok ==> result == Ok::<Ack, Error>(ack_of(outcome->Ok_0@)),
            outcome is Ok ==> final(ack_data)@ == payload_copied(outcome->Ok_0@, old(ack_data)@),
            outcome is Err ==> result == Err::<Ack, Error>(Error::UsbError(outcome->Err_0))
                && final(ack_data)@ == old(ack_data)@,
    {
        match outcome {
            Ok(answer) => Ok(Ack::decode(answer, ack_data)),
            Err(usb_error) => Err(Error::from(usb_error)),
        }
    }
}

} // verus!
