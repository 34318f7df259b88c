//! The values a radio parameter can take: channel, datarate and transmit
//! power.

use vstd::prelude::*;
use vstd::std_specs::convert::FromSpecImpl;
use crate::error::Error;

verus! {

/// Number of radio channels: channels are numbered from 0 to 125.
pub const CHANNEL_COUNT: u8 = 126;

/// Radio channel, a number from 0 to 125.
///
/// Every `Channel` that executable code holds is in range: the only way to
/// make one is [`Channel::from_number`].
#[derive(Debug, Copy, Clone, Eq, PartialEq, Hash, Structural)]
pub struct Channel(u8);

impl View for Channel {
    type V = nat;

    closed spec fn view(&self) -> nat {
        self.0 as nat
    }
}

impl Channel {
    /// The channel's number is one that exists.
    #[verifier::type_invariant]
    pub open spec fn in_range(self) -> bool {
        self@ < CHANNEL_COUNT
    }

    /// The channel of the given number, which is rejected unless it is below
    /// 126.
    pub fn from_number(channel: u8) -> (result: Result<Channel, Error>)
        ensures
            channel < CHANNEL_COUNT ==> result is Ok && result->Ok_0@ == channel,
            channel >= CHANNEL_COUNT ==> result == Err::<Channel, Error>(Error::InvalidArgument),
    {
        if channel < CHANNEL_COUNT {
            Ok(Channel(channel))
        } else {
            Err(Error::InvalidArgument)
        }
    }

    /// The channel of a number that is known to be below 126.
    pub(crate) fn in_range_number(number: u8) -> (channel: Channel)
        requires
            number < CHANNEL_COUNT,
        ensures
            channel@ == number,
    {
        Channel(number)
    }

    /// Two channels are the same channel if and only if they have the same
    /// number.
    pub proof fn lemma_same_number_same_channel(a: Channel, b: Channel)
        ensures
            (a@ == b@) == (a == b),
    {
    }

    /// The channel's number.
    pub fn number(self) -> (number: u8)
        ensures
            number == self@,
            number < CHANNEL_COUNT,
    {
        proof {
            use_type_invariant(self);
        }
        self.0
    }
}

impl From<Channel> for u8 {
    fn from(val: Channel) -> (number: u8) {
        val.0
    }
}

impl FromSpecImpl<Channel> for u8 {
    open spec fn obeys_from_spec() -> bool {
        true
    }

    open spec fn from_spec(val: Channel) -> u8 {
        val@ as u8
    }
}

/// Radio datarate.
#[derive(Debug, Copy, Clone, PartialEq, Eq, Structural)]
pub enum Datarate {
    /// 250 kbit/s.
    Dr250K,
    /// 1 Mbit/s.
    Dr1M,
    /// 2 Mbit/s.
    Dr2M,
}

impl Datarate {
    /// The number by which the dongle knows the datarate.
    pub open spec fn spec_ordinal(self) -> u16 {
        match self {
            Datarate::Dr250K => 0,
            Datarate::Dr1M => 1,
            Datarate::Dr2M => 2,
        }
    }

    /// The number by which the dongle knows the datarate.
    #[verifier::when_used_as_spec(spec_ordinal)]
    pub fn ordinal(self) -> (ordinal: u16)
        ensures
            ordinal == self.spec_ordinal(),
    {
        match self {
            Datarate::Dr250K => 0,
            Datarate::Dr1M => 1,
            Datarate::Dr2M => 2,
        }
    }
}

/// Radio transmit power.
#[derive(Debug, Copy, Clone, PartialEq, Eq, Structural)]
pub enum Power {
    /// -18 dBm.
    Pm18dBm,
    /// -12 dBm.
    Pm12dBm,
    /// -6 dBm.
    Pm6dBm,
    /// 0 dBm.
    P0dBm,
}

impl Power {
    /// The number by which the dongle knows the power level.
    pub open spec fn spec_ordinal(self) -> u16 {
        match self {
            Power::Pm18dBm => 0,
            Power::Pm12dBm => 1,
            Power::Pm6dBm => 2,
            Power::P0dBm => 3,
        }
    }

    /// The number by which the dongle knows the power level.
    #[verifier::when_used_as_spec(spec_ordinal)]
    pub fn ordinal(self) -> (ordinal: u16)
        ensures
            ordinal == self.spec_ordinal(),
    {
        match self {
            Power::Pm18dBm => 0,
            Power::Pm12dBm => 1,
            Power::Pm6dBm => 2,
            Power::P0dBm => 3,
        }
    }
}

} // verus!
