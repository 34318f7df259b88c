use crazyradio::{Channel, Datarate, Error, Power, UsbError};

#[test]
fn channel_from_number_accepts_0_to_125() {
    for number in 0u8..=125 {
        let channel = Channel::from_number(number).unwrap();
        assert_eq!(channel.number(), number);
        assert_eq!(u8::from(channel), number);
    }
}

#[test]
fn channel_from_number_rejects_126_and_above() {
    for number in 126u8..=255 {
        assert_eq!(Channel::from_number(number), Err(Error::InvalidArgument));
    }
}

#[test]
fn channel_converts_into_its_number() {
    let channel = Channel::from_number(42).unwrap();
    let number: u8 = channel.into();
    assert_eq!(number, 42);
}

#[test]
fn channels_of_one_number_are_equal() {
    assert_eq!(Channel::from_number(7).unwrap(), Channel::from_number(7).unwrap());
    assert_ne!(Channel::from_number(7).unwrap(), Channel::from_number(8).unwrap());
}

#[test]
fn datarate_ordinals() {
    assert_eq!(Datarate::Dr250K.ordinal(), 0);
    assert_eq!(Datarate::Dr1M.ordinal(), 1);
    assert_eq!(Datarate::Dr2M.ordinal(), 2);
}

#[test]
fn power_ordinals() {
    assert_eq!(Power::Pm18dBm.ordinal(), 0);
    assert_eq!(Power::Pm12dBm.ordinal(), 1);
    assert_eq!(Power::Pm6dBm.ordinal(), 2);
    assert_eq!(Power::P0dBm.ordinal(), 3);
}

#[test]
fn transport_failure_becomes_usb_error() {
    assert_eq!(Error::from(UsbError::Timeout), Error::UsbError(UsbError::Timeout));
    assert_eq!(Error::from(UsbError::NoDevice), Error::UsbError(UsbError::NoDevice));
    assert_ne!(Error::from(UsbError::NotFound), Error::NotFound);
}
