use crazyradio::{Channel, ControlTransfer, Crazyradio, Datarate, Error, UsbError};

fn radio() -> Crazyradio {
    Crazyradio::open(0, 5, 0).unwrap()
}

fn channel(number: u8) -> Channel {
    Channel::from_number(number).unwrap()
}

fn command(request: u8, value: u16) -> ControlTransfer {
    ControlTransfer { request_type: 0x40, request, value, index: 0, data: vec![] }
}

fn address_command(address: [u8; 5]) -> ControlTransfer {
    ControlTransfer { request_type: 0x40, request: 0x02, value: 0, index: 0, data: address.to_vec() }
}

#[test]
fn open_accepts_version_0_5_and_later() {
    assert!(Crazyradio::open(0, 5, 0).is_ok());
    assert!(Crazyradio::open(0, 5, 3).is_ok());
    assert!(Crazyradio::open(0, 9, 9).is_ok());
    assert!(Crazyradio::open(1, 0, 0).is_ok());
    assert!(Crazyradio::open(99, 9, 9).is_ok());
    assert!(Crazyradio::open(255, 255, 255).is_ok());
}

#[test]
fn open_refuses_versions_before_0_5() {
    assert!(matches!(Crazyradio::open(0, 0, 0), Err(Error::DongleVersionNotSupported)));
    assert!(matches!(Crazyradio::open(0, 4, 0), Err(Error::DongleVersionNotSupported)));
    assert!(matches!(Crazyradio::open(0, 4, 9), Err(Error::DongleVersionNotSupported)));
    assert!(matches!(Crazyradio::open(0, 0, 49), Err(Error::DongleVersionNotSupported)));
    assert!(matches!(Crazyradio::open(0, 0, 255), Err(Error::DongleVersionNotSupported)));
}

#[test]
fn open_compares_the_version_part_by_part() {
    assert!(matches!(Crazyradio::open(0, 4, 10), Err(Error::DongleVersionNotSupported)));
    assert!(matches!(Crazyradio::open(0, 4, 15), Err(Error::DongleVersionNotSupported)));
    assert!(matches!(Crazyradio::open(0, 0, 50), Err(Error::DongleVersionNotSupported)));
    assert!(matches!(Crazyradio::open(0, 3, 20), Err(Error::DongleVersionNotSupported)));
    assert!(matches!(Crazyradio::open(0, 4, 255), Err(Error::DongleVersionNotSupported)));
    assert!(Crazyradio::open(0, 5, 0).is_ok());
    assert!(Crazyradio::open(0, 15, 0).is_ok());
    assert!(Crazyradio::open(1, 0, 0).is_ok());
    assert!(Crazyradio::open(1, 4, 9).is_ok());
}

#[test]
fn open_decides_on_every_version_with_major_part_zero() {
    for minor in 0u8..=255 {
        for sub_minor in 0u8..=255 {
            let opened = Crazyradio::open(0, minor, sub_minor);
            if minor < 5 {
                assert!(matches!(opened, Err(Error::DongleVersionNotSupported)));
            } else {
                assert!(opened.is_ok());
            }
        }
    }
}

#[test]
fn open_starts_with_the_boot_values() {
    let radio = radio();
    assert_eq!(radio.set_channel(channel(2)), None);
    assert_eq!(radio.set_datarate(Datarate::Dr2M), None);
    assert_eq!(radio.set_address(&[0xe7; 5]), None);
}

#[test]
fn set_channel_to_the_cached_value_takes_no_transfer() {
    let mut radio = radio();
    let write = radio.set_channel(channel(42)).unwrap();
    assert_eq!(write, command(0x01, 42));
    assert_eq!(radio.complete(&write, Ok(())), Ok(()));
    assert_eq!(radio.set_channel(channel(42)), None);
    assert_eq!(radio.set_channel(channel(42)), None);
    assert_eq!(radio.set_channel(channel(43)), Some(command(0x01, 43)));
}

#[test]
fn set_channel_without_caching_takes_one_transfer_every_time() {
    let mut radio = radio();
    radio.set_cache_settings(false);
    for _ in 0..4 {
        let write = radio.set_channel(channel(2)).unwrap();
        assert_eq!(write, command(0x01, 2));
        assert_eq!(radio.complete(&write, Ok(())), Ok(()));
    }
    radio.set_cache_settings(true);
    assert_eq!(radio.set_channel(channel(2)), None);
}

#[test]
fn failed_write_leaves_the_cache_unchanged() {
    let mut radio = radio();
    let write = radio.set_channel(channel(100)).unwrap();
    assert_eq!(
        radio.complete(&write, Err(UsbError::Timeout)),
        Err(Error::UsbError(UsbError::Timeout))
    );
    assert_eq!(radio.set_channel(channel(2)), None);
    assert_eq!(radio.set_channel(channel(100)), Some(command(0x01, 100)));

    let write = radio.set_datarate(Datarate::Dr250K).unwrap();
    assert_eq!(radio.complete(&write, Err(UsbError::Pipe)), Err(Error::UsbError(UsbError::Pipe)));
    assert_eq!(radio.set_datarate(Datarate::Dr2M), None);

    let write = radio.set_address(&[1, 2, 3, 4, 5]).unwrap();
    assert_eq!(
        radio.complete(&write, Err(UsbError::NoDevice)),
        Err(Error::UsbError(UsbError::NoDevice))
    );
    assert_eq!(radio.set_address(&[0xe7; 5]), None);
}

#[test]
fn set_datarate_is_cached() {
    let mut radio = radio();
    let write = radio.set_datarate(Datarate::Dr250K).unwrap();
    assert_eq!(write, command(0x03, 0));
    assert_eq!(radio.complete(&write, Ok(())), Ok(()));
    assert_eq!(radio.set_datarate(Datarate::Dr250K), None);
    assert_eq!(radio.set_datarate(Datarate::Dr1M), Some(command(0x03, 1)));
    assert_eq!(radio.set_datarate(Datarate::Dr2M), Some(command(0x03, 2)));
    radio.set_cache_settings(false);
    assert_eq!(radio.set_datarate(Datarate::Dr250K), Some(command(0x03, 0)));
}

#[test]
fn set_address_is_cached() {
    let mut radio = radio();
    let address = [0x01, 0x23, 0x45, 0x67, 0x89];
    let write = radio.set_address(&address).unwrap();
    assert_eq!(write, address_command(address));
    assert_eq!(radio.complete(&write, Ok(())), Ok(()));
    assert_eq!(radio.set_address(&address), None);
    assert_eq!(
        radio.set_address(&[0x01, 0x23, 0x45, 0x67, 0x88]),
        Some(address_command([0x01, 0x23, 0x45, 0x67, 0x88]))
    );
    radio.set_cache_settings(false);
    assert_eq!(radio.set_address(&address), Some(address_command(address)));
}

#[test]
fn settings_that_are_not_cached_leave_the_cache_alone() {
    let mut radio = radio();
    let writes = vec![
        radio.set_power(crazyradio::Power::Pm18dBm),
        radio.set_arc(2).unwrap(),
        radio.set_ard_bytes(1).unwrap(),
        radio.set_ard_time(250_000_000).unwrap(),
        radio.set_ack_enable(false),
        radio.set_cont_carrier(true),
    ];
    for write in &writes {
        assert_eq!(radio.complete(write, Ok(())), Ok(()));
    }
    assert_eq!(radio.set_channel(channel(2)), None);
    assert_eq!(radio.set_datarate(Datarate::Dr2M), None);
    assert_eq!(radio.set_address(&[0xe7; 5]), None);
}

#[test]
fn complete_ignores_a_channel_that_does_not_exist() {
    let mut radio = radio();
    assert_eq!(radio.complete(&command(0x01, 126), Ok(())), Ok(()));
    assert_eq!(radio.set_channel(channel(2)), None);
    assert_eq!(radio.complete(&command(0x03, 3), Ok(())), Ok(()));
    assert_eq!(radio.set_datarate(Datarate::Dr2M), None);
}

#[test]
fn reset_writes_the_boot_values_in_order() {
    let radio = radio();
    assert_eq!(
        radio.reset(),
        vec![
            command(0x03, 2),
            command(0x01, 2),
            command(0x20, 0),
            address_command([0xe7; 5]),
            command(0x04, 3),
            command(0x06, 3),
            command(0x05, 0xa0),
            command(0x10, 1),
        ]
    );
}

#[test]
fn reset_skips_nothing_and_restores_the_cache() {
    let mut radio = radio();
    for write in [
        radio.set_channel(channel(99)).unwrap(),
        radio.set_datarate(Datarate::Dr1M).unwrap(),
        radio.set_address(&[9, 8, 7, 6, 5]).unwrap(),
    ] {
        assert_eq!(radio.complete(&write, Ok(())), Ok(()));
    }
    assert_eq!(radio.set_channel(channel(99)), None);

    let writes = radio.reset();
    assert_eq!(writes.len(), 8);
    for write in &writes {
        assert_eq!(radio.complete(write, Ok(())), Ok(()));
    }
    assert_eq!(radio.set_channel(channel(2)), None);
    assert_eq!(radio.set_datarate(Datarate::Dr2M), None);
    assert_eq!(radio.set_address(&[0xe7; 5]), None);
    assert_eq!(radio.set_channel(channel(99)), Some(command(0x01, 99)));
}

#[test]
fn reset_that_fails_keeps_what_was_written() {
    let mut radio = radio();
    let write = radio.set_channel(channel(99)).unwrap();
    assert_eq!(radio.complete(&write, Ok(())), Ok(()));
    let write = radio.set_datarate(Datarate::Dr1M).unwrap();
    assert_eq!(radio.complete(&write, Ok(())), Ok(()));

    let writes = radio.reset();
    assert_eq!(radio.complete(&writes[0], Ok(())), Ok(()));
    assert_eq!(
        radio.complete(&writes[1], Err(UsbError::Io)),
        Err(Error::UsbError(UsbError::Io))
    );
    assert_eq!(radio.set_datarate(Datarate::Dr2M), None);
    assert_eq!(radio.set_channel(channel(99)), None);
}
