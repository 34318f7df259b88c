use crazyradio::{Ack, Channel, Crazyradio};

fn radio() -> Crazyradio {
    Crazyradio::open(0, 5, 0).unwrap()
}

fn channel(number: u8) -> Channel {
    Channel::from_number(number).unwrap()
}

fn ack(received: bool) -> Ack {
    Ack { received, power_detector: false, retry: 0, length: 0 }
}

fn run(start: u8, stop: u8, answers: &[bool]) -> (Vec<u8>, Vec<u8>) {
    let mut scan = radio().scan_channels(channel(start), channel(stop));
    let mut probed = vec![];
    let mut answers = answers.iter();
    while let Some(current) = scan.channel() {
        probed.push(current.number());
        scan = scan.record(&ack(*answers.next().unwrap()));
    }
    let found = scan.finish().into_iter().map(|channel| channel.number()).collect();
    (probed, found)
}

#[test]
fn scan_probes_each_channel_once_in_ascending_order() {
    let (probed, found) = run(0, 2, &[true, false, true]);
    assert_eq!(probed, vec![0, 1, 2]);
    assert_eq!(found, vec![0, 2]);
}

#[test]
fn scan_returns_only_the_channels_that_acked() {
    assert_eq!(run(0, 2, &[false, false, false]).1, Vec::<u8>::new());
    assert_eq!(run(0, 2, &[true, true, true]).1, vec![0, 1, 2]);
    assert_eq!(run(0, 2, &[false, true, false]).1, vec![1]);
    assert_eq!(run(10, 13, &[false, true, true, false]).1, vec![11, 12]);
}

#[test]
fn scan_of_one_channel() {
    let (probed, found) = run(125, 125, &[true]);
    assert_eq!(probed, vec![125]);
    assert_eq!(found, vec![125]);
}

#[test]
fn scan_of_an_empty_range_probes_nothing() {
    let (probed, found) = run(3, 2, &[]);
    assert_eq!(probed, Vec::<u8>::new());
    assert_eq!(found, Vec::<u8>::new());
}

#[test]
fn scan_of_every_channel() {
    let answers: Vec<bool> = (0u8..126).map(|number| number % 3 == 0).collect();
    let (probed, found) = run(0, 125, &answers);
    assert_eq!(probed, (0u8..126).collect::<Vec<u8>>());
    assert_eq!(found, (0u8..126).filter(|number| number % 3 == 0).collect::<Vec<u8>>());
}

#[test]
fn scan_that_is_over_records_nothing() {
    let mut scan = radio().scan_channels(channel(5), channel(5));
    scan = scan.record(&ack(false));
    assert_eq!(scan.channel(), None);
    scan = scan.record(&ack(true));
    assert_eq!(scan.channel(), None);
    assert_eq!(scan.finish(), vec![]);
}

#[test]
fn scan_can_be_ended_early() {
    let mut scan = radio().scan_channels(channel(20), channel(30));
    scan = scan.record(&ack(true));
    scan = scan.record(&ack(false));
    assert_eq!(scan.channel(), Some(channel(22)));
    assert_eq!(scan.finish(), vec![channel(20)]);
}
