use crazyradio::locate::{is_crazyradio, serial_language, PRODUCT_ID, VENDOR_ID};
use crazyradio::{Crazyradio, DeviceSearch, Error, Probe};

fn walk(mut search: DeviceSearch, serials: &[&str]) -> Option<usize> {
    for (place, serial) in serials.iter().enumerate() {
        let accepted = match search.probe() {
            Probe::Accept => true,
            Probe::ReadSerial => search.accepts(&serial.to_string()),
            Probe::Pass => false,
        };
        if accepted {
            return Some(place);
        }
        search = search.pass();
    }
    None
}

#[test]
fn dongle_identity() {
    assert_eq!(VENDOR_ID, 0x1915);
    assert_eq!(PRODUCT_ID, 0x7777);
    assert!(is_crazyradio(0x1915, 0x7777));
    assert!(!is_crazyradio(0x1915, 0x7778));
    assert!(!is_crazyradio(0x1916, 0x7777));
    assert!(!is_crazyradio(0x7777, 0x1915));
    assert!(!is_crazyradio(0, 0));
}

#[test]
fn serial_is_read_in_the_first_language() {
    assert_eq!(serial_language(&[0x0409]), Ok(0x0409));
    assert_eq!(serial_language(&[0x0407, 0x0409]), Ok(0x0407));
}

#[test]
fn no_language_no_serial() {
    assert_eq!(serial_language(&[]), Err(Error::NotFound));
}

#[test]
fn open_first_takes_the_first_dongle() {
    assert_eq!(walk(Crazyradio::open_first(), &["A", "B", "C"]), Some(0));
    assert_eq!(walk(Crazyradio::open_first(), &[]), None);
}

#[test]
fn open_nth_takes_the_dongle_at_that_place() {
    assert_eq!(walk(Crazyradio::open_nth(0), &["A", "B", "C"]), Some(0));
    assert_eq!(walk(Crazyradio::open_nth(1), &["A", "B", "C"]), Some(1));
    assert_eq!(walk(Crazyradio::open_nth(2), &["A", "B", "C"]), Some(2));
    assert_eq!(walk(Crazyradio::open_nth(3), &["A", "B", "C"]), None);
    assert_eq!(walk(Crazyradio::open_nth(usize::MAX), &["A", "B", "C"]), None);
}

#[test]
fn open_nth_reads_no_serial() {
    let mut search = Crazyradio::open_nth(1);
    assert_eq!(search.probe(), Probe::Pass);
    search = search.pass();
    assert_eq!(search.probe(), Probe::Accept);
    search = search.pass();
    assert_eq!(search.probe(), Probe::Pass);
    search = search.pass();
    assert_eq!(search.probe(), Probe::Pass);
}

#[test]
fn open_by_serial_takes_the_first_dongle_with_that_serial() {
    assert_eq!(walk(Crazyradio::open_by_serial("B"), &["A", "B", "C", "B"]), Some(1));
    assert_eq!(walk(Crazyradio::open_by_serial("FD61E54B7A"), &["A", "FD61E54B7A"]), Some(1));
    assert_eq!(walk(Crazyradio::open_by_serial("D"), &["A", "B", "C"]), None);
    assert_eq!(walk(Crazyradio::open_by_serial("b"), &["A", "B", "C"]), None);
    assert_eq!(walk(Crazyradio::open_by_serial(""), &["A", "", "C"]), Some(1));
}

#[test]
fn open_by_serial_reads_every_serial() {
    let mut search = Crazyradio::open_by_serial("X");
    for _ in 0..3 {
        assert_eq!(search.probe(), Probe::ReadSerial);
        assert!(!search.accepts(&"Y".to_string()));
        assert!(search.accepts(&"X".to_string()));
        search = search.pass();
    }
}

#[test]
fn search_by_place_and_serial_wants_both() {
    let both = || DeviceSearch::new(Some(1), Some("B".to_string()));
    assert_eq!(walk(both(), &["B", "B", "B"]), Some(1));
    assert_eq!(walk(both(), &["B", "A", "B"]), None);
    let mut search = both();
    assert_eq!(search.probe(), Probe::Pass);
    assert!(!search.accepts(&"B".to_string()));
    search = search.pass();
    assert_eq!(search.probe(), Probe::ReadSerial);
    assert!(search.accepts(&"B".to_string()));
    assert!(!search.accepts(&"A".to_string()));
}

#[test]
fn search_without_a_wish_takes_the_first_dongle() {
    let search = DeviceSearch::new(None, None);
    assert_eq!(search.probe(), Probe::Accept);
    assert!(search.accepts(&"anything".to_string()));
    assert_eq!(walk(DeviceSearch::new(None, None), &["A", "B"]), Some(0));
}
