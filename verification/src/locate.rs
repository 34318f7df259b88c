//! Finding the dongle among the devices on the bus: which devices are
//! dongles, and which of them a request means.
//!
//! The caller walks the devices in the order in which the bus lists them.
//! It opens each dongle it meets, asks the search what to do with it, and
//! either keeps the dongle or passes it and goes on.

use vstd::prelude::*;
use crate::error::Error;
use crate::radio::Crazyradio;

verus! {

/// Vendor identifier of the dongle.
pub const VENDOR_ID: u16 = 0x1915;

/// Product identifier of the dongle.
pub const PRODUCT_ID: u16 = 0x7777;

/// Interface of the dongle that takes the commands and the packets.
pub const COMMAND_INTERFACE: u8 = 0;

/// Whether a device with these identifiers is a dongle.
pub open spec fn spec_is_crazyradio(vendor_id: u16, product_id: u16) -> bool {
    vendor_id == VENDOR_ID && product_id == PRODUCT_ID
}

/// Whether a device with these identifiers is a dongle.
#[verifier::when_used_as_spec(spec_is_crazyradio)]
pub fn is_crazyradio(vendor_id: u16, product_id: u16) -> (dongle: bool)
    ensures
        dongle == spec_is_crazyradio(vendor_id, product_id),
{
    vendor_id == VENDOR_ID && product_id == PRODUCT_ID
}

/// The language in which to read a dongle's serial number: the first of
/// the languages its string descriptors support. A dongle that supports
/// none has no serial number to be found.
pub fn serial_language(languages: &[u16]) -> (result: Result<u16, Error>)
    ensures
        languages@.len() > 0 ==> result == Ok::<u16, Error>(languages@[0]),
        languages@.len() == 0 ==> result == Err::<u16, Error>(Error::NotFound),
{
    if languages.len() > 0 {
        Ok(languages[0])
    } else {
        Err(Error::NotFound)
    }
}

/// What to do with a dongle that has been opened.
#[derive(Debug, Copy, Clone, PartialEq, Eq, Structural)]
pub enum Probe {
    /// It is the dongle asked for.
    Accept,
    /// It is the dongle asked for if its serial number is the one asked
    /// for: read it and ask [`DeviceSearch::accepts`].
    ReadSerial,
    /// It is not the dongle asked for.
    Pass,
}

/// A search as a mathematical value: what is asked for, and how many dongles
/// have been passed.
pub struct SearchState {
    /// Place of the dongle asked for among the dongles on the bus, counted
    /// from zero, if a place is asked for.
    pub nth: Option<nat>,
    /// Serial number of the dongle asked for, if one is asked for.
    pub serial: Option<Seq<char>>,
    /// Number of dongles passed so far.
    pub passed: nat,
}

impl SearchState {
    /// A search that has passed no dongle yet.
    pub open spec fn new(nth: Option<nat>, serial: Option<Seq<char>>) -> SearchState {
        SearchState { nth, serial, passed: 0 }
    }

    /// Whether the dongle at hand is at the place asked for.
    pub open spec fn at_place(self) -> bool {
        self.nth is None || self.nth == Some(self.passed)
    }

    /// What to do with the dongle at hand: its serial number is read only
    /// if it is at the place asked for and a serial number is asked for.
    pub open spec fn probe(self) -> Probe {
        if !self.at_place() {
            Probe::Pass
        } else if self.serial is Some {
            Probe::ReadSerial
        } else {
            Probe::Accept
        }
    }

    /// Whether the dongle at hand, with the serial number `serial`, is the
    /// one asked for.
    pub open spec fn accepts(self, serial: Seq<char>) -> bool {
        self.at_place() && (self.serial is None || self.serial == Some(serial))
    }

    /// The search after the dongle at hand has been passed.
    pub open spec fn pass(self) -> SearchState {
        SearchState { passed: self.passed + 1, ..self }
    }
}

/// How far the search is from the place asked for.
enum Place {
    /// No place is asked for.
    Any,
    /// So many dongles are to be passed before the one asked for.
    Ahead(usize),
    /// The place asked for has been passed.
    Behind,
}

/// A search for one dongle.
pub struct DeviceSearch {
    place: Place,
    serial: Option<String>,
    nth: Ghost<Option<nat>>,
    passed: Ghost<nat>,
}

impl View for DeviceSearch {
    type V = SearchState;

    closed spec fn view(&self) -> SearchState {
        SearchState {
            nth: self.nth@,
            serial: match self.serial {
                Some(serial) => Some(serial@),
                None => None,
            },
            passed: self.passed@,
        }
    }
}

impl DeviceSearch {
    #[verifier::type_invariant]
    spec fn wf(self) -> bool {
        match self.place {
            Place::Any => self.nth@ is None,
            Place::Ahead(ahead) => self.nth@ == Some(self.passed@ + ahead as nat),
            Place::Behind => self.nth@ is Some && self.nth@->Some_0 < self.passed@,
        }
    }

    /// A search for the dongle at place `nth`, if a place is given, with the
    /// serial number `serial`, if one is given.
    pub fn new(nth: Option<usize>, serial: Option<String>) -> (search: DeviceSearch)
        ensures
            search@ == SearchState::new(
                match nth {
                    Some(nth) => Some(nth as nat),
                    None => None,
                },
                match serial {
                    Some(serial) => Some(serial@),
                    None => None,
                },
            ),
    {
        match nth {
            Some(ahead) => DeviceSearch {
                place: Place::Ahead(ahead),
                serial,
                nth: Ghost(Some(ahead as nat)),
                passed: Ghost(0),
            },
            None => DeviceSearch {
                place: Place::Any,
                serial,
                nth: Ghost(None),
                passed: Ghost(0),
            },
        }
    }

    /// Whether the dongle at hand is at the place asked for.
    fn at_place(&self) -> (at_place: bool)
        ensures
            at_place == self@.at_place(),
    {
        proof {
            use_type_invariant(self);
        }
        match self.place {
            Place::Any => true,
            Place::Ahead(ahead) => ahead == 0,
            Place::Behind => false,
        }
    }

    /// What to do with the dongle that has just been opened.
    pub fn probe(&self) -> (probe: Probe)
        ensures
            probe == self@.probe(),
    {
        if !self.at_place() {
            Probe::Pass
        } else if self.serial.is_some() {
            Probe::ReadSerial
        } else {
            Probe::Accept
        }
    }

    /// Whether the dongle that has just been opened, with the serial number
    /// `serial`, is the one asked for.
    pub fn accepts(&self, serial: &String) -> (accepted: bool)
        ensures
            accepted == self@.accepts(serial@),
    {
        if !self.at_place() {
            return false;
        }
        match &self.serial {
            Some(wanted) => *wanted == *serial,
            None => true,
        }
    }

    /// Passes the dongle at hand: the next one the caller opens is one place
    /// further.
    pub fn pass(self) -> (search: DeviceSearch)
        ensures
            search@ == self@.pass(),
    {
        proof {
            use_type_invariant(&self);
        }
        let DeviceSearch { place, serial, nth, passed } = self;
        let place = match place {
            Place::Any => Place::Any,
            Place::Ahead(ahead) => if ahead == 0 {
                Place::Behind
            } else {
                Place::Ahead(ahead - 1)
            },
            Place::Behind => Place::Behind,
        };
        DeviceSearch { place, serial, nth, passed: Ghost(passed@ + 1) }
    }
}

impl Crazyradio {
    /// The search for the first dongle on the bus.
    pub fn open_first() -> (search: DeviceSearch)
        ensures
            search@ == SearchState::new(Some(0), None),
    {
        Crazyradio::open_nth(0)
    }

    /// The search for the dongle at place `nth` among the dongles on the
    /// bus, counted from zero in the order in which the bus lists them.
    pub fn open_nth(nth: usize) -> (search: DeviceSearch)
        ensures
            search@ == SearchState::new(Some(nth as nat), None),
    {
        DeviceSearch::new(Some(nth), None)
    }

    /// The search for the dongle with the serial number `serial`.
    pub fn open_by_serial(serial: &str) -> (search: DeviceSearch)
        ensures
            search@ == SearchState::new(None, Some(serial@)),
    {
        DeviceSearch::new(None, Some(serial.to_owned()))
    }
}

} // verus!
