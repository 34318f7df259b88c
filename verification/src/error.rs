//! What can go wrong: bad arguments, a missing or outdated dongle, and
//! failures of the USB transport.

use vstd::prelude::*;
use vstd::std_specs::convert::FromSpecImpl;

verus! {

/// A failure reported by the USB transport for one transfer or one
/// enumeration step. The driver never looks inside: it hands the failure to
/// its caller unchanged.
#[derive(Debug, Clone, Copy, PartialEq, Eq, Structural)]
pub enum UsbError {
    /// Input/output error.
    Io,
    /// Invalid parameter.
    InvalidParam,
    /// Access denied (insufficient permissions).
    Access,
    /// No such device (it may have been disconnected).
    NoDevice,
    /// Entity not found.
    NotFound,
    /// Resource busy.
    Busy,
    /// Operation timed out.
    Timeout,
    /// Overflow.
    Overflow,
    /// Pipe error (the endpoint stalled).
    Pipe,
    /// System call interrupted.
    Interrupted,
    /// Insufficient memory.
    NoMem,
    /// Operation not supported on this platform.
    NotSupported,
    /// The device returned a malformed descriptor.
    BadDescriptor,
    /// Any other failure.
    Other,
}

/// Errors of the driver.
#[derive(Debug, Clone, Copy, PartialEq, Eq, Structural)]
pub enum Error {
    /// The USB transport failed.
    UsbError(UsbError),
    /// No dongle matches the request.
    NotFound,
    /// An argument is outside the range the radio accepts.
    InvalidArgument,
    /// The dongle's firmware is older than the oldest supported one.
    DongleVersionNotSupported,
}

impl From<UsbError> for Error {
    fn from(usb_error: UsbError) -> (error: Error) {
        Error::UsbError(usb_error)
    }
}

impl FromSpecImpl<UsbError> for Error {
    open spec fn obeys_from_spec() -> bool {
        true
    }

    open spec fn from_spec(usb_error: UsbError) -> Error {
        Error::UsbError(usb_error)
    }
}

} // verus!
