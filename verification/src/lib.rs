//! Protocol core of a driver for the Crazyradio USB dongle.

pub mod ack;
pub mod command;
pub mod error;
pub mod locate;
pub mod params;
pub mod radio;
pub mod scan;

pub use crate::ack::Ack;
pub use crate::command::{ControlTransfer, UsbCommand};
pub use crate::error::{Error, UsbError};
pub use crate::locate::{DeviceSearch, Probe};
pub use crate::params::{Channel, Datarate, Power};
pub use crate::radio::Crazyradio;
pub use crate::scan::ChannelScan;
