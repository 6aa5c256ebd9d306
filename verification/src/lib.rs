//! Command encoding and device selection for the PD3000 two-row character
//! display, independent of any USB stack.

pub mod display;
pub mod grid;
pub mod select;
pub mod transfer;

pub use display::PD3000;
pub use select::{OpenError, UsbId};
pub use transfer::Transfer;
