//! Driver for the Leo Bodnar GPS-disciplined oscillators.
//!
//! The device is reached through a [`UsbInterface`], which a USB HID backend
//! implements. [`GpsdoDevice`] asks it for the raw reports and decodes them
//! into a [`GpsdoConfig`], with the divider chain of the PLL and the
//! frequencies that follow from it, and a [`GpsdoStatus`], with the lock
//! flags. Every function here is verified: what it returns is stated in its
//! contract, over the bytes of the reports.

pub mod config;
pub mod consts;
pub mod device;
pub mod dto;
pub mod error;
pub mod interface;
pub mod layout;
pub mod status;
pub mod text;
pub mod transport;

pub use crate::config::GpsdoConfig;
pub use crate::device::GpsdoDevice;
pub use crate::error::GpsdoError;
pub use crate::status::GpsdoStatus;
pub use crate::transport::UsbInterface;
