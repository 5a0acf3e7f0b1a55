//! Command protocol for a monitor whose on-screen-display settings are
//! controlled over a vendor-specific USB control channel.
//!
//! The library validates requested values against the range of each feature,
//! encodes the control transfers that the monitor accepts, steers the
//! exchange that reads the monitor's two settings pages, decodes the named
//! settings from them and compares two snapshots byte by byte. It performs no
//! transfer itself: it hands out requests, and takes in what came back.

pub mod batch;
pub mod control;
pub mod device;
pub mod differ;
pub mod error;
pub mod feature;
pub mod frame;
pub mod reader;
pub mod settings;
pub mod text;
