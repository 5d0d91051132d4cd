//! Fan entities for a bridge between a fleet of devices and a home-automation
//! hub: what a device can do, what a command of the hub comes to, and what
//! the hub is told of the device's state.
//!
//! The crate decides; it never talks to a broker or a device. Every function
//! takes a snapshot of a device as plain data and returns what has to be
//! published or dispatched, so that each decision carries a proved contract.

pub mod capability;
pub mod command;
pub mod device;
pub mod error;
pub mod fan;
pub mod json;
pub mod search;
pub mod speed;
pub mod text;
pub mod transport;
pub mod work_mode;
