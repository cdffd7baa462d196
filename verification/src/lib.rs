//! Management core of a Bluetooth Low Energy central.
//!
//! The crate holds the decisions of a BLE central: how textual UUIDs are
//! resolved, how the characteristics of a connected peripheral are indexed,
//! how a device handle moves through its connection lifecycle and how a
//! session is opened and scanned. The radio itself is reached through a
//! bridge that lives outside this crate: every operation that needs the radio
//! hands out the action to perform and takes the outcome back as a plain
//! value.

pub mod error;
pub mod resolver;
pub mod bridge;
pub mod directory;
pub mod device;
pub mod session;
