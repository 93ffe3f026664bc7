//! Core logic of a resilient BLE heart-rate session manager.
//!
//! The library holds the parts that can be stated and proved: decoding the
//! heart-rate measurement payload, deriving a MAC address from a platform
//! device identifier, deduplicating discovered devices, locating a target
//! device in a list, the retry and timeout policies, and the session state
//! machine that enforces the single-active-stream invariant. The surrounding
//! Bluetooth and UI plumbing performs the I/O and feeds plain values in.

pub mod codec;
pub mod discovery;
pub mod locate;
pub mod mac;
pub mod policy;
pub mod session;
pub mod text;
