//! Supervisory core of a battery backup controller.
//!
//! The library holds the safety-relevant decision logic of the firmware:
//! the apply-and-verify protocol that confirms protection configuration
//! before power FETs may be enabled, the charge/discharge permission
//! engine, the guarded clear of the charger's system-overvoltage latch,
//! the lossy broadcast channels that distribute telemetry snapshots, and
//! the binary framing of the host-facing status protocol. Register-level
//! bus transactions and USB plumbing stay outside; they hand this library
//! plain values and carry its decisions back to the hardware.

pub mod balance;
pub mod channel;
pub mod data_types;
pub mod flags;
pub mod recovery;
pub mod safety_config;
pub mod shared;
pub mod supervisor;
pub mod usb_proto;
