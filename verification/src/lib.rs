//! A safe, ownership-checked facade over a microcontroller's backup domain:
//! a bank of five battery-backed 32-bit registers that become accessible only
//! after the domain has been unlocked by one of two peripherals (the
//! clock-control unit, or the real-time clock as a side effect of its
//! initialization).
//!
//! The hardware block is modeled as explicit simulated state, so that the
//! register multiplexing, the unlock handshake, and the domain-reset hazard
//! can all be stated and proved as contracts.

pub mod domain;
pub mod tamp;

pub use domain::{BackupDomain, DomainState, Rcc, Rtc};
pub use tamp::{BackupRegister, RegisterState, Tamp};
