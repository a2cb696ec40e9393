//! Launch orchestration and guest mount planning for a single emulation microVM.
//!
//! The crate decides how a microVM is sized, which process owns the instance
//! for a given control port, which filesystem images are attached, how the
//! hypervisor configuration is assembled, and in which order the guest's
//! mount namespace is composed. All I/O, FFI and process control stay with
//! the caller; this crate computes the decisions and plans.

pub mod decimal;
pub mod disks;
pub mod guestconfig;
pub mod launch;
pub mod mount;
pub mod sizing;
pub mod text;
pub mod vmconfig;
