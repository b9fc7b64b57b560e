//! User-process address-space mapping subsystem.
//!
//! Translates raw, unchecked `(start, length, permission-bits)` region
//! arguments supplied by untrusted user code into validated, page-aligned
//! virtual-address-space operations, and exposes them through syscall-style
//! entry points that flatten every failure to the signed return-code
//! convention (`0` success, `-1` failure).

pub mod addr;
pub mod laws;
pub mod permission;
pub mod space;
pub mod syscalls;
