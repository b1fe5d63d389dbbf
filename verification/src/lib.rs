//! A two-tier reference-counted pointer.
//!
//! Handles of one thread share a plain counter; only the first and the last
//! handle of a thread, and the packages that travel between threads, touch the
//! atomic counter that the value's storage carries.

pub mod counter;
pub mod payload;
pub mod pointer;
pub mod protocol;

pub use crate::payload::MlspInner;
pub use crate::pointer::Mlsp;
pub use crate::pointer::MlspPackage;
