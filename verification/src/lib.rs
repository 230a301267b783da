//! Exit-status signalling for QEMU's `isa-debug-exit` device.
//!
//! The library holds the verified core of the protocol: a configuration
//! handle binding the device's port to a caller-chosen odd success
//! sentinel, and the pure encoder that maps an abstract outcome to the
//! pre-fold value written to the device. The device itself folds a
//! written value `v` into the process exit status `(v << 1) | 1`; the
//! contracts here prove that an odd success sentinel survives that
//! round trip exactly and that a failure folds to status `1`.
//!
//! The port-write instruction and the halt loop that follows it are
//! platform capabilities outside the library.

pub mod x86;

pub use x86::X86;
