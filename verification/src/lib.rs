//! Host/script bridging layer for an embedded browser control.
//!
//! The crate models the state that the bridge keeps on the host side —
//! tagged values crossing the automation boundary, the binding handshake
//! that makes a host object visible to script, and the per-handle session
//! records behind the foreign ABI — and proves the contracts that the
//! boundary relies on: single release of owned payloads, exactly-once
//! completion of the handshake, and the open/closed state machine that
//! keeps every ABI call a safe no-op outside the open state.

pub mod cell;
pub mod geometry;
pub mod handshake;
pub mod host_object;
pub mod session;
pub mod startup;
pub mod utf16;
pub mod util;
