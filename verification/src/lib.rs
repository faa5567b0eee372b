//! Ownership and lifetime bookkeeping for Allegro surfaces and displays.
//!
//! The native library is never called from here. Each operation takes what
//! the native library reported as plain values (a handle is the address it
//! returned, `0` for null) and answers with the wrapper to hold or with the
//! native calls to make next, in order.

pub mod native;
pub mod bitmap;
pub mod display;
pub mod keycodes;
pub mod laws;
