//! Pointer-event decoding for pen digitizers and multi-touch surfaces.
//!
//! The core of the crate is a verified frame decoder: a stateful
//! translator that consumes a raw stream of kernel input events (axis
//! updates, key transitions, frame-sync markers) and emits discrete
//! pointer-lifecycle events (contact begin / move / end). Around it
//! stand a pure device-name classifier, a device selector, a bounded
//! raw passthrough, and the small pure rules of the PDF-metadata
//! subsystem. All device and file I/O lives outside this crate; the
//! functions here work on plain values and carry full contracts.

pub mod classify;
pub mod decoder;
pub mod events;
pub mod metadata;
