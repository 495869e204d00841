//! Verified byte-buffer abstraction for a TPM public area.
//!
//! A [`buffer::PublicBuffer`] owns the packed encoding of one public-area
//! payload, bounded by a fixed hardware-defined layout size. It converts,
//! fallibly, between raw bytes, a fixed-layout container value, and a
//! structured public-area value, and offers size-prefixed wire marshalling.
//! The backing storage is wiped when a buffer is dropped.

pub mod codec;
pub mod error;
pub mod mu;
pub mod public;
pub mod buffer;
mod secure;
