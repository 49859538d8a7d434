//! Core of an ephemeral "cloud clipboard": clients submit arbitrary bytes and
//! receive a short identifier; anyone holding the identifier can read the
//! bytes back until they are overwritten.
//!
//! The library covers the parts with real invariants: identifier allocation
//! (collision avoidance against the content store), the content store itself
//! (a write-once-then-read-many mapping from identifier to bytes), locale
//! resolution with deterministic fallback, the per-locale text bundle, and
//! composition of the shareable URLs. Transport, markup rendering and file
//! system persistence sit outside the library.

use vstd::prelude::*;

pub mod api;
pub mod bytes;
pub mod compose;
pub mod ident;
pub mod locale;
pub mod store;
pub mod text;

verus! {

/// Identifier length used by the deployed routes: three symbols drawn from a
/// 62-symbol alphabet.
pub const ID_LENGTH: usize = 3;

/// How many fresh identifiers the allocator draws before giving up with
/// `PasteError::CapacityExhausted`.
pub const ALLOC_ATTEMPTS: usize = 64;

/// Everything that the core can report instead of a result. Storage-level
/// failures of a durable backing (permissions, disk full) belong to the
/// caller that owns that backing and are not represented here.
#[derive(Clone, Copy, Debug, PartialEq, Eq, Structural)]
pub enum PasteError {
    /// No entry exists under the requested identifier.
    NotFound,
    /// An externally supplied identifier is not of the configured length and
    /// alphabet; it is rejected before any storage is addressed.
    InvalidIdentifier,
    /// The allocator drew the configured number of candidate identifiers and
    /// found every one of them occupied.
    CapacityExhausted,
}

} // verus!
