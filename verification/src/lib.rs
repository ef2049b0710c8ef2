//! Nebula Delay: the parameter model, preset data and state bookkeeping of a
//! mono delay plugin, with their contracts proved by Verus.
//!
//! * [`dsp`] holds the engine-side enums that the host-facing parameters map to.
//! * [`parameters`] holds the host-facing enums, parameter snapshots, the A/B
//!   snapshot bank and the undo/redo history.
//! * [`preset`] holds preset records, the factory bank and preset file naming.
//! * [`text`] holds the small text helpers that the other modules share.
//!
//! Floating-point values are never computed with here: a value that the host
//! sees as an `f32` is carried as its IEEE-754 bit pattern ([`F32Bits`]).

pub mod dsp;
pub mod parameters;
pub mod preset;
pub mod text;

use vstd::prelude::*;

verus! {

/// The IEEE-754 bit pattern of an `f32` value (`f32::to_bits` / `f32::from_bits`).
///
/// The library only stores and copies such values; it never does arithmetic on them.
pub type F32Bits = u32;

} // verus!
