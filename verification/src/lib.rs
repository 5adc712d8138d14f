//! A safe access layer over the memory blocks of the Cubism animation runtime.
//!
//! The runtime is a native library that works on memory that its caller
//! provides: it revives a compiled *moc* in place, initializes *models* of a
//! moc in place, and updates a model from its parameter values. It demands
//! that each block is aligned, it owns the layout of what lies there, and it
//! reports everything else through queries.
//!
//! This library is the part of that arrangement that can be reasoned about:
//!
//! - [`mem`] allocates the aligned blocks and owns them;
//! - [`mdl::moc`] holds a moc: its arena, its ids and its parameter bounds;
//! - [`mdl::model`] holds a model: its arena, the moc that it shares with
//!   other models, its own parameter values and part opacities, and its
//!   drawables as the last update left them;
//! - [`mdl::loading`] is the conversation with the runtime by which a model
//!   comes to be: the library says what to ask, and decides what follows
//!   from each answer;
//! - [`flags`] reads the two flag bytes of a drawable.
//!
//! The library never calls the runtime. Its caller does, and hands over what
//! the runtime said. Numbers that the runtime keeps as single-precision
//! floats pass through the library as their bits (`to_bits`, `from_bits`):
//! the library stores and copies them and never computes with them.
use vstd::prelude::*;

pub mod error;
pub mod flags;
pub mod mdl;
pub mod mem;
pub mod sys;
pub mod text;

pub use error::CubismError;
pub use flags::{ConstantFlags, DynamicFlags};
pub use mdl::moc::Moc;
pub use mdl::model::Model;

verus! {

/// Splits a packed runtime version into `(version, major, minor, patch)`.
pub fn version(raw: u32) -> (r: (u32, u32, u32, u32))
    ensures
        r.0 == raw,
        r.1 == raw / 0x100_0000,
        r.2 == (raw / 0x1_0000) % 0x100,
        r.3 == raw % 0x1_0000,
{
    let major: u32 = (raw & 0xFF00_0000) >> 24;
    let minor: u32 = (raw & 0x00FF_0000) >> 16;
    let patch: u32 = raw & 0xFFFF;
    assert((raw & 0xFF00_0000) >> 24 == raw / 0x100_0000) by (bit_vector);
    assert((raw & 0x00FF_0000) >> 16 == (raw / 0x1_0000) % 0x100) by (bit_vector);
    assert(raw & 0xFFFF == raw % 0x1_0000) by (bit_vector);
    (raw, major, minor, patch)
}

} // verus!
