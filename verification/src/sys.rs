//! The runtime's side of the boundary: the two structures it lays out in
//! caller-provided memory, the alignment it demands of each, and the bits of
//! its per-drawable flag bytes.
#![allow(non_camel_case_types)]
#![allow(non_upper_case_globals)]

use crate::mem::Aligned;
use vstd::prelude::*;

verus! {

/// Alignment, in bytes, of the block that holds a revived moc.
pub const csmAlignofMoc: usize = 64;

/// Alignment, in bytes, of the block that holds an initialized model.
pub const csmAlignofModel: usize = 16;

/// A revived moc. Its layout is the runtime's; a value of this type is never
/// built, the type only marks the blocks that host one.
#[derive(Debug)]
pub struct csmMoc {
    _unused: [u64; 0],
}

/// An initialized model. Its layout is the runtime's; a value of this type is
/// never built, the type only marks the blocks that host one.
#[derive(Debug)]
pub struct csmModel {
    _unused: [u16; 0],
}

impl Aligned for csmMoc {
    open spec fn spec_alignment() -> usize {
        csmAlignofMoc
    }

    fn alignment() -> (a: usize) {
        csmAlignofMoc
    }
}

impl Aligned for csmModel {
    open spec fn spec_alignment() -> usize {
        csmAlignofModel
    }

    fn alignment() -> (a: usize) {
        csmAlignofModel
    }
}

/// A byte of drawable flags.
pub type csmFlags = u8;

/// The drawable is blended additively.
pub const csmBlendAdditive: csmFlags = 0x01;

/// The drawable is blended multiplicatively.
pub const csmBlendMultiplicative: csmFlags = 0x02;

/// The drawable is double sided.
pub const csmIsDoubleSided: csmFlags = 0x04;

/// The drawable is visible.
pub const csmIsVisible: csmFlags = 0x01;

/// The drawable's visibility changed in the last update.
pub const csmVisibilityDidChange: csmFlags = 0x02;

/// The drawable's opacity changed in the last update.
pub const csmOpacityDidChange: csmFlags = 0x04;

/// The drawable's draw order changed in the last update.
pub const csmDrawOrderDidChange: csmFlags = 0x08;

/// The drawable's render order changed in the last update.
pub const csmRenderOrderDidChange: csmFlags = 0x10;

/// The drawable's vertex positions changed in the last update.
pub const csmVertexPositionsDidChange: csmFlags = 0x20;

} // verus!
