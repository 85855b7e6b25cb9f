//! Buffer settings of the fixed-function graphics backend.

use vstd::prelude::*;

use crate::gl::{DYNAMIC_DRAW, STATIC_DRAW};

verus! {

/// How often a buffer's contents change.
#[derive(Clone, Copy, PartialEq, Eq, Structural, Debug)]
pub enum BufferUsage {
    Static,
    Dynamic,
}

/// The graphics-API constant for a buffer usage.
pub open spec fn usage_code(u: BufferUsage) -> u32 {
    match u {
        BufferUsage::Static => STATIC_DRAW,
        BufferUsage::Dynamic => DYNAMIC_DRAW,
    }
}

impl vstd::std_specs::convert::FromSpecImpl<BufferUsage> for u32 {
    open spec fn obeys_from_spec() -> bool {
        true
    }

    open spec fn from_spec(u: BufferUsage) -> u32 {
        usage_code(u)
    }
}

impl From<BufferUsage> for u32 {
    fn from(u: BufferUsage) -> (r: u32) {
        match u {
            BufferUsage::Static => STATIC_DRAW,
            BufferUsage::Dynamic => DYNAMIC_DRAW,
        }
    }
}

} // verus!
