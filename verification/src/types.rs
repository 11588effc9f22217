//! Small shared container types.

use vstd::prelude::*;

verus! {

/// A payload paired with the index of the primitive it belongs to; the
/// scene's material and light arrays hold these so that a primitive and
/// its data can point at each other without cycles.
pub struct PrimIndex<T> {
    pub data: T,
    pub prim_index: usize,
}

} // verus!
