//! Bindings of buffers to shader slots.

use vstd::prelude::*;
use crate::buffer::BufferBinding;

verus! {

/// The shape of a bind group: one slot, slot 0, and the least number of
/// bytes that a buffer bound to it must hold.
#[derive(Clone, Copy, Debug, PartialEq, Eq, Structural)]
pub struct BindGroupLayout {
    /// Handle under which the backend keeps the layout.
    pub id: usize,
    /// Bytes that slot 0 expects.
    pub binding_size: u64,
}

/// A buffer bound to slot 0 of a layout.
#[derive(Clone, Copy, Debug, PartialEq, Eq, Structural)]
pub struct BindGroup {
    /// Handle under which the backend keeps the group.
    pub id: usize,
    /// Handle of the layout the group was made for.
    pub layout: usize,
    /// What slot 0 is bound to.
    pub binding: BufferBinding,
}

} // verus!
