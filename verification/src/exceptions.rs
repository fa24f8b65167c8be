//! The reserved slots of the Cortex-M exception vector table.
use vstd::prelude::*;

verus! {

/// A reserved spot in the vector table. This type only names the slot; it
/// carries no layout, so the table itself (where the slot must be the word
/// zero) is laid out by a `#[repr(u32)]` copy on the firmware side.
#[derive(Clone, Copy, Debug, PartialEq, Eq, Structural)]
pub enum Reserved {
    /// Reserved
    Vector,
}

} // verus!
