//! The faults that the engine hands to its caller.

use vstd::prelude::*;

verus! {

/// Why the engine stopped, or why an image was not loaded.
///
/// A fault is fatal for the emulated program: the engine does not guess
/// what an unknown instruction would have done, and does not load part of
/// an image.
#[derive(Debug, Clone, Copy, PartialEq, Eq, Structural)]
pub enum Fault {
    /// The opcode has no handler. `prefixed` tells the table: `true` for
    /// the table behind the prefix byte, `false` for the primary one.
    UnimplementedOpcode { opcode: u8, prefixed: bool },
    /// An image of `len` bytes does not fit between `base` and the end of
    /// the address space.
    ImageOutOfRange { base: u16, len: usize },
}

} // verus!
