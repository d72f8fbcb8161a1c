//! Parameter blocks for the descriptor-table load instructions.
//!
//! The processor's `lgdt`/`lidt` instructions take a 10-byte operand:
//! a 16-bit limit (table byte size less one) followed by the table's
//! linear base address. The instructions themselves are issued by the
//! unverified shell; this module only carries the values.

use vstd::prelude::*;

verus! {

/// Operand of `lidt`.
#[derive(Debug, Clone, Copy, PartialEq, Eq, Structural)]
pub struct IdtParam {
    pub limit: u16,
    pub base: usize,
}

/// Operand of `lgdt`.
#[derive(Debug, Clone, Copy, PartialEq, Eq, Structural)]
pub struct GdtParam {
    pub limit: u16,
    pub base: usize,
}

} // verus!
