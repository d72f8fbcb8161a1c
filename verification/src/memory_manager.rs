//! Physical-frame bookkeeping: the fixed 4 KiB frame granule and the
//! identifier that names one frame. Turning an identifier into the
//! memory behind it is the unverified shell's business.

use vstd::prelude::*;

verus! {

/// Bytes a physical frame covers.
pub const BYTES_PER_FRAME: usize = 4096;

/// One 4 KiB physical frame, by its index from address zero.
#[derive(Debug, Clone, Copy, PartialEq, Eq, Structural)]
pub struct FrameID {
    id: usize,
}

impl FrameID {
    pub fn new(id: usize) -> (r: Self)
        ensures r.spec_id() == id,
    {
        Self { id }
    }

    pub closed spec fn spec_id(&self) -> usize {
        self.id
    }

    pub fn id(&self) -> (r: usize)
        ensures r == self.spec_id(),
    {
        self.id
    }

    /// The physical byte address where this frame starts.
    pub fn base_address(&self) -> (r: usize)
        requires self.spec_id() <= usize::MAX / BYTES_PER_FRAME,
        ensures r == self.spec_id() * BYTES_PER_FRAME,
    {
        proof {
            let i = self.id as int;
            assert(i <= usize::MAX / 4096 ==> i * 4096 <= usize::MAX) by (nonlinear_arith);
        }
        self.id * BYTES_PER_FRAME
    }
}

} // verus!
