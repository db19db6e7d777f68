use vstd::prelude::*;

verus! {

/// Slot of the parameter record (uniform, read by the kernel).
pub const PARAMS_SLOT: u32 = 0;

/// Slot of the current cell buffer (storage, read only).
pub const CURRENT_SLOT: u32 = 1;

/// Slot of the next cell buffer (storage, written by the kernel).
pub const NEXT_SLOT: u32 = 2;

/// Slot of the shared image (storage image, read and written).
pub const IMAGE_SLOT: u32 = 3;

/// Which of the two cell buffers is bound to the current slot and which to
/// the next slot. The parameter record and the shared image are bound to
/// their slots in every set.
#[derive(Debug, Clone, Copy, PartialEq, Eq, Structural)]
pub struct BindingSet {
    pub current: usize,
    pub next: usize,
}

/// The set used when the generation has parity `p`: buffer `p` is read and
/// buffer `(p + 1) % 2` is written.
pub open spec fn binding_for(p: int) -> BindingSet {
    BindingSet { current: p as usize, next: ((p + 1) % 2) as usize }
}

/// The two binding sets, one per parity, built once.
#[derive(Debug, Clone, Copy, PartialEq, Eq, Structural)]
pub struct BindingTable {
    even: BindingSet,
    odd: BindingSet,
}

impl BindingTable {
    /// Entry `p` of the table is `binding_for(p)`.
    pub closed spec fn wf(self) -> bool {
        self.even == binding_for(0) && self.odd == binding_for(1)
    }

    /// Builds the table: for each parity `p`, buffer `p` as current and the
    /// other buffer as next.
    pub fn build() -> (r: BindingTable)
        ensures
            r.wf(),
    {
        BindingTable {
            even: BindingSet { current: 0, next: 1 },
            odd: BindingSet { current: 1, next: 0 },
        }
    }

    /// The set for parity `parity`; its two buffers differ.
    pub fn entry(&self, parity: usize) -> (r: BindingSet)
        requires
            self.wf(),
            parity < 2,
        ensures
            r == binding_for(parity as int),
            r.current != r.next,
            r.current < 2 && r.next < 2,
    {
        if parity == 0 {
            self.even
        } else {
            self.odd
        }
    }
}

/// For both parities the buffer bound for reading is not the buffer bound
/// for writing, both are one of the two cell buffers, and the buffer written
/// under one parity is the one read under the other.
pub proof fn lemma_bindings_never_alias(p: int)
    requires
        p == 0 || p == 1,
    ensures
        binding_for(p).current != binding_for(p).next,
        binding_for(p).current < 2 && binding_for(p).next < 2,
        binding_for(p).next == binding_for(1 - p).current,
{
}

} // verus!
