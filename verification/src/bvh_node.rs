//! Bit-packed BVH nodes.
//!
//! A node is one 32-bit word, matching the GPU-side layout: the
//! reserved high bit tags an internal (tree) node, the remaining 31
//! bits hold a body index for a leaf or the index of the first child
//! for an internal node (the second child is implicitly adjacent).
//! These helpers are the single source of truth for the flag's bit
//! position.

use crate::gpu_data::GpuData;
use vstd::prelude::*;

verus! {

/// The reserved high bit of a node's index word: set on an internal
/// node, never set in a valid leaf index.
pub const BVH_NODE_TREE_FLAG: u32 = 0x8000_0000;

/// One BVH node: either a leaf referencing a body, or an internal node
/// referencing its first child.
#[derive(Clone, Copy, Debug, PartialEq, Eq, Structural)]
pub struct BvhNode {
    pub index: u32,
}

impl BvhNode {
    /// Whether the packed word tags an internal node.
    pub open spec fn spec_is_tree(self) -> bool {
        self.index >= 0x8000_0000
    }

    /// The untagged 31-bit payload: a body index for a leaf, a
    /// first-child index for an internal node.
    pub open spec fn spec_payload(self) -> int {
        if self.index >= 0x8000_0000 {
            self.index - 0x8000_0000
        } else {
            self.index as int
        }
    }

    /// A leaf node referencing body `index`.
    pub fn new_leaf(index: u32) -> (r: Self)
        requires
            index < 0x8000_0000,
        ensures
            !r.spec_is_tree(),
            r.spec_payload() == index,
            r.index == index,
    {
        Self { index }
    }

    /// An internal node whose first child sits at `left`.
    pub fn new_tree(left: u32) -> (r: Self)
        requires
            left < 0x8000_0000,
        ensures
            r.spec_is_tree(),
            r.spec_payload() == left,
            r.index == left + 0x8000_0000,
    {
        let packed: u32 = left | BVH_NODE_TREE_FLAG;
        proof {
            assert(packed == left + 0x8000_0000 && packed >= 0x8000_0000) by (bit_vector)
                requires
                    packed == (left | 0x8000_0000u32),
                    left < 0x8000_0000u32,
            ;
        }
        Self { index: packed }
    }

    /// Decodes the tag bit.
    pub fn is_tree(&self) -> (r: bool)
        ensures
            r == self.spec_is_tree(),
    {
        let r = self.index & BVH_NODE_TREE_FLAG != 0;
        proof {
            let x = self.index;
            assert((x & 0x8000_0000u32 != 0) == (x >= 0x8000_0000u32)) by (bit_vector);
        }
        r
    }

    /// Decodes the payload.
    pub fn payload(&self) -> (r: u32)
        ensures
            r == self.spec_payload(),
    {
        let r = self.index & 0x7FFF_FFFF;
        proof {
            let x = self.index;
            assert(x < 0x8000_0000u32 ==> (x & 0x7FFF_FFFFu32) == x) by (bit_vector);
            assert(x >= 0x8000_0000u32 ==> x == (x & 0x7FFF_FFFFu32) + 0x8000_0000u32)
                by (bit_vector);
        }
        r
    }
}

impl GpuData for BvhNode {
    open spec fn spec_words(self) -> Seq<u32> {
        seq![self.index]
    }

    open spec fn spec_word_count() -> nat {
        1
    }

    proof fn lemma_word_count() {
    }

    proof fn lemma_words(self) {
    }

    fn word_count() -> (r: usize) {
        1
    }

    fn append_words(&self, out: &mut Vec<u32>) {
        out.push(self.index);
        proof {
            assert(out@ =~= old(out)@ + self.spec_words());
        }
    }

    fn from_words(data: &[u32], i: usize) -> (r: Self) {
        let r = BvhNode { index: data[i] };
        proof {
            assert(r.spec_words() =~= data@.subrange(i as int, i as int + 1));
        }
        r
    }
}

} // verus!
