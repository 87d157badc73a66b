//! Driving the bottom-up BVH build on the device.
//!
//! Each frame the builder recomputes the pass schedule for the current
//! leaf count and issues one compute dispatch per pass, handing the
//! pass descriptor to the tree-combination kernel as immediate data.
//! Passes execute in program order within one pass encoder, which the
//! sequential dependency between levels requires.  The dispatch
//! arithmetic — workgroup counts and the two-dimensional tiling that
//! respects the per-dimension dispatch limit — is verified to cover
//! every parent index.

use crate::gpu::{dispatch_workgroups, set_bind_group, set_immediates, set_pipeline};
use crate::gpu_data::pack_items;
use crate::schedule::{calculate_passes, lemma_pass_bounds, spec_passes, CombineNodePass};
use vstd::prelude::*;

verus! {

/// Kernel invocations per workgroup of the tree-combination kernel.
/// The dispatch arithmetic must match the kernel's constant exactly.
pub const WORKGROUP_SIZE: u32 = 64;

/// The per-dimension dispatch limit the tiling respects.
pub const MAX_DISPATCH_DIM: u32 = 65535;

/// How many workgroups of `WORKGROUP_SIZE` invocations cover
/// `parent_count` parents: exactly the rounded-up quotient.
pub fn workgroup_count(parent_count: u32) -> (r: u32)
    requires
        parent_count < 0x8000_0000,
    ensures
        r == (parent_count + (WORKGROUP_SIZE - 1)) / (WORKGROUP_SIZE as int),
        r * WORKGROUP_SIZE >= parent_count,
        r <= 0x200_0000,
        parent_count > 0 ==> r >= 1,
{
    let r = (parent_count + (WORKGROUP_SIZE - 1)) / WORKGROUP_SIZE;
    proof {
        vstd::arithmetic::div_mod::lemma_fundamental_div_mod(parent_count + 63, 64);
    }
    r
}

/// Splits `total` workgroups into the two-dimensional grid
/// `min(total, 65535) x ceil(total / 65535)`.  The kernel linearizes
/// workgroup ids as `x + y * 65535`, so the x dimension is pinned to
/// the limit (or to `total` itself when it fits in one row); the grid
/// stays within the per-dimension dispatch limit and covers every
/// workgroup.
pub fn dispatch_dims(total: u32) -> (r: (u32, u32))
    requires
        total <= 0x200_0000,
    ensures
        r.0 == (if total < MAX_DISPATCH_DIM { total } else { MAX_DISPATCH_DIM }),
        r.1 == (total + (MAX_DISPATCH_DIM - 1)) / (MAX_DISPATCH_DIM as int),
        r.0 <= MAX_DISPATCH_DIM,
        r.1 <= MAX_DISPATCH_DIM,
        r.0 * r.1 >= total,
        total > 0 ==> r.0 >= 1 && r.1 >= 1,
{
    let x = if total < MAX_DISPATCH_DIM {
        total
    } else {
        MAX_DISPATCH_DIM
    };
    let y = (total + (MAX_DISPATCH_DIM - 1)) / MAX_DISPATCH_DIM;
    proof {
        vstd::arithmetic::div_mod::lemma_fundamental_div_mod(total + 65534, 65535);
        if total >= MAX_DISPATCH_DIM {
            assert(x * y >= total) by (nonlinear_arith)
                requires
                    x == 65535,
                    65535 * y >= total,
            ;
        } else {
            assert(x * y >= total) by (nonlinear_arith)
                requires
                    x == total,
                    total > 0 ==> y == 1,
                    total == 0 ==> y == 0,
            ;
        }
    }
    (x, y)
}

/// Owns the tree-combination pipeline, its node/AABB bind group, and
/// the pass list of the most recent build.
pub struct BvhBuilder {
    pipeline: wgpu::ComputePipeline,
    bind_group: wgpu::BindGroup,
    object_count: usize,
    passes: Vec<CombineNodePass>,
}

impl BvhBuilder {
    /// The number of leaves the builder schedules for.
    pub closed spec fn spec_object_count(self) -> int {
        self.object_count as int
    }

    /// The passes issued by the most recent `compute`.
    pub closed spec fn spec_passes_issued(self) -> Seq<CombineNodePass> {
        self.passes@
    }

    /// The leaf count stays within the scheduler's index space.
    pub open spec fn wf(self) -> bool {
        self.spec_object_count() <= 0x8000_0000
    }

    /// A builder over `object_count` leaves, bound to the
    /// tree-combination pipeline and the bind group holding the node
    /// and AABB buffers.
    pub fn new(
        pipeline: wgpu::ComputePipeline,
        bind_group: wgpu::BindGroup,
        object_count: usize,
    ) -> (r: Self)
        requires
            object_count <= 0x8000_0000,
        ensures
            r.wf(),
            r.spec_object_count() == object_count,
            r.spec_passes_issued() == Seq::<CombineNodePass>::empty(),
    {
        let r = BvhBuilder { pipeline, bind_group, object_count, passes: Vec::new() };
        proof {
            assert(r.spec_passes_issued() =~= Seq::<CombineNodePass>::empty());
        }
        r
    }

    /// Recomputes the pass schedule for the current leaf count and
    /// issues one dispatch per pass, in order, on `compute_pass`.  Each
    /// dispatch covers the pass's parents; with no leaves to combine
    /// the schedule is empty and nothing is dispatched.
    pub fn compute(&mut self, compute_pass: &mut wgpu::ComputePass<'_>)
        requires
            old(self).wf(),
        ensures
            final(self).wf(),
            final(self).spec_object_count() == old(self).spec_object_count(),
            final(self).spec_passes_issued() == spec_passes(0, old(self).spec_object_count()),
    {
        self.passes.clear();
        calculate_passes(self.object_count, &mut self.passes);
        proof {
            assert(self.passes@ =~= spec_passes(0, self.object_count as int));
            lemma_pass_bounds(self.object_count as int);
        }
        set_pipeline(compute_pass, &self.pipeline);
        set_bind_group(compute_pass, 0, &self.bind_group);
        let n = self.passes.len();
        let mut i: usize = 0;
        while i < n
            invariant
                i <= n,
                self.wf(),
                n == self.passes@.len(),
                self.passes@ == spec_passes(0, self.spec_object_count()),
                0 <= self.spec_object_count() <= 0x8000_0000,
            decreases n - i,
        {
            proof {
                lemma_pass_bounds(self.spec_object_count());
            }
            let pass = self.passes[i];
            let descriptor = vec![pass];
            let bytes = pack_items(descriptor.as_slice());
            set_immediates(compute_pass, 0, bytes.as_slice());
            let total_workgroups = workgroup_count(pass.parent_count);
            let dims = dispatch_dims(total_workgroups);
            dispatch_workgroups(compute_pass, dims.0, dims.1, 1);
            i = i + 1;
        }
    }

    /// The last issued pass's `dst_start`: the index of the root node,
    /// one less than the total number of live nodes.  Meaningful only
    /// after `compute` has scheduled at least one pass.
    pub fn node_count(&self) -> (r: u32)
        requires
            self.spec_passes_issued().len() > 0,
        ensures
            r == self.spec_passes_issued().last().dst_start,
    {
        self.passes[self.passes.len() - 1].dst_start
    }
}

} // verus!
