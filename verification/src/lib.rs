//! GPU-resident bounding-volume-hierarchy construction pipeline.
//!
//! The library carves a device buffer into typed regions with a bump
//! allocator, schedules the bottom-up combine passes that build a binary
//! tree over `N` leaves in `ceil(log2(N))` levels, and drives one compute
//! dispatch per pass.  All offset arithmetic, pass scheduling, node
//! encoding and byte packing is verified; the calls into the GPU API are
//! isolated in small trusted wrappers.

mod bvh_builder;
mod bvh_node;
mod gpu;
mod gpu_arena;
mod gpu_buffer;
mod gpu_data;
mod objects;
mod pass_duration;
mod schedule;

pub use schedule::calculate_passes;
pub use schedule::clog2;
pub use schedule::spec_passes;
pub use schedule::CombineNodePass;
pub use schedule::pass_reads;
pub use schedule::some_pass_reads;
pub use schedule::lemma_pass_count;
pub use schedule::lemma_clog2_pow2;
pub use schedule::lemma_leaf_coverage;
pub use schedule::lemma_root_invariant;
pub use schedule::lemma_pass_bounds;
pub use schedule::lemma_passes_deterministic;
pub use bvh_builder::BvhBuilder;
pub use bvh_builder::dispatch_dims;
pub use bvh_builder::workgroup_count;
pub use bvh_builder::WORKGROUP_SIZE;
pub use bvh_builder::MAX_DISPATCH_DIM;
pub use gpu_data::pack_items;
pub use gpu_data::unpack_items;
pub use gpu_data::GpuData;
pub use bvh_node::BvhNode;
pub use bvh_node::BVH_NODE_TREE_FLAG;
pub use gpu_arena::GpuArena;
pub use gpu_arena::GpuSlice;
pub use gpu_buffer::GpuBuffer;
pub use objects::Objects;
pub use objects::ObjectItem;
pub use objects::ObjectBuffers;
pub use objects::Flags;
pub use objects::AABB;
pub use objects::Velocity;
pub use objects::Mass;
pub use objects::Color;
pub use objects::Shape;
pub use pass_duration::PassDurationMeasurer;
pub use pass_duration::PassDurationMeasurementStart;
pub use pass_duration::PassDurationMeasurementResult;
pub use pass_duration::span_ticks;
pub use gpu::slice_offset;
pub use gpu::slice_size;
pub use gpu::map_read_usage;
pub use gpu::buffer_mappable;
pub use gpu::usage_storage_copy_dst;
pub use gpu::usage_query_resolve_copy_src;
pub use gpu::usage_map_read_copy_dst;
