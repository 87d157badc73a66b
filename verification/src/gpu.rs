//! The trusted boundary to the GPU API.
//!
//! Everything the library asks of the device goes through the small
//! wrappers in this module.  Each wrapper makes exactly one logical
//! call into `wgpu`; its contract states only what that call's source
//! and documentation promise.  The single quantity the contracts track
//! is a buffer's byte size, which `wgpu` fixes at creation time and
//! reports unchanged ever after.
//!
//! Device-side effects (what a copy or a dispatch does to device
//! memory) are deliberately left unmodelled: the verified code treats
//! readback bytes as arbitrary values of the right length.

use vstd::prelude::*;

verus! {

#[verifier::external_type_specification]
#[verifier::external_body]
pub struct ExDevice(wgpu::Device);

#[verifier::external_type_specification]
#[verifier::external_body]
pub struct ExQueue(wgpu::Queue);

#[verifier::external_type_specification]
#[verifier::external_body]
pub struct ExBuffer(wgpu::Buffer);

#[verifier::external_type_specification]
#[verifier::external_body]
pub struct ExBufferUsages(wgpu::BufferUsages);

#[verifier::external_type_specification]
#[verifier::external_body]
pub struct ExBufferSlice<'a>(wgpu::BufferSlice<'a>);

#[verifier::external_type_specification]
#[verifier::external_body]
pub struct ExComputePass<'encoder>(wgpu::ComputePass<'encoder>);

#[verifier::external_type_specification]
#[verifier::external_body]
pub struct ExComputePipeline(wgpu::ComputePipeline);

#[verifier::external_type_specification]
#[verifier::external_body]
pub struct ExBindGroup(wgpu::BindGroup);

#[verifier::external_type_specification]
#[verifier::external_body]
pub struct ExCommandEncoder(wgpu::CommandEncoder);

#[verifier::external_type_specification]
#[verifier::external_body]
pub struct ExQuerySet(wgpu::QuerySet);

/// The byte size a buffer was created with.  `wgpu::Buffer` stores the
/// descriptor's size and `Buffer::size` returns it unchanged, so the
/// size is a function of the buffer value alone.
pub uninterp spec fn buffer_size(b: wgpu::Buffer) -> u64;

/// Whether a usage set includes host readback (`MAP_READ`).
pub uninterp spec fn map_read_usage(u: wgpu::BufferUsages) -> bool;

/// Whether a buffer was created with host readback (`MAP_READ`) in its
/// usage set.  `wgpu::Buffer` stores the descriptor's usage unchanged,
/// so this is a function of the buffer value alone; mapping a buffer
/// without it is a fatal usage error.
pub uninterp spec fn buffer_mappable(b: wgpu::Buffer) -> bool;

/// Relies on `wgpu::Device::create_buffer`: the returned buffer's
/// `size()` is exactly the descriptor's `size`.  The device validates
/// the usage flags and its own size limits asynchronously; a violation
/// surfaces as a device error, not as a wrong-sized buffer.
#[verifier::external_body]
pub(crate) fn create_buffer(
    device: &wgpu::Device,
    size: u64,
    label: &str,
    usage: wgpu::BufferUsages,
) -> (r: wgpu::Buffer)
    requires
        size % 4 == 0,
    ensures
        buffer_size(r) == size,
        buffer_mappable(r) == map_read_usage(usage),
{
    device.create_buffer(
        &wgpu::BufferDescriptor { label: Some(label), size, usage, mapped_at_creation: false },
    )
}

/// Relies on `wgpu::Buffer::size`: always equal to the size specified
/// when creating the buffer.
pub assume_specification[ wgpu::Buffer::size ](b: &wgpu::Buffer) -> (r: u64)
    ensures
        r == buffer_size(*b),
;

/// Relies on `wgpu::Buffer::clone`: the clone shares the same
/// underlying buffer, in particular its size and usage.
pub assume_specification[ <wgpu::Buffer as Clone>::clone ](b: &wgpu::Buffer) -> (r: wgpu::Buffer)
    ensures
        buffer_size(r) == buffer_size(*b),
        buffer_mappable(r) == buffer_mappable(*b),
;

/// Relies on `wgpu::Device::clone`: device handles are reference
/// counted and shareable.
pub assume_specification[ <wgpu::Device as Clone>::clone ](d: &wgpu::Device) -> wgpu::Device;

/// The number of queries a query set was created with.  `wgpu` stores
/// the descriptor's `count` in the handle, so it is a function of the
/// query-set value alone.
pub uninterp spec fn query_set_count(q: wgpu::QuerySet) -> u32;

/// Relies on `wgpu::QuerySet::clone`: query-set handles are reference
/// counted and shareable; the clone is the same set.
pub assume_specification[ <wgpu::QuerySet as Clone>::clone ](q: &wgpu::QuerySet) -> (r:
    wgpu::QuerySet)
    ensures
        query_set_count(r) == query_set_count(*q),
;

/// Relies on `wgpu::BufferUsages`' bitwise or: a storage buffer that
/// host writes can fill.
#[verifier::external_body]
pub fn usage_storage_copy_dst() -> wgpu::BufferUsages {
    wgpu::BufferUsages::STORAGE | wgpu::BufferUsages::COPY_DST
}

/// Relies on `wgpu::BufferUsages`' bitwise or: a query-resolve target
/// that device copies can read.
#[verifier::external_body]
pub fn usage_query_resolve_copy_src() -> wgpu::BufferUsages {
    wgpu::BufferUsages::QUERY_RESOLVE | wgpu::BufferUsages::COPY_SRC
}

/// Relies on `wgpu::BufferUsages`' bitwise or: a host-mappable readback
/// target.
#[verifier::external_body]
pub fn usage_map_read_copy_dst() -> (r: wgpu::BufferUsages)
    ensures
        map_read_usage(r),
{
    wgpu::BufferUsages::MAP_READ | wgpu::BufferUsages::COPY_DST
}

/// The byte offset a buffer slice was taken at.  `wgpu::BufferSlice`
/// stores the resolved offset of the range it was built from, so it is
/// a function of the slice value alone.
pub uninterp spec fn slice_offset(s: wgpu::BufferSlice<'_>) -> u64;

/// The byte length of a buffer slice, stored alongside its offset.
pub uninterp spec fn slice_size(s: wgpu::BufferSlice<'_>) -> u64;

/// Relies on `wgpu::Buffer::slice`: an in-bounds byte range yields a
/// binding-ready view of exactly that range, without panicking.
#[verifier::external_body]
pub(crate) fn buffer_slice<'a>(b: &'a wgpu::Buffer, start: u64, end: u64) -> (r: wgpu::BufferSlice<
    'a,
>)
    requires
        start <= end,
        end <= buffer_size(*b),
    ensures
        slice_offset(r) == start,
        slice_size(r) == end - start,
{
    b.slice(start..end)
}

/// Relies on `wgpu::Queue::write_buffer`: copies `data` into the
/// buffer at `offset` on the next submission.  The queue validates that
/// offset and length are multiples of the copy alignment (4) and that
/// the write is in bounds, which the preconditions guarantee.
#[verifier::external_body]
pub(crate) fn queue_write_buffer(
    queue: &wgpu::Queue,
    buffer: &wgpu::Buffer,
    offset: u64,
    data: &[u8],
)
    requires
        offset % 4 == 0,
        data@.len() % 4 == 0,
        offset + data@.len() <= buffer_size(*buffer),
{
    queue.write_buffer(buffer, offset, data)
}

/// Relies on `wgpu::Buffer::map_async`, `wgpu::Device::poll` with a
/// blocking wait, and `wgpu::Buffer::get_mapped_range`: after the poll
/// returns, the map callback has run and the first `len` mapped bytes
/// can be copied out.  What those bytes hold is not modelled — only
/// their number.  The buffer must not be in use by an unfinished
/// submission's recording; a lost device surfaces as a panic, matching
/// the fatal error policy for device loss.
#[verifier::external_body]
pub(crate) fn read_buffer_bytes(device: &wgpu::Device, buffer: &wgpu::Buffer, len: u64) -> (r: Vec<
    u8,
>)
    requires
        buffer_mappable(*buffer),
        0 < len,
        len % 4 == 0,
        len <= buffer_size(*buffer),
    ensures
        r@.len() == len,
{
    buffer.map_async(wgpu::MapMode::Read, 0..len, |result| result.unwrap());
    device.poll(wgpu::PollType::wait_indefinitely()).unwrap();
    let view = buffer.get_mapped_range(0..len).unwrap();
    let data = view.to_vec();
    drop(view);
    buffer.unmap();
    data
}

/// Relies on `wgpu::ComputePass::set_pipeline`.
#[verifier::external_body]
pub(crate) fn set_pipeline(pass: &mut wgpu::ComputePass<'_>, pipeline: &wgpu::ComputePipeline) {
    pass.set_pipeline(pipeline)
}

/// Relies on `wgpu::ComputePass::set_bind_group` with no dynamic
/// offsets.
#[verifier::external_body]
pub(crate) fn set_bind_group(
    pass: &mut wgpu::ComputePass<'_>,
    index: u32,
    bind_group: &wgpu::BindGroup,
) {
    pass.set_bind_group(index, bind_group, &[])
}

/// Relies on `wgpu::ComputePass::set_immediates` (immediate data, the
/// push constants of older API revisions): writes `data` at `offset`
/// within immediate-data storage.  Offset and length must be multiples
/// of the immediate-data alignment (4); the pipeline layout must
/// reserve at least `offset + data.len()` bytes of immediate data.
#[verifier::external_body]
pub(crate) fn set_immediates(pass: &mut wgpu::ComputePass<'_>, offset: u32, data: &[u8])
    requires
        offset % 4 == 0,
        data@.len() % 4 == 0,
{
    pass.set_immediates(offset, data)
}

/// Relies on `wgpu::ComputePass::dispatch_workgroups`: each dimension
/// must stay within the device's per-dimension dispatch limit, which
/// defaults to 65535.
#[verifier::external_body]
pub(crate) fn dispatch_workgroups(pass: &mut wgpu::ComputePass<'_>, x: u32, y: u32, z: u32)
    requires
        x <= 65535,
        y <= 65535,
        z <= 65535,
{
    pass.dispatch_workgroups(x, y, z)
}

/// Relies on `wgpu::Device::create_query_set` with the timestamp query
/// type; the device must have the timestamp-query feature enabled.
#[verifier::external_body]
pub(crate) fn create_timestamp_query_set(device: &wgpu::Device, label: &str, count: u32) -> (r:
    wgpu::QuerySet)
    requires
        count <= 4096,
    ensures
        query_set_count(r) == count,
{
    device.create_query_set(
        &wgpu::QuerySetDescriptor {
            label: Some(label),
            ty: wgpu::QueryType::Timestamp,
            count,
        },
    )
}

/// Relies on `wgpu::CommandEncoder::write_timestamp`; the device must
/// have the timestamp-query features enabled (including timestamps
/// inside encoders).
#[verifier::external_body]
pub(crate) fn write_timestamp(
    encoder: &mut wgpu::CommandEncoder,
    query_set: &wgpu::QuerySet,
    index: u32,
)
    requires
        index < query_set_count(*query_set),
{
    encoder.write_timestamp(query_set, index)
}

/// Relies on `wgpu::CommandEncoder::resolve_query_set`: writes 8 bytes
/// per query in `first..first + count` into `destination` at
/// `destination_offset`, which must be 256-byte aligned.
#[verifier::external_body]
pub(crate) fn resolve_query_set(
    encoder: &mut wgpu::CommandEncoder,
    query_set: &wgpu::QuerySet,
    first: u32,
    count: u32,
    destination: &wgpu::Buffer,
    destination_offset: u64,
)
    requires
        first + count <= query_set_count(*query_set),
        destination_offset % 256 == 0,
        destination_offset + 8 * count <= buffer_size(*destination),
{
    encoder.resolve_query_set(query_set, first..first + count, destination, destination_offset)
}

/// Relies on `wgpu::CommandEncoder::copy_buffer_to_buffer` with the
/// whole-buffer copy size: offsets are multiples of the copy alignment
/// (4) and the copy fits both buffers.  The two buffers must be
/// distinct; handle identity is not modelled, so that is asked of the
/// caller here rather than in the precondition.
#[verifier::external_body]
pub(crate) fn copy_whole_buffer(
    encoder: &mut wgpu::CommandEncoder,
    source: &wgpu::Buffer,
    destination: &wgpu::Buffer,
)
    requires
        buffer_size(*source) % 4 == 0,
        buffer_size(*source) <= buffer_size(*destination),
{
    encoder.copy_buffer_to_buffer(source, 0, destination, 0, None)
}

} // verus!
