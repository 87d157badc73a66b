//! Measuring how long a stretch of GPU work takes, with timestamp
//! queries.
//!
//! A measurement brackets the work between two timestamps, resolves
//! them into a query buffer, copies that into a host-mappable readback
//! buffer, and — on the diagnostic path only — blocks to read the two
//! counters back.  The readback decode and the span arithmetic are
//! verified; the timestamps themselves are whatever the device wrote.

use crate::gpu::{
    copy_whole_buffer, create_timestamp_query_set, resolve_query_set, usage_map_read_copy_dst,
    usage_query_resolve_copy_src, write_timestamp,
};
use crate::gpu_buffer::GpuBuffer;
use vstd::prelude::*;

verus! {

/// Owns the query set and the two buffers a measurement needs.
pub struct PassDurationMeasurer {
    device: wgpu::Device,
    query_set: wgpu::QuerySet,
    query_buffer: GpuBuffer<u64>,
    query_readback_buffer: GpuBuffer<u64>,
}

/// A measurement whose opening timestamp has been recorded.
pub struct PassDurationMeasurementStart {
    device: wgpu::Device,
    query_set: wgpu::QuerySet,
    query_buffer: GpuBuffer<u64>,
    query_readback_buffer: GpuBuffer<u64>,
}

/// A measurement whose timestamps are on their way to the readback
/// buffer.
pub struct PassDurationMeasurementResult {
    device: wgpu::Device,
    query_readback_buffer: GpuBuffer<u64>,
}

impl PassDurationMeasurer {
    /// The query set holds the two timestamp counters, as do both
    /// buffers.
    pub closed spec fn wf(self) -> bool {
        &&& crate::gpu::query_set_count(self.query_set) == 2
        &&& self.query_buffer.wf()
        &&& self.query_buffer.spec_len() == 2
        &&& self.query_readback_buffer.wf()
        &&& self.query_readback_buffer.spec_len() == 2
        &&& self.query_readback_buffer.mappable()
    }

    /// Sets up a two-entry timestamp query set with its resolve and
    /// readback buffers.  The device must have timestamp queries
    /// enabled.
    pub fn new(device: &wgpu::Device) -> (r: Self)
        ensures
            r.wf(),
    {
        PassDurationMeasurer {
            device: device.clone(),
            query_set: create_timestamp_query_set(device, "pass duration query set", 2),
            query_buffer: GpuBuffer::new(
                2,
                "pass duration query buffer",
                usage_query_resolve_copy_src(),
                device,
            ),
            query_readback_buffer: GpuBuffer::new(
                2,
                "pass duration readback buffer",
                usage_map_read_copy_dst(),
                device,
            ),
        }
    }

    /// Records the opening timestamp on `encoder`.
    pub fn start(&self, encoder: &mut wgpu::CommandEncoder) -> (r: PassDurationMeasurementStart)
        requires
            self.wf(),
        ensures
            r.wf(),
    {
        write_timestamp(encoder, &self.query_set, 0);
        PassDurationMeasurementStart {
            device: self.device.clone(),
            query_set: self.query_set.clone(),
            query_buffer: self.query_buffer.clone(),
            query_readback_buffer: self.query_readback_buffer.clone(),
        }
    }
}

impl PassDurationMeasurementStart {
    /// The query set holds the two timestamp counters, as do both
    /// buffers.
    pub closed spec fn wf(self) -> bool {
        &&& crate::gpu::query_set_count(self.query_set) == 2
        &&& self.query_buffer.wf()
        &&& self.query_buffer.spec_len() == 2
        &&& self.query_readback_buffer.wf()
        &&& self.query_readback_buffer.spec_len() == 2
        &&& self.query_readback_buffer.mappable()
    }

    /// Records the closing timestamp, resolves both counters into the
    /// query buffer and copies them to the readback buffer.
    pub fn finish(self, encoder: &mut wgpu::CommandEncoder) -> (r: PassDurationMeasurementResult)
        requires
            self.wf(),
        ensures
            r.wf(),
    {
        write_timestamp(encoder, &self.query_set, 1);
        resolve_query_set(encoder, &self.query_set, 0, 2, self.query_buffer.buffer(), 0);
        copy_whole_buffer(encoder, self.query_buffer.buffer(), self.query_readback_buffer.buffer());
        PassDurationMeasurementResult {
            device: self.device,
            query_readback_buffer: self.query_readback_buffer,
        }
    }
}

impl PassDurationMeasurementResult {
    /// The readback buffer holds exactly the two timestamp counters.
    pub closed spec fn wf(self) -> bool {
        &&& self.query_readback_buffer.wf()
        &&& self.query_readback_buffer.spec_len() == 2
        &&& self.query_readback_buffer.mappable()
    }

    /// Blocks until the copy has landed and returns the measured span
    /// of the two read counters, per `span_ticks`.
    pub fn duration(self) -> (r: u64)
        requires
            self.wf(),
    {
        let timestamps = self.query_readback_buffer.read(&self.device);
        span_ticks(timestamps[0], timestamps[1])
    }
}

/// The span between an opening and a closing timestamp counter: the
/// difference where the pair is ordered, zero where the device reported
/// the counters out of order (the out-of-order pair is a device-side
/// fault; flooring it keeps the diagnostic path total).
pub fn span_ticks(t0: u64, t1: u64) -> (r: u64)
    ensures
        r == (if t1 >= t0 { t1 - t0 } else { 0 }),
{
    if t1 >= t0 {
        t1 - t0
    } else {
        0
    }
}

} // verus!
