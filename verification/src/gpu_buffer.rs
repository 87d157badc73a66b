//! A typed device buffer sized for a fixed number of records.
//!
//! Unlike an arena region, a `GpuBuffer` owns its whole buffer.  It
//! supports host-to-device writes and the one blocking operation in the
//! system: reading the buffer back to host memory, used on diagnostic
//! paths.  The bytes that come back are decoded by the verified
//! unpacker; only their number is trusted.

use crate::gpu::{
    buffer_mappable, buffer_size, buffer_slice, create_buffer, map_read_usage, queue_write_buffer,
    read_buffer_bytes, slice_offset, slice_size,
};
use crate::gpu_data::{pack_items, unpack_items, GpuData};
use vstd::prelude::*;

verus! {

/// A typed handle to one whole device buffer.
pub struct GpuBuffer<T: GpuData> {
    buffer: wgpu::Buffer,
    _marker: core::marker::PhantomData<T>,
}

impl<T: GpuData> GpuBuffer<T> {
    /// The buffer's total byte size.
    pub closed spec fn capacity(self) -> int {
        buffer_size(self.buffer) as int
    }

    /// The buffer's length in elements.
    pub open spec fn spec_len(self) -> int {
        self.capacity() / (4 * T::spec_word_count() as int)
    }

    /// Whether the buffer was created with host-readback usage.
    pub closed spec fn mappable(self) -> bool {
        buffer_mappable(self.buffer)
    }

    /// The buffer holds a whole number of elements and is addressable.
    pub open spec fn wf(self) -> bool {
        &&& self.capacity() == self.spec_len() * (4 * T::spec_word_count())
        &&& 0 <= self.capacity() <= usize::MAX
    }

    /// Builds a device buffer holding exactly `length` elements.  An
    /// element's size is a multiple of the copy alignment, so no
    /// padding is ever added.
    pub fn new(length: usize, label: &str, usage: wgpu::BufferUsages, device: &wgpu::Device) -> (r:
        Self)
        requires
            length * (4 * T::spec_word_count()) <= usize::MAX,
        ensures
            r.wf(),
            r.spec_len() == length,
            r.mappable() == map_read_usage(usage),
    {
        proof {
            proof_word_count_facts::<T>();
            assert(length * (4 * T::spec_word_count()) == (length * T::spec_word_count()) * 4)
                by (nonlinear_arith);
            vstd::arithmetic::div_mod::lemma_div_by_multiple(
                length as int,
                4 * T::spec_word_count() as int,
            );
        }
        let wc = T::word_count();
        let words: u64 = (length as u64) * (wc as u64);
        let bytes: u64 = words * 4;
        let buffer = create_buffer(device, bytes, label, usage);
        GpuBuffer { buffer, _marker: core::marker::PhantomData }
    }

    /// The underlying device buffer.
    pub fn buffer(&self) -> (r: &wgpu::Buffer)
        ensures
            buffer_size(*r) == self.capacity(),
    {
        &self.buffer
    }

    /// The buffer's length in elements.
    pub fn len(&self) -> (r: usize)
        requires
            self.wf(),
        ensures
            r == self.spec_len(),
    {
        proof {
            proof_word_count_facts::<T>();
            vstd::arithmetic::div_mod::lemma_div_by_multiple(
                self.spec_len(),
                4 * T::spec_word_count() as int,
            );
        }
        let wc = T::word_count();
        let bytes: usize = self.buffer.size() as usize;
        bytes / (4 * wc)
    }

    /// Whether the buffer holds no elements.
    pub fn is_empty(&self) -> (r: bool)
        requires
            self.wf(),
        ensures
            r == (self.spec_len() == 0),
    {
        self.len() == 0
    }

    /// A binding-ready view of the elements `range` of the buffer:
    /// exactly their byte range, nothing more.
    pub fn slice(&self, range: core::ops::Range<usize>) -> (r: wgpu::BufferSlice<'_>)
        requires
            self.wf(),
            range.start <= range.end,
            range.end <= self.spec_len(),
        ensures
            slice_offset(r) == range.start * (4 * T::spec_word_count()),
            slice_size(r) == (range.end - range.start) * (4 * T::spec_word_count()),
    {
        proof {
            proof_word_count_facts::<T>();
            assert(range.start * (4 * T::spec_word_count()) <= range.end * (4
                * T::spec_word_count()) <= self.spec_len() * (4 * T::spec_word_count()))
                by (nonlinear_arith)
                requires
                    range.start <= range.end <= self.spec_len(),
                    0 < T::spec_word_count(),
            ;
            assert(range.end * (4 * T::spec_word_count()) - range.start * (4
                * T::spec_word_count()) == (range.end - range.start) * (4 * T::spec_word_count()))
                by (nonlinear_arith);
        }
        let wc = T::word_count();
        let es: usize = 4 * wc;
        let slice_start: u64 = (range.start * es) as u64;
        let slice_end: u64 = (range.end * es) as u64;
        buffer_slice(&self.buffer, slice_start, slice_end)
    }

    /// A binding-ready view of the whole buffer.
    pub fn slice_all(&self) -> (r: wgpu::BufferSlice<'_>)
        requires
            self.wf(),
        ensures
            slice_offset(r) == 0,
            slice_size(r) == self.capacity(),
    {
        buffer_slice(&self.buffer, 0, self.buffer.size())
    }

    /// Enqueues a host-to-device copy of `src` into the front of the
    /// buffer.  The data must fit.
    pub fn write(&self, queue: &wgpu::Queue, src: &[T])
        requires
            self.wf(),
            src@.len() <= self.spec_len(),
    {
        let bytes = pack_items(src);
        proof {
            proof_word_count_facts::<T>();
            assert(src@.len() * 4 * T::spec_word_count() == (src@.len() * T::spec_word_count())
                * 4) by (nonlinear_arith);
            assert(src@.len() * (4 * T::spec_word_count()) <= self.spec_len() * (4
                * T::spec_word_count())) by (nonlinear_arith)
                requires
                    src@.len() <= self.spec_len(),
                    0 < T::spec_word_count(),
            ;
            assert(src@.len() * 4 * T::spec_word_count() == src@.len() * (4
                * T::spec_word_count())) by (nonlinear_arith);
        }
        queue_write_buffer(queue, &self.buffer, 0, bytes.as_slice());
    }

    /// Reads the whole buffer back to host memory, blocking until the
    /// device has finished with it.  The element values are whatever
    /// the device holds; only the count is guaranteed.
    pub fn read(&self, device: &wgpu::Device) -> (r: Vec<T>)
        requires
            self.wf(),
            self.mappable(),
            0 < self.spec_len(),
        ensures
            r@.len() == self.spec_len(),
    {
        proof {
            proof_word_count_facts::<T>();
            assert(self.spec_len() * (4 * T::spec_word_count()) == self.spec_len() * 4
                * T::spec_word_count()) by (nonlinear_arith);
            assert((self.spec_len() * T::spec_word_count()) * 4 == self.spec_len() * 4
                * T::spec_word_count()) by (nonlinear_arith);
            assert(0 < self.spec_len() * (4 * T::spec_word_count())) by (nonlinear_arith)
                requires
                    0 < self.spec_len(),
                    0 < T::spec_word_count(),
            ;
        }
        let count = self.len();
        let bytes = read_buffer_bytes(device, &self.buffer, self.buffer.size());
        unpack_items(bytes.as_slice(), count)
    }
}

impl<T: GpuData> Clone for GpuBuffer<T> {
    /// The clone shares the same device buffer.
    fn clone(&self) -> (r: Self)
        ensures
            r.capacity() == self.capacity(),
            r.mappable() == self.mappable(),
            self.wf() ==> r.wf(),
    {
        GpuBuffer { buffer: self.buffer.clone(), _marker: core::marker::PhantomData }
    }
}

/// The word-count facts every record type provides.
proof fn proof_word_count_facts<T: GpuData>()
    ensures
        0 < T::spec_word_count() <= 4096,
{
    T::lemma_word_count();
}

} // verus!
