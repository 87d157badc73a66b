//! A bump allocator over one device buffer, and the typed regions it
//! hands out.
//!
//! The arena owns a single buffer and carves it into typed regions in
//! allocation order.  The free pointer only ever moves forward; regions
//! live as long as the arena's buffer and may alias it deliberately
//! through `cast`.  All offset arithmetic — padding, bounds, element
//! sizes — is verified; only the buffer creation, the slice handle and
//! the enqueued copy are trusted calls.

use crate::gpu::{buffer_size, buffer_slice, create_buffer, queue_write_buffer, slice_offset, slice_size};
use crate::gpu_data::{pack_items, GpuData};
use vstd::prelude::*;

verus! {

/// A bump allocator over one device buffer.  `next_free` never
/// decreases and there is no way to free an individual region: a
/// region's lifetime is the arena's lifetime.
pub struct GpuArena {
    buffer: wgpu::Buffer,
    start: u64,
}

/// A typed view of a byte range `[start, end)` of a device buffer.
/// Several regions may share one buffer; their ranges are fixed when
/// the arena hands them out.
pub struct GpuSlice<T: GpuData> {
    buffer: wgpu::Buffer,
    start: u64,
    end: u64,
    _marker: core::marker::PhantomData<T>,
}

impl GpuArena {
    /// The arena's total capacity in bytes: its buffer's padded size.
    pub closed spec fn capacity(self) -> int {
        buffer_size(self.buffer) as int
    }

    /// The next free byte offset; only `allocate` moves it, forward.
    pub closed spec fn next_free(self) -> int {
        self.start as int
    }

    /// The free pointer stays inside the buffer and on the copy
    /// alignment, and the capacity is itself aligned and addressable.
    pub open spec fn wf(self) -> bool {
        &&& 0 <= self.next_free() <= self.capacity()
        &&& self.next_free() % 4 == 0
        &&& self.capacity() % 4 == 0
        &&& self.capacity() <= usize::MAX
    }

    /// Builds an empty arena of at least `size` bytes, padding the
    /// capacity up to the device's copy alignment of four bytes.
    pub fn new(size: usize, label: &str, usage: wgpu::BufferUsages, device: &wgpu::Device) -> (r:
        GpuArena)
        requires
            0 < size,
            size + 3 <= usize::MAX,
        ensures
            r.wf(),
            r.next_free() == 0,
            size <= r.capacity() <= size + 3,
    {
        let required_size: u64 = size as u64;
        let padded_size: u64 = ((required_size + 3) / 4) * 4;
        proof {
            assert(padded_size % 4 == 0);
            assert(required_size <= padded_size <= required_size + 3);
        }
        let buffer = create_buffer(device, padded_size, label, usage);
        GpuArena { buffer, start: 0 }
    }

    /// Builds an arena sized for exactly one region of `length`
    /// elements and allocates that region.
    pub fn new_slice<T: GpuData>(
        length: usize,
        label: &str,
        usage: wgpu::BufferUsages,
        device: &wgpu::Device,
    ) -> (r: (GpuArena, GpuSlice<T>))
        requires
            0 < length * (4 * T::spec_word_count()),
            length * (4 * T::spec_word_count()) + 3 <= usize::MAX,
        ensures
            r.0.wf(),
            r.0.capacity() == length * (4 * T::spec_word_count()),
            r.0.next_free() == length * (4 * T::spec_word_count()),
            r.1.wf(),
            r.1.spec_len() == length,
            r.1.byte_start() == 0,
    {
        proof {
            proof_word_count_facts::<T>();
            assert(length * (4 * T::spec_word_count()) == (length * T::spec_word_count()) * 4)
                by (nonlinear_arith);
        }
        let wc = T::word_count();
        let bytes: usize = length * (4 * wc);
        let mut arena = GpuArena::new(bytes, label, usage, device);
        proof {
            assert(arena.capacity() == bytes);
        }
        let slice = arena.allocate(length);
        (arena, slice)
    }

    /// The arena's underlying device buffer.
    pub fn buffer(&self) -> (r: &wgpu::Buffer)
        ensures
            buffer_size(*r) == self.capacity(),
    {
        &self.buffer
    }

    /// Carves the next region of `length` elements out of the arena,
    /// advancing the free pointer.  The region must fit; use
    /// `try_allocate` to observe exhaustion instead.
    pub fn allocate<T: GpuData>(&mut self, length: usize) -> (r: GpuSlice<T>)
        requires
            old(self).wf(),
            length * (4 * T::spec_word_count()) <= usize::MAX,
            old(self).next_free() + length * (4 * T::spec_word_count()) <= old(self).capacity(),
        ensures
            final(self).wf(),
            final(self).capacity() == old(self).capacity(),
            final(self).next_free() == old(self).next_free() + length * (4
                * T::spec_word_count()),
            r.wf(),
            r.spec_len() == length,
            r.byte_start() == old(self).next_free(),
            r.byte_end() == final(self).next_free(),
            r.buffer_capacity() == old(self).capacity(),
    {
        proof {
            proof_word_count_facts::<T>();
            assert(length * (4 * T::spec_word_count()) == (length * T::spec_word_count()) * 4)
                by (nonlinear_arith);
        }
        let wc = T::word_count();
        let words: u64 = (length as u64) * (wc as u64);
        let bytes: u64 = words * 4;
        let range_start: u64 = self.start;
        let range_end: u64 = self.start + bytes;
        self.start = range_end;
        let slice = GpuSlice {
            buffer: self.buffer.clone(),
            start: range_start,
            end: range_end,
            _marker: core::marker::PhantomData,
        };
        proof {
            assert(slice.byte_end() - slice.byte_start() == length * (4 * T::spec_word_count()));
            vstd::arithmetic::div_mod::lemma_div_by_multiple(
                length as int,
                4 * T::spec_word_count() as int,
            );
        }
        slice
    }

    /// Like `allocate`, but reports exhaustion as `None` instead of
    /// requiring room: the call fails exactly when the new free pointer
    /// would pass the padded capacity, deterministically in the
    /// capacity and the allocation sequence.
    pub fn try_allocate<T: GpuData>(&mut self, length: usize) -> (r: Option<GpuSlice<T>>)
        requires
            old(self).wf(),
            length * (4 * T::spec_word_count()) <= usize::MAX,
        ensures
            final(self).wf(),
            final(self).capacity() == old(self).capacity(),
            r is Some <==> old(self).next_free() + length * (4 * T::spec_word_count()) <= old(
                self,
            ).capacity(),
            r is Some ==> {
                &&& final(self).next_free() == old(self).next_free() + length * (4
                    * T::spec_word_count())
                &&& r->Some_0.wf()
                &&& r->Some_0.spec_len() == length
                &&& r->Some_0.byte_start() == old(self).next_free()
                &&& r->Some_0.byte_end() == final(self).next_free()
                &&& r->Some_0.buffer_capacity() == old(self).capacity()
            },
            r is None ==> final(self).next_free() == old(self).next_free(),
    {
        proof {
            proof_word_count_facts::<T>();
            assert(length * (4 * T::spec_word_count()) == (length * T::spec_word_count()) * 4)
                by (nonlinear_arith);
        }
        let wc = T::word_count();
        let words: u64 = (length as u64) * (wc as u64);
        let bytes: u64 = words * 4;
        let capacity: u64 = self.buffer.size();
        if bytes <= capacity && self.start <= capacity - bytes {
            Some(self.allocate(length))
        } else {
            None
        }
    }
}

/// The word-count facts every record type provides.
proof fn proof_word_count_facts<T: GpuData>()
    ensures
        0 < T::spec_word_count() <= 4096,
{
    T::lemma_word_count();
}

impl<T: GpuData> GpuSlice<T> {
    /// First byte of the region within its buffer.
    pub closed spec fn byte_start(self) -> int {
        self.start as int
    }

    /// One past the last byte of the region.
    pub closed spec fn byte_end(self) -> int {
        self.end as int
    }

    /// The underlying buffer's total byte size.
    pub closed spec fn buffer_capacity(self) -> int {
        buffer_size(self.buffer) as int
    }

    /// The region's length in elements.
    pub open spec fn spec_len(self) -> int {
        (self.byte_end() - self.byte_start()) / (4 * T::spec_word_count() as int)
    }

    /// The byte range sits inside the buffer, starts on the copy
    /// alignment, and holds a whole number of elements.
    pub open spec fn wf(self) -> bool {
        &&& 0 <= self.byte_start() <= self.byte_end() <= self.buffer_capacity()
        &&& self.byte_start() % 4 == 0
        &&& self.byte_end() - self.byte_start() == self.spec_len() * (4 * T::spec_word_count())
        &&& self.buffer_capacity() <= usize::MAX
    }

    /// The region's underlying device buffer.
    pub fn buffer(&self) -> (r: &wgpu::Buffer)
        ensures
            buffer_size(*r) == self.buffer_capacity(),
    {
        &self.buffer
    }

    /// The region's size in bytes.
    pub fn size(&self) -> (r: usize)
        requires
            self.wf(),
        ensures
            r == self.byte_end() - self.byte_start(),
    {
        (self.end - self.start) as usize
    }

    /// The region's length in elements.
    pub fn len(&self) -> (r: usize)
        requires
            self.wf(),
        ensures
            r == self.spec_len(),
    {
        proof {
            proof_word_count_facts::<T>();
            vstd::arithmetic::div_mod::lemma_div_by_multiple(
                self.spec_len(),
                4 * T::spec_word_count() as int,
            );
        }
        let wc = T::word_count();
        self.size() / (4 * wc)
    }

    /// Whether the region holds no elements.
    pub fn is_empty(&self) -> (r: bool)
        requires
            self.wf(),
        ensures
            r == (self.spec_len() == 0),
    {
        self.len() == 0
    }

    /// A binding-ready view of the whole region: exactly its byte
    /// range within the shared buffer.
    pub fn slice_all(&self) -> (r: wgpu::BufferSlice<'_>)
        requires
            self.wf(),
        ensures
            slice_offset(r) == self.byte_start(),
            slice_size(r) == self.byte_end() - self.byte_start(),
    {
        buffer_slice(&self.buffer, self.start, self.end)
    }

    /// A binding-ready view of the elements `range` of the region:
    /// exactly their byte range within the shared buffer.
    pub fn slice(&self, range: core::ops::Range<usize>) -> (r: wgpu::BufferSlice<'_>)
        requires
            self.wf(),
            range.start <= range.end,
            range.end <= self.spec_len(),
        ensures
            slice_offset(r) == self.byte_start() + range.start * (4 * T::spec_word_count()),
            slice_size(r) == (range.end - range.start) * (4 * T::spec_word_count()),
    {
        proof {
            proof_word_count_facts::<T>();
            assert(range.start * (4 * T::spec_word_count()) <= range.end * (4
                * T::spec_word_count()) <= self.spec_len() * (4 * T::spec_word_count()))
                by (nonlinear_arith)
                requires
                    range.start <= range.end <= self.spec_len(),
                    0 < T::spec_word_count(),
            ;
            assert(range.end * (4 * T::spec_word_count()) - range.start * (4
                * T::spec_word_count()) == (range.end - range.start) * (4 * T::spec_word_count()))
                by (nonlinear_arith);
        }
        let wc = T::word_count();
        let es: usize = 4 * wc;
        let slice_start: u64 = self.start + ((range.start * es) as u64);
        let slice_end: u64 = self.start + ((range.end * es) as u64);
        buffer_slice(&self.buffer, slice_start, slice_end)
    }

    /// Enqueues a host-to-device copy of `data` into the front of the
    /// region.  The data must fit; the copy itself happens when the
    /// queue next submits.
    pub fn write(&self, queue: &wgpu::Queue, data: &[T])
        requires
            self.wf(),
            data@.len() <= self.spec_len(),
    {
        let bytes = pack_items(data);
        proof {
            proof_word_count_facts::<T>();
            assert(data@.len() * 4 * T::spec_word_count() == (data@.len() * T::spec_word_count())
                * 4) by (nonlinear_arith);
            assert(data@.len() * (4 * T::spec_word_count()) <= self.spec_len() * (4
                * T::spec_word_count())) by (nonlinear_arith)
                requires
                    data@.len() <= self.spec_len(),
                    0 < T::spec_word_count(),
            ;
            assert(data@.len() * 4 * T::spec_word_count() == data@.len() * (4
                * T::spec_word_count())) by (nonlinear_arith);
        }
        queue_write_buffer(queue, &self.buffer, self.start, bytes.as_slice());
    }

    /// Reinterprets the same byte range under another element type of
    /// the same size: a deliberately narrow, same-size-only form of
    /// type punning.
    pub fn cast<U: GpuData>(&self) -> (r: GpuSlice<U>)
        requires
            self.wf(),
            U::spec_word_count() == T::spec_word_count(),
        ensures
            r.wf(),
            r.byte_start() == self.byte_start(),
            r.byte_end() == self.byte_end(),
            r.buffer_capacity() == self.buffer_capacity(),
            r.spec_len() == self.spec_len(),
    {
        GpuSlice {
            buffer: self.buffer.clone(),
            start: self.start,
            end: self.end,
            _marker: core::marker::PhantomData,
        }
    }
}

impl<T: GpuData> Clone for GpuSlice<T> {
    /// The clone views the same byte range of the same buffer.
    fn clone(&self) -> (r: Self)
        ensures
            r.byte_start() == self.byte_start(),
            r.byte_end() == self.byte_end(),
            r.buffer_capacity() == self.buffer_capacity(),
            self.wf() ==> r.wf(),
    {
        GpuSlice {
            buffer: self.buffer.clone(),
            start: self.start,
            end: self.end,
            _marker: core::marker::PhantomData,
        }
    }
}

} // verus!
