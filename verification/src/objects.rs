//! The host-side store of simulated bodies, and the per-attribute
//! records as the GPU kernels see them.
//!
//! The simulation state is split into parallel attribute arrays (one
//! device buffer per attribute).  Coordinates, velocities, masses and
//! colors are 32-bit floating-point values on the device; the host
//! carries them as their IEEE-754 bit patterns, which is exactly what
//! crosses the boundary — the library never does float arithmetic.

use crate::gpu_buffer::GpuBuffer;
use crate::gpu_data::GpuData;
use vstd::prelude::*;

verus! {

/// Per-body behaviour flags, a single packed word.
#[derive(Clone, Copy, Debug, PartialEq, Eq, Structural)]
pub struct Flags {
    pub bits: u32,
}

impl Flags {
    pub fn new(bits: u32) -> (r: Self)
        ensures
            r.bits == bits,
    {
        Flags { bits }
    }
}

/// An axis-aligned bounding box: the bit patterns of `min` and `max`,
/// two device floats each.  For tree nodes the box is the union of the
/// children's boxes, recomputed by the GPU kernel every pass.
#[derive(Clone, Copy, Debug, PartialEq, Eq, Structural)]
pub struct AABB {
    pub min_x_bits: u32,
    pub min_y_bits: u32,
    pub max_x_bits: u32,
    pub max_y_bits: u32,
}

impl AABB {
    pub fn new(min_bits: [u32; 2], max_bits: [u32; 2]) -> (r: Self)
        ensures
            r.min_x_bits == min_bits[0],
            r.min_y_bits == min_bits[1],
            r.max_x_bits == max_bits[0],
            r.max_y_bits == max_bits[1],
    {
        AABB {
            min_x_bits: min_bits[0],
            min_y_bits: min_bits[1],
            max_x_bits: max_bits[0],
            max_y_bits: max_bits[1],
        }
    }
}

/// A body's velocity: the bit patterns of two device floats.
#[derive(Clone, Copy, Debug, PartialEq, Eq, Structural)]
pub struct Velocity {
    pub x_bits: u32,
    pub y_bits: u32,
}

impl Velocity {
    pub fn new(bits: [u32; 2]) -> (r: Self)
        ensures
            r.x_bits == bits[0],
            r.y_bits == bits[1],
    {
        Velocity { x_bits: bits[0], y_bits: bits[1] }
    }
}

/// A body's mass: the bit pattern of one device float.
#[derive(Clone, Copy, Debug, PartialEq, Eq, Structural)]
pub struct Mass {
    pub bits: u32,
}

impl Mass {
    pub fn new(bits: u32) -> (r: Self)
        ensures
            r.bits == bits,
    {
        Mass { bits }
    }
}

/// A body's color: the bit patterns of four device floats (RGBA).
#[derive(Clone, Copy, Debug, PartialEq, Eq, Structural)]
pub struct Color {
    pub r_bits: u32,
    pub g_bits: u32,
    pub b_bits: u32,
    pub a_bits: u32,
}

impl Color {
    pub fn new(bits: [u32; 4]) -> (r: Self)
        ensures
            r.r_bits == bits[0],
            r.g_bits == bits[1],
            r.b_bits == bits[2],
            r.a_bits == bits[3],
    {
        Color { r_bits: bits[0], g_bits: bits[1], b_bits: bits[2], a_bits: bits[3] }
    }
}

/// Which shape a body is drawn as, a single word understood by the
/// shaders.
#[derive(Clone, Copy, Debug, PartialEq, Eq, Structural)]
pub struct Shape {
    pub id: u32,
}

impl Shape {
    pub fn new(id: u32) -> (r: Self)
        ensures
            r.id == id,
    {
        Shape { id }
    }
}

impl GpuData for Flags {
    open spec fn spec_words(self) -> Seq<u32> {
        seq![self.bits]
    }

    open spec fn spec_word_count() -> nat {
        1
    }

    proof fn lemma_word_count() {
    }

    proof fn lemma_words(self) {
    }

    fn word_count() -> (r: usize) {
        1
    }

    fn append_words(&self, out: &mut Vec<u32>) {
        out.push(self.bits);
        proof {
            assert(out@ =~= old(out)@ + self.spec_words());
        }
    }

    fn from_words(data: &[u32], i: usize) -> (r: Self) {
        let r = Flags { bits: data[i] };
        proof {
            assert(r.spec_words() =~= data@.subrange(i as int, i as int + 1));
        }
        r
    }
}

impl GpuData for AABB {
    open spec fn spec_words(self) -> Seq<u32> {
        seq![self.min_x_bits, self.min_y_bits, self.max_x_bits, self.max_y_bits]
    }

    open spec fn spec_word_count() -> nat {
        4
    }

    proof fn lemma_word_count() {
    }

    proof fn lemma_words(self) {
    }

    fn word_count() -> (r: usize) {
        4
    }

    fn append_words(&self, out: &mut Vec<u32>) {
        out.push(self.min_x_bits);
        out.push(self.min_y_bits);
        out.push(self.max_x_bits);
        out.push(self.max_y_bits);
        proof {
            assert(out@ =~= old(out)@ + self.spec_words());
        }
    }

    fn from_words(data: &[u32], i: usize) -> (r: Self) {
        let r = AABB {
            min_x_bits: data[4 * i],
            min_y_bits: data[4 * i + 1],
            max_x_bits: data[4 * i + 2],
            max_y_bits: data[4 * i + 3],
        };
        proof {
            assert(r.spec_words() =~= data@.subrange(4 * i, 4 * i + 4));
        }
        r
    }
}

impl GpuData for Velocity {
    open spec fn spec_words(self) -> Seq<u32> {
        seq![self.x_bits, self.y_bits]
    }

    open spec fn spec_word_count() -> nat {
        2
    }

    proof fn lemma_word_count() {
    }

    proof fn lemma_words(self) {
    }

    fn word_count() -> (r: usize) {
        2
    }

    fn append_words(&self, out: &mut Vec<u32>) {
        out.push(self.x_bits);
        out.push(self.y_bits);
        proof {
            assert(out@ =~= old(out)@ + self.spec_words());
        }
    }

    fn from_words(data: &[u32], i: usize) -> (r: Self) {
        let r = Velocity { x_bits: data[2 * i], y_bits: data[2 * i + 1] };
        proof {
            assert(r.spec_words() =~= data@.subrange(2 * i, 2 * i + 2));
        }
        r
    }
}

impl GpuData for Mass {
    open spec fn spec_words(self) -> Seq<u32> {
        seq![self.bits]
    }

    open spec fn spec_word_count() -> nat {
        1
    }

    proof fn lemma_word_count() {
    }

    proof fn lemma_words(self) {
    }

    fn word_count() -> (r: usize) {
        1
    }

    fn append_words(&self, out: &mut Vec<u32>) {
        out.push(self.bits);
        proof {
            assert(out@ =~= old(out)@ + self.spec_words());
        }
    }

    fn from_words(data: &[u32], i: usize) -> (r: Self) {
        let r = Mass { bits: data[i] };
        proof {
            assert(r.spec_words() =~= data@.subrange(i as int, i as int + 1));
        }
        r
    }
}

impl GpuData for Color {
    open spec fn spec_words(self) -> Seq<u32> {
        seq![self.r_bits, self.g_bits, self.b_bits, self.a_bits]
    }

    open spec fn spec_word_count() -> nat {
        4
    }

    proof fn lemma_word_count() {
    }

    proof fn lemma_words(self) {
    }

    fn word_count() -> (r: usize) {
        4
    }

    fn append_words(&self, out: &mut Vec<u32>) {
        out.push(self.r_bits);
        out.push(self.g_bits);
        out.push(self.b_bits);
        out.push(self.a_bits);
        proof {
            assert(out@ =~= old(out)@ + self.spec_words());
        }
    }

    fn from_words(data: &[u32], i: usize) -> (r: Self) {
        let r = Color {
            r_bits: data[4 * i],
            g_bits: data[4 * i + 1],
            b_bits: data[4 * i + 2],
            a_bits: data[4 * i + 3],
        };
        proof {
            assert(r.spec_words() =~= data@.subrange(4 * i, 4 * i + 4));
        }
        r
    }
}

impl GpuData for Shape {
    open spec fn spec_words(self) -> Seq<u32> {
        seq![self.id]
    }

    open spec fn spec_word_count() -> nat {
        1
    }

    proof fn lemma_word_count() {
    }

    proof fn lemma_words(self) {
    }

    fn word_count() -> (r: usize) {
        1
    }

    fn append_words(&self, out: &mut Vec<u32>) {
        out.push(self.id);
        proof {
            assert(out@ =~= old(out)@ + self.spec_words());
        }
    }

    fn from_words(data: &[u32], i: usize) -> (r: Self) {
        let r = Shape { id: data[i] };
        proof {
            assert(r.spec_words() =~= data@.subrange(i as int, i as int + 1));
        }
        r
    }
}

/// Everything one body contributes to the attribute arrays.
#[derive(Clone, Copy, Debug, PartialEq, Eq, Structural)]
pub struct ObjectItem {
    pub flags: Flags,
    pub aabb: AABB,
    pub velocity: Velocity,
    pub mass: Mass,
    pub color: Color,
    pub shape: Shape,
}

/// The host-side store of all bodies, as parallel attribute arrays.
/// All six arrays always have the same length: one entry per body.
pub struct Objects {
    pub flags: Vec<Flags>,
    pub aabbs: Vec<AABB>,
    pub velocities: Vec<Velocity>,
    pub masses: Vec<Mass>,
    pub colors: Vec<Color>,
    pub shapes: Vec<Shape>,
}

impl Objects {
    /// All attribute arrays hold one entry per body.
    pub open spec fn wf(self) -> bool {
        &&& self.flags@.len() == self.aabbs@.len()
        &&& self.flags@.len() == self.velocities@.len()
        &&& self.flags@.len() == self.masses@.len()
        &&& self.flags@.len() == self.colors@.len()
        &&& self.flags@.len() == self.shapes@.len()
    }

    /// The number of bodies.
    pub open spec fn spec_len(self) -> int {
        self.flags@.len() as int
    }

    /// An empty store.
    pub fn new() -> (r: Self)
        ensures
            r.wf(),
            r.spec_len() == 0,
    {
        Objects {
            flags: Vec::new(),
            aabbs: Vec::new(),
            velocities: Vec::new(),
            masses: Vec::new(),
            colors: Vec::new(),
            shapes: Vec::new(),
        }
    }

    /// Appends one body, keeping the attribute arrays in step.
    pub fn push(&mut self, item: ObjectItem)
        requires
            old(self).wf(),
            old(self).spec_len() < usize::MAX,
        ensures
            final(self).wf(),
            final(self).spec_len() == old(self).spec_len() + 1,
            final(self).flags@ == old(self).flags@.push(item.flags),
            final(self).aabbs@ == old(self).aabbs@.push(item.aabb),
            final(self).velocities@ == old(self).velocities@.push(item.velocity),
            final(self).masses@ == old(self).masses@.push(item.mass),
            final(self).colors@ == old(self).colors@.push(item.color),
            final(self).shapes@ == old(self).shapes@.push(item.shape),
    {
        self.flags.push(item.flags);
        self.aabbs.push(item.aabb);
        self.velocities.push(item.velocity);
        self.masses.push(item.mass);
        self.colors.push(item.color);
        self.shapes.push(item.shape);
    }

    /// Appends every body of `items`, in order.
    pub fn extend(&mut self, items: &[ObjectItem])
        requires
            old(self).wf(),
            old(self).spec_len() + items@.len() <= usize::MAX,
        ensures
            final(self).wf(),
            final(self).spec_len() == old(self).spec_len() + items@.len(),
            final(self).flags@ == old(self).flags@ + items@.map_values(
                |it: ObjectItem| it.flags,
            ),
            final(self).aabbs@ == old(self).aabbs@ + items@.map_values(|it: ObjectItem| it.aabb),
            final(self).velocities@ == old(self).velocities@ + items@.map_values(
                |it: ObjectItem| it.velocity,
            ),
            final(self).masses@ == old(self).masses@ + items@.map_values(|it: ObjectItem| it.mass),
            final(self).colors@ == old(self).colors@ + items@.map_values(
                |it: ObjectItem| it.color,
            ),
            final(self).shapes@ == old(self).shapes@ + items@.map_values(
                |it: ObjectItem| it.shape,
            ),
    {
        self.reserve(items.len());
        let n = items.len();
        let mut i: usize = 0;
        while i < n
            invariant
                i <= n,
                n == items@.len(),
                old(self).spec_len() + n <= usize::MAX,
                self.wf(),
                self.spec_len() == old(self).spec_len() + i,
                self.flags@ == old(self).flags@ + items@.take(i as int).map_values(
                    |it: ObjectItem| it.flags,
                ),
                self.aabbs@ == old(self).aabbs@ + items@.take(i as int).map_values(
                    |it: ObjectItem| it.aabb,
                ),
                self.velocities@ == old(self).velocities@ + items@.take(i as int).map_values(
                    |it: ObjectItem| it.velocity,
                ),
                self.masses@ == old(self).masses@ + items@.take(i as int).map_values(
                    |it: ObjectItem| it.mass,
                ),
                self.colors@ == old(self).colors@ + items@.take(i as int).map_values(
                    |it: ObjectItem| it.color,
                ),
                self.shapes@ == old(self).shapes@ + items@.take(i as int).map_values(
                    |it: ObjectItem| it.shape,
                ),
            decreases n - i,
        {
            self.push(items[i]);
            proof {
                let t0 = items@.take(i as int);
                let t1 = items@.take(i + 1);
                let it = items@[i as int];
                assert(t1.map_values(|it: ObjectItem| it.flags) =~= t0.map_values(
                    |it: ObjectItem| it.flags,
                ).push(it.flags));
                assert(t1.map_values(|it: ObjectItem| it.aabb) =~= t0.map_values(
                    |it: ObjectItem| it.aabb,
                ).push(it.aabb));
                assert(t1.map_values(|it: ObjectItem| it.velocity) =~= t0.map_values(
                    |it: ObjectItem| it.velocity,
                ).push(it.velocity));
                assert(t1.map_values(|it: ObjectItem| it.mass) =~= t0.map_values(
                    |it: ObjectItem| it.mass,
                ).push(it.mass));
                assert(t1.map_values(|it: ObjectItem| it.color) =~= t0.map_values(
                    |it: ObjectItem| it.color,
                ).push(it.color));
                assert(t1.map_values(|it: ObjectItem| it.shape) =~= t0.map_values(
                    |it: ObjectItem| it.shape,
                ).push(it.shape));
                assert(self.flags@ =~= old(self).flags@ + t1.map_values(
                    |it: ObjectItem| it.flags,
                ));
                assert(self.aabbs@ =~= old(self).aabbs@ + t1.map_values(|it: ObjectItem| it.aabb));
                assert(self.velocities@ =~= old(self).velocities@ + t1.map_values(
                    |it: ObjectItem| it.velocity,
                ));
                assert(self.masses@ =~= old(self).masses@ + t1.map_values(
                    |it: ObjectItem| it.mass,
                ));
                assert(self.colors@ =~= old(self).colors@ + t1.map_values(
                    |it: ObjectItem| it.color,
                ));
                assert(self.shapes@ =~= old(self).shapes@ + t1.map_values(
                    |it: ObjectItem| it.shape,
                ));
            }
            i = i + 1;
        }
        proof {
            assert(items@.take(n as int) =~= items@);
        }
    }

    /// Reserves room for `additional` more bodies in every array.
    pub fn reserve(&mut self, additional: usize)
        requires
            old(self).wf(),
            old(self).spec_len() + additional <= usize::MAX,
        ensures
            final(self).wf(),
            final(self).flags@ == old(self).flags@,
            final(self).aabbs@ == old(self).aabbs@,
            final(self).velocities@ == old(self).velocities@,
            final(self).masses@ == old(self).masses@,
            final(self).colors@ == old(self).colors@,
            final(self).shapes@ == old(self).shapes@,
    {
        self.flags.reserve(additional);
        self.aabbs.reserve(additional);
        self.velocities.reserve(additional);
        self.masses.reserve(additional);
        self.colors.reserve(additional);
        self.shapes.reserve(additional);
    }

    /// The number of bodies.
    pub fn len(&self) -> (r: usize)
        requires
            self.wf(),
        ensures
            r == self.spec_len(),
    {
        self.flags.len()
    }

    /// Whether the store holds no bodies.
    pub fn is_empty(&self) -> (r: bool)
        requires
            self.wf(),
        ensures
            r == (self.spec_len() == 0),
    {
        self.len() == 0
    }

    /// Uploads every attribute array into its own device buffer, each
    /// sized for exactly the stored bodies.
    pub fn to_buffers(self, device: &wgpu::Device, queue: &wgpu::Queue) -> (r: ObjectBuffers)
        requires
            self.wf(),
            self.spec_len() * 16 <= usize::MAX,
        ensures
            r.wf(),
            r.spec_len() == self.spec_len(),
    {
        let usage = crate::gpu::usage_storage_copy_dst();
        let n = self.len();
        proof {
            assert(n * (4 * 1) <= n * 16 && n * (4 * 2) <= n * 16 && n * (4 * 4) <= n * 16)
                by (nonlinear_arith)
                requires
                    0 <= n,
            ;
        }
        let flags = GpuBuffer::<Flags>::new(n, "flags buffer", usage, device);
        let aabbs = GpuBuffer::<AABB>::new(n, "aabb buffer", usage, device);
        let velocities = GpuBuffer::<Velocity>::new(n, "velocity buffer", usage, device);
        let masses = GpuBuffer::<Mass>::new(n, "mass buffer", usage, device);
        let colors = GpuBuffer::<Color>::new(n, "color buffer", usage, device);
        let shapes = GpuBuffer::<Shape>::new(n, "shape buffer", usage, device);
        flags.write(queue, self.flags.as_slice());
        aabbs.write(queue, self.aabbs.as_slice());
        velocities.write(queue, self.velocities.as_slice());
        masses.write(queue, self.masses.as_slice());
        colors.write(queue, self.colors.as_slice());
        shapes.write(queue, self.shapes.as_slice());
        ObjectBuffers { flags, aabbs, velocities, masses, colors, shapes }
    }
}

impl Default for Objects {
    /// An empty store.
    fn default() -> (r: Self)
        ensures
            r.wf(),
            r.spec_len() == 0,
    {
        Objects::new()
    }
}

/// The per-attribute device buffers for all bodies.
pub struct ObjectBuffers {
    pub flags: GpuBuffer<Flags>,
    pub aabbs: GpuBuffer<AABB>,
    pub velocities: GpuBuffer<Velocity>,
    pub masses: GpuBuffer<Mass>,
    pub colors: GpuBuffer<Color>,
    pub shapes: GpuBuffer<Shape>,
}

impl ObjectBuffers {
    /// Every buffer holds one entry per body.
    pub open spec fn wf(self) -> bool {
        &&& self.flags.wf()
        &&& self.aabbs.wf()
        &&& self.velocities.wf()
        &&& self.masses.wf()
        &&& self.colors.wf()
        &&& self.shapes.wf()
        &&& self.flags.spec_len() == self.aabbs.spec_len()
        &&& self.flags.spec_len() == self.velocities.spec_len()
        &&& self.flags.spec_len() == self.masses.spec_len()
        &&& self.flags.spec_len() == self.colors.spec_len()
        &&& self.flags.spec_len() == self.shapes.spec_len()
    }

    /// The number of bodies the buffers are sized for.
    pub open spec fn spec_len(self) -> int {
        self.flags.spec_len()
    }
}

} // verus!
