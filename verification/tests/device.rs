use gpu_bvh::Flags;
use gpu_bvh::GpuArena;
use gpu_bvh::GpuBuffer;
use gpu_bvh::GpuSlice;

/// A CPU-only device: wgpu's noop backend supports buffer creation and
/// mapping, which is all these tests touch.
fn device_and_queue() -> (wgpu::Device, wgpu::Queue) {
    let instance = wgpu::Instance::new(wgpu::InstanceDescriptor {
        backends: wgpu::Backends::NOOP,
        backend_options: wgpu::BackendOptions {
            noop: wgpu::NoopBackendOptions::enabled(),
            ..Default::default()
        },
        ..wgpu::InstanceDescriptor::new_without_display_handle()
    });
    let adapter = pollster::block_on(instance.request_adapter(&wgpu::RequestAdapterOptions::default()))
        .expect("noop adapter");
    pollster::block_on(adapter.request_device(&wgpu::DeviceDescriptor::default())).expect("noop device")
}

#[test]
fn arena_pads_capacity_to_copy_alignment() {
    let (device, _queue) = device_and_queue();
    let arena = GpuArena::new(10, "padded arena", wgpu::BufferUsages::STORAGE, &device);
    assert_eq!(arena.buffer().size(), 12);
    let arena = GpuArena::new(16, "aligned arena", wgpu::BufferUsages::STORAGE, &device);
    assert_eq!(arena.buffer().size(), 16);
}

#[test]
fn arena_allocates_in_order() {
    let (device, _queue) = device_and_queue();
    let mut arena = GpuArena::new(64, "arena", wgpu::BufferUsages::STORAGE, &device);
    let a: GpuSlice<u32> = arena.allocate(4);
    assert_eq!(a.len(), 4);
    assert_eq!(a.size(), 16);
    assert!(!a.is_empty());
    let b: GpuSlice<u64> = arena.allocate(6);
    assert_eq!(b.len(), 6);
    assert_eq!(b.size(), 48);
}

#[test]
fn arena_out_of_space_fails_deterministically() {
    let (device, _queue) = device_and_queue();
    // Run the same allocation sequence twice: it must fail at the same
    // call both times, exactly when the next offset would pass the
    // padded capacity.
    for _round in 0..2 {
        let mut arena = GpuArena::new(16, "small arena", wgpu::BufferUsages::STORAGE, &device);
        let first: Option<GpuSlice<u32>> = arena.try_allocate(3);
        assert!(first.is_some()); // 12 of 16 bytes used
        let too_big: Option<GpuSlice<u32>> = arena.try_allocate(2);
        assert!(too_big.is_none()); // 12 + 8 > 16
        let exact: Option<GpuSlice<u32>> = arena.try_allocate(1);
        assert!(exact.is_some()); // 12 + 4 == 16
        let full: Option<GpuSlice<u32>> = arena.try_allocate(1);
        assert!(full.is_none()); // the arena is exhausted
        let empty: Option<GpuSlice<u32>> = arena.try_allocate(0);
        assert!(empty.is_some()); // a zero-length region still fits
    }
}

#[test]
fn arena_new_slice_spans_the_whole_arena() {
    let (device, _queue) = device_and_queue();
    let (arena, slice) = GpuArena::new_slice::<u64>(5, "one region", wgpu::BufferUsages::STORAGE, &device);
    assert_eq!(arena.buffer().size(), 40);
    assert_eq!(slice.len(), 5);
    assert_eq!(slice.size(), 40);
}

#[test]
fn slice_cast_keeps_the_byte_range() {
    let (device, _queue) = device_and_queue();
    let mut arena = GpuArena::new(32, "arena", wgpu::BufferUsages::STORAGE, &device);
    let words: GpuSlice<u32> = arena.allocate(8);
    let flags: GpuSlice<Flags> = words.cast();
    assert_eq!(flags.len(), 8);
    assert_eq!(flags.size(), words.size());
}

#[test]
fn slice_views_cover_exactly_the_requested_range() {
    let (device, _queue) = device_and_queue();
    let mut arena = GpuArena::new(64, "arena", wgpu::BufferUsages::STORAGE, &device);
    let skipped: GpuSlice<u32> = arena.allocate(2);
    assert_eq!(skipped.len(), 2);
    let region: GpuSlice<u64> = arena.allocate(5);

    let whole = region.slice_all();
    assert_eq!(whole.offset(), 8);
    assert_eq!(whole.size(), 40);

    let middle = region.slice(1..4);
    assert_eq!(middle.offset(), 8 + 8);
    assert_eq!(middle.size(), 24);

    let buffer: GpuBuffer<u32> = GpuBuffer::new(6, "buffer", wgpu::BufferUsages::STORAGE, &device);
    let view = buffer.slice(2..5);
    assert_eq!(view.offset(), 8);
    assert_eq!(view.size(), 12);
    let all = buffer.slice_all();
    assert_eq!(all.offset(), 0);
    assert_eq!(all.size(), 24);
}

#[test]
fn slice_write_accepts_partial_fill() {
    let (device, queue) = device_and_queue();
    let mut arena = GpuArena::new(
        32,
        "arena",
        wgpu::BufferUsages::STORAGE | wgpu::BufferUsages::COPY_DST,
        &device,
    );
    let region: GpuSlice<u32> = arena.allocate(8);
    region.write(&queue, &[1, 2, 3, 4]);
    region.write(&queue, &[9, 8, 7, 6, 5, 4, 3, 2]);
    queue.submit([]);
}

#[test]
fn buffer_len_matches_construction() {
    let (device, _queue) = device_and_queue();
    let buffer: GpuBuffer<u64> = GpuBuffer::new(
        2,
        "timestamps",
        wgpu::BufferUsages::COPY_DST | wgpu::BufferUsages::MAP_READ,
        &device,
    );
    assert_eq!(buffer.len(), 2);
    assert!(!buffer.is_empty());
    assert_eq!(buffer.buffer().size(), 16);
    let none: GpuBuffer<u32> = GpuBuffer::new(0, "empty", wgpu::BufferUsages::STORAGE, &device);
    assert!(none.is_empty());
}

#[test]
fn buffer_read_returns_every_element() {
    let (device, _queue) = device_and_queue();
    let buffer: GpuBuffer<u32> = GpuBuffer::new(
        4,
        "readback",
        wgpu::BufferUsages::COPY_DST | wgpu::BufferUsages::MAP_READ,
        &device,
    );
    let values = buffer.read(&device);
    assert_eq!(values.len(), 4);
    // Every wgpu buffer starts zeroed.
    assert_eq!(values, vec![0, 0, 0, 0]);
}

#[test]
fn buffer_clone_shares_the_buffer() {
    let (device, _queue) = device_and_queue();
    let buffer: GpuBuffer<u32> = GpuBuffer::new(3, "shared", wgpu::BufferUsages::STORAGE, &device);
    let other = buffer.clone();
    assert_eq!(other.len(), 3);
    assert_eq!(other.buffer().size(), buffer.buffer().size());
}
