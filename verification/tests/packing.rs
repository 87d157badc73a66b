use gpu_bvh::pack_items;
use gpu_bvh::unpack_items;
use gpu_bvh::BvhNode;
use gpu_bvh::Color;
use gpu_bvh::CombineNodePass;
use gpu_bvh::Flags;
use gpu_bvh::Mass;
use gpu_bvh::ObjectItem;
use gpu_bvh::Objects;
use gpu_bvh::Shape;
use gpu_bvh::Velocity;
use gpu_bvh::AABB;

#[test]
fn pass_descriptor_packs_to_twelve_little_endian_bytes() {
    let pass = CombineNodePass {
        src_start: 1,
        dst_start: 0x0201,
        parent_count: 0xAABBCCDD,
    };
    let bytes = pack_items(&[pass]);
    assert_eq!(
        bytes,
        vec![1, 0, 0, 0, 0x01, 0x02, 0, 0, 0xDD, 0xCC, 0xBB, 0xAA]
    );
}

#[test]
fn words_round_trip_through_bytes() {
    let words: Vec<u32> = vec![0, 1, 0xFFFF_FFFF, 0x8000_0000, 0x1234_5678];
    let bytes = pack_items(words.as_slice());
    assert_eq!(bytes.len(), 20);
    let back: Vec<u32> = unpack_items(bytes.as_slice(), words.len());
    assert_eq!(back, words);
}

#[test]
fn wide_words_round_trip_through_bytes() {
    let values: Vec<u64> = vec![0, 1, u64::MAX, 0x0102_0304_0506_0708];
    let bytes = pack_items(values.as_slice());
    assert_eq!(bytes.len(), 32);
    assert_eq!(&bytes[24..32], &[0x08, 0x07, 0x06, 0x05, 0x04, 0x03, 0x02, 0x01]);
    let back: Vec<u64> = unpack_items(bytes.as_slice(), values.len());
    assert_eq!(back, values);
}

#[test]
fn nodes_round_trip_through_bytes() {
    let nodes = vec![BvhNode::new_leaf(7), BvhNode::new_tree(3)];
    let bytes = pack_items(nodes.as_slice());
    assert_eq!(bytes, vec![7, 0, 0, 0, 3, 0, 0, 0x80]);
    let back: Vec<BvhNode> = unpack_items(bytes.as_slice(), nodes.len());
    assert_eq!(back, nodes);
}

#[test]
fn aabb_packs_min_before_max() {
    let body = AABB::new([1, 2], [3, 4]);
    let bytes = pack_items(&[body]);
    assert_eq!(
        bytes,
        vec![1, 0, 0, 0, 2, 0, 0, 0, 3, 0, 0, 0, 4, 0, 0, 0]
    );
    let back: Vec<AABB> = unpack_items(bytes.as_slice(), 1);
    assert_eq!(back, vec![body]);
}

fn body(seed: u32) -> ObjectItem {
    ObjectItem {
        flags: Flags::new(seed),
        aabb: AABB::new([seed, seed + 1], [seed + 2, seed + 3]),
        velocity: Velocity::new([seed + 4, seed + 5]),
        mass: Mass::new(seed + 6),
        color: Color::new([seed + 7, seed + 8, seed + 9, seed + 10]),
        shape: Shape::new(seed + 11),
    }
}

#[test]
fn objects_arrays_stay_in_step() {
    let mut objects = Objects::new();
    assert!(objects.is_empty());
    objects.push(body(0));
    objects.push(body(100));
    assert_eq!(objects.len(), 2);
    assert!(!objects.is_empty());
    assert_eq!(objects.flags[1].bits, 100);
    assert_eq!(objects.aabbs[1].min_y_bits, 101);
    assert_eq!(objects.shapes[0].id, 11);

    objects.extend(&[body(200), body(300), body(400)]);
    assert_eq!(objects.len(), 5);
    assert_eq!(objects.flags.len(), 5);
    assert_eq!(objects.aabbs.len(), 5);
    assert_eq!(objects.velocities.len(), 5);
    assert_eq!(objects.masses.len(), 5);
    assert_eq!(objects.colors.len(), 5);
    assert_eq!(objects.shapes.len(), 5);
    assert_eq!(objects.masses[3].bits, 306);

    objects.reserve(16);
    assert_eq!(objects.len(), 5);
}

#[test]
fn objects_upload_one_buffer_per_attribute() {
    let instance = wgpu::Instance::new(wgpu::InstanceDescriptor {
        backends: wgpu::Backends::NOOP,
        backend_options: wgpu::BackendOptions {
            noop: wgpu::NoopBackendOptions::enabled(),
            ..Default::default()
        },
        ..wgpu::InstanceDescriptor::new_without_display_handle()
    });
    let adapter = pollster::block_on(instance.request_adapter(&wgpu::RequestAdapterOptions::default()))
        .expect("noop adapter");
    let (device, queue) =
        pollster::block_on(adapter.request_device(&wgpu::DeviceDescriptor::default())).expect("noop device");

    let mut objects = Objects::new();
    objects.push(body(1));
    objects.push(body(2));
    objects.push(body(3));
    let buffers = objects.to_buffers(&device, &queue);
    queue.submit([]);
    assert_eq!(buffers.flags.len(), 3);
    assert_eq!(buffers.aabbs.len(), 3);
    assert_eq!(buffers.velocities.len(), 3);
    assert_eq!(buffers.masses.len(), 3);
    assert_eq!(buffers.colors.len(), 3);
    assert_eq!(buffers.shapes.len(), 3);
    assert_eq!(buffers.aabbs.buffer().size(), 48);
}
