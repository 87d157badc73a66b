use gpu_bvh::BvhBuilder;
use gpu_bvh::PassDurationMeasurer;

const EMPTY_KERNEL: &str = "
@compute @workgroup_size(64)
fn combine_nodes() {
}
";

/// A CPU-only device with the features the builder and the duration
/// measurer need.
fn device_and_queue() -> (wgpu::Device, wgpu::Queue) {
    let instance = wgpu::Instance::new(wgpu::InstanceDescriptor {
        backends: wgpu::Backends::NOOP,
        backend_options: wgpu::BackendOptions {
            noop: wgpu::NoopBackendOptions::enabled(),
            ..Default::default()
        },
        ..wgpu::InstanceDescriptor::new_without_display_handle()
    });
    let adapter = pollster::block_on(instance.request_adapter(&wgpu::RequestAdapterOptions::default()))
        .expect("noop adapter");
    pollster::block_on(adapter.request_device(&wgpu::DeviceDescriptor {
        label: None,
        required_features: wgpu::Features::IMMEDIATES | wgpu::Features::TIMESTAMP_QUERY
            | wgpu::Features::TIMESTAMP_QUERY_INSIDE_ENCODERS,
        required_limits: wgpu::Limits {
            max_immediate_size: 12,
            ..Default::default()
        },
        ..Default::default()
    }))
    .expect("noop device")
}

fn test_pipeline(device: &wgpu::Device) -> (wgpu::ComputePipeline, wgpu::BindGroup) {
    let shader = device.create_shader_module(wgpu::ShaderModuleDescriptor {
        label: Some("test kernel"),
        source: wgpu::ShaderSource::Wgsl(EMPTY_KERNEL.into()),
    });
    let bind_group_layout = device.create_bind_group_layout(&wgpu::BindGroupLayoutDescriptor {
        label: None,
        entries: &[],
    });
    let pipeline_layout = device.create_pipeline_layout(&wgpu::PipelineLayoutDescriptor {
        label: None,
        bind_group_layouts: &[Some(&bind_group_layout)],
        immediate_size: 12,
    });
    let pipeline = device.create_compute_pipeline(&wgpu::ComputePipelineDescriptor {
        label: None,
        layout: Some(&pipeline_layout),
        module: &shader,
        entry_point: Some("combine_nodes"),
        compilation_options: Default::default(),
        cache: None,
    });
    let bind_group = device.create_bind_group(&wgpu::BindGroupDescriptor {
        label: None,
        layout: &bind_group_layout,
        entries: &[],
    });
    (pipeline, bind_group)
}

#[test]
fn builder_dispatches_the_schedule_and_names_the_root() {
    let (device, queue) = device_and_queue();
    let (pipeline, bind_group) = test_pipeline(&device);
    let mut builder = BvhBuilder::new(pipeline, bind_group, 7);

    let mut encoder = device.create_command_encoder(&wgpu::CommandEncoderDescriptor::default());
    let mut pass = encoder.begin_compute_pass(&wgpu::ComputePassDescriptor::default());
    builder.compute(&mut pass);
    drop(pass);
    queue.submit(Some(encoder.finish()));

    // For 7 leaves the last pass writes the root at index 12.
    assert_eq!(builder.node_count(), 12);
}

#[test]
fn builder_with_no_leaves_dispatches_nothing() {
    let (device, queue) = device_and_queue();
    let (pipeline, bind_group) = test_pipeline(&device);
    let mut builder = BvhBuilder::new(pipeline, bind_group, 0);

    let mut encoder = device.create_command_encoder(&wgpu::CommandEncoderDescriptor::default());
    let mut pass = encoder.begin_compute_pass(&wgpu::ComputePassDescriptor::default());
    builder.compute(&mut pass);
    drop(pass);
    queue.submit(Some(encoder.finish()));
}

#[test]
fn span_ticks_floors_reversed_counters() {
    assert_eq!(gpu_bvh::span_ticks(5, 12), 7);
    assert_eq!(gpu_bvh::span_ticks(12, 12), 0);
    assert_eq!(gpu_bvh::span_ticks(12, 5), 0);
    assert_eq!(gpu_bvh::span_ticks(0, u64::MAX), u64::MAX);
}

#[test]
fn duration_measurement_reads_two_counters() {
    let (device, queue) = device_and_queue();
    let measurer = PassDurationMeasurer::new(&device);
    let mut encoder = device.create_command_encoder(&wgpu::CommandEncoderDescriptor::default());
    let started = measurer.start(&mut encoder);
    let result = started.finish(&mut encoder);
    queue.submit(Some(encoder.finish()));
    // The noop device reports zeroed counters; the span is then zero.
    assert_eq!(result.duration(), 0);
}
