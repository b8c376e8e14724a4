use plix::device::BindGroupEntry;
use plix::device::BindingResource;
use plix::device::BufferUsages;
use plix::device::Command;
use plix::device::Device;
use plix::device::IndexFormat;
use plix::device::TextureFormat;
use plix::device::VertexAttribute;
use plix::device::VertexBufferLayout;
use plix::device::VertexFormat;
use plix::device::VertexStepMode;
use plix::renderer::DrawCall;
use plix::renderer::Reload;
use plix::renderer::Renderer;
use plix::renderer::Vertex;

fn native_u32(words: &[u32]) -> Vec<u8> {
    let mut bytes = Vec::new();
    for w in words {
        bytes.extend_from_slice(&w.to_ne_bytes());
    }
    bytes
}

fn native_f32(values: &[f32]) -> Vec<u8> {
    let mut bytes = Vec::new();
    for v in values {
        bytes.extend_from_slice(&v.to_ne_bytes());
    }
    bytes
}

fn native_u16(values: &[u16]) -> Vec<u8> {
    let mut bytes = Vec::new();
    for v in values {
        bytes.extend_from_slice(&v.to_ne_bytes());
    }
    bytes
}

fn display(dim: [u32; 2]) -> (Device, Renderer) {
    let mut device = Device::new();
    let renderer = Renderer::new(
        &mut device,
        TextureFormat::Bgra8Unorm,
        dim,
        "src/render.wgsl",
        "shaders/plasma.wgsl",
    );
    (device, renderer)
}

fn bind_groups_over(commands: &[Command], view: u64, sampler: u64) -> Vec<u64> {
    let wanted = vec![
        BindGroupEntry { binding: 0, resource: BindingResource::TextureView(view) },
        BindGroupEntry { binding: 1, resource: BindingResource::Sampler(sampler) },
    ];
    let mut found = Vec::new();
    for command in commands {
        if let Command::CreateBindGroup { id, entries, .. } = command {
            if *entries == wanted {
                found.push(*id);
            }
        }
    }
    found
}

#[test]
fn the_vertex_layout_is_one_position_of_twelve_bytes() {
    assert_eq!(
        Vertex::desc(),
        VertexBufferLayout {
            array_stride: 12,
            step_mode: VertexStepMode::Vertex,
            attributes: vec![VertexAttribute {
                format: VertexFormat::Float32x3,
                offset: 0,
                shader_location: 0,
            }],
        }
    );
}

#[test]
fn a_new_display_stage_takes_eighteen_handles() {
    let (mut device, renderer) = display([10, 10]);
    assert_eq!(renderer.texture.width, 10);
    assert_eq!(renderer.texture.height, 10);
    assert_eq!(renderer.texture.format, TextureFormat::Rgba8Unorm);
    assert_eq!(renderer.target_format, TextureFormat::Bgra8Unorm);
    assert_eq!((renderer.texture.inner, renderer.texture.view, renderer.texture.sampler), (0, 1, 2));
    assert_eq!(renderer.shader, 3);
    assert_eq!(renderer.vertex_buffer, 4);
    assert_eq!(renderer.index_buffer, 5);
    assert_eq!(renderer.texture_bind_group, 7);
    assert_eq!(renderer.pipeline, 9);
    assert_eq!(renderer.compute.compute_shader, 10);
    assert_eq!(renderer.compute.pipeline, 17);
    assert!(device.can_issue(u64::MAX - 18));
    assert!(!device.can_issue(u64::MAX - 17));
    assert_eq!(device.take_commands().len(), 21);
}

#[test]
fn the_quad_is_four_corners_and_two_triangles() {
    let (mut device, _) = display([10, 10]);
    let commands = device.take_commands();
    assert_eq!(
        commands[4],
        Command::CreateBufferInit {
            id: 4,
            contents: native_f32(&[
                1.0, 1.0, 0.0, -1.0, 1.0, 0.0, -1.0, -1.0, 0.0, 1.0, -1.0, 0.0
            ]),
            usage: BufferUsages {
                map_read: false,
                copy_dst: false,
                index: false,
                vertex: true,
                uniform: false,
            },
        }
    );
    assert_eq!(
        commands[5],
        Command::CreateBufferInit {
            id: 5,
            contents: native_u16(&[0, 1, 2, 0, 2, 3]),
            usage: BufferUsages {
                map_read: false,
                copy_dst: false,
                index: true,
                vertex: false,
                uniform: false,
            },
        }
    );
}

#[test]
fn the_render_pipeline_uses_both_entry_points_of_the_display_shader() {
    let (mut device, renderer) = display([10, 10]);
    let commands = device.take_commands();
    assert_eq!(
        commands[3],
        Command::CreateShaderModule { id: 3, source: String::from("src/render.wgsl") }
    );
    assert_eq!(
        commands[9],
        Command::CreateRenderPipeline {
            id: renderer.pipeline,
            layout: 8,
            module: 3,
            vertex_entry_point: String::from("vs_main"),
            fragment_entry_point: String::from("fs_main"),
            buffer: Vertex::desc(),
            target: TextureFormat::Bgra8Unorm,
        }
    );
}

#[test]
fn both_stages_start_out_on_the_same_image() {
    let (mut device, renderer) = display([10, 12]);
    let commands = device.take_commands();
    assert_eq!(renderer.bound_view, renderer.texture.view);
    assert_eq!(renderer.bound_sampler, renderer.texture.sampler);
    assert_eq!(renderer.compute.target, renderer.texture.view);
    assert_eq!(renderer.compute.data.width, 10);
    assert_eq!(renderer.compute.data.height, 12);
    assert_eq!(
        bind_groups_over(&commands, renderer.texture.view, renderer.texture.sampler),
        vec![renderer.texture_bind_group]
    );
}

#[test]
fn check_resize_says_true_once_for_each_new_size() {
    let (mut device, mut renderer) = display([10, 10]);
    device.take_commands();
    assert!(renderer.check_resize(&mut device, [20, 10]));
    assert!(!device.take_commands().is_empty());
    assert!(!renderer.check_resize(&mut device, [20, 10]));
    assert!(device.take_commands().is_empty());
    assert!(renderer.check_resize(&mut device, [20, 11]));
    assert!(!renderer.check_resize(&mut device, [20, 11]));
    assert!(renderer.check_resize(&mut device, [10, 10]));
    assert!(!renderer.check_resize(&mut device, [10, 10]));
}

#[test]
fn check_resize_leaves_everything_alone_when_the_size_is_the_same() {
    let (mut device, mut renderer) = display([10, 10]);
    device.take_commands();
    let before = renderer;
    assert!(!renderer.check_resize(&mut device, [10, 10]));
    assert_eq!(renderer, before);
    assert!(device.take_commands().is_empty());
    assert!(device.can_issue(u64::MAX - 18));
    assert!(!device.can_issue(u64::MAX - 17));
}

#[test]
fn after_a_resize_the_bind_group_is_over_the_new_image() {
    let (mut device, mut renderer) = display([10, 10]);
    device.take_commands();
    let before = renderer;
    assert!(renderer.check_resize(&mut device, [30, 20]));
    let commands = device.take_commands();
    assert_eq!((renderer.texture.width, renderer.texture.height), (30, 20));
    assert_eq!((renderer.texture.inner, renderer.texture.view, renderer.texture.sampler), (18, 19, 20));
    assert_eq!(renderer.texture_bind_group, 22);
    assert_eq!(renderer.pipeline, 24);
    assert_ne!(renderer.texture.view, before.texture.view);
    assert_eq!(
        bind_groups_over(&commands, renderer.texture.view, renderer.texture.sampler),
        vec![renderer.texture_bind_group]
    );
    assert!(bind_groups_over(&commands, before.texture.view, before.texture.sampler).is_empty());
    assert_eq!(
        commands[commands.len() - 5..].to_vec(),
        vec![
            Command::Release { id: before.pipeline },
            Command::Release { id: before.texture_bind_group },
            Command::Release { id: before.texture.sampler },
            Command::Release { id: before.texture.view },
            Command::Release { id: before.texture.inner },
        ]
    );
    assert_eq!(renderer.compute, before.compute);
}

#[test]
fn no_bind_group_is_left_on_an_old_image_after_many_resizes() {
    let (mut device, mut renderer) = display([1, 1]);
    device.take_commands();
    let mut seen = vec![renderer.texture.view];
    let mut size = 2u32;
    while size < 40 {
        assert!(renderer.check_resize(&mut device, [size, 41 - size]));
        let commands = device.take_commands();
        assert_eq!(renderer.bound_view, renderer.texture.view);
        assert_eq!(renderer.bound_sampler, renderer.texture.sampler);
        assert!(!seen.contains(&renderer.texture.view));
        for old in &seen {
            for command in &commands {
                if let Command::CreateBindGroup { entries, .. } = command {
                    assert!(!entries.contains(&BindGroupEntry {
                        binding: 0,
                        resource: BindingResource::TextureView(*old),
                    }));
                }
            }
        }
        seen.push(renderer.texture.view);
        size += 1;
    }
}

#[test]
fn prepare_resizes_rebinds_and_only_then_dispatches() {
    let (mut device, mut renderer) = display([10, 10]);
    device.take_commands();
    let before = renderer;
    renderer.prepare(&mut device, [32, 16], 2.0f32.to_bits());
    let commands = device.take_commands();
    assert_eq!(commands.len(), 14 + 8 + 1 + 2);
    assert_eq!(renderer.compute.target, renderer.texture.view);
    assert_eq!(renderer.compute.data.width, 32);
    assert_eq!(renderer.compute.data.height, 16);
    assert_eq!(renderer.compute.data.t, 0x4000_0000);
    assert_eq!(
        commands[commands.len() - 3..].to_vec(),
        vec![
            Command::WriteBuffer {
                buffer: before.compute.data_buffer,
                offset: 0,
                data: native_u32(&[32, 16]),
            },
            Command::WriteBuffer {
                buffer: before.compute.data_buffer,
                offset: 8,
                data: native_u32(&[0x4000_0000]),
            },
            Command::Dispatch {
                pipeline: renderer.compute.pipeline,
                bind_groups: vec![
                    renderer.compute.data_bind_group,
                    renderer.compute.texture_bind_group
                ],
                x: 32,
                y: 16,
                z: 1,
                copy: None,
            },
        ]
    );
    let rebound = Command::CreateBindGroup {
        id: renderer.compute.texture_bind_group,
        layout: renderer.compute.texture_bind_group_layout,
        entries: vec![BindGroupEntry {
            binding: 0,
            resource: BindingResource::TextureView(renderer.texture.view),
        }],
    };
    let at = commands.iter().position(|c| *c == rebound).unwrap();
    let made = commands
        .iter()
        .position(|c| matches!(c, Command::CreateTextureView { id, .. } if *id == renderer.texture.view))
        .unwrap();
    assert!(made < at);
    assert!(at < commands.len() - 1);
    assert_ne!(renderer.compute.pipeline, before.compute.pipeline);
}

#[test]
fn prepare_with_the_same_size_only_writes_the_time_and_dispatches() {
    let (mut device, mut renderer) = display([10, 10]);
    device.take_commands();
    let before = renderer;
    renderer.prepare(&mut device, [10, 10], 3);
    assert_eq!(
        device.take_commands(),
        vec![
            Command::WriteBuffer {
                buffer: before.compute.data_buffer,
                offset: 8,
                data: native_u32(&[3]),
            },
            Command::Dispatch {
                pipeline: before.compute.pipeline,
                bind_groups: vec![
                    before.compute.data_bind_group,
                    before.compute.texture_bind_group
                ],
                x: 10,
                y: 10,
                z: 1,
                copy: None,
            },
        ]
    );
    let once = renderer;
    renderer.prepare(&mut device, [10, 10], 3);
    assert_eq!(renderer, once);
}

#[test]
fn paint_draws_the_quad_with_six_indices() {
    let (_, renderer) = display([10, 10]);
    assert_eq!(
        renderer.paint(),
        DrawCall {
            pipeline: renderer.pipeline,
            bind_group: renderer.texture_bind_group,
            vertex_buffer: renderer.vertex_buffer,
            index_buffer: renderer.index_buffer,
            index_format: IndexFormat::Uint16,
            first_index: 0,
            index_count: 6,
            base_vertex: 0,
            first_instance: 0,
            instance_count: 1,
        }
    );
}

#[test]
fn paint_follows_a_resize() {
    let (mut device, mut renderer) = display([10, 10]);
    let before = renderer.paint();
    assert!(renderer.check_resize(&mut device, [11, 10]));
    let after = renderer.paint();
    assert_ne!(after.pipeline, before.pipeline);
    assert_ne!(after.bind_group, before.bind_group);
    assert_eq!(after.vertex_buffer, before.vertex_buffer);
    assert_eq!(after.index_buffer, before.index_buffer);
}

#[test]
fn a_frame_without_a_reload_is_a_prepare() {
    let (mut device, mut renderer) = display([10, 10]);
    let mut twin = renderer;
    device.take_commands();
    assert_eq!(renderer.frame(&mut device, None, [12, 10], 5), None);
    let framed = device.take_commands();

    let (mut other, _) = display([10, 10]);
    other.take_commands();
    twin.prepare(&mut other, [12, 10], 5);
    assert_eq!(framed, other.take_commands());
    assert_eq!(renderer, twin);
}

#[test]
fn a_frame_with_a_failed_reload_is_the_frame_without_it() {
    let (mut device, mut renderer) = display([10, 10]);
    let mut twin = renderer;
    device.take_commands();
    let complaint = renderer.frame(
        &mut device,
        Some(Reload {
            shader: String::from("shaders/broken.wgsl"),
            diagnostic: Some(String::from("expected ';'")),
        }),
        [10, 10],
        5,
    );
    assert_eq!(complaint, Some(String::from("Error in compute shader!!:expected ';'")));
    let framed = device.take_commands();

    let (mut other, _) = display([10, 10]);
    other.take_commands();
    assert_eq!(twin.frame(&mut other, None, [10, 10], 5), None);
    assert_eq!(framed, other.take_commands());
    assert_eq!(renderer, twin);
}

#[test]
fn a_frame_reloads_before_it_resizes_and_dispatches() {
    let (mut device, mut renderer) = display([10, 10]);
    device.take_commands();
    let before = renderer;
    let complaint = renderer.frame(
        &mut device,
        Some(Reload { shader: String::from("shaders/waves.wgsl"), diagnostic: None }),
        [20, 20],
        5,
    );
    assert_eq!(complaint, None);
    let commands = device.take_commands();
    assert_eq!(commands.len(), 6 + 25);
    assert_eq!(
        commands[0],
        Command::CreateShaderModule { id: 18, source: String::from("shaders/waves.wgsl") }
    );
    assert_eq!(renderer.compute.compute_shader, 18);
    assert_ne!(renderer.compute.pipeline, before.compute.pipeline);
    match commands.last() {
        Some(Command::Dispatch { pipeline, x, y, .. }) => {
            assert_eq!(*pipeline, renderer.compute.pipeline);
            assert_eq!((*x, *y), (20, 20));
        }
        other => panic!("unexpected command {:?}", other),
    }
    let module_of_last_pipeline = commands
        .iter()
        .rev()
        .find_map(|c| match c {
            Command::CreateComputePipeline { module, .. } => Some(*module),
            _ => None,
        })
        .unwrap();
    assert_eq!(module_of_last_pipeline, 18);
}
