use plix::compute::Compute;
use plix::compute::ComputeDataUniform;
use plix::device::BindGroupEntry;
use plix::device::BindGroupLayoutEntry;
use plix::device::BindingResource;
use plix::device::BindingType;
use plix::device::BufferUsages;
use plix::device::Command;
use plix::device::Device;
use plix::device::Extent3d;
use plix::device::ImageCopyBuffer;
use plix::device::ShaderStage;
use plix::device::StorageTextureAccess;
use plix::device::TextureCopy;
use plix::device::TextureDimension;
use plix::device::TextureFormat;
use plix::device::TextureUsages;
use plix::texture::Texture;

fn usage() -> TextureUsages {
    TextureUsages { copy_src: false, copy_dst: false, texture_binding: true, storage_binding: true }
}

fn native(words: &[u32]) -> Vec<u8> {
    let mut bytes = Vec::new();
    for w in words {
        bytes.extend_from_slice(&w.to_ne_bytes());
    }
    bytes
}

fn stage(width: u32, height: u32) -> (Device, Texture, Compute) {
    let mut device = Device::new();
    let texture = Texture::new(width, height, TextureFormat::Rgba8Unorm, &mut device, usage());
    let compute = Compute::new(&mut device, &texture, "shaders/plasma.wgsl");
    (device, texture, compute)
}

#[test]
fn a_new_stage_knows_the_size_of_its_image_and_time_zero() {
    let (_, texture, compute) = stage(4, 3);
    assert_eq!(compute.data, ComputeDataUniform { width: 4, height: 3, t: 0 });
    assert_eq!(compute.target, texture.view);
    assert_eq!(
        compute,
        Compute {
            compute_shader: 3,
            data_buffer: 4,
            data_bind_group_layout: 5,
            data_bind_group: 6,
            texture_bind_group_layout: 7,
            texture_bind_group: 8,
            pipeline: 10,
            data: ComputeDataUniform { width: 4, height: 3, t: 0 },
            target: 1,
        }
    );
}

#[test]
fn a_new_stage_records_module_buffer_groups_and_pipeline() {
    let (mut device, _, _) = stage(4, 3);
    let commands = device.take_commands();
    assert_eq!(
        commands[3..].to_vec(),
        vec![
            Command::CreateShaderModule { id: 3, source: String::from("shaders/plasma.wgsl") },
            Command::CreateBufferInit {
                id: 4,
                contents: native(&[4, 3, 0]),
                usage: BufferUsages {
                    map_read: false,
                    copy_dst: true,
                    index: false,
                    vertex: false,
                    uniform: true,
                },
            },
            Command::CreateBindGroupLayout {
                id: 5,
                entries: vec![BindGroupLayoutEntry {
                    binding: 0,
                    visibility: ShaderStage::Compute,
                    ty: BindingType::UniformBuffer { has_dynamic_offset: false },
                }],
            },
            Command::CreateBindGroup {
                id: 6,
                layout: 5,
                entries: vec![BindGroupEntry { binding: 0, resource: BindingResource::Buffer(4) }],
            },
            Command::CreateBindGroupLayout {
                id: 7,
                entries: vec![BindGroupLayoutEntry {
                    binding: 0,
                    visibility: ShaderStage::Compute,
                    ty: BindingType::StorageTexture {
                        access: StorageTextureAccess::WriteOnly,
                        format: TextureFormat::Rgba8Unorm,
                        view_dimension: TextureDimension::D2,
                    },
                }],
            },
            Command::CreateBindGroup {
                id: 8,
                layout: 7,
                entries: vec![BindGroupEntry {
                    binding: 0,
                    resource: BindingResource::TextureView(1),
                }],
            },
            Command::CreatePipelineLayout { id: 9, bind_group_layouts: vec![5, 7] },
            Command::CreateComputePipeline {
                id: 10,
                layout: 9,
                module: 3,
                entry_point: String::from("main"),
            },
            Command::Release { id: 9 },
        ]
    );
}

#[test]
fn a_step_dispatches_one_workgroup_per_pixel() {
    let (mut device, _, compute) = stage(640, 480);
    device.take_commands();
    compute.step(&mut device, None);
    assert_eq!(
        device.take_commands(),
        vec![Command::Dispatch {
            pipeline: compute.pipeline,
            bind_groups: vec![compute.data_bind_group, compute.texture_bind_group],
            x: 640,
            y: 480,
            z: 1,
            copy: None,
        }]
    );
}

#[test]
fn a_step_carries_the_copy_it_is_given() {
    let (mut device, texture, compute) = stage(64, 2);
    device.take_commands();
    let copy = TextureCopy {
        texture: texture.inner,
        buffer: ImageCopyBuffer { buffer: 99, offset: 0, bytes_per_row: 256, rows_per_image: 2 },
        size: Extent3d { width: 64, height: 2, depth_or_array_layers: 1 },
    };
    compute.step(&mut device, Some(copy));
    match &device.take_commands()[0] {
        Command::Dispatch { copy: Some(recorded), x, y, z, .. } => {
            assert_eq!(*recorded, copy);
            assert_eq!((*x, *y, *z), (64, 2, 1));
        }
        other => panic!("unexpected command {:?}", other),
    }
}

#[test]
fn a_reload_that_fails_changes_nothing() {
    let (mut device, _, mut compute) = stage(8, 8);
    device.take_commands();
    let before = compute;
    compute.step(&mut device, None);
    let frame_before = device.take_commands();

    let complaint =
        compute.reload_shader(&mut device, "shaders/broken.wgsl", Some(String::from("boom")));
    assert_eq!(complaint, Some(String::from("Error in compute shader!!:boom")));
    assert_eq!(compute, before);
    assert!(device.take_commands().is_empty());
    assert!(device.can_issue(u64::MAX - 11));
    assert!(!device.can_issue(u64::MAX - 10));

    compute.step(&mut device, None);
    assert_eq!(device.take_commands(), frame_before);
}

#[test]
fn a_reload_that_compiles_replaces_module_and_pipeline() {
    let (mut device, _, mut compute) = stage(8, 8);
    device.take_commands();
    let before = compute;
    let complaint = compute.reload_shader(&mut device, "shaders/waves.wgsl", None);
    assert_eq!(complaint, None);
    assert_eq!(compute, Compute { compute_shader: 11, pipeline: 13, ..before });
    assert_eq!(
        device.take_commands(),
        vec![
            Command::CreateShaderModule { id: 11, source: String::from("shaders/waves.wgsl") },
            Command::CreatePipelineLayout {
                id: 12,
                bind_group_layouts: vec![
                    before.data_bind_group_layout,
                    before.texture_bind_group_layout,
                ],
            },
            Command::CreateComputePipeline {
                id: 13,
                layout: 12,
                module: 11,
                entry_point: String::from("main"),
            },
            Command::Release { id: 12 },
            Command::Release { id: before.pipeline },
            Command::Release { id: before.compute_shader },
        ]
    );
}

#[test]
fn a_stage_can_be_pointed_at_another_image() {
    let (mut device, _, mut compute) = stage(8, 8);
    let other = Texture::new(16, 4, TextureFormat::Rgba8Unorm, &mut device, usage());
    device.take_commands();
    let before = compute;
    compute.update_texture(&mut device, &other);
    assert_eq!(
        compute,
        Compute {
            texture_bind_group_layout: 14,
            texture_bind_group: 15,
            pipeline: 17,
            target: other.view,
            ..before
        }
    );
    let commands = device.take_commands();
    assert_eq!(commands.len(), 8);
    assert_eq!(
        commands[1],
        Command::CreateBindGroup {
            id: 15,
            layout: 14,
            entries: vec![BindGroupEntry {
                binding: 0,
                resource: BindingResource::TextureView(other.view),
            }],
        }
    );
    assert_eq!(
        commands[5..].to_vec(),
        vec![
            Command::Release { id: before.pipeline },
            Command::Release { id: before.texture_bind_group },
            Command::Release { id: before.texture_bind_group_layout },
        ]
    );
    assert_eq!(compute.data, before.data);
}

#[test]
fn size_and_time_are_written_apart() {
    let (mut device, _, mut compute) = stage(8, 8);
    device.take_commands();
    compute.update_texture_size(&mut device, [20, 10]);
    compute.update_time(&mut device, 1.5f32.to_bits());
    assert_eq!(compute.data, ComputeDataUniform { width: 20, height: 10, t: 0x3fc0_0000 });
    assert_eq!(
        device.take_commands(),
        vec![
            Command::WriteBuffer { buffer: compute.data_buffer, offset: 0, data: native(&[20, 10]) },
            Command::WriteBuffer {
                buffer: compute.data_buffer,
                offset: 8,
                data: native(&[0x3fc0_0000]),
            },
        ]
    );
}

#[test]
fn size_and_time_can_be_written_in_either_order() {
    let (mut device, _, compute) = stage(8, 8);
    let mut one = compute;
    one.update_texture_size(&mut device, [20, 10]);
    one.update_time(&mut device, 7);
    let mut other = compute;
    other.update_time(&mut device, 7);
    other.update_texture_size(&mut device, [20, 10]);
    assert_eq!(one, other);
}

#[test]
fn create_pipeline_lets_its_layout_go() {
    let mut device = Device::new();
    let pipeline = Compute::create_pipeline(&mut device, 40, vec![41, 42]);
    assert_eq!(pipeline, 1);
    assert_eq!(
        device.take_commands(),
        vec![
            Command::CreatePipelineLayout { id: 0, bind_group_layouts: vec![41, 42] },
            Command::CreateComputePipeline {
                id: 1,
                layout: 0,
                module: 40,
                entry_point: String::from("main"),
            },
            Command::Release { id: 0 },
        ]
    );
}
