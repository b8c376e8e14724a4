//! The compute stage: one pipeline that writes an image, one invocation group
//! per pixel.
//!
//! The stage owns a shader module, a small uniform buffer with the size of
//! the image and the time, and two bind groups: group 0 is the uniform
//! buffer, group 1 the image that is written.

use crate::device::BindGroupEntry;
use crate::device::BindGroupLayoutEntry;
use crate::device::BindingResource;
use crate::device::BindingType;
use crate::device::BufferUsages;
use crate::device::CommandView;
use crate::device::Device;
use crate::device::Payload;
use crate::device::ShaderStage;
use crate::device::TextureCopy;
use crate::texture::storage_texture_binding;
use crate::texture::Texture;
use vstd::prelude::*;
use vstd::string::StringExecFns;

verus! {

/// What the compute shader reads from its uniform buffer. The time is a
/// single-precision number of seconds, kept as its bit pattern.
#[derive(Clone, Copy, Debug, PartialEq, Eq, Structural)]
pub struct ComputeDataUniform {
    pub width: u32,
    pub height: u32,
    pub t: u32,
}

/// The handles of a compute stage and the values it last wrote to its
/// uniform buffer.
#[derive(Clone, Copy, Debug, PartialEq, Eq, Structural)]
pub struct Compute {
    pub pipeline: u64,
    pub compute_shader: u64,
    pub data_bind_group: u64,
    pub data_bind_group_layout: u64,
    pub data_buffer: u64,
    pub data: ComputeDataUniform,
    pub texture_bind_group: u64,
    pub texture_bind_group_layout: u64,
    /// The view of the image that the texture bind group binds.
    pub target: u64,
}

/// Byte offset of the size of the image in the uniform buffer.
pub const SIZE_OFFSET: u64 = 0;

/// Byte offset of the time in the uniform buffer.
pub const TIME_OFFSET: u64 = 8;

/// What a uniform buffer may be used for: it is bound as uniform data and
/// written from the host.
pub open spec fn uniform_usage() -> BufferUsages {
    BufferUsages { map_read: false, copy_dst: true, index: false, vertex: false, uniform: true }
}

/// The only slot of bind group 0: the uniform buffer, seen by the compute
/// shader.
pub open spec fn data_layout_entry() -> BindGroupLayoutEntry {
    BindGroupLayoutEntry {
        binding: 0,
        visibility: ShaderStage::Compute,
        ty: BindingType::UniformBuffer { has_dynamic_offset: false },
    }
}

/// The only slot of bind group 1: the image that the compute shader writes.
pub open spec fn texture_layout_entry(texture: Texture) -> BindGroupLayoutEntry {
    BindGroupLayoutEntry {
        binding: 0,
        visibility: ShaderStage::Compute,
        ty: storage_texture_binding(texture.format),
    }
}

/// The commands of `create_pipeline` when `first` is the next handle: a
/// pipeline layout, the pipeline over it, and the layout let go again.
pub open spec fn pipeline_commands(first: u64, shader: u64, layouts: Seq<u64>) -> Seq<
    CommandView,
> {
    seq![
        CommandView::CreatePipelineLayout { id: first, bind_group_layouts: layouts },
        CommandView::CreateComputePipeline {
            id: (first + 1) as u64,
            layout: first,
            module: shader,
            entry_point: "main"@,
        },
        CommandView::Release { id: first },
    ]
}

impl Compute {
    /// The stage that `new` makes over `texture` when `first` is the next
    /// handle of the device.
    pub open spec fn fresh(texture: Texture, first: u64) -> Compute {
        Compute {
            compute_shader: first,
            data_buffer: (first + 1) as u64,
            data_bind_group_layout: (first + 2) as u64,
            data_bind_group: (first + 3) as u64,
            texture_bind_group_layout: (first + 4) as u64,
            texture_bind_group: (first + 5) as u64,
            pipeline: (first + 7) as u64,
            data: ComputeDataUniform { width: texture.width, height: texture.height, t: 0 },
            target: texture.view,
        }
    }

    /// The commands that bring the stage into being.
    pub open spec fn creation(self, texture: Texture, shader: Seq<char>) -> Seq<CommandView> {
        seq![
            CommandView::CreateShaderModule { id: self.compute_shader, source: shader },
            CommandView::CreateBufferInit {
                id: self.data_buffer,
                contents: Payload::Words(seq![self.data.width, self.data.height, self.data.t]),
                usage: uniform_usage(),
            },
            CommandView::CreateBindGroupLayout {
                id: self.data_bind_group_layout,
                entries: seq![data_layout_entry()],
            },
            CommandView::CreateBindGroup {
                id: self.data_bind_group,
                layout: self.data_bind_group_layout,
                entries: seq![
                    BindGroupEntry {
                        binding: 0,
                        resource: BindingResource::Buffer(self.data_buffer),
                    },
                ],
            },
            CommandView::CreateBindGroupLayout {
                id: self.texture_bind_group_layout,
                entries: seq![texture_layout_entry(texture)],
            },
            CommandView::CreateBindGroup {
                id: self.texture_bind_group,
                layout: self.texture_bind_group_layout,
                entries: seq![
                    BindGroupEntry {
                        binding: 0,
                        resource: BindingResource::TextureView(texture.view),
                    },
                ],
            },
        ] + pipeline_commands(
            (self.pipeline - 1) as u64,
            self.compute_shader,
            seq![self.data_bind_group_layout, self.texture_bind_group_layout],
        )
    }

    /// Whether every handle of the stage is below `bound`.
    pub open spec fn issued_below(self, bound: u64) -> bool {
        &&& self.pipeline < bound
        &&& self.compute_shader < bound
        &&& self.data_bind_group < bound
        &&& self.data_bind_group_layout < bound
        &&& self.data_buffer < bound
        &&& self.texture_bind_group < bound
        &&& self.texture_bind_group_layout < bound
    }

    /// What one step asks of the GPU: the pipeline with both bind groups, one
    /// workgroup per pixel of the size last written, and the copy if any.
    pub open spec fn dispatch(self, before_submit: Option<TextureCopy>) -> CommandView {
        CommandView::Dispatch {
            pipeline: self.pipeline,
            bind_groups: seq![self.data_bind_group, self.texture_bind_group],
            x: self.data.width,
            y: self.data.height,
            z: 1,
            copy: before_submit,
        }
    }

    /// The stage after a reload that compiled, when `first` was the next
    /// handle: a new module and a new pipeline, everything else as before.
    pub open spec fn reloaded(self, first: u64) -> Compute {
        Compute { compute_shader: first, pipeline: (first + 2) as u64, ..self }
    }

    /// The commands of a reload that compiled: the new module and pipeline
    /// first, then the old pipeline and module are let go.
    pub open spec fn reload_commands(self, shader: Seq<char>, first: u64) -> Seq<CommandView> {
        seq![CommandView::CreateShaderModule { id: first, source: shader }] + pipeline_commands(
            (first + 1) as u64,
            first,
            seq![self.data_bind_group_layout, self.texture_bind_group_layout],
        ) + seq![
            CommandView::Release { id: self.pipeline },
            CommandView::Release { id: self.compute_shader },
        ]
    }

    /// The stage after the host reported on a compilation: replaced if the
    /// shader compiled, untouched if it did not.
    pub open spec fn reload_outcome(self, compiled: bool, first: u64) -> Compute {
        if compiled {
            self.reloaded(first)
        } else {
            self
        }
    }

    /// The commands recorded when the host reported on a compilation: none if
    /// the shader did not compile.
    pub open spec fn reload_log(self, compiled: bool, shader: Seq<char>, first: u64) -> Seq<
        CommandView,
    > {
        if compiled {
            self.reload_commands(shader, first)
        } else {
            Seq::empty()
        }
    }

    /// The stage after it was pointed at `texture`, when `first` was the next
    /// handle: a new layout and bind group for the image and a new pipeline.
    pub open spec fn retargeted(self, texture: Texture, first: u64) -> Compute {
        Compute {
            texture_bind_group_layout: first,
            texture_bind_group: (first + 1) as u64,
            pipeline: (first + 3) as u64,
            target: texture.view,
            ..self
        }
    }

    /// The commands that point the stage at `texture`: what is new is made
    /// first, then what it replaces is let go.
    pub open spec fn retarget_commands(self, texture: Texture, first: u64) -> Seq<CommandView> {
        seq![
            CommandView::CreateBindGroupLayout {
                id: first,
                entries: seq![texture_layout_entry(texture)],
            },
            CommandView::CreateBindGroup {
                id: (first + 1) as u64,
                layout: first,
                entries: seq![
                    BindGroupEntry {
                        binding: 0,
                        resource: BindingResource::TextureView(texture.view),
                    },
                ],
            },
        ] + pipeline_commands(
            (first + 2) as u64,
            self.compute_shader,
            seq![self.data_bind_group_layout, first],
        ) + seq![
            CommandView::Release { id: self.pipeline },
            CommandView::Release { id: self.texture_bind_group },
            CommandView::Release { id: self.texture_bind_group_layout },
        ]
    }

    /// The stage with the size in its uniform data replaced.
    pub open spec fn with_size(self, width: u32, height: u32) -> Compute {
        Compute { data: ComputeDataUniform { width, height, t: self.data.t }, ..self }
    }

    /// The stage with the time in its uniform data replaced.
    pub open spec fn with_time(self, t: u32) -> Compute {
        Compute {
            data: ComputeDataUniform { width: self.data.width, height: self.data.height, t },
            ..self
        }
    }

    /// Builds a compute stage that writes `texture` with the shader that the
    /// catalog knows as `shader`. The uniform buffer starts with the size of
    /// the image and time zero.
    pub fn new(device: &mut Device, texture: &Texture, shader: &str) -> (compute: Compute)
        requires
            old(device).has_room(8),
        ensures
            compute == Compute::fresh(*texture, old(device).next_id()),
            final(device).next_id() == old(device).next_id() + 8,
            final(device).pending() == old(device).pending() + compute.creation(
                *texture,
                shader@,
            ),
    {
        let compute_shader = device.create_shader_module(String::from_str(shader));
        let data = ComputeDataUniform { width: texture.width, height: texture.height, t: 0 };
        let words = vec![data.width, data.height, data.t];
        assert(words@ =~= seq![data.width, data.height, data.t]);
        let data_buffer = device.create_buffer_init(
            words,
            BufferUsages {
                map_read: false,
                copy_dst: true,
                index: false,
                vertex: false,
                uniform: true,
            },
        );
        let data_slots = vec![
            BindGroupLayoutEntry {
                binding: 0,
                visibility: ShaderStage::Compute,
                ty: BindingType::UniformBuffer { has_dynamic_offset: false },
            },
        ];
        assert(data_slots@ =~= seq![data_layout_entry()]);
        let data_bind_group_layout = device.create_bind_group_layout(data_slots);
        let data_entries = vec![
            BindGroupEntry { binding: 0, resource: BindingResource::Buffer(data_buffer) },
        ];
        assert(data_entries@ =~= seq![
            BindGroupEntry { binding: 0, resource: BindingResource::Buffer(data_buffer) },
        ]);
        let data_bind_group = device.create_bind_group(data_bind_group_layout, data_entries);
        let texture_slots = vec![
            BindGroupLayoutEntry {
                binding: 0,
                visibility: ShaderStage::Compute,
                ty: texture.storage_texture_binding_type(),
            },
        ];
        assert(texture_slots@ =~= seq![texture_layout_entry(*texture)]);
        let texture_bind_group_layout = device.create_bind_group_layout(texture_slots);
        let texture_entries = vec![
            BindGroupEntry { binding: 0, resource: texture.texture_binding_resource() },
        ];
        assert(texture_entries@ =~= seq![
            BindGroupEntry { binding: 0, resource: BindingResource::TextureView(texture.view) },
        ]);
        let texture_bind_group = device.create_bind_group(
            texture_bind_group_layout,
            texture_entries,
        );
        let layouts = vec![data_bind_group_layout, texture_bind_group_layout];
        assert(layouts@ =~= seq![data_bind_group_layout, texture_bind_group_layout]);
        let pipeline = Self::create_pipeline(device, compute_shader, layouts);
        let compute = Compute {
            pipeline,
            compute_shader,
            data_bind_group,
            data_bind_group_layout,
            data_buffer,
            data,
            texture_bind_group,
            texture_bind_group_layout,
            target: texture.view,
        };
        assert(device.pending() =~= old(device).pending() + compute.creation(*texture, shader@));
        compute
    }

    /// Runs the simulation one tick: one dispatch that covers the image with
    /// one workgroup per pixel, then the copy in `before_submit` if there is
    /// one, submitted together.
    pub fn step(&self, device: &mut Device, before_submit: Option<TextureCopy>)
        ensures
            final(device).next_id() == old(device).next_id(),
            final(device).pending() == old(device).pending().push(self.dispatch(before_submit)),
    {
        let bind_groups = vec![self.data_bind_group, self.texture_bind_group];
        assert(bind_groups@ =~= seq![self.data_bind_group, self.texture_bind_group]);
        device.dispatch(
            self.pipeline,
            bind_groups,
            self.data.width,
            self.data.height,
            1,
            before_submit,
        );
    }

    /// Takes the outcome of compiling `shader`, which the host tried inside
    /// an error scope. `diagnostic` is what the GPU driver reported, or
    /// `None` if the shader compiled.
    ///
    /// If it compiled, the stage gets a new module and a new pipeline and
    /// lets the old ones go. If not, the stage and the device stay exactly as
    /// they were, and the line to log comes back.
    pub fn reload_shader(
        &mut self,
        device: &mut Device,
        shader: &str,
        diagnostic: Option<String>,
    ) -> (complaint: Option<String>)
        requires
            diagnostic is None ==> old(device).has_room(3),
        ensures
            *final(self) == old(self).reload_outcome(diagnostic is None, old(device).next_id()),
            final(device).pending() == old(device).pending() + old(self).reload_log(
                diagnostic is None,
                shader@,
                old(device).next_id(),
            ),
            final(device).next_id() == old(device).next_id() + (if diagnostic is None {
                3int
            } else {
                0int
            }),
            diagnostic is None ==> complaint is None,
            diagnostic matches Some(text) ==> complaint matches Some(line) && line@
                == "Error in compute shader!!:"@ + text@,
    {
        match diagnostic {
            Some(text) => {
                let line = String::from_str("Error in compute shader!!:").concat(text.as_str());
                Some(line)
            },
            None => {
                let module = device.create_shader_module(String::from_str(shader));
                let layouts = vec![self.data_bind_group_layout, self.texture_bind_group_layout];
                assert(layouts@ =~= seq![
                    self.data_bind_group_layout,
                    self.texture_bind_group_layout,
                ]);
                let pipeline = Self::create_pipeline(device, module, layouts);
                device.release(self.pipeline);
                device.release(self.compute_shader);
                self.compute_shader = module;
                self.pipeline = pipeline;
                assert(device.pending() =~= old(device).pending() + old(self).reload_commands(
                    shader@,
                    old(device).next_id(),
                ));
                None
            },
        }
    }

    /// Points the stage at another image: a new layout and bind group for
    /// the image and a new pipeline over them. What they replace is let go
    /// only after they exist.
    pub fn update_texture(&mut self, device: &mut Device, texture: &Texture)
        requires
            old(device).has_room(4),
        ensures
            *final(self) == old(self).retargeted(*texture, old(device).next_id()),
            final(device).next_id() == old(device).next_id() + 4,
            final(device).pending() == old(device).pending() + old(self).retarget_commands(
                *texture,
                old(device).next_id(),
            ),
    {
        let texture_slots = vec![
            BindGroupLayoutEntry {
                binding: 0,
                visibility: ShaderStage::Compute,
                ty: texture.storage_texture_binding_type(),
            },
        ];
        assert(texture_slots@ =~= seq![texture_layout_entry(*texture)]);
        let texture_bind_group_layout = device.create_bind_group_layout(texture_slots);
        let texture_entries = vec![
            BindGroupEntry { binding: 0, resource: texture.texture_binding_resource() },
        ];
        assert(texture_entries@ =~= seq![
            BindGroupEntry { binding: 0, resource: BindingResource::TextureView(texture.view) },
        ]);
        let texture_bind_group = device.create_bind_group(
            texture_bind_group_layout,
            texture_entries,
        );
        let layouts = vec![self.data_bind_group_layout, texture_bind_group_layout];
        assert(layouts@ =~= seq![self.data_bind_group_layout, texture_bind_group_layout]);
        let pipeline = Self::create_pipeline(device, self.compute_shader, layouts);
        device.release(self.pipeline);
        device.release(self.texture_bind_group);
        device.release(self.texture_bind_group_layout);
        self.texture_bind_group_layout = texture_bind_group_layout;
        self.texture_bind_group = texture_bind_group;
        self.pipeline = pipeline;
        self.target = texture.view;
        assert(device.pending() =~= old(device).pending() + old(self).retarget_commands(
            *texture,
            old(device).next_id(),
        ));
    }

    /// Creates a compute pipeline that runs `main` of `shader` with group `i`
    /// laid out as `bind_group_layouts[i]`.
    pub fn create_pipeline(device: &mut Device, shader: u64, bind_group_layouts: Vec<u64>) -> (pipeline:
        u64)
        requires
            old(device).has_room(2),
        ensures
            pipeline == old(device).next_id() + 1,
            final(device).next_id() == old(device).next_id() + 2,
            final(device).pending() == old(device).pending() + pipeline_commands(
                old(device).next_id(),
                shader,
                bind_group_layouts@,
            ),
    {
        let ghost layouts = bind_group_layouts@;
        let pipeline_layout = device.create_pipeline_layout(bind_group_layouts);
        let pipeline = device.create_compute_pipeline(
            pipeline_layout,
            shader,
            String::from_str("main"),
        );
        device.release(pipeline_layout);
        assert(device.pending() =~= old(device).pending() + pipeline_commands(
            old(device).next_id(),
            shader,
            layouts,
        ));
        pipeline
    }

    /// Writes a new image size into the uniform buffer. The time in the
    /// buffer is not touched.
    pub fn update_texture_size(&mut self, device: &mut Device, texture_dim: [u32; 2])
        ensures
            *final(self) == old(self).with_size(texture_dim[0], texture_dim[1]),
            final(device).next_id() == old(device).next_id(),
            final(device).pending() == old(device).pending().push(
                CommandView::WriteBuffer {
                    buffer: old(self).data_buffer,
                    offset: SIZE_OFFSET,
                    data: Payload::Words(seq![texture_dim[0], texture_dim[1]]),
                },
            ),
    {
        self.data.width = texture_dim[0];
        self.data.height = texture_dim[1];
        let words = vec![texture_dim[0], texture_dim[1]];
        assert(words@ =~= seq![texture_dim[0], texture_dim[1]]);
        device.write_buffer(self.data_buffer, SIZE_OFFSET, words);
    }

    /// Writes a new time into the uniform buffer. The size in the buffer is
    /// not touched.
    pub fn update_time(&mut self, device: &mut Device, t: u32)
        ensures
            *final(self) == old(self).with_time(t),
            final(device).next_id() == old(device).next_id(),
            final(device).pending() == old(device).pending().push(
                CommandView::WriteBuffer {
                    buffer: old(self).data_buffer,
                    offset: TIME_OFFSET,
                    data: Payload::Words(seq![t]),
                },
            ),
    {
        self.data.t = t;
        let words = vec![t];
        assert(words@ =~= seq![t]);
        device.write_buffer(self.data_buffer, TIME_OFFSET, words);
    }
}

/// A reload whose shader does not compile changes nothing: the stage is the
/// one it was, no command is recorded, and the next step asks the GPU for
/// exactly what it would have asked without the reload.
pub proof fn failed_reload_changes_nothing(
    stage: Compute,
    shader: Seq<char>,
    first: u64,
    before_submit: Option<TextureCopy>,
)
    ensures
        stage.reload_outcome(false, first) == stage,
        stage.reload_log(false, shader, first) == Seq::<CommandView>::empty(),
        stage.reload_outcome(false, first).dispatch(before_submit) == stage.dispatch(
            before_submit,
        ),
{
}

/// A reload that compiles replaces the module and the pipeline by objects
/// that did not exist before, and keeps the bind groups, the uniform buffer
/// and its values.
pub proof fn reload_replaces_module_and_pipeline(stage: Compute, first: u64)
    requires
        stage.issued_below(first),
        first + 3 <= u64::MAX,
    ensures
        stage.reload_outcome(true, first).compute_shader >= first,
        stage.reload_outcome(true, first).pipeline >= first,
        stage.reload_outcome(true, first).compute_shader != stage.compute_shader,
        stage.reload_outcome(true, first).pipeline != stage.pipeline,
        stage.reload_outcome(true, first).issued_below((first + 3) as u64),
        stage.reload_outcome(true, first) == (Compute {
            compute_shader: stage.reload_outcome(true, first).compute_shader,
            pipeline: stage.reload_outcome(true, first).pipeline,
            ..stage
        }),
{
}

/// What a reload or a change of image replaces is let go only after what
/// replaces it exists: the commands end with the releases of the old
/// objects, and nothing before them lets an old object go.
pub proof fn replaced_objects_go_last(
    stage: Compute,
    shader: Seq<char>,
    texture: crate::texture::Texture,
    first: u64,
)
    requires
        stage.issued_below(first),
        first + 4 <= u64::MAX,
    ensures
        ({
            let commands = stage.reload_commands(shader, first);
            &&& commands.len() == 6
            &&& commands[2] == CommandView::CreateComputePipeline {
                id: stage.reloaded(first).pipeline,
                layout: (first + 1) as u64,
                module: stage.reloaded(first).compute_shader,
                entry_point: "main"@,
            }
            &&& commands.subrange(4, 6) == seq![
                CommandView::Release { id: stage.pipeline },
                CommandView::Release { id: stage.compute_shader },
            ]
            &&& forall|i: int|
                0 <= i < 4 ==> #[trigger] commands[i] != CommandView::Release { id: stage.pipeline }
                    && commands[i] != CommandView::Release { id: stage.compute_shader }
        }),
        ({
            let commands = stage.retarget_commands(texture, first);
            &&& commands.len() == 8
            &&& commands.subrange(5, 8) == seq![
                CommandView::Release { id: stage.pipeline },
                CommandView::Release { id: stage.texture_bind_group },
                CommandView::Release { id: stage.texture_bind_group_layout },
            ]
            &&& forall|i: int|
                0 <= i < 5 ==> #[trigger] commands[i] != CommandView::Release { id: stage.pipeline }
                    && commands[i] != CommandView::Release { id: stage.texture_bind_group }
                    && commands[i] != CommandView::Release { id: stage.texture_bind_group_layout }
        }),
{
    let reload = stage.reload_commands(shader, first);
    assert(reload.subrange(4, 6) =~= seq![
        CommandView::Release { id: stage.pipeline },
        CommandView::Release { id: stage.compute_shader },
    ]);
    let retarget = stage.retarget_commands(texture, first);
    assert(retarget.subrange(5, 8) =~= seq![
        CommandView::Release { id: stage.pipeline },
        CommandView::Release { id: stage.texture_bind_group },
        CommandView::Release { id: stage.texture_bind_group_layout },
    ]);
}

/// Size and time are written independently: either order gives the same
/// uniform values, and neither write changes what the other one set.
pub proof fn size_and_time_are_independent(stage: Compute, width: u32, height: u32, t: u32)
    ensures
        stage.with_size(width, height).with_time(t) == stage.with_time(t).with_size(
            width,
            height,
        ),
        stage.with_size(width, height).data.t == stage.data.t,
        stage.with_time(t).data.width == stage.data.width,
        stage.with_time(t).data.height == stage.data.height,
{
}

} // verus!
