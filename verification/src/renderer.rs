//! The display stage: it samples the image of the compute stage onto a quad
//! that fills the screen.
//!
//! The stage owns the image, the bind group that samples it, the render
//! pipeline, the quad, and the compute stage that writes the image. Every
//! frame it looks for a new viewport size first, points the compute stage at
//! a new image if there is one, and only then lets the compute stage run.

use crate::compute::Compute;
use crate::device::BindGroupEntry;
use crate::device::BindGroupLayoutEntry;
use crate::device::BindingResource;
use crate::device::BufferUsages;
use crate::device::CommandView;
use crate::device::Device;
use crate::device::IndexFormat;
use crate::device::Payload;
use crate::device::ShaderStage;
use crate::device::TextureFormat;
use crate::device::TextureUsages;
use crate::device::VertexAttribute;
use crate::device::VertexBufferLayout;
use crate::device::VertexBufferLayoutView;
use crate::device::VertexFormat;
use crate::device::VertexStepMode;
use crate::texture::sampled_texture_binding;
use crate::texture::sampler_binding;
use crate::texture::Texture;
use vstd::prelude::*;
use vstd::string::StringExecFns;

verus! {

/// Bit pattern of the single-precision number 1.
pub const ONE: u32 = 0x3f80_0000;

/// Bit pattern of the single-precision number -1.
pub const MINUS_ONE: u32 = 0xbf80_0000;

/// Bit pattern of the single-precision number 0.
pub const ZERO: u32 = 0;

/// Number of entries of the index list of the quad.
pub const INDEX_COUNT: u32 = 6;

/// A corner of the quad: a position in clip space, three single-precision
/// numbers kept as their bit patterns.
#[derive(Clone, Copy, Debug, PartialEq, Eq)]
pub struct Vertex {
    pub position: [u32; 3],
}

/// The four corners of the quad, three words each: top right, top left,
/// bottom left, bottom right.
pub open spec fn quad_vertices() -> Seq<u32> {
    seq![
        ONE, ONE, ZERO,
        MINUS_ONE, ONE, ZERO,
        MINUS_ONE, MINUS_ONE, ZERO,
        ONE, MINUS_ONE, ZERO,
    ]
}

/// The two triangles of the quad, as indices into its corners.
pub open spec fn quad_indices() -> Seq<u16> {
    seq![0u16, 1u16, 2u16, 0u16, 2u16, 3u16]
}

/// How the vertex buffer of the quad is cut up: twelve bytes per vertex, one
/// attribute at location 0 that holds the position.
pub open spec fn quad_layout() -> VertexBufferLayoutView {
    VertexBufferLayoutView {
        array_stride: 12,
        step_mode: VertexStepMode::Vertex,
        attributes: seq![
            VertexAttribute { format: VertexFormat::Float32x3, offset: 0, shader_location: 0 },
        ],
    }
}

/// What the vertex buffer of the quad may be used for.
pub open spec fn vertex_usage() -> BufferUsages {
    BufferUsages { map_read: false, copy_dst: false, index: false, vertex: true, uniform: false }
}

/// What the index buffer of the quad may be used for.
pub open spec fn index_usage() -> BufferUsages {
    BufferUsages { map_read: false, copy_dst: false, index: true, vertex: false, uniform: false }
}

/// What the image of the display stage may be used for: it is sampled by the
/// display pass and written by the compute pass.
pub open spec fn display_usage() -> TextureUsages {
    TextureUsages {
        copy_src: false,
        copy_dst: false,
        texture_binding: true,
        storage_binding: true,
    }
}

/// The commands that make `texture` drawable when `first` is the next
/// handle: a bind group that samples it and a render pipeline over that.
/// The two layouts are only needed on the way and are let go at the end.
pub open spec fn sampling_commands(
    first: u64,
    texture: Texture,
    shader: u64,
    target: TextureFormat,
) -> Seq<CommandView> {
    seq![
        CommandView::CreateBindGroupLayout {
            id: first,
            entries: seq![
                BindGroupLayoutEntry {
                    binding: 0,
                    visibility: ShaderStage::Fragment,
                    ty: sampled_texture_binding(),
                },
                BindGroupLayoutEntry {
                    binding: 1,
                    visibility: ShaderStage::Fragment,
                    ty: sampler_binding(),
                },
            ],
        },
        CommandView::CreateBindGroup {
            id: (first + 1) as u64,
            layout: first,
            entries: seq![
                BindGroupEntry { binding: 0, resource: BindingResource::TextureView(texture.view) },
                BindGroupEntry { binding: 1, resource: BindingResource::Sampler(texture.sampler) },
            ],
        },
        CommandView::CreatePipelineLayout {
            id: (first + 2) as u64,
            bind_group_layouts: seq![first],
        },
        CommandView::CreateRenderPipeline {
            id: (first + 3) as u64,
            layout: (first + 2) as u64,
            module: shader,
            vertex_entry_point: "vs_main"@,
            fragment_entry_point: "fs_main"@,
            buffer: quad_layout(),
            target,
        },
        CommandView::Release { id: (first + 2) as u64 },
        CommandView::Release { id: first },
    ]
}

impl Vertex {
    /// How a buffer of vertices is cut up for the vertex shader.
    pub fn desc() -> (layout: VertexBufferLayout)
        ensures
            layout@ == quad_layout(),
    {
        let attributes = vec![
            VertexAttribute { format: VertexFormat::Float32x3, offset: 0, shader_location: 0 },
        ];
        assert(attributes@ =~= seq![
            VertexAttribute { format: VertexFormat::Float32x3, offset: 0, shader_location: 0 },
        ]);
        VertexBufferLayout { array_stride: 12, step_mode: VertexStepMode::Vertex, attributes }
    }
}

/// One indexed draw, as the display stage asks for it inside the render pass
/// of the host.
#[derive(Clone, Copy, Debug, PartialEq, Eq, Structural)]
pub struct DrawCall {
    pub pipeline: u64,
    pub bind_group: u64,
    pub vertex_buffer: u64,
    pub index_buffer: u64,
    pub index_format: IndexFormat,
    pub first_index: u32,
    pub index_count: u32,
    pub base_vertex: i32,
    pub first_instance: u32,
    pub instance_count: u32,
}

/// A shader that the host tried to compile for the compute stage, and what
/// the GPU driver said against it; `None` if it compiled.
#[derive(Clone, Debug, PartialEq, Eq)]
pub struct Reload {
    pub shader: String,
    pub diagnostic: Option<String>,
}

/// The mathematical value of a [`Reload`].
pub struct ReloadView {
    pub shader: Seq<char>,
    pub compiled: bool,
}

impl View for Reload {
    type V = ReloadView;

    open spec fn view(&self) -> ReloadView {
        ReloadView { shader: self.shader@, compiled: self.diagnostic is None }
    }
}

/// The handles of a display stage, the image it shows and the compute stage
/// that writes the image.
#[derive(Clone, Copy, Debug, PartialEq, Eq, Structural)]
pub struct Renderer {
    pub pipeline: u64,
    pub shader: u64,
    pub target_format: TextureFormat,
    pub vertex_buffer: u64,
    pub index_buffer: u64,
    pub texture: Texture,
    pub texture_bind_group: u64,
    /// The view that the bind group binds at slot 0.
    pub bound_view: u64,
    /// The sampler that the bind group binds at slot 1.
    pub bound_sampler: u64,
    pub compute: Compute,
}

impl Renderer {
    /// Whether a viewport of `width` by `height` differs from the image.
    pub open spec fn needs_resize(self, width: u32, height: u32) -> bool {
        self.texture.width != width || self.texture.height != height
    }

    /// How many handles `check_resize` takes for such a viewport.
    pub open spec fn resize_handles(self, width: u32, height: u32) -> nat {
        if self.needs_resize(width, height) {
            7
        } else {
            0
        }
    }

    /// How many handles `prepare` takes for such a viewport.
    pub open spec fn prepare_handles(self, width: u32, height: u32) -> nat {
        if self.needs_resize(width, height) {
            11
        } else {
            0
        }
    }

    /// The stage after `check_resize`, when `first` was the next handle. With
    /// a new size the image, the bind group and the pipeline are new; the
    /// compute stage is not touched.
    pub open spec fn resized(self, width: u32, height: u32, first: u64) -> Renderer {
        if self.needs_resize(width, height) {
            let texture = Texture::fresh(
                width,
                height,
                self.texture.format,
                self.texture.usage,
                first,
            );
            Renderer {
                texture,
                texture_bind_group: (first + 4) as u64,
                bound_view: texture.view,
                bound_sampler: texture.sampler,
                pipeline: (first + 6) as u64,
                ..self
            }
        } else {
            self
        }
    }

    /// The commands of `check_resize`: none if the size is the same; else the
    /// new image, what makes it drawable, and then the old pipeline, bind
    /// group and image are let go.
    pub open spec fn resize_commands(self, width: u32, height: u32, first: u64) -> Seq<
        CommandView,
    > {
        if self.needs_resize(width, height) {
            let after = self.resized(width, height, first);
            after.texture.creation() + sampling_commands(
                (first + 3) as u64,
                after.texture,
                self.shader,
                self.target_format,
            ) + seq![
                CommandView::Release { id: self.pipeline },
                CommandView::Release { id: self.texture_bind_group },
            ] + self.texture.disposal()
        } else {
            Seq::empty()
        }
    }

    /// The stage after `prepare`, when `first` was the next handle.
    pub open spec fn prepared(self, width: u32, height: u32, t: u32, first: u64) -> Renderer {
        let after = self.resized(width, height, first);
        if self.needs_resize(width, height) {
            Renderer {
                compute: after.compute.retargeted(after.texture, (first + 7) as u64).with_size(
                    width,
                    height,
                ).with_time(t),
                ..after
            }
        } else {
            Renderer { compute: self.compute.with_time(t), ..self }
        }
    }

    /// The commands of `prepare`, in order: the resize if there is one, then
    /// the compute stage is pointed at the new image and told its size, then
    /// the time is written, and last comes the dispatch.
    pub open spec fn prepare_commands(self, width: u32, height: u32, t: u32, first: u64) -> Seq<
        CommandView,
    > {
        let after = self.prepared(width, height, t, first);
        let rebind = if self.needs_resize(width, height) {
            self.resize_commands(width, height, first) + self.compute.retarget_commands(
                after.texture,
                (first + 7) as u64,
            ) + seq![
                CommandView::WriteBuffer {
                    buffer: self.compute.data_buffer,
                    offset: crate::compute::SIZE_OFFSET,
                    data: Payload::Words(seq![width, height]),
                },
            ]
        } else {
            Seq::empty()
        };
        rebind + seq![
            CommandView::WriteBuffer {
                buffer: self.compute.data_buffer,
                offset: crate::compute::TIME_OFFSET,
                data: Payload::Words(seq![t]),
            },
            after.compute.dispatch(None),
        ]
    }

    /// How many handles a reload takes: three if the shader compiled.
    pub open spec fn reload_handles(reload: Option<ReloadView>) -> nat {
        match reload {
            Some(r) => if r.compiled {
                3
            } else {
                0
            },
            None => 0,
        }
    }

    /// The stage after the reload of a frame, if there was one, when `first`
    /// was the next handle.
    pub open spec fn reloaded(self, reload: Option<ReloadView>, first: u64) -> Renderer {
        match reload {
            Some(r) => Renderer { compute: self.compute.reload_outcome(r.compiled, first), ..self },
            None => self,
        }
    }

    /// The commands of the reload of a frame, if there was one.
    pub open spec fn reload_commands(self, reload: Option<ReloadView>, first: u64) -> Seq<
        CommandView,
    > {
        match reload {
            Some(r) => self.compute.reload_log(r.compiled, r.shader, first),
            None => Seq::empty(),
        }
    }

    /// The stage that `new` makes when `first` is the next handle.
    pub open spec fn fresh(target_format: TextureFormat, width: u32, height: u32, first: u64) -> Renderer {
        let texture = Texture::fresh(
            width,
            height,
            TextureFormat::Rgba8Unorm,
            display_usage(),
            first,
        );
        Renderer {
            texture,
            shader: (first + 3) as u64,
            vertex_buffer: (first + 4) as u64,
            index_buffer: (first + 5) as u64,
            texture_bind_group: (first + 7) as u64,
            bound_view: texture.view,
            bound_sampler: texture.sampler,
            pipeline: (first + 9) as u64,
            target_format,
            compute: Compute::fresh(texture, (first + 10) as u64),
        }
    }

    /// The commands that bring the stage into being: the image, the display
    /// shader, the quad, what makes the image drawable, and the compute
    /// stage over the same image.
    pub open spec fn creation(self, render_shader: Seq<char>, compute_shader: Seq<char>) -> Seq<
        CommandView,
    > {
        self.texture.creation() + seq![
            CommandView::CreateShaderModule { id: self.shader, source: render_shader },
            CommandView::CreateBufferInit {
                id: self.vertex_buffer,
                contents: Payload::Words(quad_vertices()),
                usage: vertex_usage(),
            },
            CommandView::CreateBufferInit {
                id: self.index_buffer,
                contents: Payload::Halfwords(quad_indices()),
                usage: index_usage(),
            },
        ] + sampling_commands(
            (self.index_buffer + 1) as u64,
            self.texture,
            self.shader,
            self.target_format,
        ) + self.compute.creation(self.texture, compute_shader)
    }

    /// Whether the bind group samples the image that the stage holds now.
    pub open spec fn samples_own_image(self) -> bool {
        self.bound_view == self.texture.view && self.bound_sampler == self.texture.sampler
    }

    /// Whether the compute stage writes the image that the stage holds now
    /// and knows its size.
    pub open spec fn coupled(self) -> bool {
        &&& self.compute.target == self.texture.view
        &&& self.compute.data.width == self.texture.width
        &&& self.compute.data.height == self.texture.height
    }

    /// Whether every handle of the stage is below `bound`.
    pub open spec fn issued_below(self, bound: u64) -> bool {
        &&& self.pipeline < bound
        &&& self.shader < bound
        &&& self.vertex_buffer < bound
        &&& self.index_buffer < bound
        &&& self.texture_bind_group < bound
        &&& self.bound_view < bound
        &&& self.bound_sampler < bound
        &&& self.texture.issued_below(bound)
        &&& self.compute.issued_below(bound)
    }

    /// What `paint` asks for: the pipeline, the bind group and the quad, six
    /// indices of 16 bits, one instance.
    pub open spec fn draw(self) -> DrawCall {
        DrawCall {
            pipeline: self.pipeline,
            bind_group: self.texture_bind_group,
            vertex_buffer: self.vertex_buffer,
            index_buffer: self.index_buffer,
            index_format: IndexFormat::Uint16,
            first_index: 0,
            index_count: INDEX_COUNT,
            base_vertex: 0,
            first_instance: 0,
            instance_count: 1,
        }
    }

    /// Makes `texture` drawable: a bind group that samples it and a render
    /// pipeline over that. Returns the bind group and the pipeline.
    fn bind_image(
        device: &mut Device,
        texture: &Texture,
        shader: u64,
        target: TextureFormat,
    ) -> (made: (u64, u64))
        requires
            old(device).has_room(4),
        ensures
            made.0 == old(device).next_id() + 1,
            made.1 == old(device).next_id() + 3,
            final(device).next_id() == old(device).next_id() + 4,
            final(device).pending() == old(device).pending() + sampling_commands(
                old(device).next_id(),
                *texture,
                shader,
                target,
            ),
    {
        let slots = vec![
            BindGroupLayoutEntry {
                binding: 0,
                visibility: ShaderStage::Fragment,
                ty: texture.texture_binding_type(),
            },
            BindGroupLayoutEntry {
                binding: 1,
                visibility: ShaderStage::Fragment,
                ty: texture.sampler_binding_type(),
            },
        ];
        assert(slots@ =~= seq![
            BindGroupLayoutEntry {
                binding: 0,
                visibility: ShaderStage::Fragment,
                ty: sampled_texture_binding(),
            },
            BindGroupLayoutEntry {
                binding: 1,
                visibility: ShaderStage::Fragment,
                ty: sampler_binding(),
            },
        ]);
        let layout = device.create_bind_group_layout(slots);
        let entries = vec![
            BindGroupEntry { binding: 0, resource: texture.texture_binding_resource() },
            BindGroupEntry { binding: 1, resource: texture.sampler_binding_resource() },
        ];
        assert(entries@ =~= seq![
            BindGroupEntry { binding: 0, resource: BindingResource::TextureView(texture.view) },
            BindGroupEntry { binding: 1, resource: BindingResource::Sampler(texture.sampler) },
        ]);
        let bind_group = device.create_bind_group(layout, entries);
        let layouts = vec![layout];
        assert(layouts@ =~= seq![layout]);
        let pipeline_layout = device.create_pipeline_layout(layouts);
        let pipeline = device.create_render_pipeline(
            pipeline_layout,
            shader,
            String::from_str("vs_main"),
            String::from_str("fs_main"),
            Vertex::desc(),
            target,
        );
        device.release(pipeline_layout);
        device.release(layout);
        assert(device.pending() =~= old(device).pending() + sampling_commands(
            old(device).next_id(),
            *texture,
            shader,
            target,
        ));
        (bind_group, pipeline)
    }

    /// Builds the display stage for a surface of format `target_format` and a
    /// viewport of `dim[0]` by `dim[1]`: the image, the quad, the bind group
    /// and pipeline that draw the image, and a compute stage that writes the
    /// same image with the shader `compute_shader`.
    pub fn new(
        device: &mut Device,
        target_format: TextureFormat,
        dim: [u32; 2],
        render_shader: &str,
        compute_shader: &str,
    ) -> (renderer: Renderer)
        requires
            old(device).has_room(18),
        ensures
            renderer == Renderer::fresh(target_format, dim[0], dim[1], old(device).next_id()),
            final(device).next_id() == old(device).next_id() + 18,
            final(device).pending() == old(device).pending() + renderer.creation(
                render_shader@,
                compute_shader@,
            ),
            renderer.samples_own_image(),
            renderer.coupled(),
            renderer.issued_below(final(device).next_id()),
    {
        let texture = Texture::new(
            dim[0],
            dim[1],
            TextureFormat::Rgba8Unorm,
            device,
            TextureUsages {
                copy_src: false,
                copy_dst: false,
                texture_binding: true,
                storage_binding: true,
            },
        );
        let shader = device.create_shader_module(String::from_str(render_shader));
        let vertices = vec![
            ONE, ONE, ZERO,
            MINUS_ONE, ONE, ZERO,
            MINUS_ONE, MINUS_ONE, ZERO,
            ONE, MINUS_ONE, ZERO,
        ];
        assert(vertices@ =~= quad_vertices());
        let vertex_buffer = device.create_buffer_init(
            vertices,
            BufferUsages {
                map_read: false,
                copy_dst: false,
                index: false,
                vertex: true,
                uniform: false,
            },
        );
        let indices = vec![0u16, 1u16, 2u16, 0u16, 2u16, 3u16];
        assert(indices@ =~= quad_indices());
        let index_buffer = device.create_buffer_init_u16(
            indices,
            BufferUsages {
                map_read: false,
                copy_dst: false,
                index: true,
                vertex: false,
                uniform: false,
            },
        );
        let (texture_bind_group, pipeline) = Self::bind_image(
            device,
            &texture,
            shader,
            target_format,
        );
        let compute = Compute::new(device, &texture, compute_shader);
        let renderer = Renderer {
            pipeline,
            shader,
            target_format,
            vertex_buffer,
            index_buffer,
            texture,
            texture_bind_group,
            bound_view: texture.view,
            bound_sampler: texture.sampler,
            compute,
        };
        assert(device.pending() =~= old(device).pending() + renderer.creation(
            render_shader@,
            compute_shader@,
        ));
        renderer
    }

    /// Compares the image with the viewport `dim`. If they differ in width or
    /// in height, a new image of the viewport's size replaces the old one,
    /// with a new bind group and pipeline over it, and the result is `true`.
    /// If not, nothing happens and the result is `false`.
    pub fn check_resize(&mut self, device: &mut Device, dim: [u32; 2]) -> (changed: bool)
        requires
            old(device).has_room(old(self).resize_handles(dim[0], dim[1])),
        ensures
            changed == old(self).needs_resize(dim[0], dim[1]),
            *final(self) == old(self).resized(dim[0], dim[1], old(device).next_id()),
            final(device).next_id() == old(device).next_id() + old(self).resize_handles(
                dim[0],
                dim[1],
            ),
            final(device).pending() == old(device).pending() + old(self).resize_commands(
                dim[0],
                dim[1],
                old(device).next_id(),
            ),
            old(self).samples_own_image() ==> final(self).samples_own_image(),
    {
        if self.texture.width != dim[0] || self.texture.height != dim[1] {
            let texture = Texture::new(
                dim[0],
                dim[1],
                self.texture.format,
                device,
                self.texture.usage,
            );
            let (texture_bind_group, pipeline) = Self::bind_image(
                device,
                &texture,
                self.shader,
                self.target_format,
            );
            device.release(self.pipeline);
            device.release(self.texture_bind_group);
            self.texture.release(device);
            self.texture = texture;
            self.texture_bind_group = texture_bind_group;
            self.bound_view = texture.view;
            self.bound_sampler = texture.sampler;
            self.pipeline = pipeline;
            assert(device.pending() =~= old(device).pending() + old(self).resize_commands(
                dim[0],
                dim[1],
                old(device).next_id(),
            ));
            return true;
        }
        assert(device.pending() =~= old(device).pending() + old(self).resize_commands(
            dim[0],
            dim[1],
            old(device).next_id(),
        ));
        false
    }

    /// Gets one frame ready for the viewport `dim` at time `t`, a
    /// single-precision number of seconds given as its bit pattern.
    ///
    /// A new viewport size is dealt with before anything runs: the image is
    /// replaced, the compute stage is pointed at the new image and told the
    /// new size. Then the time is written and the compute stage runs once.
    pub fn prepare(&mut self, device: &mut Device, dim: [u32; 2], t: u32)
        requires
            old(device).has_room(old(self).prepare_handles(dim[0], dim[1])),
        ensures
            *final(self) == old(self).prepared(dim[0], dim[1], t, old(device).next_id()),
            final(device).next_id() == old(device).next_id() + old(self).prepare_handles(
                dim[0],
                dim[1],
            ),
            final(device).pending() == old(device).pending() + old(self).prepare_commands(
                dim[0],
                dim[1],
                t,
                old(device).next_id(),
            ),
            old(self).samples_own_image() ==> final(self).samples_own_image(),
            old(self).coupled() ==> final(self).coupled(),
    {
        if self.check_resize(device, dim) {
            let texture = self.texture;
            self.compute.update_texture(device, &texture);
            self.compute.update_texture_size(device, [texture.width, texture.height]);
        }
        self.compute.update_time(device, t);
        self.compute.step(device, None);
        assert(device.pending() =~= old(device).pending() + old(self).prepare_commands(
            dim[0],
            dim[1],
            t,
            old(device).next_id(),
        ));
    }

    /// One whole frame: first the reload, if the host tried one, then
    /// `prepare`. The result is the line to log if the reload failed.
    ///
    /// A reload that failed leaves the frame exactly as it would have been
    /// without it.
    pub fn frame(
        &mut self,
        device: &mut Device,
        reload: Option<Reload>,
        dim: [u32; 2],
        t: u32,
    ) -> (complaint: Option<String>)
        requires
            old(device).has_room(
                Renderer::reload_handles(
                    match reload {
                        Some(r) => Some(r@),
                        None => None,
                    },
                ) + old(self).prepare_handles(dim[0], dim[1]),
            ),
        ensures
            ({
                let tried = match reload {
                    Some(r) => Some(r@),
                    None => None,
                };
                let first = old(device).next_id();
                let then = (first + Renderer::reload_handles(tried)) as u64;
                &&& *final(self) == old(self).reloaded(tried, first).prepared(
                    dim[0],
                    dim[1],
                    t,
                    then,
                )
                &&& final(device).next_id() == then + old(self).prepare_handles(dim[0], dim[1])
                &&& final(device).pending() == old(device).pending() + old(self).reload_commands(
                    tried,
                    first,
                ) + old(self).reloaded(tried, first).prepare_commands(dim[0], dim[1], t, then)
            }),
            match reload {
                Some(Reload { diagnostic: Some(text), .. }) => complaint matches Some(line)
                    && line@ == "Error in compute shader!!:"@ + text@,
                _ => complaint is None,
            },
    {
        let complaint = match reload {
            Some(Reload { shader, diagnostic }) => self.compute.reload_shader(
                device,
                shader.as_str(),
                diagnostic,
            ),
            None => None,
        };
        self.prepare(device, dim, t);
        complaint
    }

    /// The draw that shows the image: the quad, drawn with six indices.
    pub fn paint(&self) -> (call: DrawCall)
        ensures
            call == self.draw(),
    {
        DrawCall {
            pipeline: self.pipeline,
            bind_group: self.texture_bind_group,
            vertex_buffer: self.vertex_buffer,
            index_buffer: self.index_buffer,
            index_format: IndexFormat::Uint16,
            first_index: 0,
            index_count: INDEX_COUNT,
            base_vertex: 0,
            first_instance: 0,
            instance_count: 1,
        }
    }

    /// The stage after one `check_resize` for each viewport of `dims`, in
    /// order, when `first` was the next handle before the first of them.
    pub open spec fn after_resizes(self, dims: Seq<(u32, u32)>, first: u64) -> Renderer
        decreases dims.len(),
    {
        if dims.len() == 0 {
            self
        } else {
            self.resized(dims[0].0, dims[0].1, first).after_resizes(
                dims.drop_first(),
                (first + self.resize_handles(dims[0].0, dims[0].1)) as u64,
            )
        }
    }
}

/// A change of viewport size is reported exactly once: `check_resize` says
/// `true` if and only if the viewport differs from the image in width or in
/// height, and asked again for the same viewport it finds nothing to do.
pub proof fn resize_is_reported_once(
    stage: Renderer,
    width: u32,
    height: u32,
    first: u64,
    again: u64,
)
    ensures
        stage.needs_resize(width, height) <==> (stage.texture.width, stage.texture.height) != (
            width,
            height,
        ),
        !stage.resized(width, height, first).needs_resize(width, height),
        stage.resized(width, height, first).resized(width, height, again) == stage.resized(
            width,
            height,
            first,
        ),
        stage.resized(width, height, first).resize_commands(width, height, again)
            == Seq::<CommandView>::empty(),
        !stage.needs_resize(width, height) ==> stage.resized(width, height, first) == stage,
{
}

/// After a resize the bind group samples the image that was just made and
/// no object of the old image: the new image, the bind group and the
/// pipeline have handles that did not exist before, and the bind group was
/// created over the new view and the new sampler.
pub proof fn resize_binds_the_new_image(stage: Renderer, width: u32, height: u32, first: u64)
    requires
        stage.issued_below(first),
        first + 7 <= u64::MAX,
        stage.needs_resize(width, height),
    ensures
        stage.resized(width, height, first).samples_own_image(),
        stage.resized(width, height, first).texture.issued_from(first),
        stage.resized(width, height, first).texture_bind_group >= first,
        stage.resized(width, height, first).pipeline >= first,
        stage.resized(width, height, first).bound_view != stage.texture.view,
        stage.resized(width, height, first).bound_sampler != stage.texture.sampler,
        stage.resized(width, height, first).texture.width == width,
        stage.resized(width, height, first).texture.height == height,
        stage.resized(width, height, first).issued_below((first + 7) as u64),
        stage.resize_commands(width, height, first).contains(
            CommandView::CreateBindGroup {
                id: stage.resized(width, height, first).texture_bind_group,
                layout: (first + 3) as u64,
                entries: seq![
                    BindGroupEntry {
                        binding: 0,
                        resource: BindingResource::TextureView(
                            stage.resized(width, height, first).texture.view,
                        ),
                    },
                    BindGroupEntry {
                        binding: 1,
                        resource: BindingResource::Sampler(
                            stage.resized(width, height, first).texture.sampler,
                        ),
                    },
                ],
            },
        ),
{
    let commands = stage.resize_commands(width, height, first);
    assert(commands[4] == CommandView::CreateBindGroup {
        id: stage.resized(width, height, first).texture_bind_group,
        layout: (first + 3) as u64,
        entries: seq![
            BindGroupEntry {
                binding: 0,
                resource: BindingResource::TextureView(
                    stage.resized(width, height, first).texture.view,
                ),
            },
            BindGroupEntry {
                binding: 1,
                resource: BindingResource::Sampler(
                    stage.resized(width, height, first).texture.sampler,
                ),
            },
        ],
    });
}

/// However many viewports follow one another, the bind group samples the
/// image that the stage holds at the end, every handle of the stage was
/// issued by then, and the image has the size of the last viewport.
pub proof fn bind_group_follows_every_resize(stage: Renderer, dims: Seq<(u32, u32)>, first: u64)
    requires
        stage.samples_own_image(),
        stage.issued_below(first),
        first + 7 * dims.len() <= u64::MAX,
    ensures
        stage.after_resizes(dims, first).samples_own_image(),
        stage.after_resizes(dims, first).issued_below((first + 7 * dims.len()) as u64),
        dims.len() > 0 ==> stage.after_resizes(dims, first).texture.width == dims.last().0
            && stage.after_resizes(dims, first).texture.height == dims.last().1,
    decreases dims.len(),
{
    if dims.len() > 0 {
        let next = stage.resized(dims[0].0, dims[0].1, first);
        let taken = stage.resize_handles(dims[0].0, dims[0].1);
        let rest = dims.drop_first();
        bind_group_follows_every_resize(next, rest, (first + taken) as u64);
        if rest.len() > 0 {
            assert(rest.last() == dims.last());
        }
    }
}

/// After `prepare` the compute stage writes the image that the display
/// stage samples, and its uniform data holds the size of that image: the
/// dispatch that closes the frame covers the image exactly, one workgroup
/// per pixel.
pub proof fn prepare_couples_the_stages(
    stage: Renderer,
    width: u32,
    height: u32,
    t: u32,
    first: u64,
)
    requires
        stage.samples_own_image(),
        stage.coupled(),
    ensures
        stage.prepared(width, height, t, first).samples_own_image(),
        stage.prepared(width, height, t, first).coupled(),
        stage.prepared(width, height, t, first).texture.width == width,
        stage.prepared(width, height, t, first).texture.height == height,
        stage.prepared(width, height, t, first).compute.data.t == t,
        stage.prepare_commands(width, height, t, first).last() == stage.prepared(
            width,
            height,
            t,
            first,
        ).compute.dispatch(None),
        stage.prepared(width, height, t, first).compute.dispatch(None) matches CommandView::Dispatch {
            x,
            y,
            z,
            ..
        } && x == width && y == height && z == 1,
{
}

/// A reload whose shader does not compile leaves the frame alone: the stage
/// ends up as it would have without the reload, no handle is taken for it,
/// and the commands of the frame are the same, the dispatch among them.
pub proof fn failed_reload_leaves_the_frame_alone(
    stage: Renderer,
    shader: Seq<char>,
    width: u32,
    height: u32,
    t: u32,
    first: u64,
)
    ensures
        ({
            let failed = Some(ReloadView { shader, compiled: false });
            &&& Renderer::reload_handles(failed) == 0
            &&& stage.reloaded(failed, first) == stage
            &&& stage.reload_commands(failed, first) == Seq::<CommandView>::empty()
            &&& stage.reloaded(failed, first).prepared(width, height, t, first) == stage.prepared(
                width,
                height,
                t,
                first,
            )
            &&& stage.reload_commands(failed, first) + stage.reloaded(
                failed,
                first,
            ).prepare_commands(width, height, t, first) =~= stage.prepare_commands(
                width,
                height,
                t,
                first,
            )
        }),
{
}

/// A frame is idempotent: prepared again for the same viewport and time, the
/// stage does not change, takes no handle, and records only the write of
/// the time and the dispatch.
pub proof fn prepare_is_idempotent(
    stage: Renderer,
    width: u32,
    height: u32,
    t: u32,
    first: u64,
    again: u64,
)
    ensures
        stage.prepared(width, height, t, first).prepared(width, height, t, again)
            == stage.prepared(width, height, t, first),
        stage.prepared(width, height, t, first).prepare_handles(width, height) == 0,
        stage.prepared(width, height, t, first).prepare_commands(width, height, t, again)
            =~= seq![
            CommandView::WriteBuffer {
                buffer: stage.compute.data_buffer,
                offset: crate::compute::TIME_OFFSET,
                data: Payload::Words(seq![t]),
            },
            stage.prepared(width, height, t, first).compute.dispatch(None),
        ],
{
}

} // verus!
