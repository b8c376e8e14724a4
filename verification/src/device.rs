//! The vocabulary in which GPU work is described, and the recorder that keeps
//! it in order.
//!
//! Every GPU object is known to the library by a handle, a number that the
//! [`Device`] issues exactly once. A handle is issued together with the command
//! that creates the object, so the host can build the object when it replays
//! the command and find it again by the same number later.

use vstd::prelude::*;

verus! {

/// Layout of the texels of an image.
#[derive(Clone, Copy, Debug, PartialEq, Eq, Structural)]
pub enum TextureFormat {
    Rgba8Unorm,
    Rgba8UnormSrgb,
    Bgra8Unorm,
    Bgra8UnormSrgb,
}

/// Number of dimensions of a texture or of a view of it.
#[derive(Clone, Copy, Debug, PartialEq, Eq, Structural)]
pub enum TextureDimension {
    D1,
    D2,
    D3,
}

/// What a texture may be used for.
#[derive(Clone, Copy, Debug, PartialEq, Eq, Structural)]
pub struct TextureUsages {
    pub copy_src: bool,
    pub copy_dst: bool,
    pub texture_binding: bool,
    pub storage_binding: bool,
}

/// What a buffer may be used for.
#[derive(Clone, Copy, Debug, PartialEq, Eq, Structural)]
pub struct BufferUsages {
    pub map_read: bool,
    pub copy_dst: bool,
    pub index: bool,
    pub vertex: bool,
    pub uniform: bool,
}

/// Everything that is fixed when a texture is created.
#[derive(Clone, Copy, Debug, PartialEq, Eq, Structural)]
pub struct TextureDescriptor {
    pub width: u32,
    pub height: u32,
    pub depth_or_array_layers: u32,
    pub mip_level_count: u32,
    pub sample_count: u32,
    pub dimension: TextureDimension,
    pub format: TextureFormat,
    pub usage: TextureUsages,
}

/// How texture coordinates outside the unit square are treated.
#[derive(Clone, Copy, Debug, PartialEq, Eq, Structural)]
pub enum AddressMode {
    ClampToEdge,
    Repeat,
    MirrorRepeat,
}

/// How texels are picked when an image is scaled.
#[derive(Clone, Copy, Debug, PartialEq, Eq, Structural)]
pub enum FilterMode {
    Nearest,
    Linear,
}

/// Everything that is fixed when a sampler is created.
#[derive(Clone, Copy, Debug, PartialEq, Eq, Structural)]
pub struct SamplerDescriptor {
    pub address_mode_u: AddressMode,
    pub address_mode_v: AddressMode,
    pub address_mode_w: AddressMode,
    pub mag_filter: FilterMode,
    pub min_filter: FilterMode,
    pub mipmap_filter: FilterMode,
}

/// The shader stage that sees a binding.
#[derive(Clone, Copy, Debug, PartialEq, Eq, Structural)]
pub enum ShaderStage {
    Vertex,
    Fragment,
    Compute,
}

/// What a shader may do with a storage image.
#[derive(Clone, Copy, Debug, PartialEq, Eq, Structural)]
pub enum StorageTextureAccess {
    WriteOnly,
    ReadOnly,
    ReadWrite,
}

/// How a sampler may be used by a shader.
#[derive(Clone, Copy, Debug, PartialEq, Eq, Structural)]
pub enum SamplerBindingType {
    Filtering,
    NonFiltering,
    Comparison,
}

/// The kind of object that a slot of a bind group layout takes.
#[derive(Clone, Copy, Debug, PartialEq, Eq, Structural)]
pub enum BindingType {
    /// A uniform buffer.
    UniformBuffer { has_dynamic_offset: bool },
    /// A sampler.
    Sampler(SamplerBindingType),
    /// A texture that is sampled as floating point.
    Texture { filterable: bool, view_dimension: TextureDimension, multisampled: bool },
    /// An image that a shader accesses texel by texel.
    StorageTexture {
        access: StorageTextureAccess,
        format: TextureFormat,
        view_dimension: TextureDimension,
    },
}

/// One slot of a bind group layout.
#[derive(Clone, Copy, Debug, PartialEq, Eq, Structural)]
pub struct BindGroupLayoutEntry {
    pub binding: u32,
    pub visibility: ShaderStage,
    pub ty: BindingType,
}

/// The object that fills a slot of a bind group, by its handle.
#[derive(Clone, Copy, Debug, PartialEq, Eq, Structural)]
pub enum BindingResource {
    /// A whole buffer.
    Buffer(u64),
    /// A sampler.
    Sampler(u64),
    /// A view of a texture.
    TextureView(u64),
}

/// One filled slot of a bind group.
#[derive(Clone, Copy, Debug, PartialEq, Eq, Structural)]
pub struct BindGroupEntry {
    pub binding: u32,
    pub resource: BindingResource,
}

/// The type of one vertex attribute.
#[derive(Clone, Copy, Debug, PartialEq, Eq, Structural)]
pub enum VertexFormat {
    Float32x2,
    Float32x3,
    Float32x4,
}

/// Whether a vertex buffer advances per vertex or per instance.
#[derive(Clone, Copy, Debug, PartialEq, Eq, Structural)]
pub enum VertexStepMode {
    Vertex,
    Instance,
}

/// One attribute of a vertex, as the vertex shader receives it.
#[derive(Clone, Copy, Debug, PartialEq, Eq, Structural)]
pub struct VertexAttribute {
    pub format: VertexFormat,
    pub offset: u64,
    pub shader_location: u32,
}

/// The type of the entries of an index buffer.
#[derive(Clone, Copy, Debug, PartialEq, Eq, Structural)]
pub enum IndexFormat {
    Uint16,
    Uint32,
}

/// A size in texels.
#[derive(Clone, Copy, Debug, PartialEq, Eq, Structural)]
pub struct Extent3d {
    pub width: u32,
    pub height: u32,
    pub depth_or_array_layers: u32,
}

/// Where in a buffer the rows of a copied image go.
#[derive(Clone, Copy, Debug, PartialEq, Eq, Structural)]
pub struct ImageCopyBuffer {
    pub buffer: u64,
    pub offset: u64,
    pub bytes_per_row: u32,
    pub rows_per_image: u32,
}

/// A copy of a texture into a buffer, made after a dispatch and before the
/// work is submitted.
#[derive(Clone, Copy, Debug, PartialEq, Eq, Structural)]
pub struct TextureCopy {
    pub texture: u64,
    pub buffer: ImageCopyBuffer,
    pub size: Extent3d,
}

/// How the bytes of a vertex buffer are cut into vertices.
#[derive(Clone, Debug, PartialEq, Eq)]
pub struct VertexBufferLayout {
    pub array_stride: u64,
    pub step_mode: VertexStepMode,
    pub attributes: Vec<VertexAttribute>,
}

/// The mathematical value of a [`VertexBufferLayout`].
pub struct VertexBufferLayoutView {
    pub array_stride: u64,
    pub step_mode: VertexStepMode,
    pub attributes: Seq<VertexAttribute>,
}

impl View for VertexBufferLayout {
    type V = VertexBufferLayoutView;

    open spec fn view(&self) -> VertexBufferLayoutView {
        VertexBufferLayoutView {
            array_stride: self.array_stride,
            step_mode: self.step_mode,
            attributes: self.attributes@,
        }
    }
}

/// One request to the GPU. The host replays the requests in the order in
/// which they were recorded.
#[derive(Clone, Debug, PartialEq, Eq)]
pub enum Command {
    /// Create a texture and know it as `id`.
    CreateTexture { id: u64, desc: TextureDescriptor },
    /// Create the default view of the texture `texture`.
    CreateTextureView { id: u64, texture: u64 },
    /// Create a sampler.
    CreateSampler { id: u64, desc: SamplerDescriptor },
    /// Create a buffer of `size` bytes whose contents are not set.
    CreateBuffer { id: u64, size: u64, usage: BufferUsages },
    /// Create a buffer that holds `contents`.
    CreateBufferInit { id: u64, contents: Vec<u8>, usage: BufferUsages },
    /// Compile the shader that the catalog knows as `source`.
    CreateShaderModule { id: u64, source: String },
    /// Create a bind group layout with the given slots.
    CreateBindGroupLayout { id: u64, entries: Vec<BindGroupLayoutEntry> },
    /// Create a bind group that fills the slots of `layout`.
    CreateBindGroup { id: u64, layout: u64, entries: Vec<BindGroupEntry> },
    /// Create a pipeline layout; group `i` has the layout `bind_group_layouts[i]`.
    CreatePipelineLayout { id: u64, bind_group_layouts: Vec<u64> },
    /// Create a compute pipeline that runs `entry_point` of `module`.
    CreateComputePipeline { id: u64, layout: u64, module: u64, entry_point: String },
    /// Create a render pipeline with one vertex buffer and one colour target.
    CreateRenderPipeline {
        id: u64,
        layout: u64,
        module: u64,
        vertex_entry_point: String,
        fragment_entry_point: String,
        buffer: VertexBufferLayout,
        target: TextureFormat,
    },
    /// Overwrite the bytes of `buffer` that start at `offset` with `data`.
    WriteBuffer { buffer: u64, offset: u64, data: Vec<u8> },
    /// Run one compute pass with group `i` bound to `bind_groups[i]`, then
    /// make the copy, if there is one, and submit both together.
    Dispatch { pipeline: u64, bind_groups: Vec<u64>, x: u32, y: u32, z: u32, copy: Option<TextureCopy> },
    /// Let go of the object `id`; no later command names it.
    Release { id: u64 },
}

/// What a buffer is filled with, before it is laid out as bytes.
pub enum Payload {
    /// Values of 32 bits, four bytes each.
    Words(Seq<u32>),
    /// Values of 16 bits, two bytes each.
    Halfwords(Seq<u16>),
}

/// What a [`Command`] asks for. Where the command carries bytes, this holds
/// the values that the bytes stand for.
pub enum CommandView {
    CreateTexture { id: u64, desc: TextureDescriptor },
    CreateTextureView { id: u64, texture: u64 },
    CreateSampler { id: u64, desc: SamplerDescriptor },
    CreateBuffer { id: u64, size: u64, usage: BufferUsages },
    CreateBufferInit { id: u64, contents: Payload, usage: BufferUsages },
    CreateShaderModule { id: u64, source: Seq<char> },
    CreateBindGroupLayout { id: u64, entries: Seq<BindGroupLayoutEntry> },
    CreateBindGroup { id: u64, layout: u64, entries: Seq<BindGroupEntry> },
    CreatePipelineLayout { id: u64, bind_group_layouts: Seq<u64> },
    CreateComputePipeline { id: u64, layout: u64, module: u64, entry_point: Seq<char> },
    CreateRenderPipeline {
        id: u64,
        layout: u64,
        module: u64,
        vertex_entry_point: Seq<char>,
        fragment_entry_point: Seq<char>,
        buffer: VertexBufferLayoutView,
        target: TextureFormat,
    },
    WriteBuffer { buffer: u64, offset: u64, data: Payload },
    Dispatch { pipeline: u64, bind_groups: Seq<u64>, x: u32, y: u32, z: u32, copy: Option<TextureCopy> },
    Release { id: u64 },
}

/// The `k`-th base-256 digit of `value`, counted from the least significant.
pub open spec fn byte_of(value: int, k: int) -> u8 {
    if k <= 0 {
        (value % 256) as u8
    } else if k == 1 {
        ((value / 256) % 256) as u8
    } else if k == 2 {
        ((value / 65536) % 256) as u8
    } else {
        ((value / 16777216) % 256) as u8
    }
}

/// `values` laid out one after the other, `width` bytes each, least
/// significant byte first.
pub open spec fn little_endian(values: Seq<int>, width: int) -> Seq<u8> {
    Seq::new((values.len() * width) as nat, |i: int| byte_of(values[i / width], i % width))
}

/// `values` laid out one after the other, `width` bytes each, most
/// significant byte first.
pub open spec fn big_endian(values: Seq<int>, width: int) -> Seq<u8> {
    Seq::new(
        (values.len() * width) as nat,
        |i: int| byte_of(values[i / width], width - 1 - i % width),
    )
}

/// Whether `bytes` is `values` as a machine keeps them in memory: in one of
/// the two byte orders.
pub open spec fn in_memory(values: Seq<int>, width: int, bytes: Seq<u8>) -> bool {
    bytes == little_endian(values, width) || bytes == big_endian(values, width)
}

impl Payload {
    /// Whether `bytes` is this payload as the machine keeps it in memory.
    pub open spec fn laid_out_as(self, bytes: Seq<u8>) -> bool {
        match self {
            Payload::Words(words) => in_memory(words.map_values(|w: u32| w as int), 4, bytes),
            Payload::Halfwords(halfwords) => in_memory(
                halfwords.map_values(|h: u16| h as int),
                2,
                bytes,
            ),
        }
    }
}

impl CommandView {
    /// Whether `command` asks for exactly this.
    pub open spec fn encoded_by(self, command: Command) -> bool {
        match (self, command) {
            (
                CommandView::CreateTexture { id, desc },
                Command::CreateTexture { id: i, desc: d },
            ) => id == i && desc == d,
            (
                CommandView::CreateTextureView { id, texture },
                Command::CreateTextureView { id: i, texture: t },
            ) => id == i && texture == t,
            (
                CommandView::CreateSampler { id, desc },
                Command::CreateSampler { id: i, desc: d },
            ) => id == i && desc == d,
            (
                CommandView::CreateBuffer { id, size, usage },
                Command::CreateBuffer { id: i, size: s, usage: u },
            ) => id == i && size == s && usage == u,
            (
                CommandView::CreateBufferInit { id, contents, usage },
                Command::CreateBufferInit { id: i, contents: c, usage: u },
            ) => id == i && contents.laid_out_as(c@) && usage == u,
            (
                CommandView::CreateShaderModule { id, source },
                Command::CreateShaderModule { id: i, source: s },
            ) => id == i && source == s@,
            (
                CommandView::CreateBindGroupLayout { id, entries },
                Command::CreateBindGroupLayout { id: i, entries: e },
            ) => id == i && entries == e@,
            (
                CommandView::CreateBindGroup { id, layout, entries },
                Command::CreateBindGroup { id: i, layout: l, entries: e },
            ) => id == i && layout == l && entries == e@,
            (
                CommandView::CreatePipelineLayout { id, bind_group_layouts },
                Command::CreatePipelineLayout { id: i, bind_group_layouts: b },
            ) => id == i && bind_group_layouts == b@,
            (
                CommandView::CreateComputePipeline { id, layout, module, entry_point },
                Command::CreateComputePipeline { id: i, layout: l, module: m, entry_point: e },
            ) => id == i && layout == l && module == m && entry_point == e@,
            (
                CommandView::CreateRenderPipeline {
                    id,
                    layout,
                    module,
                    vertex_entry_point,
                    fragment_entry_point,
                    buffer,
                    target,
                },
                Command::CreateRenderPipeline {
                    id: i,
                    layout: l,
                    module: m,
                    vertex_entry_point: v,
                    fragment_entry_point: f,
                    buffer: b,
                    target: t,
                },
            ) => id == i && layout == l && module == m && vertex_entry_point == v@
                && fragment_entry_point == f@ && buffer == b@ && target == t,
            (
                CommandView::WriteBuffer { buffer, offset, data },
                Command::WriteBuffer { buffer: b, offset: o, data: d },
            ) => buffer == b && offset == o && data.laid_out_as(d@),
            (
                CommandView::Dispatch { pipeline, bind_groups, x, y, z, copy },
                Command::Dispatch { pipeline: p, bind_groups: b, x: cx, y: cy, z: cz, copy: c },
            ) => pipeline == p && bind_groups == b@ && x == cx && y == cy && z == cz && copy == c,
            (CommandView::Release { id }, Command::Release { id: i }) => id == i,
            _ => false,
        }
    }
}

/// Whether `commands` asks, one by one and in the same order, for what
/// `views` lists.
pub open spec fn all_encoded(views: Seq<CommandView>, commands: Seq<Command>) -> bool {
    &&& views.len() == commands.len()
    &&& forall|i: int| 0 <= i < views.len() ==> (#[trigger] views[i]).encoded_by(commands[i])
}

/// The bytes of `words` as they lie in this machine's memory, made by
/// `bytemuck::cast_slice`, which reinterprets the slice without changing a
/// byte. The contract claims that each word gives four bytes, all words in
/// the same byte order, which is one of the two that exist.
#[verifier::external_body]
fn words_to_bytes(words: &Vec<u32>) -> (bytes: Vec<u8>)
    ensures
        in_memory(words@.map_values(|w: u32| w as int), 4, bytes@),
{
    bytemuck::cast_slice::<u32, u8>(words.as_slice()).to_vec()
}

/// The bytes of `halfwords` as they lie in this machine's memory, made by
/// `bytemuck::cast_slice`. The contract claims that each value gives two
/// bytes, all values in the same byte order, which is one of the two that
/// exist.
#[verifier::external_body]
fn halfwords_to_bytes(halfwords: &Vec<u16>) -> (bytes: Vec<u8>)
    ensures
        in_memory(halfwords@.map_values(|h: u16| h as int), 2, bytes@),
{
    bytemuck::cast_slice::<u16, u8>(halfwords.as_slice()).to_vec()
}

/// Issues handles and records commands.
///
/// A handle is a number, issued in increasing order and never twice. The
/// commands wait in the order in which they were recorded until the host
/// takes them.
pub struct Device {
    next: u64,
    commands: Vec<Command>,
    log: Ghost<Seq<CommandView>>,
}

impl Device {
    #[verifier::type_invariant]
    spec fn recorded_as_logged(self) -> bool {
        all_encoded(self.log@, self.commands@)
    }

    /// The handle that will be issued next; every handle issued so far is below it.
    pub closed spec fn next_id(&self) -> u64 {
        self.next
    }

    /// What the commands recorded and not yet taken ask for, oldest first.
    pub closed spec fn pending(&self) -> Seq<CommandView> {
        self.log@
    }

    /// Whether `count` more handles can be issued.
    pub open spec fn has_room(&self, count: nat) -> bool {
        self.next_id() + count <= u64::MAX
    }

    /// A device that has issued no handle and recorded no command.
    pub fn new() -> (device: Device)
        ensures
            device.next_id() == 0,
            device.pending() == Seq::<CommandView>::empty(),
    {
        Device { next: 0, commands: Vec::new(), log: Ghost(Seq::empty()) }
    }

    /// Tells whether `count` more handles can be issued.
    pub fn can_issue(&self, count: u64) -> (fits: bool)
        ensures
            fits == self.has_room(count as nat),
    {
        count <= u64::MAX - self.next
    }

    /// Hands the recorded commands to the host and starts an empty list.
    pub fn take_commands(&mut self) -> (taken: Vec<Command>)
        ensures
            all_encoded(old(self).pending(), taken@),
            final(self).pending() == Seq::<CommandView>::empty(),
            final(self).next_id() == old(self).next_id(),
    {
        let mut held = Device::new();
        std::mem::swap(self, &mut held);
        proof {
            use_type_invariant(&held);
        }
        let Device { next, commands, log } = held;
        *self = Device { next, commands: Vec::new(), log: Ghost(Seq::empty()) };
        commands
    }

    fn issue(&mut self) -> (id: u64)
        requires
            old(self).has_room(1),
        ensures
            id == old(self).next_id(),
            final(self).next_id() == id + 1,
            final(self).pending() == old(self).pending(),
    {
        let mut held = Device::new();
        std::mem::swap(self, &mut held);
        proof {
            use_type_invariant(&held);
        }
        let Device { next, commands, log } = held;
        *self = Device { next: next + 1, commands, log };
        next
    }

    fn record(&mut self, command: Command, Ghost(view): Ghost<CommandView>)
        requires
            view.encoded_by(command),
        ensures
            final(self).next_id() == old(self).next_id(),
            final(self).pending() == old(self).pending().push(view),
    {
        let mut held = Device::new();
        std::mem::swap(self, &mut held);
        proof {
            use_type_invariant(&held);
        }
        let Device { next, commands, log } = held;
        let mut commands = commands;
        commands.push(command);
        *self = Device { next, commands, log: Ghost(log@.push(view)) };
    }

    /// Records the creation of a texture and issues its handle.
    pub fn create_texture(&mut self, desc: TextureDescriptor) -> (id: u64)
        requires
            old(self).has_room(1),
        ensures
            id == old(self).next_id(),
            final(self).next_id() == id + 1,
            final(self).pending() == old(self).pending().push(
                CommandView::CreateTexture { id, desc },
            ),
    {
        let id = self.issue();
        let ghost view = CommandView::CreateTexture { id, desc };
        self.record(Command::CreateTexture { id, desc }, Ghost(view));
        id
    }

    /// Records the creation of the default view of `texture` and issues its handle.
    pub fn create_texture_view(&mut self, texture: u64) -> (id: u64)
        requires
            old(self).has_room(1),
        ensures
            id == old(self).next_id(),
            final(self).next_id() == id + 1,
            final(self).pending() == old(self).pending().push(
                CommandView::CreateTextureView { id, texture },
            ),
    {
        let id = self.issue();
        let ghost view = CommandView::CreateTextureView { id, texture };
        self.record(Command::CreateTextureView { id, texture }, Ghost(view));
        id
    }

    /// Records the creation of a sampler and issues its handle.
    pub fn create_sampler(&mut self, desc: SamplerDescriptor) -> (id: u64)
        requires
            old(self).has_room(1),
        ensures
            id == old(self).next_id(),
            final(self).next_id() == id + 1,
            final(self).pending() == old(self).pending().push(
                CommandView::CreateSampler { id, desc },
            ),
    {
        let id = self.issue();
        let ghost view = CommandView::CreateSampler { id, desc };
        self.record(Command::CreateSampler { id, desc }, Ghost(view));
        id
    }

    /// Records the creation of a buffer of `size` bytes and issues its handle.
    pub fn create_buffer(&mut self, size: u64, usage: BufferUsages) -> (id: u64)
        requires
            old(self).has_room(1),
        ensures
            id == old(self).next_id(),
            final(self).next_id() == id + 1,
            final(self).pending() == old(self).pending().push(
                CommandView::CreateBuffer { id, size, usage },
            ),
    {
        let id = self.issue();
        let ghost view = CommandView::CreateBuffer { id, size, usage };
        self.record(Command::CreateBuffer { id, size, usage }, Ghost(view));
        id
    }

    /// Records the creation of a buffer that holds `words` as they lie in
    /// memory, and issues its handle.
    pub fn create_buffer_init(&mut self, words: Vec<u32>, usage: BufferUsages) -> (id: u64)
        requires
            old(self).has_room(1),
        ensures
            id == old(self).next_id(),
            final(self).next_id() == id + 1,
            final(self).pending() == old(self).pending().push(
                CommandView::CreateBufferInit { id, contents: Payload::Words(words@), usage },
            ),
    {
        let id = self.issue();
        let contents = words_to_bytes(&words);
        let ghost view = CommandView::CreateBufferInit {
            id,
            contents: Payload::Words(words@),
            usage,
        };
        self.record(Command::CreateBufferInit { id, contents, usage }, Ghost(view));
        id
    }

    /// Records the creation of a buffer that holds the 16-bit values
    /// `halfwords` as they lie in memory, and issues its handle.
    pub fn create_buffer_init_u16(&mut self, halfwords: Vec<u16>, usage: BufferUsages) -> (id:
        u64)
        requires
            old(self).has_room(1),
        ensures
            id == old(self).next_id(),
            final(self).next_id() == id + 1,
            final(self).pending() == old(self).pending().push(
                CommandView::CreateBufferInit {
                    id,
                    contents: Payload::Halfwords(halfwords@),
                    usage,
                },
            ),
    {
        let id = self.issue();
        let contents = halfwords_to_bytes(&halfwords);
        let ghost view = CommandView::CreateBufferInit {
            id,
            contents: Payload::Halfwords(halfwords@),
            usage,
        };
        self.record(Command::CreateBufferInit { id, contents, usage }, Ghost(view));
        id
    }

    /// Records the compilation of the shader `source` and issues the handle of the module.
    pub fn create_shader_module(&mut self, source: String) -> (id: u64)
        requires
            old(self).has_room(1),
        ensures
            id == old(self).next_id(),
            final(self).next_id() == id + 1,
            final(self).pending() == old(self).pending().push(
                CommandView::CreateShaderModule { id, source: source@ },
            ),
    {
        let id = self.issue();
        let ghost view = CommandView::CreateShaderModule { id, source: source@ };
        self.record(Command::CreateShaderModule { id, source }, Ghost(view));
        id
    }

    /// Records the creation of a bind group layout and issues its handle.
    pub fn create_bind_group_layout(&mut self, entries: Vec<BindGroupLayoutEntry>) -> (id: u64)
        requires
            old(self).has_room(1),
        ensures
            id == old(self).next_id(),
            final(self).next_id() == id + 1,
            final(self).pending() == old(self).pending().push(
                CommandView::CreateBindGroupLayout { id, entries: entries@ },
            ),
    {
        let id = self.issue();
        let ghost view = CommandView::CreateBindGroupLayout { id, entries: entries@ };
        self.record(Command::CreateBindGroupLayout { id, entries }, Ghost(view));
        id
    }

    /// Records the creation of a bind group over `layout` and issues its handle.
    pub fn create_bind_group(&mut self, layout: u64, entries: Vec<BindGroupEntry>) -> (id: u64)
        requires
            old(self).has_room(1),
        ensures
            id == old(self).next_id(),
            final(self).next_id() == id + 1,
            final(self).pending() == old(self).pending().push(
                CommandView::CreateBindGroup { id, layout, entries: entries@ },
            ),
    {
        let id = self.issue();
        let ghost view = CommandView::CreateBindGroup { id, layout, entries: entries@ };
        self.record(Command::CreateBindGroup { id, layout, entries }, Ghost(view));
        id
    }

    /// Records the creation of a pipeline layout and issues its handle.
    pub fn create_pipeline_layout(&mut self, bind_group_layouts: Vec<u64>) -> (id: u64)
        requires
            old(self).has_room(1),
        ensures
            id == old(self).next_id(),
            final(self).next_id() == id + 1,
            final(self).pending() == old(self).pending().push(
                CommandView::CreatePipelineLayout { id, bind_group_layouts: bind_group_layouts@ },
            ),
    {
        let id = self.issue();
        let ghost view = CommandView::CreatePipelineLayout { id, bind_group_layouts: bind_group_layouts@ };
        self.record(Command::CreatePipelineLayout { id, bind_group_layouts }, Ghost(view));
        id
    }

    /// Records the creation of a compute pipeline and issues its handle.
    pub fn create_compute_pipeline(&mut self, layout: u64, module: u64, entry_point: String) -> (id: u64)
        requires
            old(self).has_room(1),
        ensures
            id == old(self).next_id(),
            final(self).next_id() == id + 1,
            final(self).pending() == old(self).pending().push(
                CommandView::CreateComputePipeline { id, layout, module, entry_point: entry_point@ },
            ),
    {
        let id = self.issue();
        let ghost view = CommandView::CreateComputePipeline { id, layout, module, entry_point: entry_point@ };
        self.record(Command::CreateComputePipeline { id, layout, module, entry_point }, Ghost(view));
        id
    }

    /// Records the creation of a render pipeline and issues its handle.
    pub fn create_render_pipeline(
        &mut self,
        layout: u64,
        module: u64,
        vertex_entry_point: String,
        fragment_entry_point: String,
        buffer: VertexBufferLayout,
        target: TextureFormat,
    ) -> (id: u64)
        requires
            old(self).has_room(1),
        ensures
            id == old(self).next_id(),
            final(self).next_id() == id + 1,
            final(self).pending() == old(self).pending().push(
                CommandView::CreateRenderPipeline {
                    id,
                    layout,
                    module,
                    vertex_entry_point: vertex_entry_point@,
                    fragment_entry_point: fragment_entry_point@,
                    buffer: buffer@,
                    target,
                },
            ),
    {
        let id = self.issue();
        let ghost view = CommandView::CreateRenderPipeline {
            id,
            layout,
            module,
            vertex_entry_point: vertex_entry_point@,
            fragment_entry_point: fragment_entry_point@,
            buffer: buffer@,
            target,
        };
        self.record(
            Command::CreateRenderPipeline {
                id,
                layout,
                module,
                vertex_entry_point,
                fragment_entry_point,
                buffer,
                target,
            },
            Ghost(view),
        );
        id
    }

    /// Records a write of `words`, as they lie in memory, into `buffer`,
    /// starting at byte `offset`.
    pub fn write_buffer(&mut self, buffer: u64, offset: u64, words: Vec<u32>)
        ensures
            final(self).next_id() == old(self).next_id(),
            final(self).pending() == old(self).pending().push(
                CommandView::WriteBuffer { buffer, offset, data: Payload::Words(words@) },
            ),
    {
        let data = words_to_bytes(&words);
        let ghost view = CommandView::WriteBuffer { buffer, offset, data: Payload::Words(words@) };
        self.record(Command::WriteBuffer { buffer, offset, data }, Ghost(view));
    }

    /// Records one compute pass over `x` by `y` by `z` workgroups, followed by
    /// `copy` if there is one, as a single submission.
    pub fn dispatch(
        &mut self,
        pipeline: u64,
        bind_groups: Vec<u64>,
        x: u32,
        y: u32,
        z: u32,
        copy: Option<TextureCopy>,
    )
        ensures
            final(self).next_id() == old(self).next_id(),
            final(self).pending() == old(self).pending().push(
                CommandView::Dispatch { pipeline, bind_groups: bind_groups@, x, y, z, copy },
            ),
    {
        let ghost view = CommandView::Dispatch {
            pipeline,
            bind_groups: bind_groups@,
            x,
            y,
            z,
            copy,
        };
        self.record(Command::Dispatch { pipeline, bind_groups, x, y, z, copy }, Ghost(view));
    }

    /// Records that the object `id` is no longer needed.
    pub fn release(&mut self, id: u64)
        ensures
            final(self).next_id() == old(self).next_id(),
            final(self).pending() == old(self).pending().push(CommandView::Release { id }),
    {
        let ghost view = CommandView::Release { id };
        self.record(Command::Release { id }, Ghost(view));
    }
}

} // verus!
