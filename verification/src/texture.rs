//! A two-dimensional image on the GPU together with its view and its sampler.
//!
//! The three objects are always made together and let go together. An image
//! is never resized in place: a new size means a new image.

use crate::device::AddressMode;
use crate::device::BindingResource;
use crate::device::BindingType;
use crate::device::CommandView;
use crate::device::Device;
use crate::device::FilterMode;
use crate::device::SamplerBindingType;
use crate::device::SamplerDescriptor;
use crate::device::StorageTextureAccess;
use crate::device::TextureDescriptor;
use crate::device::TextureDimension;
use crate::device::TextureFormat;
use crate::device::TextureUsages;
use vstd::prelude::*;

verus! {

/// An image, the default view of it and the sampler that reads it.
#[derive(Clone, Copy, Debug, PartialEq, Eq, Structural)]
pub struct Texture {
    pub width: u32,
    pub height: u32,
    pub format: TextureFormat,
    pub usage: TextureUsages,
    /// Handle of the image itself.
    pub inner: u64,
    /// Handle of the view of the image.
    pub view: u64,
    /// Handle of the sampler.
    pub sampler: u64,
}

/// The sampler of every image: coordinates wrap around and the nearest texel
/// is taken.
pub open spec fn sampler_descriptor() -> SamplerDescriptor {
    SamplerDescriptor {
        address_mode_u: AddressMode::Repeat,
        address_mode_v: AddressMode::Repeat,
        address_mode_w: AddressMode::Repeat,
        mag_filter: FilterMode::Nearest,
        min_filter: FilterMode::Nearest,
        mipmap_filter: FilterMode::Nearest,
    }
}

/// The slot type under which a fragment shader samples an image.
pub open spec fn sampled_texture_binding() -> BindingType {
    BindingType::Texture {
        filterable: true,
        view_dimension: TextureDimension::D2,
        multisampled: false,
    }
}

/// The slot type of the sampler of an image.
pub open spec fn sampler_binding() -> BindingType {
    BindingType::Sampler(SamplerBindingType::Filtering)
}

/// The slot type under which a compute shader writes an image of the given
/// format.
pub open spec fn storage_texture_binding(format: TextureFormat) -> BindingType {
    BindingType::StorageTexture {
        access: StorageTextureAccess::WriteOnly,
        format,
        view_dimension: TextureDimension::D2,
    }
}

impl Texture {
    /// What the image is created with: one layer, one mip level, one sample.
    pub open spec fn descriptor(&self) -> TextureDescriptor {
        TextureDescriptor {
            width: self.width,
            height: self.height,
            depth_or_array_layers: 1,
            mip_level_count: 1,
            sample_count: 1,
            dimension: TextureDimension::D2,
            format: self.format,
            usage: self.usage,
        }
    }

    /// The image that `new` makes when `first` is the next handle of the
    /// device: image, view and sampler take three handles in a row.
    pub open spec fn fresh(
        width: u32,
        height: u32,
        format: TextureFormat,
        usage: TextureUsages,
        first: u64,
    ) -> Texture {
        Texture {
            width,
            height,
            format,
            usage,
            inner: first,
            view: (first + 1) as u64,
            sampler: (first + 2) as u64,
        }
    }

    /// The commands that bring the image into being.
    pub open spec fn creation(&self) -> Seq<CommandView> {
        seq![
            CommandView::CreateTexture { id: self.inner, desc: self.descriptor() },
            CommandView::CreateTextureView { id: self.view, texture: self.inner },
            CommandView::CreateSampler { id: self.sampler, desc: sampler_descriptor() },
        ]
    }

    /// The commands that let the image go: what was made last goes first.
    pub open spec fn disposal(&self) -> Seq<CommandView> {
        seq![
            CommandView::Release { id: self.sampler },
            CommandView::Release { id: self.view },
            CommandView::Release { id: self.inner },
        ]
    }

    /// Whether every handle of the image is below `bound`.
    pub open spec fn issued_below(&self, bound: u64) -> bool {
        self.inner < bound && self.view < bound && self.sampler < bound
    }

    /// Whether none of the handles of the image is below `bound`.
    pub open spec fn issued_from(&self, bound: u64) -> bool {
        self.inner >= bound && self.view >= bound && self.sampler >= bound
    }

    /// Creates an image of the given size and format with its view and its
    /// sampler.
    pub fn new(
        width: u32,
        height: u32,
        format: TextureFormat,
        device: &mut Device,
        usage: TextureUsages,
    ) -> (texture: Texture)
        requires
            old(device).has_room(3),
        ensures
            texture == Texture::fresh(width, height, format, usage, old(device).next_id()),
            final(device).next_id() == old(device).next_id() + 3,
            final(device).pending() == old(device).pending() + texture.creation(),
    {
        let inner = device.create_texture(
            TextureDescriptor {
                width,
                height,
                depth_or_array_layers: 1,
                mip_level_count: 1,
                sample_count: 1,
                dimension: TextureDimension::D2,
                format,
                usage,
            },
        );
        let view = device.create_texture_view(inner);
        let sampler = device.create_sampler(
            SamplerDescriptor {
                address_mode_u: AddressMode::Repeat,
                address_mode_v: AddressMode::Repeat,
                address_mode_w: AddressMode::Repeat,
                mag_filter: FilterMode::Nearest,
                min_filter: FilterMode::Nearest,
                mipmap_filter: FilterMode::Nearest,
            },
        );
        let texture = Texture { width, height, format, usage, inner, view, sampler };
        assert(device.pending() =~= old(device).pending() + texture.creation());
        texture
    }

    /// Lets the image, its view and its sampler go.
    pub fn release(&self, device: &mut Device)
        ensures
            final(device).next_id() == old(device).next_id(),
            final(device).pending() == old(device).pending() + self.disposal(),
    {
        device.release(self.sampler);
        device.release(self.view);
        device.release(self.inner);
        assert(device.pending() =~= old(device).pending() + self.disposal());
    }

    /// The slot type under which a fragment shader samples the image.
    pub fn texture_binding_type(&self) -> (ty: BindingType)
        ensures
            ty == sampled_texture_binding(),
    {
        BindingType::Texture {
            filterable: true,
            view_dimension: TextureDimension::D2,
            multisampled: false,
        }
    }

    /// The slot type under which a compute shader writes the image.
    pub fn storage_texture_binding_type(&self) -> (ty: BindingType)
        ensures
            ty == storage_texture_binding(self.format),
    {
        BindingType::StorageTexture {
            access: StorageTextureAccess::WriteOnly,
            format: self.format,
            view_dimension: TextureDimension::D2,
        }
    }

    /// The slot type of the sampler of the image.
    pub fn sampler_binding_type(&self) -> (ty: BindingType)
        ensures
            ty == sampler_binding(),
    {
        BindingType::Sampler(SamplerBindingType::Filtering)
    }

    /// The view of the image, as it fills a slot of a bind group.
    pub fn texture_binding_resource(&self) -> (resource: BindingResource)
        ensures
            resource == BindingResource::TextureView(self.view),
    {
        BindingResource::TextureView(self.view)
    }

    /// The sampler of the image, as it fills a slot of a bind group.
    pub fn sampler_binding_resource(&self) -> (resource: BindingResource)
        ensures
            resource == BindingResource::Sampler(self.sampler),
    {
        BindingResource::Sampler(self.sampler)
    }
}

} // verus!
