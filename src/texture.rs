use vstd::prelude::*;

verus! {

/// The extent of a texture, in texels.
#[derive(Clone, Copy, Debug, PartialEq, Eq, Structural)]
pub struct Extent3d {
    pub width: u32,
    pub height: u32,
    pub depth: u32,
}

/// How many dimensions a texture has.
#[derive(Clone, Copy, Debug, PartialEq, Eq, Structural)]
pub enum TextureDimension {
    D1,
    D2,
    D3,
}

/// The layout and encoding of a texel.
#[derive(Clone, Copy, Debug, PartialEq, Eq, Structural)]
pub enum TextureFormat {
    R8Unorm,
    Rgba8Unorm,
    Rgba8UnormSrgb,
    Bgra8Unorm,
    Bgra8UnormSrgb,
    Depth32Float,
}

/// A set of usage flags, one bit each.
#[derive(Clone, Copy, Debug, PartialEq, Eq, Structural)]
pub struct TextureUsage {
    pub bits: u32,
}

impl TextureUsage {
    pub const COPY_SRC: u32 = 1;
    pub const COPY_DST: u32 = 2;
    pub const SAMPLED: u32 = 4;
    pub const STORAGE: u32 = 8;
    pub const OUTPUT_ATTACHMENT: u32 = 16;
}

/// A two-dimensional image held in memory.
pub struct Texture {
    pub data: Vec<u8>,
    pub width: usize,
    pub height: usize,
}

/// What a graphics device needs to allocate a texture.
#[derive(Clone, Copy, Debug, PartialEq, Eq, Structural)]
pub struct TextureDescriptor {
    pub size: Extent3d,
    pub mip_level_count: u32,
    pub sample_count: u32,
    pub dimension: TextureDimension,
    pub format: TextureFormat,
    pub usage: TextureUsage,
}

/// The descriptor of a sampled, copy-destination, single-level 2D sRGB
/// texture of the given texture's size; each side is cast to `u32`.
pub open spec fn descriptor_of(texture: &Texture) -> TextureDescriptor {
    TextureDescriptor {
        size: Extent3d { width: texture.width as u32, height: texture.height as u32, depth: 1 },
        mip_level_count: 1,
        sample_count: 1,
        dimension: TextureDimension::D2,
        format: TextureFormat::Rgba8UnormSrgb,
        usage: TextureUsage { bits: 6 },
    }
}

impl<'a> From<&'a Texture> for TextureDescriptor {
    fn from(texture: &'a Texture) -> (r: TextureDescriptor) {
        let usage = TextureUsage::SAMPLED | TextureUsage::COPY_DST;
        assert(usage == 6) by (bit_vector)
            requires
                usage == 4u32 | 2u32,
        ;
        TextureDescriptor {
            size: Extent3d { height: texture.height as u32, width: texture.width as u32, depth: 1 },
            mip_level_count: 1,
            sample_count: 1,
            dimension: TextureDimension::D2,
            format: TextureFormat::Rgba8UnormSrgb,
            usage: TextureUsage { bits: usage },
        }
    }
}

impl<'a> vstd::std_specs::convert::FromSpecImpl<&'a Texture> for TextureDescriptor {
    open spec fn obeys_from_spec() -> bool {
        true
    }

    open spec fn from_spec(texture: &'a Texture) -> TextureDescriptor {
        descriptor_of(texture)
    }
}

} // verus!
