use bevy_property::{Extent3d, Texture, TextureDescriptor, TextureDimension, TextureFormat, TextureUsage};

#[test]
fn descriptor_from_texture() {
    let t = Texture { data: vec![0; 16], width: 2, height: 3 };
    let d = TextureDescriptor::from(&t);
    assert_eq!(d.size, Extent3d { width: 2, height: 3, depth: 1 });
    assert_eq!(d.mip_level_count, 1);
    assert_eq!(d.sample_count, 1);
    assert_eq!(d.dimension, TextureDimension::D2);
    assert_eq!(d.format, TextureFormat::Rgba8UnormSrgb);
    assert_eq!(d.usage, TextureUsage { bits: TextureUsage::SAMPLED | TextureUsage::COPY_DST });
    assert_eq!(d.usage.bits, 6);
}

#[test]
fn descriptor_truncates_wide_sides() {
    let t = Texture { data: vec![], width: (1usize << 32) + 7, height: 0 };
    let d = TextureDescriptor::from(&t);
    assert_eq!(d.size.width, 7);
    assert_eq!(d.size.height, 0);
}
