use bottomless_pit::shader::{
    layout_for, make_entries, BindingKind, ShaderOptions, UniformData, UniformError, UniformLayout,
};
use bottomless_pit::texture::SamplerType;
use bottomless_pit::vectors::Vec2;

#[test]
fn options_hold_what_they_were_given() {
    let data: UniformData<[f32; 4]> = UniformData::from_bytes(vec![1, 2, 3, 4]);
    assert_eq!(data.as_bytes(), &[1, 2, 3, 4]);

    let only_data = ShaderOptions::with_uniform_data(&data);
    assert_eq!(only_data.check_has(), (true, false));
    assert_eq!(only_data.uniform_data(), Some(&vec![1, 2, 3, 4]));

    let size = Vec2 { x: 64u32, y: 32u32 };
    let only_texture: ShaderOptions<()> =
        ShaderOptions::with_uniform_texture(SamplerType::NearestNeighbor, SamplerType::LinearInterpolation, size);
    assert_eq!(only_texture.check_has(), (false, true));
    assert_eq!(
        only_texture.uniform_texture(),
        Some((SamplerType::NearestNeighbor, SamplerType::LinearInterpolation, size))
    );

    let all = ShaderOptions::with_all(&data, SamplerType::LinearInterpolation, SamplerType::LinearInterpolation, size);
    assert_eq!(all.check_has(), (true, true));
    assert_eq!(ShaderOptions::<()>::empty().check_has(), (false, false));
}

#[test]
fn layouts_and_bindings() {
    assert_eq!(layout_for(true, true), Some(UniformLayout::TextureAndUniform));
    assert_eq!(layout_for(true, false), Some(UniformLayout::Uniform));
    assert_eq!(layout_for(false, true), Some(UniformLayout::Texture));
    assert_eq!(layout_for(false, false), None);
    assert_eq!(
        make_entries(true, true),
        vec![(0, BindingKind::UniformBuffer), (1, BindingKind::TextureView), (2, BindingKind::Sampler)]
    );
    assert_eq!(make_entries(false, true), vec![(0, BindingKind::TextureView), (1, BindingKind::Sampler)]);
    assert_eq!(make_entries(true, false), vec![(0, BindingKind::UniformBuffer)]);
    assert!(make_entries(false, false).is_empty());
}

#[test]
fn error_messages() {
    assert_eq!(UniformError::NotLoadedYet.message(), "The shader has not loaded yet please try again later");
    assert_eq!(UniformError::DoesntHaveUniformBuffer.message(), "The shader does not have a uniform buffer");
    assert_eq!(UniformError::DoesntHaveUniformTexture.message(), "The shader does not have a unform texture");
}
