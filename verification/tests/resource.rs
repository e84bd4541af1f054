use bottomless_pit::resource::{
    IdGenerator, InProgressResource, Loader, LoadingOp, Resource, ResourceId, ResourceManager, ResourceType,
};
use bottomless_pit::shader::{ShaderOptions, UniformData};
use bottomless_pit::text::Font;
use bottomless_pit::texture::SamplerType;

#[test]
fn ids() {
    let a: ResourceId<Font> = ResourceId::from_number(4);
    let b = a;
    assert_eq!(a.get_id(), 4);
    assert!(a == b);
    assert!(a != ResourceId::from_number(5));
}

#[test]
fn loader_counts() {
    let mut l = Loader::new();
    assert_eq!(l.get_loading_resources(), 0);
    l.load(LoadingOp::Blocking);
    l.load(LoadingOp::Background);
    l.background_load();
    assert!(l.is_blocked());
    assert_eq!(l.get_loading_resources(), 3);
    assert_eq!((l.loading_count(LoadingOp::Blocking), l.loading_count(LoadingOp::Background)), (1, 2));
    l.remove_item_loading(LoadingOp::Blocking);
    assert!(!l.is_blocked());
    l.remove_item_loading(LoadingOp::Background);
    assert_eq!(l.get_loading_resources(), 1);
    l.blocking_load();
    assert!(l.is_blocked());
}

#[test]
fn finished_loads() {
    let ok: Result<Resource<&str, ()>, _> =
        Resource::from_result(Ok::<Vec<u8>, String>(vec![1, 2]), "a.png", 3, ResourceType::Image(SamplerType::NearestNeighbor, SamplerType::NearestNeighbor), LoadingOp::Blocking);
    let r = ok.unwrap();
    assert_eq!((r.path, r.data, r.id, r.loading_op), ("a.png", vec![1, 2], 3, LoadingOp::Blocking));

    let err: Result<Resource<&str, ()>, _> =
        Resource::from_result(Err(String::from("missing")), "b.ttf", 9, ResourceType::Font, LoadingOp::Background);
    let e = err.err().unwrap();
    assert_eq!((e.error.as_str(), e.path, e.id), ("missing", "b.ttf", 9));
    assert!(matches!(e.resource_type, ResourceType::Font));

    let ip: InProgressResource<&str, u8> = InProgressResource::new("c.wgsl", 2, ResourceType::Shader(7), LoadingOp::Background);
    assert!(matches!(ip.resource_type, ResourceType::Shader(7)));
    assert_eq!(ip.id, 2);
}

#[test]
fn manager_stores_each_kind_apart() {
    let mut m: ResourceManager<String, u32> = ResourceManager::new();
    let bytes: ResourceId<Vec<u8>> = ResourceId::from_number(1);
    let tex: ResourceId<String> = ResourceId::from_number(1);
    let shader: ResourceId<u32> = ResourceId::from_number(2);
    let font: ResourceId<Font> = ResourceId::from_number(3);
    assert!(m.get_byte_resource(&bytes).is_none());
    m.insert_bytes(bytes, vec![9, 9]);
    m.insert_texture(tex, String::from("texture"));
    m.insert_pipeline(shader, 42);
    m.insert_font(font, Font::from_str("Monocraft"));
    assert_eq!(m.get_byte_resource(&bytes), Some(&vec![9, 9]));
    assert_eq!(m.get_texture(&tex).map(|s| s.as_str()), Some("texture"));
    assert_eq!(m.get_pipeline(&shader), Some(&42));
    assert_eq!(m.get_font(&font).map(|f| f.get_name()), Some("Monocraft"));
    *m.get_mut_shader(&shader).unwrap() = 43;
    assert_eq!(m.get_pipeline(&shader), Some(&43));
    assert!(m.get_mut_shader(&ResourceId::from_number(7)).is_none());
    m.insert_bytes(bytes, vec![]);
    assert_eq!(m.get_byte_resource(&bytes), Some(&vec![]));
}

#[test]
fn id_generator_counts_up_from_one() {
    let mut g = IdGenerator::new();
    assert!(g.can_generate());
    let a: ResourceId<Font> = g.generate_id();
    let b: ResourceId<Vec<u8>> = g.generate_id();
    let c: ResourceId<Font> = g.generate_id();
    assert_eq!((a.get_id(), b.get_id(), c.get_id()), (1, 2, 3));
    assert!(a != c);
    assert!(g.can_generate());
}

#[test]
fn resource_types_compare_by_kind() {
    let data: UniformData<u8> = UniformData::from_bytes(vec![1, 2]);
    let a: ResourceType<ShaderOptions<u8>> = ResourceType::Shader(ShaderOptions::with_uniform_data(&data));
    let b: ResourceType<ShaderOptions<u8>> = ResourceType::Shader(ShaderOptions::with_uniform_data(
        &UniformData::from_bytes(vec![9]),
    ));
    let c: ResourceType<ShaderOptions<u8>> = ResourceType::Shader(ShaderOptions::empty());
    assert!(a == b);
    assert!(a != c);
    let near = ResourceType::<ShaderOptions<u8>>::Image(SamplerType::NearestNeighbor, SamplerType::NearestNeighbor);
    let mixed = ResourceType::<ShaderOptions<u8>>::Image(SamplerType::NearestNeighbor, SamplerType::LinearInterpolation);
    assert!(near == ResourceType::Image(SamplerType::NearestNeighbor, SamplerType::NearestNeighbor));
    assert!(near != mixed);
    assert!(ResourceType::<ShaderOptions<u8>>::Bytes == ResourceType::Bytes);
    assert!(ResourceType::<ShaderOptions<u8>>::Font != ResourceType::Bytes);
}

#[test]
fn failed_images_and_shaders_get_stand_ins() {
    let mut m: ResourceManager<String, u32> = ResourceManager::new();
    let good: ResourceId<String> = ResourceId::from_number(1);
    let bad: ResourceId<String> = ResourceId::from_number(2);
    assert!(m.insert_texture_or_default(good, Ok::<String, &str>(String::from("face")), String::from("error")));
    assert!(!m.insert_texture_or_default(bad, Err::<String, &str>("not a png"), String::from("error")));
    assert_eq!(m.get_texture(&good).map(|s| s.as_str()), Some("face"));
    assert_eq!(m.get_texture(&bad).map(|s| s.as_str()), Some("error"));
    let shader: ResourceId<u32> = ResourceId::from_number(3);
    assert!(!m.insert_pipeline_or_default(shader, Err::<u32, ()>(()), 0));
    assert_eq!(m.get_pipeline(&shader), Some(&0));
    assert!(m.insert_pipeline_or_default(shader, Ok::<u32, ()>(5), 0));
    assert_eq!(m.get_pipeline(&shader), Some(&5));
}
