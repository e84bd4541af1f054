use bottomless_pit::material::MaterialBuilder;
use bottomless_pit::resource::ResourceId;
use bottomless_pit::shader::UniformData;
use bottomless_pit::material::{grown_buffer_size, n_gon_indices, LineCounts, MaterialCounts};

#[test]
fn grow_sizes() {
    assert_eq!(grown_buffer_size(100, 1), 200);
    assert_eq!(grown_buffer_size(10, 40), 44);
    assert_eq!(grown_buffer_size(10, 41), 44);
    assert_eq!(grown_buffer_size(0, 3), 4);
}

#[test]
fn n_gon_padding() {
    assert_eq!(n_gon_indices(0, 4), vec![0, 1, 2, 0, 2, 3]);
    assert_eq!(n_gon_indices(10, 5), vec![10, 11, 12, 10, 12, 13, 10, 13, 14, 10, 13, 14]);
    let seven = n_gon_indices(0, 7);
    assert_eq!(seven.len(), 18);
    assert_eq!(&seven[15..], &[0, 5, 6]);
    assert_eq!(n_gon_indices(0, 8).len(), 24);
}

#[test]
fn counts_and_indices() {
    let mut c = MaterialCounts::new(32, 2);
    assert_eq!(c.rectangle_indices(), [0, 1, 2, 3, 0, 2]);
    c.record(4, 6);
    assert_eq!(c.get_vertex_number(), 4);
    assert_eq!(c.get_index_number(), 6);
    assert_eq!(c.vertex_count(), 128);
    assert_eq!(c.triangle_indices(), [4, 5, 6, 4, 5, 6]);
    assert!(c.vertices_overflow(4 * 32, 200));
    assert!(!c.indices_overflow(12, 100));
    c.clear();
    assert_eq!(c.get_vertex_number(), 0);
}

#[test]
fn line_counts() {
    let mut l = LineCounts::new(24);
    l.record_line();
    l.record_line();
    assert_eq!(l.get_vertex_count(), 4);
    assert_eq!(l.vertex_count(), 96);
    l.clear();
    assert_eq!(l.get_vertex_count(), 0);
}

#[test]
fn material_builder_falls_back_to_defaults() {
    let white: ResourceId<String> = ResourceId::from_number(1);
    let generic: ResourceId<u32> = ResourceId::from_number(2);
    let plain: MaterialBuilder<(), String, u32> = MaterialBuilder::new();
    let (t, s) = plain.resolve(white, generic);
    assert_eq!((t.get_id(), s.get_id()), (1, 2));

    let texture: ResourceId<String> = ResourceId::from_number(7);
    let shader: ResourceId<u32> = ResourceId::from_number(9);
    let data: UniformData<[u8; 4]> = UniformData::from_bytes(vec![1, 2, 3, 4]);
    let custom = MaterialBuilder::<(), String, u32>::default()
        .add_texture(texture)
        .set_shader(shader)
        .add_uniform_data(&data);
    let (t, s) = custom.resolve(white, generic);
    assert_eq!((t.get_id(), s.get_id()), (7, 9));

    let only_shader: MaterialBuilder<(), String, u32> = MaterialBuilder::new().set_shader(shader);
    let (t, s) = only_shader.resolve(white, generic);
    assert_eq!((t.get_id(), s.get_id()), (1, 9));
}

#[test]
fn triangle_polygon_is_listed_twice() {
    assert_eq!(n_gon_indices(5, 3), vec![5, 6, 7, 5, 6, 7]);
}

#[test]
fn counts_record_a_whole_polygon() {
    let mut c = MaterialCounts::new(32, 2);
    c.record(2, 6);
    let indices = c.add_regular_n_gon(5);
    assert_eq!(indices, vec![2, 3, 4, 2, 4, 5, 2, 5, 6, 2, 5, 6]);
    assert_eq!(c.get_vertex_number(), 7);
    assert_eq!(c.get_index_number(), 18);
    assert_eq!(c.index_count() % 4, 0);
    let nothing = c.add_regular_n_gon(2);
    assert!(nothing.is_empty());
    assert_eq!((c.get_vertex_number(), c.get_index_number()), (7, 18));
    let tri = c.add_regular_n_gon(3);
    assert_eq!(tri, vec![7, 8, 9, 7, 8, 9]);
    assert_eq!((c.get_vertex_number(), c.get_index_number()), (10, 24));
}
