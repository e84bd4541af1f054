use bottomless_pit::draw_queue::{BindGroups, DrawQueues, SwitchPoint};
use bottomless_pit::resource_cache::ResourceCache;

type Queues = DrawQueues<u32, u8, String, String>;

#[test]
fn switch_point_queries() {
    let white = SwitchPoint::BindGroup { bind_group: BindGroups::WhitePixel, point: 3 };
    let tex = SwitchPoint::BindGroup { bind_group: BindGroups::Texture { bind_group: 4 }, point: 6 };
    let shader = SwitchPoint::Shader { id: 1, point: 9 };
    assert!(white.is_white_pixel() && white.is_texture());
    assert!(!tex.is_white_pixel() && tex.is_texture());
    assert!(!shader.is_white_pixel() && !shader.is_texture());
    assert_eq!((white.get_point(), tex.get_point(), shader.get_point()), (3, 6, 9));
}

#[test]
fn rectangles_share_one_white_pixel_switch() {
    let mut q = Queues::new();
    q.add_rectangle([0, 1, 2, 3]);
    q.add_rectangle([4, 5, 6, 7]);
    let items = q.process_queued();
    assert_eq!(items.vertices, vec![0, 1, 2, 3, 4, 5, 6, 7]);
    assert_eq!(items.indices, vec![0, 1, 2, 3, 0, 2, 4, 5, 6, 7, 4, 6]);
    assert_eq!(items.number_of_rectangle_indicies, 12);
    assert_eq!(
        items.general_switches,
        vec![SwitchPoint::BindGroup { bind_group: BindGroups::WhitePixel, point: 0 }]
    );
}

#[test]
fn textures_switch_only_on_change() {
    let mut q = Queues::new();
    let mut cache: ResourceCache<&str> = ResourceCache::new();
    assert!(q.add_textured_rectange(&mut cache, [0, 0, 0, 0], 7));
    cache.add_item("bind group 7", 7);
    cache.cache_update();
    assert_eq!(cache.get(7).map(|c| c.time_since_used), Some(1));
    assert!(!q.add_textured_rectange(&mut cache, [0, 0, 0, 0], 7));
    assert_eq!(cache.get(7).map(|c| (c.resource, c.time_since_used)), Some(("bind group 7", 0)));
    assert!(q.add_textured_rectange(&mut cache, [0, 0, 0, 0], 8));
    assert!(cache.get(8).is_none());
    let mut shaders: ResourceCache<u8> = ResourceCache::new();
    assert!(q.add_shader_point(&mut shaders, 3));
    assert!(shaders.get(3).is_none());
    q.add_triangle([1, 1, 1]);
    let items = q.process_queued();
    assert_eq!(
        items.general_switches,
        vec![
            SwitchPoint::BindGroup { bind_group: BindGroups::Texture { bind_group: 7 }, point: 0 },
            SwitchPoint::BindGroup { bind_group: BindGroups::Texture { bind_group: 8 }, point: 12 },
            SwitchPoint::Shader { id: 3, point: 18 },
            SwitchPoint::BindGroup { bind_group: BindGroups::WhitePixel, point: 18 },
        ]
    );
    assert_eq!(&items.indices[18..], &[12, 13, 14]);
}

#[test]
fn polygon_is_a_fan() {
    let mut q = Queues::new();
    q.add_triangle([9, 9, 9]);
    q.add_regular_n_gon(5, vec![0, 1, 2, 3, 4]);
    q.add_regular_n_gon(2, vec![]);
    let items = q.process_queued();
    assert_eq!(items.vertices.len(), 8);
    assert_eq!(&items.indices[3..], &[3, 5, 4, 3, 6, 5, 3, 7, 6]);
    assert_eq!(items.general_switches.len(), 1);
}

#[test]
fn shader_options_lines_and_text() {
    let mut q = Queues::new();
    let mut groups: ResourceCache<u8> = ResourceCache::new();
    groups.add_item(4, 11);
    groups.cache_update();
    assert!(!q.add_shader_option_point(&mut groups, 11));
    assert_eq!(groups.get(11).map(|c| (c.resource, c.time_since_used)), Some((4, 0)));
    q.add_line(1, 2);
    q.add_text(String::from("hi"));
    q.add_transfromed_text(String::from("turned"));
    let items = q.process_queued();
    assert_eq!(
        items.general_switches,
        vec![SwitchPoint::BindGroup {
            bind_group: BindGroups::ShaderOptions { bind_group: 11, group_num: 2 },
            point: 0
        }]
    );
    assert_eq!(items.line_vertices, vec![1, 2]);
    assert_eq!(items.number_of_line_verticies, 2);
    assert_eq!(items.text, vec![String::from("hi")]);
    assert_eq!(items.transformed_text, vec![String::from("turned")]);
    let empty = q.process_queued();
    assert!(empty.vertices.is_empty() && empty.line_vertices.is_empty() && empty.general_switches.is_empty());
}
