use bottomless_pit::engine_handle::{
    store_byte_action, EngineBuilder, EngineState, EventStep, FrameAction, IconData, PresentMode, ResourceAction,
    WindowEventKind,
};
use bottomless_pit::resource::{IdGenerator, LoadingOp, Resource, ResourceId, ResourceManager, ResourceType};
use bottomless_pit::texture::SamplerType;
use bottomless_pit::input::{InputEvent, Key, MouseKey};
use bottomless_pit::vectors::Vec2;

#[test]
fn builder_defaults_and_changes() {
    let b = EngineBuilder::new();
    assert_eq!(b.resolution, (600, 600));
    assert!(!b.full_screen);
    assert_eq!(b.target_fps, Some(30));
    assert_eq!(b.window_title, "Bottomless-Pit Game");
    assert!(b.resizable);
    assert_eq!(b.vsync, PresentMode::AutoNoVsync);
    let b = b
        .with_resolution((800, 400))
        .fullscreen()
        .set_target_fps(45)
        .remove_vsync()
        .set_close_key(Key::Esc)
        .set_window_title("Pit")
        .set_window_icon(IconData { rgba: vec![0; 4], width: 1, height: 1 })
        .unresizable();
    assert_eq!(b.resolution, (800, 400));
    assert!(b.full_screen);
    assert_eq!(b.target_fps, Some(45));
    assert_eq!(b.vsync, PresentMode::AutoNoVsync);
    assert_eq!(b.close_key, Some(Key::Esc));
    assert_eq!(b.window_title, "Pit");
    assert_eq!(b.window_icon.as_ref().map(|i| i.width), Some(1));
    assert!(!b.resizable);
    assert_eq!(EngineBuilder::default().resolution, (600, 600));
}

#[test]
fn frame_pacing() {
    let b = EngineBuilder::new().set_target_fps(50);
    let mut e = EngineState::new(&b, Vec2 { x: 600, y: 600 });
    assert_eq!(e.update(5_000_000), FrameAction::Sleep(15_000_000));
    assert_eq!(e.update(20_000_000), FrameAction::Continue);
    e.remove_target_fps();
    assert_eq!(e.update(1), FrameAction::Continue);
    e.set_target_fps(1000);
    assert_eq!(e.get_target_fps(), Some(1000));
    assert_eq!(e.update(0), FrameAction::Sleep(1_000_000));
}

#[test]
fn closing() {
    let b = EngineBuilder::new().set_close_key(Key::Q);
    let mut e = EngineState::new(&b, Vec2 { x: 10, y: 10 });
    assert_eq!(e.update(0), FrameAction::Sleep(33_333_333));
    e.input(InputEvent::Keyboard { key: Some(Key::Q), pressed: true });
    assert!(e.is_key_pressed(Key::Q));
    assert_eq!(e.update(0), FrameAction::Exit);
    assert!(!e.is_key_pressed(Key::Q));
    assert!(e.is_key_down(Key::Q));

    let mut e = EngineState::new(&EngineBuilder::new(), Vec2 { x: 10, y: 10 });
    assert!(!e.is_closing());
    e.close();
    assert!(e.is_closing());
    assert_eq!(e.update(0), FrameAction::Exit);

    let b = EngineBuilder::new().set_target_fps(0).set_close_key(Key::Unrecognized);
    let mut e = EngineState::new(&b, Vec2 { x: 10, y: 10 });
    e.close();
    assert_eq!(e.update(0), FrameAction::Exit);
}

#[test]
fn loading_resize_and_cursor() {
    let mut e = EngineState::new(&EngineBuilder::new(), Vec2 { x: 10, y: 20 });
    assert!(!e.is_loading());
    e.add_in_progress_resource();
    e.add_in_progress_resource();
    e.finish_resource();
    assert!(e.is_loading());
    e.finish_resource();
    assert!(!e.is_loading());
    assert!(!e.resize(Vec2 { x: 0, y: 5 }));
    assert_eq!(e.get_window_size(), Vec2 { x: 10, y: 20 });
    assert!(e.resize(Vec2 { x: 30, y: 40 }));
    assert_eq!(e.get_window_size(), Vec2 { x: 30, y: 40 });
    assert!(e.is_cursor_visible());
    e.hide_cursor();
    assert!(!e.is_cursor_visible());
    e.show_cursor();
    assert!(e.is_cursor_visible());
    e.input(InputEvent::Mouse { button: MouseKey::Middle, pressed: true });
    assert!(e.is_mouse_key_down(MouseKey::Middle) && e.is_mouse_key_pressed(MouseKey::Middle));
    assert!(!e.is_mouse_key_up(MouseKey::Middle) && !e.is_mouse_key_released(MouseKey::Middle));
    assert!(e.is_key_up(Key::W) && !e.is_key_released(Key::W));
}

#[test]
fn resources_are_counted_until_handled() {
    let mut e = EngineState::new(&EngineBuilder::new(), Vec2 { x: 10, y: 10 });
    let mut ids = IdGenerator::new();
    let (bytes_id, request) = e.create_resource::<&str, u8>(&mut ids, "data.bin");
    assert_eq!(bytes_id.get_id(), 1);
    assert_eq!((request.path, request.id, request.loading_op), ("data.bin", 1, LoadingOp::Blocking));
    assert!(matches!(request.resource_type, ResourceType::Bytes));
    let (image_id, image_request): (ResourceId<String>, _) = e.start_resource(
        &mut ids,
        "face.png",
        ResourceType::<u8>::Image(SamplerType::NearestNeighbor, SamplerType::LinearInterpolation),
        LoadingOp::Background,
    );
    assert_eq!((image_id.get_id(), image_request.id), (2, 2));
    assert!(e.is_loading());

    let read = Resource::from_result(Ok::<Vec<u8>, String>(vec![7, 8]), request.path, request.id, request.resource_type, request.loading_op);
    match e.handle_resource(read) {
        ResourceAction::StoreBytes(id, data) => assert_eq!((id, data), (1, vec![7, 8])),
        other => panic!("unexpected {:?}", other),
    }
    assert!(e.is_loading());
    let failed = Resource::from_result(Err::<Vec<u8>, String>(String::from("gone")), image_request.path, image_request.id, image_request.resource_type, image_request.loading_op);
    assert!(matches!(e.handle_resource(failed), ResourceAction::DefaultImage(2)));
    assert!(!e.is_loading());
}

#[test]
fn window_events_step_the_loop() {
    let mut e = EngineState::new(&EngineBuilder::new(), Vec2 { x: 10, y: 10 });
    let key = InputEvent::Keyboard { key: Some(Key::A), pressed: true };
    assert_eq!(e.on_window_event(key, WindowEventKind::Other), EventStep::Ignore);
    assert!(e.is_key_down(Key::A));
    assert_eq!(e.on_window_event(InputEvent::Other, WindowEventKind::CloseRequested), EventStep::Exit);
    let size = Vec2 { x: 30, y: 40 };
    assert_eq!(e.on_window_event(InputEvent::Other, WindowEventKind::Resized(size)), EventStep::Resize(size));
    assert_eq!(e.get_window_size(), size);
    let flat = Vec2 { x: 0, y: 40 };
    assert_eq!(e.on_window_event(InputEvent::Other, WindowEventKind::Resized(flat)), EventStep::Resize(flat));
    assert_eq!(e.get_window_size(), size);
    assert_eq!(e.on_window_event(InputEvent::Other, WindowEventKind::RedrawRequested), EventStep::GameFrame);
    e.add_in_progress_resource();
    assert_eq!(e.on_window_event(InputEvent::Other, WindowEventKind::RedrawRequested), EventStep::EngineFrameOnly);
    assert_eq!(e.on_window_event(InputEvent::Other, WindowEventKind::Other), EventStep::Ignore);
}

#[test]
fn byte_actions_fill_the_manager() {
    let mut m: ResourceManager<String, u32> = ResourceManager::new();
    assert!(store_byte_action(&mut m, ResourceAction::<u8>::StoreBytes(4, vec![1, 2])).is_none());
    assert!(store_byte_action(&mut m, ResourceAction::<u8>::DefaultBytes(5)).is_none());
    let four: ResourceId<Vec<u8>> = ResourceId::from_number(4);
    let five: ResourceId<Vec<u8>> = ResourceId::from_number(5);
    assert_eq!(m.get_byte_resource(&four), Some(&vec![1, 2]));
    assert_eq!(m.get_byte_resource(&five), Some(&vec![]));
    let rest = store_byte_action(&mut m, ResourceAction::<u8>::DefaultImage(6));
    assert!(matches!(rest, Some(ResourceAction::DefaultImage(6))));
}
