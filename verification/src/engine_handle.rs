//! The engine's own state and the builder that sets it up.
//!
//! The window, the GPU and the clock live outside this module; here is what the
//! engine decides with them: the input state, whether to close, the window size it
//! draws at, how many resources are still loading, and how long to wait at the end
//! of a frame to keep to a target frame rate.
use vstd::prelude::*;

use crate::input::{InputEvent, InputHandle, InputState, Key, MouseKey};
use crate::resource::{
    IdGenerator, InProgressResource, LoadingOp, Resource, ResourceError, ResourceId, ResourceManager, ResourceType,
};
use crate::texture::SamplerType;
use crate::vectors::Vec2;

verus! {

/// The number of nanoseconds in a second.
pub const NANOS_PER_SECOND: u64 = 1000000000;

/// How frames are presented: waiting for the display's refresh or not.
#[derive(Clone, Copy, Debug, PartialEq, Eq, Structural)]
pub enum PresentMode {
    AutoVsync,
    AutoNoVsync,
}

/// The pixels of a window icon: RGBA bytes, row by row, and the icon's size.
#[derive(Clone, Debug)]
pub struct IconData {
    pub rgba: Vec<u8>,
    pub width: u32,
    pub height: u32,
}

/// A builder class that helps create an application
/// with specific details
pub struct EngineBuilder {
    pub resolution: (u32, u32),
    pub full_screen: bool,
    pub target_fps: Option<u16>,
    pub close_key: Option<Key>,
    pub window_icon: Option<IconData>,
    pub window_title: String,
    pub resizable: bool,
    pub vsync: PresentMode,
}

impl EngineBuilder {
    /// Creates a builder with some defualt presets:
    /// a 600 by 600 window, not fullscreen, a target of 30 frames a second, no
    /// close key, no icon, the title "Bottomless-Pit Game", resizable, without vsync.
    pub fn new() -> (b: Self)
        ensures
            b.resolution == (600u32, 600u32),
            !b.full_screen,
            b.target_fps == Some(30u16),
            b.close_key is None,
            b.window_icon is None,
            b.window_title@ == "Bottomless-Pit Game"@,
            b.resizable,
            b.vsync == PresentMode::AutoNoVsync,
    {
        Self {
            resolution: (600, 600),
            full_screen: false,
            target_fps: Some(30),
            close_key: None,
            window_icon: None,
            window_title: "Bottomless-Pit Game".to_owned(),
            resizable: true,
            vsync: PresentMode::AutoNoVsync,
        }
    }

    /// Overides the defualt resolution
    pub fn with_resolution(self, resolution: (u32, u32)) -> (b: Self)
        ensures
            b == (EngineBuilder { resolution, ..self }),
    {
        Self { resolution, ..self }
    }

    /// Will cause the window to be fullscreen upon launch
    pub fn fullscreen(self) -> (b: Self)
        ensures
            b == (EngineBuilder { full_screen: true, ..self }),
    {
        Self { full_screen: true, ..self }
    }

    /// Sets a target fps cap. The engine waits at the end of each frame until the
    /// frame has taken its share of a second. If the frames are slower than the target
    /// no action is taken to "speed" up the rendering and updating
    pub fn set_target_fps(self, fps: u16) -> (b: Self)
        ensures
            b == (EngineBuilder { target_fps: Some(fps), ..self }),
    {
        Self { target_fps: Some(fps), ..self }
    }

    /// Will cause the framerate to be uncapped if the platform supports it: frames
    /// are presented without waiting for vsync, as they are by default.
    pub fn remove_vsync(self) -> (b: Self)
        ensures
            b == (EngineBuilder { vsync: PresentMode::AutoNoVsync, ..self }),
    {
        Self { vsync: PresentMode::AutoNoVsync, ..self }
    }

    /// Sets a key that will instantly close the window
    pub fn set_close_key(self, key: Key) -> (b: Self)
        ensures
            b == (EngineBuilder { close_key: Some(key), ..self }),
    {
        Self { close_key: Some(key), ..self }
    }

    /// Sets the title of the window
    pub fn set_window_title(self, title: &str) -> (b: Self)
        ensures
            b.window_title@ == title@,
            b == (EngineBuilder { window_title: b.window_title, ..self }),
    {
        Self { window_title: title.to_owned(), ..self }
    }

    /// Sets the window icon
    pub fn set_window_icon(self, icon: IconData) -> (b: Self)
        ensures
            b == (EngineBuilder { window_icon: Some(icon), ..self }),
    {
        Self { window_icon: Some(icon), ..self }
    }

    /// Prevents the window from being resized during runtime
    pub fn unresizable(self) -> (b: Self)
        ensures
            b == (EngineBuilder { resizable: false, ..self }),
    {
        Self { resizable: false, ..self }
    }
}

impl Default for EngineBuilder {
    /// The same presets as [`EngineBuilder::new`].
    fn default() -> (b: Self)
        ensures
            b.resolution == (600u32, 600u32),
            !b.full_screen,
            b.target_fps == Some(30u16),
            b.close_key is None,
            b.window_icon is None,
            b.window_title@ == "Bottomless-Pit Game"@,
            b.resizable,
            b.vsync == PresentMode::AutoNoVsync,
    {
        Self::new()
    }
}

/// What the engine does once a frame has been drawn.
#[derive(Clone, Copy, Debug, PartialEq, Eq, Structural)]
pub enum FrameAction {
    /// Close the window and stop.
    Exit,
    /// Wait this many nanoseconds before the next frame.
    Sleep(u64),
    /// Go on with the next frame at once.
    Continue,
}

/// The time one frame may take at the given frame rate, in nanoseconds.
pub open spec fn frame_budget(fps: u16) -> int {
    NANOS_PER_SECOND as int / fps as int
}

/// What to do with the outcome of a load: store what was read as the kind of
/// resource asked for, or, where reading failed, store that kind's stand-in.
#[derive(Debug)]
pub enum ResourceAction<O> {
    /// Store the bytes as the byte resource `id`.
    StoreBytes(u64, Vec<u8>),
    /// Make the texture `id` from the image bytes, with these magnifying and
    /// minifying samplers.
    BuildImage(u64, Vec<u8>, SamplerType, SamplerType),
    /// Make the shader `id` from the source bytes, with these options.
    BuildShader(u64, Vec<u8>, O),
    /// Make the font `id` from the bytes.
    LoadFont(u64, Vec<u8>),
    /// Store an empty byte resource as `id`.
    DefaultBytes(u64),
    /// Store the stand-in texture as `id`.
    DefaultImage(u64),
    /// Store the stand-in shader as `id`.
    DefaultShader(u64),
    /// Store the stand-in font as `id`.
    DefaultFont(u64),
}

/// The action for the outcome of a load: the kind of resource that was asked for
/// decides what is made of the bytes, and a failed load gets that kind's stand-in.
pub open spec fn resource_action<P, O, E>(outcome: Result<Resource<P, O>, ResourceError<P, O, E>>) -> ResourceAction<O> {
    match outcome {
        Ok(r) => match r.resource_type {
            ResourceType::Bytes => ResourceAction::StoreBytes(r.id, r.data),
            ResourceType::Image(mag, min) => ResourceAction::BuildImage(r.id, r.data, mag, min),
            ResourceType::Shader(options) => ResourceAction::BuildShader(r.id, r.data, options),
            ResourceType::Font => ResourceAction::LoadFont(r.id, r.data),
        },
        Err(e) => match e.resource_type {
            ResourceType::Bytes => ResourceAction::DefaultBytes(e.id),
            ResourceType::Image(..) => ResourceAction::DefaultImage(e.id),
            ResourceType::Shader(_) => ResourceAction::DefaultShader(e.id),
            ResourceType::Font => ResourceAction::DefaultFont(e.id),
        },
    }
}

/// What a window event is, apart from the input it carries.
#[derive(Clone, Copy, Debug, PartialEq, Eq)]
pub enum WindowEventKind {
    /// The window was asked to close.
    CloseRequested,
    /// The window now has this size.
    Resized(Vec2<u32>),
    /// The window is to be drawn.
    RedrawRequested,
    /// Any other event.
    Other,
}

/// What the event loop does for a window event.
#[derive(Clone, Copy, Debug, PartialEq, Eq)]
pub enum EventStep {
    /// Nothing more.
    Ignore,
    /// Stop the event loop.
    Exit,
    /// The window has this size: the game's `on_resize` is called with it (the
    /// engine took it, and the drawing surface follows, when neither side is zero).
    Resize(Vec2<u32>),
    /// A frame while resources are loading: only the engine's own frame update
    /// runs; the game is neither updated nor drawn.
    EngineFrameOnly,
    /// A frame: the game is updated once, then the engine's frame update runs,
    /// then the game is drawn.
    GameFrame,
}

/// Carries out the action for a finished load where it is about bytes: the bytes
/// read are stored under the id, or, where reading failed, an empty byte resource.
/// Any other action is handed back for whoever makes textures, shaders and fonts.
pub fn store_byte_action<Tx, Sh, O>(manager: &mut ResourceManager<Tx, Sh>, action: ResourceAction<O>) -> (rest:
    Option<ResourceAction<O>>)
    requires
        action matches ResourceAction::StoreBytes(id, _) ==> id != 0,
        action matches ResourceAction::DefaultBytes(id) ==> id != 0,
    ensures
        match action {
            ResourceAction::StoreBytes(id, data) => rest is None && final(manager).bytes() == old(
                manager,
            ).bytes().insert(id, data),
            ResourceAction::DefaultBytes(id) => rest is None && final(manager).bytes()[id]@ == Seq::<u8>::empty()
                && final(manager).bytes() == old(manager).bytes().insert(id, final(manager).bytes()[id]),
            _ => rest == Some(action) && final(manager).bytes() == old(manager).bytes(),
        },
        final(manager).textures() == old(manager).textures(),
        final(manager).pipelines() == old(manager).pipelines(),
        final(manager).fonts() == old(manager).fonts(),
{
    match action {
        ResourceAction::StoreBytes(id, data) => {
            manager.insert_bytes(ResourceId::from_number(id), data);
            None
        },
        ResourceAction::DefaultBytes(id) => {
            let empty: Vec<u8> = Vec::new();
            manager.insert_bytes(ResourceId::from_number(id), empty);
            None
        },
        other => Some(other),
    }
}

/// While resources are loading the game is neither updated nor drawn: a window
/// event then never leads to a game frame. With nothing loading, a redraw whose
/// input the engine does not take runs a game frame.
pub proof fn lemma_loading_gates_game(e: EngineState, input: InputEvent, event: WindowEventKind)
    ensures
        e.loading() > 0 ==> e.event_step(input, event) != EventStep::GameFrame,
        e.loading() == 0 && !InputState::takes(input) && event == WindowEventKind::RedrawRequested ==> e.event_step(
            input,
            event,
        ) == EventStep::GameFrame,
{
}

/// The engine's state apart from the window and the GPU.
pub struct EngineState {
    input_handle: InputHandle,
    cursor_visibility: bool,
    should_close: bool,
    close_key: Option<Key>,
    target_fps: Option<u16>,
    size: Vec2<u32>,
    in_progress_resources: u32,
}

impl EngineState {
    /// The input state.
    pub closed spec fn input_state(self) -> InputState {
        self.input_handle@
    }

    /// Whether the cursor is shown.
    pub closed spec fn cursor_visible(self) -> bool {
        self.cursor_visibility
    }

    /// Whether closing was asked for.
    pub closed spec fn closing(self) -> bool {
        self.should_close
    }

    /// The key that closes the window, if any.
    pub closed spec fn spec_close_key(self) -> Option<Key> {
        self.close_key
    }

    /// The frame rate aimed at, if any.
    pub closed spec fn spec_target_fps(self) -> Option<u16> {
        self.target_fps
    }

    /// The size the window is drawn at.
    pub closed spec fn spec_size(self) -> Vec2<u32> {
        self.size
    }

    /// The number of resources still loading.
    pub closed spec fn loading(self) -> nat {
        self.in_progress_resources as nat
    }

    /// The same state with `n` loads under way.
    pub closed spec fn with_loading(self, n: nat) -> EngineState {
        EngineState { in_progress_resources: n as u32, ..self }
    }

    /// The close key, if any, is one whose state is kept.
    pub open spec fn close_key_tracked(self) -> bool {
        self.spec_close_key() matches Some(k) ==> k.is_tracked()
    }

    /// What ending a frame that has taken `frame_time` nanoseconds does: exit when
    /// closing was asked for or the close key is held, else wait out the rest of the
    /// frame's budget under a frame rate target, else go on.
    pub open spec fn frame_action(self, frame_time: u64) -> FrameAction {
        if self.closing() {
            FrameAction::Exit
        } else {
            match self.spec_close_key() {
                Some(k) if self.input_state().key_down(k) => FrameAction::Exit,
                _ => match self.spec_target_fps() {
                    Some(fps) if (frame_time as int) < frame_budget(fps) => FrameAction::Sleep(
                        (frame_budget(fps) - frame_time) as u64,
                    ),
                    _ => FrameAction::Continue,
                },
            }
        }
    }

    /// The state of an engine just built from the builder's frame rate target and
    /// close key, drawing at the given size.
    pub fn new(builder: &EngineBuilder, size: Vec2<u32>) -> (e: Self)
        ensures
            e.input_state().wf(),
            forall|k: Key| k.is_tracked() ==> !(#[trigger] e.input_state().key_down(k)) && !e.input_state().key_was_down(k),
            forall|m: MouseKey| !(#[trigger] e.input_state().mouse_down(m)) && !e.input_state().mouse_was_down(m),
            e.cursor_visible(),
            !e.closing(),
            e.spec_close_key() == builder.close_key,
            e.spec_target_fps() == builder.target_fps,
            e.spec_size() == size,
            e.loading() == 0,
    {
        Self {
            input_handle: InputHandle::new(),
            cursor_visibility: true,
            should_close: false,
            close_key: builder.close_key,
            target_fps: builder.target_fps,
            size,
            in_progress_resources: 0,
        }
    }

    /// Checks if a key is down
    pub fn is_key_down(&self, key: Key) -> (down: bool)
        requires
            key.is_tracked(),
        ensures
            down == self.input_state().key_down(key),
    {
        self.input_handle.is_key_down(key)
    }

    /// Checks if a key is up
    pub fn is_key_up(&self, key: Key) -> (up: bool)
        requires
            key.is_tracked(),
        ensures
            up == !self.input_state().key_down(key),
    {
        self.input_handle.is_key_up(key)
    }

    /// Only returns `true` on the frame where the key is first pressed down
    pub fn is_key_pressed(&self, key: Key) -> (pressed: bool)
        requires
            key.is_tracked(),
        ensures
            pressed == self.input_state().key_pressed(key),
    {
        self.input_handle.is_key_pressed(key)
    }

    /// Only returns `true` on the frame where the key first returns back up
    pub fn is_key_released(&self, key: Key) -> (released: bool)
        requires
            key.is_tracked(),
        ensures
            released == self.input_state().key_released(key),
    {
        self.input_handle.is_key_released(key)
    }

    /// Checks if a mouse key is down
    pub fn is_mouse_key_down(&self, key: MouseKey) -> (down: bool)
        ensures
            down == self.input_state().mouse_down(key),
    {
        self.input_handle.is_mouse_key_down(key)
    }

    /// Checks if a mouse key is up
    pub fn is_mouse_key_up(&self, key: MouseKey) -> (up: bool)
        ensures
            up == !self.input_state().mouse_down(key),
    {
        self.input_handle.is_mouse_key_up(key)
    }

    /// Only returns `true` on the frame where the key is first pressed down
    pub fn is_mouse_key_pressed(&self, key: MouseKey) -> (pressed: bool)
        ensures
            pressed == self.input_state().mouse_pressed(key),
    {
        self.input_handle.is_mouse_key_pressed(key)
    }

    /// Only returns `true` on the frame where the key first returns back up
    pub fn is_mouse_key_released(&self, key: MouseKey) -> (released: bool)
        ensures
            released == self.input_state().mouse_released(key),
    {
        self.input_handle.is_mouse_key_released(key)
    }

    /// Will close the window and stop the program at the end of the frame
    pub fn close(&mut self)
        ensures
            final(self).closing(),
            final(self).input_state() == old(self).input_state(),
            final(self).spec_close_key() == old(self).spec_close_key(),
            final(self).spec_target_fps() == old(self).spec_target_fps(),
            final(self).spec_size() == old(self).spec_size(),
            final(self).loading() == old(self).loading(),
            final(self).cursor_visible() == old(self).cursor_visible(),
    {
        self.should_close = true;
    }

    /// Gets the phyisical size of the window,
    pub fn get_window_size(&self) -> (size: Vec2<u32>)
        ensures
            size == self.spec_size(),
    {
        self.size
    }

    /// Hides the cursor
    pub fn hide_cursor(&mut self)
        ensures
            !final(self).cursor_visible(),
            final(self).input_state() == old(self).input_state(),
            final(self).closing() == old(self).closing(),
            final(self).spec_close_key() == old(self).spec_close_key(),
            final(self).spec_target_fps() == old(self).spec_target_fps(),
            final(self).spec_size() == old(self).spec_size(),
            final(self).loading() == old(self).loading(),
    {
        self.cursor_visibility = false;
    }

    /// Shows the cursor if its hidden
    pub fn show_cursor(&mut self)
        ensures
            final(self).cursor_visible(),
            final(self).input_state() == old(self).input_state(),
            final(self).closing() == old(self).closing(),
            final(self).spec_close_key() == old(self).spec_close_key(),
            final(self).spec_target_fps() == old(self).spec_target_fps(),
            final(self).spec_size() == old(self).spec_size(),
            final(self).loading() == old(self).loading(),
    {
        self.cursor_visibility = true;
    }

    /// Whether the cursor is shown.
    pub fn is_cursor_visible(&self) -> (visible: bool)
        ensures
            visible == self.cursor_visible(),
    {
        self.cursor_visibility
    }

    /// Gets the current target fps
    pub fn get_target_fps(&self) -> (fps: Option<u16>)
        ensures
            fps == self.spec_target_fps(),
    {
        self.target_fps
    }

    /// Will uncap the framerate: frames follow each other as soon as they are ready.
    pub fn remove_target_fps(&mut self)
        ensures
            final(self).spec_target_fps() is None,
            final(self).input_state() == old(self).input_state(),
            final(self).closing() == old(self).closing(),
            final(self).spec_close_key() == old(self).spec_close_key(),
            final(self).spec_size() == old(self).spec_size(),
            final(self).loading() == old(self).loading(),
            final(self).cursor_visible() == old(self).cursor_visible(),
    {
        self.target_fps = None;
    }

    /// Sets a target fps cap. The engine waits at the end of each frame until the
    /// frame has taken its share of a second. If the frames are slower than the target
    /// no action is taken to "speed" up the rendering and updating
    pub fn set_target_fps(&mut self, fps: u16)
        ensures
            final(self).spec_target_fps() == Some(fps),
            final(self).input_state() == old(self).input_state(),
            final(self).closing() == old(self).closing(),
            final(self).spec_close_key() == old(self).spec_close_key(),
            final(self).spec_size() == old(self).spec_size(),
            final(self).loading() == old(self).loading(),
            final(self).cursor_visible() == old(self).cursor_visible(),
    {
        self.target_fps = Some(fps);
    }

    /// Whether closing was asked for.
    pub fn is_closing(&self) -> (c: bool)
        ensures
            c == self.closing(),
    {
        self.should_close
    }

    /// Whether one more load can be counted.
    pub fn can_add_resource(&self) -> (ok: bool)
        ensures
            ok == (self.loading() < u32::MAX),
    {
        self.in_progress_resources < u32::MAX
    }

    /// Records that one more resource started loading.
    pub fn add_in_progress_resource(&mut self)
        requires
            old(self).loading() < u32::MAX,
        ensures
            final(self).loading() == old(self).loading() + 1,
            *final(self) == old(self).with_loading(old(self).loading() + 1),
            final(self).input_state() == old(self).input_state(),
            final(self).closing() == old(self).closing(),
            final(self).spec_close_key() == old(self).spec_close_key(),
            final(self).spec_target_fps() == old(self).spec_target_fps(),
            final(self).spec_size() == old(self).spec_size(),
            final(self).cursor_visible() == old(self).cursor_visible(),
    {
        self.in_progress_resources = self.in_progress_resources + 1;
    }

    /// Records that a resource finished loading, whether it loaded or not.
    pub fn finish_resource(&mut self)
        requires
            old(self).loading() > 0,
        ensures
            final(self).loading() == old(self).loading() - 1,
            *final(self) == old(self).with_loading((old(self).loading() - 1) as nat),
            final(self).input_state() == old(self).input_state(),
            final(self).closing() == old(self).closing(),
            final(self).spec_close_key() == old(self).spec_close_key(),
            final(self).spec_target_fps() == old(self).spec_target_fps(),
            final(self).spec_size() == old(self).spec_size(),
            final(self).cursor_visible() == old(self).cursor_visible(),
    {
        self.in_progress_resources = self.in_progress_resources - 1;
    }

    /// Starts a load: hands out the next id, counts the load as under way, and
    /// returns the id with the request the loader reads from.
    pub fn start_resource<T, P, O>(
        &mut self,
        ids: &mut IdGenerator,
        path: P,
        resource_type: ResourceType<O>,
        loading_op: LoadingOp,
    ) -> (started: (ResourceId<T>, InProgressResource<P, O>))
        requires
            old(ids).spec_next() != 0,
            old(self).loading() < u32::MAX,
        ensures
            started.0.spec_id() == old(ids).spec_next(),
            started.1 == (InProgressResource { path, id: old(ids).spec_next(), resource_type, loading_op }),
            final(ids).spec_next() == (old(ids).spec_next() as int + 1) % 0x1_0000_0000_0000_0000,
            final(self).loading() == old(self).loading() + 1,
            *final(self) == old(self).with_loading(old(self).loading() + 1),
            final(self).input_state() == old(self).input_state(),
            final(self).closing() == old(self).closing(),
            final(self).spec_close_key() == old(self).spec_close_key(),
            final(self).spec_target_fps() == old(self).spec_target_fps(),
            final(self).spec_size() == old(self).spec_size(),
            final(self).cursor_visible() == old(self).cursor_visible(),
    {
        let typed_id: ResourceId<T> = ids.generate_id();
        let id = typed_id.get_id();
        let request = InProgressResource::new(path, id, resource_type, loading_op);
        self.add_in_progress_resource();
        (typed_id, request)
    }

    /// Starts loading the file at `path` as a byte resource. The load blocks: the
    /// game waits until it is done.
    pub fn create_resource<P, O>(&mut self, ids: &mut IdGenerator, path: P) -> (started: (
        ResourceId<Vec<u8>>,
        InProgressResource<P, O>,
    ))
        requires
            old(ids).spec_next() != 0,
            old(self).loading() < u32::MAX,
        ensures
            started.0.spec_id() == old(ids).spec_next(),
            started.1 == (InProgressResource::<P, O> {
                path,
                id: old(ids).spec_next(),
                resource_type: ResourceType::Bytes,
                loading_op: LoadingOp::Blocking,
            }),
            final(ids).spec_next() == (old(ids).spec_next() as int + 1) % 0x1_0000_0000_0000_0000,
            final(self).loading() == old(self).loading() + 1,
            *final(self) == old(self).with_loading(old(self).loading() + 1),
            final(self).input_state() == old(self).input_state(),
            final(self).closing() == old(self).closing(),
            final(self).spec_close_key() == old(self).spec_close_key(),
            final(self).spec_target_fps() == old(self).spec_target_fps(),
            final(self).spec_size() == old(self).spec_size(),
            final(self).cursor_visible() == old(self).cursor_visible(),
    {
        self.start_resource(ids, path, ResourceType::Bytes, LoadingOp::Blocking)
    }

    /// Takes in the outcome of a load: the load is no longer under way, and the
    /// result says what to store for its id.
    pub fn handle_resource<P, O, E>(&mut self, outcome: Result<Resource<P, O>, ResourceError<P, O, E>>) -> (action: ResourceAction<O>)
        requires
            old(self).loading() > 0,
        ensures
            action == resource_action(outcome),
            final(self).loading() == old(self).loading() - 1,
            *final(self) == old(self).with_loading((old(self).loading() - 1) as nat),
            final(self).input_state() == old(self).input_state(),
            final(self).closing() == old(self).closing(),
            final(self).spec_close_key() == old(self).spec_close_key(),
            final(self).spec_target_fps() == old(self).spec_target_fps(),
            final(self).spec_size() == old(self).spec_size(),
            final(self).cursor_visible() == old(self).cursor_visible(),
    {
        self.finish_resource();
        match outcome {
            Ok(r) => {
                let Resource { path: _, data, id, resource_type, loading_op: _ } = r;
                match resource_type {
                    ResourceType::Bytes => ResourceAction::StoreBytes(id, data),
                    ResourceType::Image(mag, min) => ResourceAction::BuildImage(id, data, mag, min),
                    ResourceType::Shader(options) => ResourceAction::BuildShader(id, data, options),
                    ResourceType::Font => ResourceAction::LoadFont(id, data),
                }
            },
            Err(e) => match e.resource_type {
                ResourceType::Bytes => ResourceAction::DefaultBytes(e.id),
                ResourceType::Image(..) => ResourceAction::DefaultImage(e.id),
                ResourceType::Shader(_) => ResourceAction::DefaultShader(e.id),
                ResourceType::Font => ResourceAction::DefaultFont(e.id),
            },
        }
    }

    /// Whether a resource is still loading; the game is neither updated nor drawn
    /// while one is.
    pub fn is_loading(&self) -> (loading: bool)
        ensures
            loading == (self.loading() > 0),
    {
        self.in_progress_resources > 0
    }

    /// Records an input event; returns whether the input handle took it.
    pub fn input(&mut self, event: InputEvent) -> (taken: bool)
        requires
            event matches InputEvent::Keyboard { key: Some(k), .. } ==> k.is_tracked(),
        ensures
            taken == InputState::takes(event),
            final(self).input_state() == old(self).input_state().with_event(event),
            final(self).closing() == old(self).closing(),
            final(self).spec_close_key() == old(self).spec_close_key(),
            final(self).spec_target_fps() == old(self).spec_target_fps(),
            final(self).spec_size() == old(self).spec_size(),
            final(self).loading() == old(self).loading(),
            final(self).cursor_visible() == old(self).cursor_visible(),
    {
        self.input_handle.process_input(event)
    }

    /// Takes a new window size, unless one of its sides is zero. Returns whether
    /// the size was taken; the drawing surface must then be resized to it.
    pub fn resize(&mut self, new_size: Vec2<u32>) -> (taken: bool)
        ensures
            taken == (new_size.x > 0 && new_size.y > 0),
            final(self).spec_size() == (if taken {
                new_size
            } else {
                old(self).spec_size()
            }),
            final(self).input_state() == old(self).input_state(),
            final(self).closing() == old(self).closing(),
            final(self).spec_close_key() == old(self).spec_close_key(),
            final(self).spec_target_fps() == old(self).spec_target_fps(),
            final(self).loading() == old(self).loading(),
            final(self).cursor_visible() == old(self).cursor_visible(),
    {
        if new_size.x > 0 && new_size.y > 0 {
            self.size = new_size;
            true
        } else {
            false
        }
    }

    /// What the event loop does for a window event carrying `input`: input the
    /// engine takes goes no further; otherwise a close request exits, a resize
    /// hands on the new size, and a redraw runs a game frame, or only the engine's
    /// frame while resources are loading.
    pub open spec fn event_step(self, input: InputEvent, event: WindowEventKind) -> EventStep {
        if InputState::takes(input) {
            EventStep::Ignore
        } else {
            match event {
                WindowEventKind::CloseRequested => EventStep::Exit,
                WindowEventKind::Resized(size) => EventStep::Resize(size),
                WindowEventKind::RedrawRequested => if self.loading() > 0 {
                    EventStep::EngineFrameOnly
                } else {
                    EventStep::GameFrame
                },
                WindowEventKind::Other => EventStep::Ignore,
            }
        }
    }

    /// Takes in one window event: records its input, takes a new size (unless a
    /// side of it is zero) when the window was resized, and says what the event
    /// loop does next.
    pub fn on_window_event(&mut self, input: InputEvent, event: WindowEventKind) -> (step: EventStep)
        requires
            input matches InputEvent::Keyboard { key: Some(k), .. } ==> k.is_tracked(),
        ensures
            step == old(self).event_step(input, event),
            final(self).input_state() == old(self).input_state().with_event(input),
            final(self).spec_size() == (match step {
                EventStep::Resize(size) => if size.x > 0 && size.y > 0 {
                    size
                } else {
                    old(self).spec_size()
                },
                _ => old(self).spec_size(),
            }),
            final(self).closing() == old(self).closing(),
            final(self).spec_close_key() == old(self).spec_close_key(),
            final(self).spec_target_fps() == old(self).spec_target_fps(),
            final(self).loading() == old(self).loading(),
            final(self).cursor_visible() == old(self).cursor_visible(),
    {
        if self.input(input) {
            return EventStep::Ignore;
        }
        match event {
            WindowEventKind::CloseRequested => EventStep::Exit,
            WindowEventKind::Resized(size) => {
                self.resize(size);
                EventStep::Resize(size)
            },
            WindowEventKind::RedrawRequested => if self.is_loading() {
                EventStep::EngineFrameOnly
            } else {
                EventStep::GameFrame
            },
            WindowEventKind::Other => EventStep::Ignore,
        }
    }

    /// Ends a frame that has taken `frame_time` nanoseconds so far. Closes when
    /// asked to; otherwise the input moves on to the next frame, and the engine
    /// closes when the close key is down, or else waits out the rest of the frame's
    /// share of a second under a frame rate target. Unless the frame exits, the
    /// close key must be one whose state is kept and the target must not be zero.
    pub fn update(&mut self, frame_time: u64) -> (action: FrameAction)
        requires
            !old(self).closing() ==> old(self).close_key_tracked(),
            !old(self).closing() && !(old(self).spec_close_key() matches Some(k) && old(
                self,
            ).input_state().key_down(k)) ==> old(self).spec_target_fps() != Some(0u16),
        ensures
            action == old(self).frame_action(frame_time),
            old(self).closing() ==> final(self).input_state() == old(self).input_state(),
            !old(self).closing() ==> final(self).input_state() == old(self).input_state().refreshed(),
            final(self).closing() == old(self).closing(),
            final(self).spec_close_key() == old(self).spec_close_key(),
            final(self).spec_target_fps() == old(self).spec_target_fps(),
            final(self).spec_size() == old(self).spec_size(),
            final(self).loading() == old(self).loading(),
            final(self).cursor_visible() == old(self).cursor_visible(),
    {
        if self.should_close {
            return FrameAction::Exit;
        }
        self.input_handle.end_of_frame_refresh();
        if let Some(key) = self.close_key {
            if self.input_handle.is_key_down(key) {
                return FrameAction::Exit;
            }
        }
        if let Some(frame_rate) = self.target_fps {
            let desired_time_between_frames = NANOS_PER_SECOND / frame_rate as u64;
            if frame_time < desired_time_between_frames {
                return FrameAction::Sleep(desired_time_between_frames - frame_time);
            }
        }
        FrameAction::Continue
    }
}

/// Once closing has been asked for, the frame ends by exiting, whatever the input
/// and the timing; and holding the close key ends the frame by exiting as well.
pub proof fn lemma_close_exits(e: EngineState, frame_time: u64)
    ensures
        e.closing() ==> e.frame_action(frame_time) == FrameAction::Exit,
        (e.spec_close_key() matches Some(k) && e.input_state().key_down(k)) ==> e.frame_action(frame_time)
            == FrameAction::Exit,
        e.frame_action(frame_time) == FrameAction::Exit ==> e.closing() || (e.spec_close_key() matches Some(k)
            && e.input_state().key_down(k)),
{
}

/// Under a frame rate target, a frame that ends early waits exactly until it has
/// taken its share of a second, and a frame that is late does not wait.
pub proof fn lemma_frame_pacing(fps: u16, frame_time: u64)
    requires
        fps > 0,
    ensures
        (frame_time as int) < frame_budget(fps) ==> frame_time + (frame_budget(fps) - frame_time) == frame_budget(fps),
        0 < frame_budget(fps) <= NANOS_PER_SECOND,
{
    let f = fps as int;
    assert(1000000000int / f <= 1000000000int && 1000000000int / f > 0) by (nonlinear_arith)
        requires
            0 < f <= 65535,
    ;
}

/// Starting a load and then taking in its outcome gives back the engine state as it
/// was: [`EngineState::start_resource`] (and [`EngineState::add_in_progress_resource`])
/// leave the state `with_loading` one more, and [`EngineState::handle_resource`]
/// (and [`EngineState::finish_resource`]) leave it `with_loading` one less. So once
/// the outcome of every started load has been taken in, nothing is loading.
pub proof fn lemma_start_then_handle(e: EngineState)
    requires
        e.loading() < u32::MAX,
    ensures
        e.with_loading(e.loading() + 1).loading() == e.loading() + 1,
        e.with_loading(e.loading() + 1).with_loading(
            (e.with_loading(e.loading() + 1).loading() - 1) as nat,
        ) == e,
{
}

/// Under a frame rate target of `fps` frames a second, with the engine not closing
/// and the close key not held, a frame that took at least its share of a second
/// (`1_000_000_000 / fps` nanoseconds) goes straight on to the next frame, and a
/// frame that was quicker waits exactly until it has taken its share. Without a
/// target no frame waits.
pub proof fn lemma_late_frames_do_not_wait(e: EngineState, frame_time: u64, fps: u16)
    requires
        !e.closing(),
        !(e.spec_close_key() matches Some(k) && e.input_state().key_down(k)),
    ensures
        e.spec_target_fps() is None ==> e.frame_action(frame_time) == FrameAction::Continue,
        (e.spec_target_fps() == Some(fps) && fps > 0 && frame_time >= 1_000_000_000int / fps as int)
            ==> e.frame_action(frame_time) == FrameAction::Continue,
        (e.spec_target_fps() == Some(fps) && fps > 0 && frame_time < 1_000_000_000int / fps as int)
            ==> (e.frame_action(frame_time) matches FrameAction::Sleep(wait) && frame_time + wait
            == 1_000_000_000int / fps as int),
{
}

/// The id an action is for.
pub open spec fn action_id<O>(a: ResourceAction<O>) -> u64 {
    match a {
        ResourceAction::StoreBytes(id, _) => id,
        ResourceAction::BuildImage(id, _, _, _) => id,
        ResourceAction::BuildShader(id, _, _) => id,
        ResourceAction::LoadFont(id, _) => id,
        ResourceAction::DefaultBytes(id) => id,
        ResourceAction::DefaultImage(id) => id,
        ResourceAction::DefaultShader(id) => id,
        ResourceAction::DefaultFont(id) => id,
    }
}

/// The bytes an action makes its resource from, if it makes it from read bytes
/// rather than storing a stand-in.
pub open spec fn action_bytes<O>(a: ResourceAction<O>) -> Option<Vec<u8>> {
    match a {
        ResourceAction::StoreBytes(_, d) => Some(d),
        ResourceAction::BuildImage(_, d, _, _) => Some(d),
        ResourceAction::BuildShader(_, d, _) => Some(d),
        ResourceAction::LoadFont(_, d) => Some(d),
        _ => None,
    }
}

/// The kind of resource an action stores: 0 bytes, 1 a texture, 2 a shader, 3 a font.
pub open spec fn action_kind<O>(a: ResourceAction<O>) -> int {
    match a {
        ResourceAction::StoreBytes(..) | ResourceAction::DefaultBytes(_) => 0,
        ResourceAction::BuildImage(..) | ResourceAction::DefaultImage(_) => 1,
        ResourceAction::BuildShader(..) | ResourceAction::DefaultShader(_) => 2,
        ResourceAction::LoadFont(..) | ResourceAction::DefaultFont(_) => 3,
    }
}

/// The kind of resource a load was asked for, numbered as [`action_kind`] numbers them.
pub open spec fn requested_kind<O>(t: ResourceType<O>) -> int {
    match t {
        ResourceType::Bytes => 0,
        ResourceType::Image(..) => 1,
        ResourceType::Shader(_) => 2,
        ResourceType::Font => 3,
    }
}

/// A finished load is taken in as what was asked for: the action is for the load's
/// id and for the kind of resource requested. A load that succeeded makes its
/// resource from exactly the bytes read, never from a stand-in, keeping the image's
/// samplers and the shader's options; a stand-in is stored only for a load that
/// failed.
pub proof fn lemma_loads_keep_what_was_read<P, O, E>(outcome: Result<Resource<P, O>, ResourceError<P, O, E>>)
    ensures
        match outcome {
            Ok(r) => {
                &&& action_id(resource_action(outcome)) == r.id
                &&& action_kind(resource_action(outcome)) == requested_kind(r.resource_type)
                &&& action_bytes(resource_action(outcome)) == Some(r.data)
                &&& (r.resource_type matches ResourceType::Image(mag, min) ==> resource_action(outcome)
                    matches ResourceAction::BuildImage(_, _, m, n) && m == mag && n == min)
                &&& (r.resource_type matches ResourceType::Shader(o) ==> resource_action(outcome)
                    matches ResourceAction::BuildShader(_, _, p) && p == o)
            },
            Err(e) => {
                &&& action_id(resource_action(outcome)) == e.id
                &&& action_kind(resource_action(outcome)) == requested_kind(e.resource_type)
                &&& action_bytes(resource_action(outcome)) is None
            },
        },
{
}

} // verus!
