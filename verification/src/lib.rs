//! A small 2D game engine: input handling, resource bookkeeping, draw queues and settings.
pub mod buffer;
pub mod button;
pub mod colour;
pub mod draw_queue;
pub mod engine_handle;
pub mod input;
pub mod material;
pub mod matrix_math;
pub mod menus;
pub mod resource;
pub mod resource_cache;
pub mod scene;
pub mod settings;
pub mod shader;
pub mod text;
pub mod texture;
pub mod ui_elements;
pub mod utils;
pub mod vectors;
