//! Small shared types of the menu code: points, the collision helper and the text
//! centring helper.
pub mod collide;
pub mod point;
pub mod text;
