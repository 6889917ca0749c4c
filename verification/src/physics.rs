//! Motion, collision and the sprite state that follows from them.

pub mod components;
pub mod sprite_change;
pub mod systems;
