//! What the keyboard asks of the player.

pub mod systems;
