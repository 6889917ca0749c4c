//! Facing, movement state, sprite frames and draw order.

pub mod components;
pub mod consts;
pub mod systems;
