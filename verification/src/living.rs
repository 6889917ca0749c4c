//! The beings of the world: their markers, their relationships and what
//! the wandering ones want.

pub mod components;
pub mod systems;
