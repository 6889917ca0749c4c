//! The camera and what it follows.

pub mod components;
pub mod systems;
