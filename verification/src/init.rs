//! What is set up before the first frame.

pub mod systems;
