//! A frame-by-frame simulation core for a top-down 2D world: pushed and
//! self-directed motion, axis-separated rectangle collisions, facing and
//! movement states, sprite frame selection and draw order.

pub mod camera;
pub mod fixed;
pub mod init;
pub mod input;
pub mod kind;
pub mod living;
pub mod physics;
pub mod prop;
pub mod rng;
pub mod simple;
pub mod sound;
pub mod timer;
pub mod vector;
pub mod world;
