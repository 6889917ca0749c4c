//! Sound messages and how they name the files to play.

pub mod components;
pub mod system;
