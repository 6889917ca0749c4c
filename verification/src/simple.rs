//! Components that stand alone.

pub mod components;
