//! The random number generator that the world draws from.

pub mod components;
