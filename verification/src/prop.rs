//! Things that stand in the way and never move.

pub mod components;
