//! The size of the view and the plugin that shows the components.

use vstd::prelude::*;

verus! {

/// The width of the view in pixels.
pub const VIEW_WIDTH: i32 = 192;

/// The height of the view in pixels.
pub const VIEW_HEIGHT: i32 = 108;

/// Stands for the inspector that shows the components of the world while
/// it runs.
#[derive(Clone, Copy, Debug, PartialEq, Eq, Structural)]
pub struct DebugPlugin;

} // verus!
