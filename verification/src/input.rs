use vstd::prelude::*;
use crate::vector2d::Vector2D;

verus! {

/// Capability interface: input polling, level-triggered (polled every
/// tick, not edge-triggered).
pub trait CanManageInput {
    fn is_key_pressed(&self, key: &str) -> bool;

    fn key_pressed(&self) -> Vec<String>;

    fn mouse_key_pressed(&self) -> Vec<String>;

    /// The mouse position in screen space.
    fn get_mouse_position(&self) -> Vector2D;
}

} // verus!
