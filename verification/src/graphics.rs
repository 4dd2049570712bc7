use vstd::prelude::*;
use crate::vector2d::Vector2D;

verus! {

/// An RGB color handed to the text-drawing collaborator.
#[derive(Clone, Copy, PartialEq, Eq, Structural, Debug)]
pub struct Color {
    pub r: u8,
    pub g: u8,
    pub b: u8,
}

impl Color {
    pub fn rgb(r: u8, g: u8, b: u8) -> (c: Color)
        ensures
            c == (Color { r, g, b }),
    {
        Color { r, g, b }
    }
}

/// Capability interface: sprite rasterization.  Implemented outside the
/// core; the core promises nothing about what drawing returns.
pub trait CanDrawSprite {
    /// Draw the named sprite at a screen position, with optional source and
    /// destination rectangle sizes.
    fn draw_sprite(
        &mut self,
        sprite_index: &str,
        position: Vector2D,
        source_size: Option<Vector2D>,
        dest_size: Option<Vector2D>,
    ) -> Result<(), String>;
}

/// Capability interface: text rendering.
pub trait CanDrawText {
    fn create_text(
        &mut self,
        text: &str,
        x: i32,
        y: i32,
        font_size: u32,
        color: Color,
    ) -> Result<(), String>;
}

} // verus!
