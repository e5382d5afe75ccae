use vstd::prelude::*;

use crate::geometry::Vector2;
use crate::render::GlyphColor;
use crate::render::RenderCmd;

verus! {

/// The single piece of food on the board. It is relocated, never recreated,
/// when the snake eats it; the game state drives the relocation.
#[derive(PartialEq, Eq, Structural, Clone, Copy, Debug)]
pub struct Food {
    pub location: Vector2,
}

impl Food {
    pub fn new(x: i32, y: i32) -> (f: Food)
        ensures
            f.location == (Vector2 { x: x, y: y }),
    {
        Food { location: Vector2::new(x, y) }
    }

    /// The single drawing order for the food glyph.
    pub fn draw_command(&self) -> (cmd: RenderCmd)
        ensures
            cmd == (RenderCmd::Pixel {
                x: self.location.x,
                y: self.location.y,
                glyph: '*',
                color: GlyphColor::Red,
            }),
    {
        RenderCmd::Pixel { x: self.location.x, y: self.location.y, glyph: '*', color: GlyphColor::Red }
    }
}

} // verus!
