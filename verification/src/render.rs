use vstd::prelude::*;

verus! {

/// The palette of colors used on the board.
#[derive(PartialEq, Eq, Structural, Clone, Copy, Debug)]
pub enum GlyphColor {
    DarkGrey,
    DarkGreen,
    Green,
    Red,
}

/// One drawing order for the console backend. Game logic only decides what
/// should appear where; turning these orders into terminal writes is left to
/// the binary around the library.
#[derive(PartialEq, Eq, Structural, Clone, Copy, Debug)]
pub enum RenderCmd {
    /// Cover the whole board with one glyph.
    Fill { glyph: char, color: GlyphColor },
    /// Put one glyph at one cell.
    Pixel { x: i32, y: i32, glyph: char, color: GlyphColor },
    /// Write the score readout in the top left corner.
    ScoreLine { score: u32 },
    /// Write the death notice with the final score in the top left corner.
    DeathLine { score: u32 },
    /// Write the replay prompt on the line below the death notice.
    PromptLine,
}

} // verus!
