//! Colors of the e-ink screen.
use vstd::prelude::*;

verus! {

/// A color: a gray level, or red, green and blue levels.
#[derive(Clone, Copy, Debug, PartialEq, Eq, Structural)]
pub enum Color {
    Gray(u8),
    Rgb(u8, u8, u8),
}

/// Level of black on the gray scale.
pub const BLACK_LEVEL: u8 = 0;

/// Level of white on the gray scale.
pub const WHITE_LEVEL: u8 = 255;

pub open spec fn black() -> Color {
    Color::Gray(BLACK_LEVEL)
}

pub open spec fn white() -> Color {
    Color::Gray(WHITE_LEVEL)
}

/// The gray of step `k` on a scale of sixteen grays from black (0) to white (15).
pub open spec fn gray_step(k: int) -> Color {
    Color::Gray((k * 0x11) as u8)
}

} // verus!
