use vstd::prelude::*;

use crate::piece::CellColor;

verus! {

/// Where each cell colour sits on the skin's texture strip; empty cells are
/// not drawn.
pub open spec fn texture_slot(color: CellColor) -> Option<usize> {
    match color {
        CellColor::I => Some(4),
        CellColor::O => Some(2),
        CellColor::T => Some(6),
        CellColor::L => Some(1),
        CellColor::J => Some(5),
        CellColor::S => Some(3),
        CellColor::Z => Some(0),
        CellColor::Garbage => Some(9),
        CellColor::Unclearable => Some(7),
        CellColor::Empty => None,
    }
}

/// The slot of a cell colour on the texture strip. `Unclearable` cells are
/// not used on the board, so its slot draws the ghost piece.
pub fn color_to_tex_index(color: CellColor) -> (r: Option<usize>)
    ensures
        r == texture_slot(color),
{
    match color {
        CellColor::I => Some(4),
        CellColor::O => Some(2),
        CellColor::T => Some(6),
        CellColor::L => Some(1),
        CellColor::J => Some(5),
        CellColor::S => Some(3),
        CellColor::Z => Some(0),
        CellColor::Garbage => Some(9),
        CellColor::Unclearable => Some(7),
        CellColor::Empty => None,
    }
}

/// How cells are drawn: from a texture strip, held here as `T`.
pub enum Skin<T> {
    Basic(T),
}

impl<T> Skin<T> {
    /// The texture the skin draws from.
    pub fn texture(&self) -> (r: &T)
        ensures
            match self {
                Skin::Basic(t) => r == t,
            },
    {
        match self {
            Skin::Basic(t) => t,
        }
    }

    /// The slot of a cell colour on this skin's texture strip.
    pub fn tex_index(&self, color: CellColor) -> (r: Option<usize>)
        ensures
            r == texture_slot(color),
    {
        color_to_tex_index(color)
    }
}

} // verus!
