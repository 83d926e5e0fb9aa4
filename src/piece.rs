use vstd::prelude::*;

verus! {

/// The seven tetromino kinds.
#[derive(Clone, Copy, Debug, PartialEq, Eq, Structural)]
pub enum Piece {
    I,
    O,
    T,
    L,
    J,
    S,
    Z,
}

/// The colour of one board cell. `Empty` is an explicit colour: a row always
/// holds a colour in each of its cells.
#[derive(Clone, Copy, Debug, PartialEq, Eq, Structural)]
pub enum CellColor {
    I,
    O,
    T,
    L,
    J,
    S,
    Z,
    Garbage,
    Unclearable,
    Empty,
}

/// The colour in which a piece of kind `p` is drawn and stamped.
pub open spec fn piece_color(p: Piece) -> CellColor {
    match p {
        Piece::I => CellColor::I,
        Piece::O => CellColor::O,
        Piece::T => CellColor::T,
        Piece::L => CellColor::L,
        Piece::J => CellColor::J,
        Piece::S => CellColor::S,
        Piece::Z => CellColor::Z,
    }
}

impl Piece {
    /// The cell colour of this kind of piece.
    pub fn color(self) -> (r: CellColor)
        ensures
            r == piece_color(self),
            r != CellColor::Empty,
    {
        match self {
            Piece::I => CellColor::I,
            Piece::O => CellColor::O,
            Piece::T => CellColor::T,
            Piece::L => CellColor::L,
            Piece::J => CellColor::J,
            Piece::S => CellColor::S,
            Piece::Z => CellColor::Z,
        }
    }
}

/// A piece in play, as the rules engine reports it: its kind and the four
/// board cells it covers, each as `(column, row)` with row 0 at the bottom.
#[derive(Clone, Copy, Debug, PartialEq, Eq)]
pub struct FallingPiece {
    pub kind: Piece,
    pub cells: [(i32, i32); 4],
}

} // verus!
