use arrayvec::ArrayVec;
use vstd::prelude::*;

use crate::piece::{piece_color, CellColor, FallingPiece};

verus! {

/// Number of cells in a row.
pub const BOARD_WIDTH: usize = 10;

/// Number of rows the board holds, visible or not.
pub const BOARD_HEIGHT: usize = 40;

/// One board row: a colour for each of its ten cells, column 0 first.
#[derive(Clone, Copy, Debug, PartialEq, Eq)]
pub struct Row {
    pub cells: [CellColor; 10],
}

impl View for Row {
    type V = Seq<CellColor>;

    open spec fn view(&self) -> Seq<CellColor> {
        self.cells@
    }
}

/// A row with no cell filled.
pub open spec fn blank_row() -> Seq<CellColor> {
    Seq::new(10, |x: int| CellColor::Empty)
}

/// A solid garbage row with a single hole at column `hole` (no hole at all
/// when `hole` lies outside the row).
pub open spec fn garbage_row(hole: int) -> Seq<CellColor> {
    Seq::new(10, |x: int| if x == hole { CellColor::Empty } else { CellColor::Garbage })
}

/// Every cell of the row is filled.
pub open spec fn row_is_full(r: Seq<CellColor>) -> bool {
    forall|x: int| 0 <= x < r.len() ==> r[x] != CellColor::Empty
}

impl Row {
    /// A row of empty cells.
    pub fn empty() -> (r: Row)
        ensures
            r@ == blank_row(),
    {
        let r = Row { cells: [CellColor::Empty; 10] };
        assert(r@ =~= blank_row());
        r
    }

    /// A garbage row whose only empty cell is column `hole`.
    pub fn garbage(hole: usize) -> (r: Row)
        ensures
            r@ == garbage_row(hole as int),
    {
        let mut r = Row::empty();
        let mut x: usize = 0;
        while x < BOARD_WIDTH
            invariant
                x <= 10,
                forall|i: int| 0 <= i < x ==> r@[i] == garbage_row(hole as int)[i],
                forall|i: int| x <= i < 10 ==> r@[i] == CellColor::Empty,
            decreases 10 - x,
        {
            if x != hole {
                r.set(x, CellColor::Garbage);
            }
            x += 1;
        }
        assert(r@ =~= garbage_row(hole as int));
        r
    }

    /// Paints cell `x` with `color`.
    pub fn set(&mut self, x: usize, color: CellColor)
        requires
            x < 10,
        ensures
            final(self)@ == old(self)@.update(x as int, color),
    {
        self.cells[x] = color;
        assert(self@ =~= old(self)@.update(x as int, color));
    }

    /// The colour of cell `x`.
    pub fn cell_color(&self, x: usize) -> (r: CellColor)
        requires
            x < 10,
        ensures
            r == self@[x as int],
    {
        self.cells[x]
    }

    /// Whether no cell of the row is empty.
    pub fn is_full(&self) -> (r: bool)
        ensures
            r == row_is_full(self@),
    {
        let mut x: usize = 0;
        while x < BOARD_WIDTH
            invariant
                x <= 10,
                forall|i: int| 0 <= i < x ==> self@[i] != CellColor::Empty,
            decreases 10 - x,
        {
            if self.cells[x] == CellColor::Empty {
                return false;
            }
            x += 1;
        }
        true
    }
}

/// A board of `BOARD_HEIGHT` blank rows.
pub open spec fn blank_board() -> Seq<Seq<CellColor>> {
    Seq::new(40, |i: int| blank_row())
}

/// The cell `(column, row)` lies on the board.
pub open spec fn cell_on_board(c: (i32, i32)) -> bool {
    0 <= c.0 < 10 && 0 <= c.1 < 40
}

/// Every cell the piece covers lies on the board.
pub open spec fn piece_on_board(p: FallingPiece) -> bool {
    forall|i: int| 0 <= i < 4 ==> cell_on_board(#[trigger] p.cells@[i])
}

/// The board with cell `c` painted `color`.
pub open spec fn paint(b: Seq<Seq<CellColor>>, c: (i32, i32), color: CellColor) -> Seq<
    Seq<CellColor>,
> {
    b.update(c.1 as int, b[c.1 as int].update(c.0 as int, color))
}

/// The board with each of `cells` painted `color`, in order.
pub open spec fn paint_cells(b: Seq<Seq<CellColor>>, cells: Seq<(i32, i32)>, color: CellColor) -> Seq<
    Seq<CellColor>,
>
    decreases cells.len(),
{
    if cells.len() == 0 {
        b
    } else {
        paint(paint_cells(b, cells.drop_last(), color), cells.last(), color)
    }
}

/// The board with the cells of a locked piece stamped in the piece's colour.
pub open spec fn stamp_piece(b: Seq<Seq<CellColor>>, p: FallingPiece) -> Seq<Seq<CellColor>> {
    paint_cells(b, p.cells@, piece_color(p.kind))
}

/// The rows of `b` that are not full, in their order.
pub open spec fn kept_rows(b: Seq<Seq<CellColor>>) -> Seq<Seq<CellColor>>
    decreases b.len(),
{
    if b.len() == 0 {
        b
    } else if row_is_full(b.last()) {
        kept_rows(b.drop_last())
    } else {
        kept_rows(b.drop_last()).push(b.last())
    }
}

/// The board once its full rows are taken out and blank rows are added on
/// top until it holds `BOARD_HEIGHT` rows again.
pub open spec fn collapse_full_rows(b: Seq<Seq<CellColor>>) -> Seq<Seq<CellColor>> {
    kept_rows(b) + Seq::new((40 - kept_rows(b).len()) as nat, |i: int| blank_row())
}

/// `base` with one garbage row per entry of `holes` put underneath, each new
/// row below the ones before it.
pub open spec fn garbage_stack(base: Seq<Seq<CellColor>>, holes: Seq<usize>) -> Seq<
    Seq<CellColor>,
>
    decreases holes.len(),
{
    if holes.len() == 0 {
        base
    } else {
        seq![garbage_row(holes.last() as int)] + garbage_stack(base, holes.drop_last())
    }
}

/// The board after garbage arrives: as many top rows dropped as rows come in
/// underneath.
pub open spec fn add_garbage(b: Seq<Seq<CellColor>>, holes: Seq<usize>) -> Seq<Seq<CellColor>> {
    garbage_stack(b.take(40 - holes.len()), holes)
}

/// Taking out full rows never lengthens the board.
pub proof fn lemma_kept_rows_len(b: Seq<Seq<CellColor>>)
    ensures
        kept_rows(b).len() <= b.len(),
    decreases b.len(),
{
    if b.len() > 0 {
        lemma_kept_rows_len(b.drop_last());
    }
}

/// Each hole adds exactly one row.
pub proof fn lemma_garbage_stack_len(base: Seq<Seq<CellColor>>, holes: Seq<usize>)
    ensures
        garbage_stack(base, holes).len() == base.len() + holes.len(),
    decreases holes.len(),
{
    if holes.len() > 0 {
        lemma_garbage_stack_len(base, holes.drop_last());
    }
}

/// Painting cells on the board never changes the number of rows.
pub proof fn lemma_paint_cells_len(b: Seq<Seq<CellColor>>, cells: Seq<(i32, i32)>, color: CellColor)
    requires
        b.len() == 40,
        forall|i: int| 0 <= i < cells.len() ==> cell_on_board(#[trigger] cells[i]),
    ensures
        paint_cells(b, cells, color).len() == 40,
    decreases cells.len(),
{
    if cells.len() > 0 {
        assert forall|i: int| 0 <= i < cells.drop_last().len() implies cell_on_board(
            #[trigger] cells.drop_last()[i],
        ) by {
            assert(cells.drop_last()[i] == cells[i]);
        }
        lemma_paint_cells_len(b, cells.drop_last(), color);
        assert(cell_on_board(cells[cells.len() - 1]));
    }
}

/// Stamping a piece that lies on the board keeps the board's height.
pub proof fn lemma_stamp_keeps_height(b: Seq<Seq<CellColor>>, p: FallingPiece)
    requires
        b.len() == 40,
        piece_on_board(p),
    ensures
        stamp_piece(b, p).len() == 40,
{
    lemma_paint_cells_len(b, p.cells@, piece_color(p.kind));
}

/// Clearing full rows, and taking in at most `BOARD_HEIGHT` garbage rows,
/// leave a board of `BOARD_HEIGHT` rows at that height.
pub proof fn lemma_clear_and_garbage_keep_height(b: Seq<Seq<CellColor>>, holes: Seq<usize>)
    requires
        b.len() == 40,
        holes.len() <= 40,
    ensures
        collapse_full_rows(b).len() == 40,
        add_garbage(b, holes).len() == 40,
{
    lemma_kept_rows_len(b);
    lemma_garbage_stack_len(b.take(40 - holes.len()), holes);
}

/// A board of `BOARD_HEIGHT` empty rows.
pub fn empty_board() -> (r: ArrayVec<Row, 40>)
    ensures
        board_view(r) == blank_board(),
        rows_of(r).len() == 40,
{
    let e = Row::empty();
    let a = [e; 40];
    let r = rows_from_array(a);
    assert(board_view(r) =~= blank_board());
    r
}

/// Stamps the cells of a locked piece onto the board in its colour.
pub fn stamp(board: &mut ArrayVec<Row, 40>, piece: &FallingPiece)
    requires
        piece_on_board(*piece),
        rows_of(*old(board)).len() == 40,
    ensures
        board_view(*final(board)) == stamp_piece(board_view(*old(board)), *piece),
        rows_of(*final(board)).len() == 40,
{
    let color = piece.kind.color();
    let ghost b0 = board_view(*board);
    let mut i: usize = 0;
    while i < 4
        invariant
            i <= 4,
            piece_on_board(*piece),
            color == piece_color(piece.kind),
            rows_of(*board).len() == 40,
            board_view(*board) == paint_cells(b0, piece.cells@.take(i as int), color),
        decreases 4 - i,
    {
        let (x, y) = piece.cells[i];
        assert(cell_on_board(piece.cells@[i as int]));
        let ghost before = board_view(*board);
        let mut row = rows_get(board, y as usize);
        row.set(x as usize, color);
        rows_set(board, y as usize, row);
        assert(piece.cells@.take(i + 1).drop_last() =~= piece.cells@.take(i as int));
        assert(board_view(*board) =~= paint(before, (x, y), color));
        i += 1;
    }
    assert(piece.cells@.take(4) =~= piece.cells@);
}

/// Takes the full rows out of the board and fills it back up to
/// `BOARD_HEIGHT` rows with blank ones on top.
pub fn clear_full_rows(board: &mut ArrayVec<Row, 40>)
    ensures
        board_view(*final(board)) == collapse_full_rows(board_view(*old(board))),
        rows_of(*final(board)).len() == 40,
{
    let ghost b0 = board_view(*board);
    let n = rows_len(board);
    let mut out = rows_new();
    let mut i: usize = 0;
    while i < n
        invariant
            i <= n,
            n == rows_of(*board).len(),
            n <= 40,
            board_view(*board) == b0,
            rows_of(out).len() <= i,
            board_view(out) == kept_rows(b0.take(i as int)),
        decreases n - i,
    {
        let row = rows_get(board, i);
        assert(b0.take(i + 1).drop_last() =~= b0.take(i as int));
        assert(b0.take(i + 1).last() == row@);
        let ghost before = rows_of(out);
        if !row.is_full() {
            rows_push(&mut out, row);
            assert(board_view(out) =~= board_view_of(before).push(row@));
        }
        i += 1;
    }
    assert(b0.take(n as int) =~= b0);
    let ghost kept = kept_rows(b0);
    let mut len = rows_len(&out);
    while !rows_is_full(&out)
        invariant
            len == rows_of(out).len(),
            kept.len() <= len <= 40,
            board_view(out) == kept + Seq::new((len - kept.len()) as nat, |j: int| blank_row()),
        decreases 40 - len,
    {
        let ghost before = rows_of(out);
        let e = Row::empty();
        rows_push(&mut out, e);
        assert(board_view(out) =~= board_view_of(before).push(e@));
        assert(board_view(out) =~= kept + Seq::new((len + 1 - kept.len()) as nat, |j: int| blank_row()));
        len = rows_len(&out);
    }
    *board = out;
}

/// Drops as many rows from the top as there are entries in `holes`, then
/// puts one garbage row underneath the board per entry, in order, each with
/// its hole at that entry's column.
pub fn insert_garbage(board: &mut ArrayVec<Row, 40>, holes: &Vec<usize>)
    requires
        rows_of(*old(board)).len() == 40,
        holes@.len() <= 40,
    ensures
        board_view(*final(board)) == add_garbage(board_view(*old(board)), holes@),
        rows_of(*final(board)).len() == 40,
{
    let ghost b0 = board_view(*board);
    let k = holes.len();
    rows_truncate(board, 40 - k);
    assert(board_view(*board) =~= b0.take(40 - k));
    let mut j: usize = 0;
    while j < k
        invariant
            j <= k,
            k == holes@.len(),
            k <= 40,
            rows_of(*board).len() == 40 - k + j,
            board_view(*board) == garbage_stack(b0.take(40 - k), holes@.take(j as int)),
        decreases k - j,
    {
        let ghost before = rows_of(*board);
        let row = Row::garbage(holes[j]);
        rows_insert(board, 0, row);
        assert(holes@.take(j + 1).drop_last() =~= holes@.take(j as int));
        assert(board_view(*board) =~= seq![row@] + board_view_of(before));
        j += 1;
    }
    assert(holes@.take(k as int) =~= holes@);
}

/// The colours of a sequence of rows.
pub open spec fn board_view_of(rows: Seq<Row>) -> Seq<Seq<CellColor>> {
    rows.map_values(|r: Row| r@)
}

/// The fixed-capacity vector of the `arrayvec` crate that holds the board's
/// rows; proofs see its contents only through `rows_of`.
#[verifier::external_type_specification]
#[verifier::external_body]
#[verifier::reject_recursive_types(T)]
pub struct ExArrayVec<T, const CAP: usize>(ArrayVec<T, CAP>);

/// The rows an `ArrayVec` of board rows holds, bottom row first.
pub uninterp spec fn rows_of(v: ArrayVec<Row, 40>) -> Seq<Row>;

/// The board as colours: row index first, then column.
pub open spec fn board_view(v: ArrayVec<Row, 40>) -> Seq<Seq<CellColor>> {
    board_view_of(rows_of(v))
}

/// Relies on `ArrayVec::from([T; CAP])`: the vector holds the array's
/// elements in order.
#[verifier::external_body]
fn rows_from_array(a: [Row; 40]) -> (r: ArrayVec<Row, 40>)
    ensures
        rows_of(r) == a@,
{
    ArrayVec::from(a)
}

/// Relies on `ArrayVec::new`: an empty vector.
#[verifier::external_body]
fn rows_new() -> (r: ArrayVec<Row, 40>)
    ensures
        rows_of(r) == Seq::<Row>::empty(),
{
    ArrayVec::new()
}

/// Relies on `ArrayVec::len`: the number of elements, never above the
/// capacity.
#[verifier::external_body]
pub(crate) fn rows_len(v: &ArrayVec<Row, 40>) -> (r: usize)
    ensures
        r == rows_of(*v).len(),
        r <= 40,
{
    v.len()
}

/// Relies on `ArrayVec::is_full`: the length equals the capacity.
#[verifier::external_body]
fn rows_is_full(v: &ArrayVec<Row, 40>) -> (r: bool)
    ensures
        r == (rows_of(*v).len() == 40),
{
    v.is_full()
}

/// Relies on indexing an `ArrayVec` (through its slice): the element at `i`.
#[verifier::external_body]
pub(crate) fn rows_get(v: &ArrayVec<Row, 40>, i: usize) -> (r: Row)
    requires
        i < rows_of(*v).len(),
    ensures
        r == rows_of(*v)[i as int],
{
    v[i]
}

/// Relies on mutable indexing of an `ArrayVec` (through its slice): only the
/// element at `i` is replaced.
#[verifier::external_body]
fn rows_set(v: &mut ArrayVec<Row, 40>, i: usize, row: Row)
    requires
        i < rows_of(*old(v)).len(),
    ensures
        rows_of(*final(v)) == rows_of(*old(v)).update(i as int, row),
{
    v[i] = row;
}

/// Relies on `ArrayVec::push`, which panics only on a full vector: the
/// element goes at the end.
#[verifier::external_body]
fn rows_push(v: &mut ArrayVec<Row, 40>, row: Row)
    requires
        rows_of(*old(v)).len() < 40,
    ensures
        rows_of(*final(v)) == rows_of(*old(v)).push(row),
{
    v.push(row);
}

/// Relies on `ArrayVec::insert`, which panics on a full vector or an index
/// past the end: the element goes at `i`, the later ones shift up.
#[verifier::external_body]
fn rows_insert(v: &mut ArrayVec<Row, 40>, i: usize, row: Row)
    requires
        i <= rows_of(*old(v)).len(),
        rows_of(*old(v)).len() < 40,
    ensures
        rows_of(*final(v)) == rows_of(*old(v)).insert(i as int, row),
{
    v.insert(i, row);
}

/// Relies on `ArrayVec::truncate`: keeps the first `n` elements, and has no
/// effect when `n` is not below the length.
#[verifier::external_body]
fn rows_truncate(v: &mut ArrayVec<Row, 40>, n: usize)
    ensures
        n < rows_of(*old(v)).len() ==> rows_of(*final(v)) == rows_of(*old(v)).take(n as int),
        n >= rows_of(*old(v)).len() ==> rows_of(*final(v)) == rows_of(*old(v)),
{
    v.truncate(n);
}

} // verus!
