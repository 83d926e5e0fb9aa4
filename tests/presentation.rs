use arrayvec::ArrayVec;
use practris::board::{empty_board, Row};
use practris::piece::{CellColor, FallingPiece, Piece};
use practris::presentation::{events_fit_board, DrawPhase, Event, GameDrawState, LockResult, PlayerUpdate, SingleplayerGameUi};

fn flat_i() -> FallingPiece {
    FallingPiece { kind: Piece::I, cells: [(0, 0), (1, 0), (2, 0), (3, 0)] }
}

fn ghost_i() -> FallingPiece {
    FallingPiece { kind: Piece::I, cells: [(0, 5), (1, 5), (2, 5), (3, 5)] }
}

fn lock(cleared: Vec<i32>) -> LockResult {
    LockResult { cleared_lines: cleared, b2b: false, combo: None, perfect_clear: false, hard_clear: None }
}

fn batch(events: Vec<Event>) -> PlayerUpdate {
    PlayerUpdate { events, garbage_queue: 0 }
}

fn queue() -> Vec<Piece> {
    vec![Piece::T, Piece::O, Piece::S, Piece::Z, Piece::L]
}

fn fresh() -> GameDrawState {
    GameDrawState::new(queue(), "p".to_string())
}

fn all_empty(row: Row) -> bool {
    (0..10).all(|x| row.cell_color(x) == CellColor::Empty)
}

#[test]
fn falling_then_placed_without_clear() {
    let mut s = fresh();
    s.update(batch(vec![Event::PieceFalling(flat_i(), ghost_i())]), 1);
    match s.phase() {
        DrawPhase::Falling(p, g) => {
            assert_eq!(*p, flat_i());
            assert_eq!(*g, ghost_i());
        }
        other => panic!("unexpected phase {:?}", other),
    }
    s.update(batch(vec![Event::PiecePlaced { piece: flat_i(), locked: lock(vec![]) }]), 2);
    assert!(matches!(s.phase(), DrawPhase::Delay));
    let row = s.row(0);
    for x in 0..4 {
        assert_eq!(row.cell_color(x), CellColor::I);
    }
    for x in 4..10 {
        assert_eq!(row.cell_color(x), CellColor::Empty);
    }
    assert_eq!(s.game_time(), 2);
}

#[test]
fn line_clear_animation_then_rows_collapse() {
    let mut board: ArrayVec<Row, 40> = empty_board();
    let mut bottom = Row::empty();
    for x in 4..10 {
        bottom.set(x, CellColor::Garbage);
    }
    board[0] = bottom;
    let mut marker = Row::empty();
    marker.set(9, CellColor::T);
    board[1] = marker;
    let mut s = GameDrawState::new_from_board(board, queue(), "p".to_string());
    s.update(batch(vec![Event::PiecePlaced { piece: flat_i(), locked: lock(vec![0]) }]), 1);
    match s.phase() {
        DrawPhase::LineClearAnimation(lines, frames) => {
            assert_eq!(lines, &vec![0]);
            assert_eq!(*frames, 0);
        }
        other => panic!("unexpected phase {:?}", other),
    }
    assert!(s.row(0).is_full());
    s.update(batch(vec![]), 2);
    match s.phase() {
        DrawPhase::LineClearAnimation(_, frames) => assert_eq!(*frames, 1),
        other => panic!("unexpected phase {:?}", other),
    }
    s.update(batch(vec![Event::EndOfLineClearDelay]), 3);
    assert!(matches!(s.phase(), DrawPhase::Delay));
    assert_eq!(s.board_height(), 40);
    assert_eq!(s.row(0).cell_color(9), CellColor::T);
    assert!(all_empty(s.row(39)));
}

#[test]
fn garbage_rows_go_underneath() {
    let mut s = fresh();
    let mut marker_board = empty_board();
    let mut marker = Row::empty();
    marker.set(0, CellColor::Z);
    marker_board[0] = marker;
    let mut t = GameDrawState::new_from_board(marker_board, queue(), "p".to_string());
    s.update(batch(vec![Event::GarbageAdded(vec![3, 7])]), 1);
    t.update(batch(vec![Event::GarbageAdded(vec![3, 7])]), 1);
    assert_eq!(s.board_height(), 40);
    for (y, hole) in [(0usize, 7usize), (1, 3)] {
        let row = s.row(y);
        for x in 0..10 {
            let want = if x == hole { CellColor::Empty } else { CellColor::Garbage };
            assert_eq!(row.cell_color(x), want);
        }
    }
    assert!(all_empty(s.row(2)));
    assert_eq!(t.row(2).cell_color(0), CellColor::Z);
}

#[test]
fn board_keeps_height_under_full_garbage() {
    let mut s = fresh();
    s.update(batch(vec![Event::GarbageAdded(vec![0; 40])]), 1);
    assert_eq!(s.board_height(), 40);
    assert!(s.row(39).cell_color(0) == CellColor::Empty);
    assert!(s.row(39).cell_color(1) == CellColor::Garbage);
    s.update(batch(vec![Event::EndOfLineClearDelay, Event::GarbageAdded(vec![])]), 2);
    assert_eq!(s.board_height(), 40);
}

#[test]
fn solid_garbage_is_cleared_at_end_of_delay() {
    let mut s = fresh();
    s.update(batch(vec![Event::GarbageAdded(vec![10, 4])]), 1);
    assert!(s.row(1).is_full());
    assert!(!s.row(0).is_full());
    s.update(batch(vec![Event::EndOfLineClearDelay]), 2);
    assert_eq!(s.board_height(), 40);
    assert_eq!(s.row(0).cell_color(4), CellColor::Empty);
    assert_eq!(s.row(0).cell_color(5), CellColor::Garbage);
    assert!(all_empty(s.row(1)));
}

#[test]
fn queue_slides_over_spawns() {
    let mut s = fresh();
    s.update(
        batch(vec![
            Event::PieceSpawned { new_in_queue: Piece::I },
            Event::PieceSpawned { new_in_queue: Piece::J },
            Event::PieceSpawned { new_in_queue: Piece::T },
        ]),
        1,
    );
    let q: Vec<Piece> = s.next_queue().iter().copied().collect();
    assert_eq!(q, vec![Piece::Z, Piece::L, Piece::I, Piece::J, Piece::T]);
    let more: Vec<Event> = (0..7).map(|_| Event::PieceSpawned { new_in_queue: Piece::O }).collect();
    s.update(batch(more), 2);
    assert_eq!(s.next_queue().len(), 5);
    assert!(s.next_queue().iter().all(|p| *p == Piece::O));
}

#[test]
fn combo_splash_lasts_seventy_six_calls() {
    let mut ui = SingleplayerGameUi::new(queue(), "p".to_string());
    let locked = LockResult { combo: Some(3), ..lock(vec![]) };
    ui.update(batch(vec![Event::PiecePlaced { piece: flat_i(), locked }]));
    assert_eq!(ui.draw_state().combo_splash(), Some((3, 75)));
    for k in 1..=75u32 {
        ui.update(batch(vec![]));
        assert_eq!(ui.draw_state().combo_splash(), Some((3, 75 - k)));
    }
    ui.update(batch(vec![]));
    assert_eq!(ui.draw_state().combo_splash(), None);
    assert_eq!(ui.draw_state().game_time(), 77);
}

#[test]
fn zero_combo_arms_nothing() {
    let mut s = fresh();
    let locked = LockResult { combo: Some(0), ..lock(vec![]) };
    s.update(batch(vec![Event::PiecePlaced { piece: flat_i(), locked }]), 1);
    assert_eq!(s.combo_splash(), None);
}

#[test]
fn perfect_clear_cancels_back_to_back() {
    let mut s = fresh();
    let b2b = LockResult { b2b: true, hard_clear: Some("Tetris"), ..lock(vec![0]) };
    s.update(batch(vec![Event::PiecePlaced { piece: flat_i(), locked: b2b }]), 1);
    assert_eq!(s.back_to_back_splash(), Some(75));
    assert_eq!(s.clear_splash(), Some(("Tetris", 75)));
    let pc = LockResult { b2b: true, perfect_clear: true, hard_clear: Some("Tetris"), ..lock(vec![0]) };
    s.update(batch(vec![Event::PiecePlaced { piece: flat_i(), locked: pc }]), 2);
    assert_eq!(s.back_to_back_splash(), None);
    assert_eq!(s.clear_splash(), Some(("Perfect Clear", 135)));
    s.update(batch(vec![]), 3);
    assert_eq!(s.clear_splash(), Some(("Perfect Clear", 134)));
}

#[test]
fn hold_game_over_and_unknown_events() {
    let mut s = fresh();
    s.update(batch(vec![Event::PieceFalling(flat_i(), ghost_i()), Event::PieceHeld(Piece::S)]), 1);
    assert_eq!(s.hold_piece(), Some(Piece::S));
    assert!(matches!(s.phase(), DrawPhase::Delay));
    assert!(!s.is_dead());
    s.update(PlayerUpdate { events: vec![Event::Other, Event::GameOver], garbage_queue: 4 }, 2);
    assert!(s.is_dead());
    assert_eq!(s.garbage_queue(), 4);
    assert_eq!(s.name(), "p");
}

#[test]
fn batches_are_checked_against_the_board() {
    let ok = vec![Event::PiecePlaced { piece: flat_i(), locked: lock(vec![]) }, Event::GarbageAdded(vec![1; 40])];
    assert!(events_fit_board(&ok));
    let off = FallingPiece { kind: Piece::O, cells: [(9, 39), (10, 39), (9, 38), (10, 38)] };
    assert!(!events_fit_board(&vec![Event::PiecePlaced { piece: off, locked: lock(vec![]) }]));
    let below = FallingPiece { kind: Piece::O, cells: [(0, -1), (1, -1), (0, 0), (1, 0)] };
    assert!(!events_fit_board(&vec![Event::GameOver, Event::PiecePlaced { piece: below, locked: lock(vec![]) }]));
    assert!(!events_fit_board(&vec![Event::GarbageAdded(vec![1; 41])]));
    assert!(events_fit_board(&vec![]));
}

#[test]
fn rows_and_colours() {
    let mut row = Row::empty();
    assert!(!row.is_full());
    for x in 0..10 {
        row.set(x, CellColor::J);
    }
    assert!(row.is_full());
    let g = Row::garbage(2);
    assert_eq!(g.cell_color(2), CellColor::Empty);
    assert_eq!(g.cell_color(3), CellColor::Garbage);
    assert!(Row::garbage(10).is_full());
    assert_eq!(Piece::S.color(), CellColor::S);
    assert_eq!(Piece::I.color(), CellColor::I);
}
