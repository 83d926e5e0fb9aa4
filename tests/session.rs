use practris::piece::Piece;
use practris::presentation::{Event, PlayerUpdate};
use practris::session::{contains_game_over, SingleplayerGame, State, RESET_TIME};

fn game() -> SingleplayerGame {
    SingleplayerGame::new(vec![Piece::T, Piece::I, Piece::O])
}

fn quiet() -> PlayerUpdate {
    PlayerUpdate { events: vec![], garbage_queue: 0 }
}

#[test]
fn countdown_from_two_starts_on_third_tick() {
    let mut g = game();
    assert_eq!(g.state(), State::Starting(300));
    for _ in 0..298 {
        assert!(!g.begin_tick());
    }
    assert_eq!(g.state(), State::Starting(2));
    assert!(!g.begin_tick());
    assert_eq!(g.state(), State::Starting(1));
    assert!(!g.begin_tick());
    assert_eq!(g.state(), State::Starting(0));
    assert!(g.begin_tick());
    assert_eq!(g.state(), State::Playing);
}

fn playing() -> SingleplayerGame {
    let mut g = game();
    while g.state() != State::Playing {
        g.begin_tick();
    }
    g
}

#[test]
fn game_over_window_runs_three_hundred_ticks() {
    let mut g = playing();
    assert!(g.begin_tick());
    g.apply_update(PlayerUpdate { events: vec![Event::GameOver], garbage_queue: 0 });
    assert_eq!(g.state(), State::GameOver(300));
    let mut simulated = 0;
    for _ in 0..400 {
        if g.begin_tick() {
            simulated += 1;
            g.apply_update(PlayerUpdate { events: vec![Event::GameOver], garbage_queue: 0 });
        }
    }
    assert_eq!(simulated, 300);
    assert_eq!(g.state(), State::GameOver(0));
    assert!(g.ui().draw_state().is_dead());
    assert_eq!(g.ui().draw_state().game_time(), 301);
}

#[test]
fn game_over_event_outside_play_changes_nothing() {
    let mut g = game();
    g.apply_update(PlayerUpdate { events: vec![Event::GameOver], garbage_queue: 0 });
    assert_eq!(g.state(), State::Starting(300));
    assert!(contains_game_over(&vec![Event::Other, Event::GameOver]));
    assert!(!contains_game_over(&vec![Event::Other]));
}

#[test]
fn short_hold_never_resets() {
    let mut g = playing();
    for _ in 0..(RESET_TIME - 1) {
        assert!(!g.reset_gesture(true));
    }
    assert_eq!(g.reset_countdown(), 1);
    assert!(!g.reset_gesture(false));
    assert_eq!(g.reset_countdown(), RESET_TIME);
    for _ in 0..(RESET_TIME - 1) {
        assert!(!g.reset_gesture(true));
    }
    assert_eq!(g.state(), State::Playing);
}

#[test]
fn full_hold_resets_once() {
    let mut g = playing();
    g.begin_tick();
    g.apply_update(quiet());
    let mut resets = 0;
    for _ in 0..RESET_TIME {
        if g.reset_gesture(true) {
            resets += 1;
            g.reset(vec![Piece::J, Piece::L]);
        }
    }
    assert_eq!(resets, 1);
    assert_eq!(g.state(), State::Starting(300));
    assert_eq!(g.reset_countdown(), RESET_TIME);
    assert_eq!(g.ui().draw_state().game_time(), 0);
    let q: Vec<Piece> = g.ui().draw_state().next_queue().iter().copied().collect();
    assert_eq!(q, vec![Piece::J, Piece::L]);
}

#[test]
fn update_counts_ticks() {
    let mut g = playing();
    g.apply_update(quiet());
    g.apply_update(quiet());
    assert_eq!(g.ui().draw_state().game_time(), 2);
}
