use std::collections::VecDeque;

use arrayvec::ArrayVec;
use vstd::prelude::*;

use crate::board::{
    add_garbage, board_view, clear_full_rows, collapse_full_rows, empty_board, insert_garbage,
    blank_board, cell_on_board, lemma_clear_and_garbage_keep_height, lemma_stamp_keeps_height,
    piece_on_board, rows_get, rows_len, rows_of, stamp, stamp_piece, Row,
};
use crate::piece::{CellColor, FallingPiece, Piece};

verus! {

/// How many ticks a combo or back-to-back notification stays up.
pub const SPLASH_TICKS: u32 = 75;

/// How many ticks the perfect-clear notification stays up.
pub const PERFECT_CLEAR_TICKS: u32 = 135;

/// What the rules engine reports about a piece that locked.
#[derive(Clone, Debug)]
pub struct LockResult {
    /// Indices of the rows the lock completed, bottom row 0.
    pub cleared_lines: Vec<i32>,
    /// The clear continued a back-to-back streak.
    pub b2b: bool,
    /// The running combo count, if a combo is running.
    pub combo: Option<u32>,
    /// The lock left the board empty.
    pub perfect_clear: bool,
    /// The name of the placement's kind when that kind counts as a hard
    /// clear (a four-line clear, a T-spin clear), else `None`.
    pub hard_clear: Option<&'static str>,
}

/// One thing that happened during a simulation tick, as the rules engine
/// reports it.
#[derive(Clone, Debug)]
pub enum Event {
    PiecePlaced { piece: FallingPiece, locked: LockResult },
    PieceHeld(Piece),
    PieceSpawned { new_in_queue: Piece },
    PieceFalling(FallingPiece, FallingPiece),
    EndOfLineClearDelay,
    /// One garbage row per entry, each with its hole at that column.
    GarbageAdded(Vec<usize>),
    GameOver,
    /// Anything else the engine reports; the presentation ignores it.
    Other,
}

/// The events of one simulation tick, in the order they were emitted, and
/// the amount of garbage waiting to arrive.
#[derive(Clone, Debug)]
pub struct PlayerUpdate {
    pub events: Vec<Event>,
    pub garbage_queue: u32,
}

/// What the board display is doing.
#[derive(Clone, Debug)]
pub enum DrawPhase {
    /// A piece in play and its ghost.
    Falling(FallingPiece, FallingPiece),
    /// Cleared rows flashing; the counter says for how many ticks.
    LineClearAnimation(Vec<i32>, u32),
    /// Nothing in play.
    Delay,
}

/// The mathematical value of a `DrawPhase`.
pub enum PhaseView {
    Falling(FallingPiece, FallingPiece),
    LineClearAnimation(Seq<i32>, u32),
    Delay,
}

impl View for DrawPhase {
    type V = PhaseView;

    open spec fn view(&self) -> PhaseView {
        match self {
            DrawPhase::Falling(p, g) => PhaseView::Falling(*p, *g),
            DrawPhase::LineClearAnimation(l, f) => PhaseView::LineClearAnimation(l@, *f),
            DrawPhase::Delay => PhaseView::Delay,
        }
    }
}

/// The mathematical value of the presentation state.
pub struct DrawView {
    pub board: Seq<Seq<CellColor>>,
    pub phase: PhaseView,
    pub garbage_queue: u32,
    pub dead: bool,
    pub hold_piece: Option<Piece>,
    pub next_queue: Seq<Piece>,
    pub game_time: u64,
    pub combo_splash: Option<(u32, u32)>,
    pub back_to_back_splash: Option<u32>,
    pub clear_splash: Option<(Seq<char>, u32)>,
    pub name: Seq<char>,
}

/// The event leaves the board in range: a locked piece lies on the board,
/// and garbage brings no more rows than the board holds.
pub open spec fn event_fits(e: Event) -> bool {
    match e {
        Event::PiecePlaced { piece, .. } => piece_on_board(piece),
        Event::GarbageAdded(holes) => holes@.len() <= 40,
        _ => true,
    }
}

pub open spec fn events_fit(es: Seq<Event>) -> bool {
    forall|i: int| 0 <= i < es.len() ==> event_fits(#[trigger] es[i])
}

/// One tick off a notification timer; a timer already at zero clears.
pub open spec fn decay<A>(s: Option<(A, u32)>) -> Option<(A, u32)> {
    match s {
        Some((a, t)) => if t == 0 {
            None
        } else {
            Some((a, (t - 1) as u32))
        },
        None => None,
    }
}

/// One tick off the back-to-back timer; a timer already at zero clears.
pub open spec fn decay_timer(s: Option<u32>) -> Option<u32> {
    match s {
        Some(t) => if t == 0 {
            None
        } else {
            Some((t - 1) as u32)
        },
        None => None,
    }
}

/// The line-clear frame counter moves on by one (it stops at its maximum).
pub open spec fn advance_phase(p: PhaseView) -> PhaseView {
    match p {
        PhaseView::LineClearAnimation(l, f) => PhaseView::LineClearAnimation(
            l,
            if f < u32::MAX {
                (f + 1) as u32
            } else {
                f
            },
        ),
        _ => p,
    }
}

/// The per-call bookkeeping that comes before the events are folded in.
pub open spec fn start_update(v: DrawView, garbage_queue: u32, time: u64) -> DrawView {
    DrawView {
        garbage_queue: garbage_queue,
        game_time: time,
        phase: advance_phase(v.phase),
        combo_splash: decay(v.combo_splash),
        back_to_back_splash: decay_timer(v.back_to_back_splash),
        clear_splash: decay(v.clear_splash),
        ..v
    }
}

/// The presentation after a piece locks.
pub open spec fn place_piece(v: DrawView, piece: FallingPiece, locked: LockResult) -> DrawView {
    let b2b = if locked.b2b {
        Some(SPLASH_TICKS)
    } else {
        v.back_to_back_splash
    };
    let combo = if locked.combo.is_some() && locked.combo.unwrap() > 0 {
        Some((locked.combo.unwrap(), SPLASH_TICKS))
    } else {
        v.combo_splash
    };
    DrawView {
        board: stamp_piece(v.board, piece),
        phase: if locked.cleared_lines@.len() == 0 {
            PhaseView::Delay
        } else {
            PhaseView::LineClearAnimation(locked.cleared_lines@, 0)
        },
        combo_splash: combo,
        back_to_back_splash: if locked.perfect_clear {
            None
        } else {
            b2b
        },
        clear_splash: if locked.perfect_clear {
            Some(("Perfect Clear"@, PERFECT_CLEAR_TICKS))
        } else if locked.hard_clear.is_some() {
            Some((locked.hard_clear.unwrap()@, SPLASH_TICKS))
        } else {
            v.clear_splash
        },
        ..v
    }
}

/// The presentation after one event.
pub open spec fn apply_event(v: DrawView, e: Event) -> DrawView {
    match e {
        Event::PiecePlaced { piece, locked } => place_piece(v, piece, locked),
        Event::PieceHeld(p) => DrawView { hold_piece: Some(p), phase: PhaseView::Delay, ..v },
        Event::PieceSpawned { new_in_queue } => DrawView {
            next_queue: v.next_queue.push(new_in_queue).drop_first(),
            ..v
        },
        Event::PieceFalling(p, g) => DrawView { phase: PhaseView::Falling(p, g), ..v },
        Event::EndOfLineClearDelay => DrawView {
            phase: PhaseView::Delay,
            board: collapse_full_rows(v.board),
            ..v
        },
        Event::GarbageAdded(holes) => DrawView { board: add_garbage(v.board, holes@), ..v },
        Event::GameOver => DrawView { dead: true, ..v },
        Event::Other => v,
    }
}

/// The presentation after a sequence of events, folded in order.
pub open spec fn apply_events(v: DrawView, es: Seq<Event>) -> DrawView
    decreases es.len(),
{
    if es.len() == 0 {
        v
    } else {
        apply_event(apply_events(v, es.drop_last()), es.last())
    }
}

/// The presentation after one call with a tick's events.
pub open spec fn update_view(v: DrawView, es: Seq<Event>, garbage_queue: u32, time: u64) -> DrawView {
    apply_events(start_update(v, garbage_queue, time), es)
}

/// Whether every event of the batch leaves the board in range, as `update`
/// asks.
pub fn events_fit_board(events: &Vec<Event>) -> (r: bool)
    ensures
        r == events_fit(events@),
{
    let mut i: usize = 0;
    while i < events.len()
        invariant
            i <= events@.len(),
            forall|j: int| 0 <= j < i ==> event_fits(#[trigger] events@[j]),
        decreases events@.len() - i,
    {
        let ok = match &events[i] {
            Event::PiecePlaced { piece, .. } => {
                let mut all = true;
                let mut k: usize = 0;
                while k < 4
                    invariant
                        k <= 4,
                        all == forall|c: int| 0 <= c < k ==> cell_on_board(#[trigger] piece.cells@[c]),
                    decreases 4 - k,
                {
                    let (x, y) = piece.cells[k];
                    all = all && 0 <= x && x < 10 && 0 <= y && y < 40;
                    k += 1;
                }
                all
            },
            Event::GarbageAdded(holes) => holes.len() <= 40,
            _ => true,
        };
        if !ok {
            assert(!event_fits(events@[i as int]));
            return false;
        }
        i += 1;
    }
    true
}

/// The presentation before any event: the given board and queue, nothing
/// held, no notification up.
pub open spec fn fresh_view(board: Seq<Seq<CellColor>>, queue: Seq<Piece>, name: Seq<char>) -> DrawView {
    DrawView {
        board: board,
        phase: PhaseView::Delay,
        garbage_queue: 0,
        dead: false,
        hold_piece: None,
        next_queue: queue,
        game_time: 0,
        combo_splash: None,
        back_to_back_splash: None,
        clear_splash: None,
        name: name,
    }
}

/// The drawable snapshot of one player's game, kept in step with the rules
/// engine by folding in its events.
pub struct GameDrawState {
    board: ArrayVec<Row, 40>,
    phase: DrawPhase,
    garbage_queue: u32,
    dead: bool,
    hold_piece: Option<Piece>,
    next_queue: VecDeque<Piece>,
    game_time: u64,
    combo_splash: Option<(u32, u32)>,
    back_to_back_splash: Option<u32>,
    clear_splash: Option<(&'static str, u32)>,
    name: String,
}

pub open spec fn label_view(s: Option<(&'static str, u32)>) -> Option<(Seq<char>, u32)> {
    match s {
        Some((l, t)) => Some((l@, t)),
        None => None,
    }
}

fn decay_labelled<A: Copy>(s: Option<(A, u32)>) -> (r: Option<(A, u32)>)
    ensures
        r == decay(s),
{
    match s {
        Some((a, t)) => if t == 0 {
            None
        } else {
            Some((a, t - 1))
        },
        None => None,
    }
}

fn decay_plain(s: Option<u32>) -> (r: Option<u32>)
    ensures
        r == decay_timer(s),
{
    match s {
        Some(t) => if t == 0 {
            None
        } else {
            Some(t - 1)
        },
        None => None,
    }
}

fn copy_lines(v: &Vec<i32>) -> (r: Vec<i32>)
    ensures
        r@ == v@,
{
    let mut r: Vec<i32> = Vec::new();
    let mut i: usize = 0;
    while i < v.len()
        invariant
            i <= v@.len(),
            r@ == v@.take(i as int),
        decreases v@.len() - i,
    {
        r.push(v[i]);
        assert(v@.take(i + 1) =~= v@.take(i as int).push(v@[i as int]));
        i += 1;
    }
    assert(v@.take(v@.len() as int) =~= v@);
    r
}

impl GameDrawState {
    pub closed spec fn view(&self) -> DrawView {
        DrawView {
            board: board_view(self.board),
            phase: self.phase@,
            garbage_queue: self.garbage_queue,
            dead: self.dead,
            hold_piece: self.hold_piece,
            next_queue: self.next_queue@,
            game_time: self.game_time,
            combo_splash: self.combo_splash,
            back_to_back_splash: self.back_to_back_splash,
            clear_splash: label_view(self.clear_splash),
            name: self.name@,
        }
    }

    /// The board holds exactly `BOARD_HEIGHT` rows.
    pub closed spec fn wf(&self) -> bool {
        rows_of(self.board).len() == 40
    }

    pub proof fn lemma_wf(&self)
        requires
            self.wf(),
        ensures
            self@.board.len() == 40,
            forall|i: int| 0 <= i < 40 ==> #[trigger] self@.board[i].len() == 10,
    {
    }
}

impl GameDrawState {
    /// A fresh presentation: an empty board and the given preview queue.
    pub fn new(queue: Vec<Piece>, name: String) -> (r: GameDrawState)
        ensures
            r.wf(),
            r@ == fresh_view(blank_board(), queue@, name@),
    {
        GameDrawState::new_from_board(empty_board(), queue, name)
    }

    /// A fresh presentation over a given board of `BOARD_HEIGHT` rows.
    pub fn new_from_board(board: ArrayVec<Row, 40>, queue: Vec<Piece>, name: String) -> (r:
        GameDrawState)
        requires
            rows_of(board).len() == 40,
        ensures
            r.wf(),
            r@ == fresh_view(board_view(board), queue@, name@),
    {
        let mut next_queue: VecDeque<Piece> = VecDeque::new();
        let mut i: usize = 0;
        while i < queue.len()
            invariant
                i <= queue@.len(),
                next_queue@ == queue@.take(i as int),
            decreases queue@.len() - i,
        {
            next_queue.push_back(queue[i]);
            assert(queue@.take(i + 1) =~= queue@.take(i as int).push(queue@[i as int]));
            i += 1;
        }
        assert(queue@.take(queue@.len() as int) =~= queue@);
        GameDrawState {
            board,
            phase: DrawPhase::Delay,
            garbage_queue: 0,
            dead: false,
            hold_piece: None,
            next_queue,
            game_time: 0,
            combo_splash: None,
            back_to_back_splash: None,
            clear_splash: None,
            name,
        }
    }

    fn place(&mut self, piece: &FallingPiece, locked: &LockResult)
        requires
            old(self).wf(),
            piece_on_board(*piece),
        ensures
            final(self).wf(),
            final(self)@ == place_piece(old(self)@, *piece, *locked),
    {
        stamp(&mut self.board, piece);
        if locked.cleared_lines.len() == 0 {
            self.phase = DrawPhase::Delay;
        } else {
            self.phase = DrawPhase::LineClearAnimation(copy_lines(&locked.cleared_lines), 0);
        }
        if locked.b2b {
            self.back_to_back_splash = Some(SPLASH_TICKS);
        }
        let combo = match locked.combo {
            Some(c) => c,
            None => 0,
        };
        if combo > 0 {
            self.combo_splash = Some((combo, SPLASH_TICKS));
        }
        if locked.perfect_clear {
            self.clear_splash = Some(("Perfect Clear", PERFECT_CLEAR_TICKS));
            self.back_to_back_splash = None;
        } else if let Some(name) = locked.hard_clear {
            self.clear_splash = Some((name, SPLASH_TICKS));
        }
    }

    fn fold_event(&mut self, event: &Event)
        requires
            old(self).wf(),
            event_fits(*event),
        ensures
            final(self).wf(),
            final(self)@ == apply_event(old(self)@, *event),
    {
        match event {
            Event::PiecePlaced { piece, locked } => {
                self.place(piece, locked);
            },
            Event::PieceHeld(piece) => {
                self.hold_piece = Some(*piece);
                self.phase = DrawPhase::Delay;
            },
            Event::PieceSpawned { new_in_queue } => {
                self.next_queue.push_back(*new_in_queue);
                self.next_queue.pop_front();
            },
            Event::PieceFalling(piece, ghost) => {
                self.phase = DrawPhase::Falling(*piece, *ghost);
            },
            Event::EndOfLineClearDelay => {
                self.phase = DrawPhase::Delay;
                clear_full_rows(&mut self.board);
            },
            Event::GarbageAdded(holes) => {
                insert_garbage(&mut self.board, holes);
            },
            Event::GameOver => {
                self.dead = true;
            },
            Event::Other => {},
        }
    }

    /// Folds one tick's events into the presentation: records the garbage
    /// queue and the tick, moves the line-clear animation on, ages the
    /// notifications, then applies each event in order.
    pub fn update(&mut self, update: PlayerUpdate, time: u64)
        requires
            old(self).wf(),
            events_fit(update.events@),
        ensures
            final(self).wf(),
            final(self)@ == update_view(old(self)@, update.events@, update.garbage_queue, time),
    {
        self.garbage_queue = update.garbage_queue;
        self.game_time = time;
        match &mut self.phase {
            DrawPhase::LineClearAnimation(_, frames) => {
                if *frames < u32::MAX {
                    *frames = *frames + 1;
                }
            },
            _ => {},
        }
        self.combo_splash = decay_labelled(self.combo_splash);
        self.back_to_back_splash = decay_plain(self.back_to_back_splash);
        self.clear_splash = decay_labelled(self.clear_splash);
        let ghost start = self@;
        assert(start == start_update(old(self)@, update.garbage_queue, time));
        let events = &update.events;
        let mut i: usize = 0;
        while i < events.len()
            invariant
                i <= events@.len(),
                events_fit(events@),
                self.wf(),
                self@ == apply_events(start, events@.take(i as int)),
            decreases events@.len() - i,
        {
            assert(event_fits(events@[i as int]));
            self.fold_event(&events[i]);
            assert(events@.take(i + 1).drop_last() =~= events@.take(i as int));
            i += 1;
        }
        assert(events@.take(events@.len() as int) =~= events@);
    }
}

impl GameDrawState {
    /// Number of rows on the board.
    pub fn board_height(&self) -> (r: usize)
        ensures
            r == self@.board.len(),
    {
        let r = rows_len(&self.board);
        assert(board_view(self.board).len() == rows_of(self.board).len());
        r
    }

    /// Row `y` of the board, row 0 at the bottom.
    pub fn row(&self, y: usize) -> (r: Row)
        requires
            self.wf(),
            y < 40,
        ensures
            r@ == self@.board[y as int],
    {
        rows_get(&self.board, y)
    }

    /// What the board display is doing.
    pub fn phase(&self) -> (r: &DrawPhase)
        ensures
            r@ == self@.phase,
    {
        &self.phase
    }

    /// The piece in the hold slot.
    pub fn hold_piece(&self) -> (r: Option<Piece>)
        ensures
            r == self@.hold_piece,
    {
        self.hold_piece
    }

    /// The preview of upcoming pieces, next one first.
    pub fn next_queue(&self) -> (r: &VecDeque<Piece>)
        ensures
            r@ == self@.next_queue,
    {
        &self.next_queue
    }

    /// The combo notification: the combo count and the ticks it has left.
    pub fn combo_splash(&self) -> (r: Option<(u32, u32)>)
        ensures
            r == self@.combo_splash,
    {
        self.combo_splash
    }

    /// The ticks the back-to-back notification has left.
    pub fn back_to_back_splash(&self) -> (r: Option<u32>)
        ensures
            r == self@.back_to_back_splash,
    {
        self.back_to_back_splash
    }

    /// The clear notification: its label and the ticks it has left.
    pub fn clear_splash(&self) -> (r: Option<(&'static str, u32)>)
        ensures
            label_view(r) == self@.clear_splash,
    {
        self.clear_splash
    }

    /// Whether the rules engine has reported the game lost.
    pub fn is_dead(&self) -> (r: bool)
        ensures
            r == self@.dead,
    {
        self.dead
    }

    /// The tick of the latest update.
    pub fn game_time(&self) -> (r: u64)
        ensures
            r == self@.game_time,
    {
        self.game_time
    }

    /// The garbage waiting to arrive, as of the latest update.
    pub fn garbage_queue(&self) -> (r: u32)
        ensures
            r == self@.garbage_queue,
    {
        self.garbage_queue
    }

    /// The player's name.
    pub fn name(&self) -> (r: &str)
        ensures
            r@ == self@.name,
    {
        self.name.as_str()
    }
}

/// The tick counter moves on by one (it stops at its maximum).
pub open spec fn next_tick(t: u64) -> u64 {
    if t < u64::MAX {
        (t + 1) as u64
    } else {
        t
    }
}

/// A player's presentation together with the count of ticks it has seen.
pub struct SingleplayerGameUi {
    draw_state: GameDrawState,
    time: u64,
}

impl SingleplayerGameUi {
    pub closed spec fn draw(&self) -> DrawView {
        self.draw_state@
    }

    pub closed spec fn ticks(&self) -> u64 {
        self.time
    }

    pub closed spec fn wf(&self) -> bool {
        self.draw_state.wf()
    }

    /// A fresh presentation seeded with the rules engine's first preview.
    pub fn new(queue: Vec<Piece>, player_name: String) -> (r: SingleplayerGameUi)
        ensures
            r.wf(),
            r.draw() == fresh_view(blank_board(), queue@, player_name@),
            r.ticks() == 0,
    {
        SingleplayerGameUi { draw_state: GameDrawState::new(queue, player_name), time: 0 }
    }

    /// Counts one more tick and folds that tick's events in.
    pub fn update(&mut self, update: PlayerUpdate)
        requires
            old(self).wf(),
            events_fit(update.events@),
        ensures
            final(self).wf(),
            final(self).ticks() == next_tick(old(self).ticks()),
            final(self).draw() == update_view(
                old(self).draw(),
                update.events@,
                update.garbage_queue,
                next_tick(old(self).ticks()),
            ),
    {
        if self.time < u64::MAX {
            self.time = self.time + 1;
        }
        self.draw_state.update(update, self.time);
    }

    /// The presentation, for drawing.
    pub fn draw_state(&self) -> (r: &GameDrawState)
        ensures
            r@ == self.draw(),
            r.wf() == self.wf(),
    {
        &self.draw_state
    }
}

/// A run of `PieceSpawned` events, one per piece, in order.
pub open spec fn spawn_events(ps: Seq<Piece>) -> Seq<Event> {
    Seq::new(ps.len(), |i: int| Event::PieceSpawned { new_in_queue: ps[i] })
}

/// The presentation after calls that bring no event, one per entry of
/// `calls` (its garbage count and tick).
pub open spec fn quiet_run(v: DrawView, calls: Seq<(u32, u64)>) -> DrawView
    decreases calls.len(),
{
    if calls.len() == 0 {
        v
    } else {
        update_view(quiet_run(v, calls.drop_last()), Seq::empty(), calls.last().0, calls.last().1)
    }
}

/// Whatever events a call brings, a board of `BOARD_HEIGHT` rows keeps that
/// height.
pub proof fn lemma_board_height_kept(v: DrawView, es: Seq<Event>, garbage_queue: u32, time: u64)
    requires
        v.board.len() == 40,
        events_fit(es),
    ensures
        update_view(v, es, garbage_queue, time).board.len() == 40,
{
    lemma_events_keep_height(start_update(v, garbage_queue, time), es);
}

proof fn lemma_events_keep_height(v: DrawView, es: Seq<Event>)
    requires
        v.board.len() == 40,
        events_fit(es),
    ensures
        apply_events(v, es).board.len() == 40,
    decreases es.len(),
{
    if es.len() > 0 {
        assert forall|i: int| 0 <= i < es.drop_last().len() implies event_fits(
            #[trigger] es.drop_last()[i],
        ) by {
            assert(es.drop_last()[i] == es[i]);
        }
        lemma_events_keep_height(v, es.drop_last());
        let w = apply_events(v, es.drop_last());
        assert(event_fits(es[es.len() - 1]));
        match es.last() {
            Event::PiecePlaced { piece, .. } => {
                lemma_stamp_keeps_height(w.board, piece);
            },
            Event::GarbageAdded(holes) => {
                lemma_clear_and_garbage_keep_height(w.board, holes@);
            },
            _ => {
                lemma_clear_and_garbage_keep_height(w.board, Seq::empty());
            },
        }
    }
}

/// After any run of spawns the preview queue keeps its length and shows the
/// newest pieces in arrival order: the old queue followed by the spawned
/// pieces, with as many dropped from the front as were spawned.
pub proof fn lemma_queue_window(v: DrawView, ps: Seq<Piece>)
    ensures
        apply_events(v, spawn_events(ps)).next_queue == (v.next_queue + ps).subrange(
            ps.len() as int,
            (v.next_queue.len() + ps.len()) as int,
        ),
        apply_events(v, spawn_events(ps)).next_queue.len() == v.next_queue.len(),
    decreases ps.len(),
{
    let q = v.next_queue;
    if ps.len() == 0 {
        assert((q + ps).subrange(0, q.len() as int) =~= q);
    } else {
        let n = ps.len() as int;
        assert(spawn_events(ps).drop_last() =~= spawn_events(ps.drop_last()));
        lemma_queue_window(v, ps.drop_last());
        let before = (q + ps.drop_last()).subrange(n - 1, q.len() + n - 1);
        assert(spawn_events(ps).last() == Event::PieceSpawned { new_in_queue: ps.last() });
        let after = before.push(ps.last()).drop_first();
        if q.len() == 0 {
            assert(after =~= (q + ps).subrange(n, q.len() + n));
        } else {
            assert(after =~= (q + ps).subrange(n, q.len() + n));
        }
    }
}

/// A combo notification armed for `SPLASH_TICKS` ticks is still up, counting
/// down, through `SPLASH_TICKS` further calls without events, and is gone
/// after one more.
pub proof fn lemma_combo_splash_lifetime(v: DrawView, calls: Seq<(u32, u64)>, count: u32)
    requires
        v.combo_splash == Some((count, SPLASH_TICKS)),
        calls.len() <= SPLASH_TICKS + 1,
    ensures
        calls.len() <= SPLASH_TICKS ==> quiet_run(v, calls).combo_splash == Some(
            (count, (SPLASH_TICKS - calls.len()) as u32),
        ),
        calls.len() == SPLASH_TICKS + 1 ==> quiet_run(v, calls).combo_splash is None,
    decreases calls.len(),
{
    if calls.len() > 0 {
        lemma_combo_splash_lifetime(v, calls.drop_last(), count);
    }
}

} // verus!
