use vstd::prelude::*;

use crate::board::blank_board;
use crate::piece::Piece;
use crate::presentation::{
    events_fit, fresh_view, next_tick, update_view, DrawView, Event, PlayerUpdate,
    SingleplayerGameUi,
};

verus! {

/// Ticks the reset action must be held, without a break, to restart.
pub const RESET_TIME: u32 = 40;

/// Ticks of countdown before a round starts.
pub const START_DELAY: u32 = 300;

/// Ticks the simulation keeps running after the game is lost.
pub const GAME_OVER_DELAY: u32 = 300;

/// Where the match stands.
#[derive(Clone, Copy, Debug, PartialEq, Eq, Structural)]
pub enum State {
    /// The round is running.
    Playing,
    /// The game is lost; the simulation runs on for this many more ticks,
    /// then stops for good.
    GameOver(u32),
    /// This many ticks of countdown are left before the round starts.
    Starting(u32),
}

/// The name shown for the local player.
pub open spec fn player_name() -> Seq<char> {
    "amogus"@
}

/// The first half of a tick: the state that follows, and whether the
/// simulation steps on this tick.
pub open spec fn begin_tick_spec(s: State) -> (State, bool) {
    match s {
        State::GameOver(n) => if n == 0 {
            (s, false)
        } else {
            (State::GameOver((n - 1) as u32), true)
        },
        State::Starting(n) => if n == 0 {
            (State::Playing, true)
        } else {
            (State::Starting((n - 1) as u32), false)
        },
        State::Playing => (State::Playing, true),
    }
}

/// The batch holds a `GameOver` event.
pub open spec fn has_game_over(es: Seq<Event>) -> bool {
    exists|i: int| 0 <= i < es.len() && (#[trigger] es[i]) is GameOver
}

/// The state once a simulation step's events are seen: a loss reported
/// while playing opens the game-over window.
pub open spec fn observe_spec(s: State, es: Seq<Event>) -> State {
    if s is Playing && has_game_over(es) {
        State::GameOver(GAME_OVER_DELAY)
    } else {
        s
    }
}

/// The match state after a run of ticks, with the number of them on which
/// the simulation stepped. `batches[i]` is what the rules engine reports on
/// tick `i` if it is asked.
pub open spec fn run(s: State, batches: Seq<Seq<Event>>) -> (State, nat)
    decreases batches.len(),
{
    if batches.len() == 0 {
        (s, 0)
    } else {
        let (before, count) = run(s, batches.drop_last());
        let (next, simulate) = begin_tick_spec(before);
        if simulate {
            (observe_spec(next, batches.last()), count + 1)
        } else {
            (next, count)
        }
    }
}

/// One tick of the reset gesture, given the ticks still to hold: the new
/// count, and whether a reset is due. Releasing re-arms at once.
pub open spec fn gesture_step(remaining: u32, held: bool) -> (u32, bool) {
    if !held {
        (RESET_TIME, false)
    } else if remaining <= 1 {
        (RESET_TIME, true)
    } else {
        ((remaining - 1) as u32, false)
    }
}

/// The gesture after a run of ticks, with the number of resets it caused.
pub open spec fn gesture_run(remaining: u32, held: Seq<bool>) -> (u32, nat)
    decreases held.len(),
{
    if held.len() == 0 {
        (remaining, 0)
    } else {
        let (r, n) = gesture_run(remaining, held.drop_last());
        let (next, reset) = gesture_step(r, held.last());
        (next, if reset {
            n + 1
        } else {
            n
        })
    }
}

/// Whether the batch holds a `GameOver` event.
pub fn contains_game_over(events: &Vec<Event>) -> (r: bool)
    ensures
        r == has_game_over(events@),
{
    let mut i: usize = 0;
    while i < events.len()
        invariant
            i <= events@.len(),
            forall|j: int| 0 <= j < i ==> !(#[trigger] events@[j] is GameOver),
        decreases events@.len() - i,
    {
        if let Event::GameOver = events[i] {
            return true;
        }
        i += 1;
    }
    false
}

/// A countdown of `n` ticks steps the simulation on none of its first `n`
/// ticks, counting down on each; the tick after them starts the round and
/// steps the simulation.
pub proof fn lemma_countdown(n: u32, batches: Seq<Seq<Event>>)
    requires
        batches.len() <= n + 1,
    ensures
        batches.len() <= n ==> run(State::Starting(n), batches) == (
            State::Starting((n - batches.len()) as u32),
            0nat,
        ),
        batches.len() == n + 1 ==> run(State::Starting(n), batches) == (
            observe_spec(State::Playing, batches.last()),
            1nat,
        ),
        batches.len() == n + 1 && !has_game_over(batches.last()) ==> run(
            State::Starting(n),
            batches,
        ).0 == State::Playing,
    decreases batches.len(),
{
    if batches.len() > 0 {
        lemma_countdown(n, batches.drop_last());
    }
}

proof fn lemma_game_over_run(n: u32, batches: Seq<Seq<Event>>)
    ensures
        batches.len() <= n ==> run(State::GameOver(n), batches) == (
            State::GameOver((n - batches.len()) as u32),
            batches.len(),
        ),
        batches.len() > n ==> run(State::GameOver(n), batches) == (State::GameOver(0), n as nat),
    decreases batches.len(),
{
    if batches.len() > 0 {
        lemma_game_over_run(n, batches.drop_last());
    }
}

/// A loss reported while playing opens the game-over window; from then on
/// the simulation steps on exactly `GAME_OVER_DELAY` more ticks, whatever
/// they report, and never again after them.
pub proof fn lemma_game_over_window(es: Seq<Event>, batches: Seq<Seq<Event>>)
    requires
        has_game_over(es),
    ensures
        observe_spec(State::Playing, es) == State::GameOver(GAME_OVER_DELAY),
        batches.len() <= GAME_OVER_DELAY ==> run(State::GameOver(GAME_OVER_DELAY), batches) == (
            State::GameOver((GAME_OVER_DELAY - batches.len()) as u32),
            batches.len(),
        ),
        batches.len() >= GAME_OVER_DELAY ==> run(State::GameOver(GAME_OVER_DELAY), batches) == (
            State::GameOver(0),
            GAME_OVER_DELAY as nat,
        ),
{
    lemma_game_over_run(GAME_OVER_DELAY, batches);
}

/// `k` ticks with the reset action held.
pub open spec fn held_for(k: nat) -> Seq<bool> {
    Seq::new(k, |i: int| true)
}

proof fn lemma_gesture_held(r: u32, k: nat)
    requires
        1 <= r <= RESET_TIME,
        k <= r,
    ensures
        k < r ==> gesture_run(r, held_for(k)) == ((r - k) as u32, 0nat),
        k == r ==> gesture_run(r, held_for(k)) == (RESET_TIME, 1nat),
    decreases k,
{
    if k > 0 {
        assert(held_for(k).drop_last() =~= held_for((k - 1) as nat));
        lemma_gesture_held(r, (k - 1) as nat);
    }
}

/// From an armed gesture, holding the reset action for fewer than
/// `RESET_TIME` ticks and then letting go causes no reset and re-arms the
/// gesture; holding it for exactly `RESET_TIME` ticks causes exactly one
/// reset, on the last of them.
pub proof fn lemma_reset_debounce(k: nat)
    requires
        k <= RESET_TIME,
    ensures
        k < RESET_TIME ==> gesture_run(RESET_TIME, held_for(k)).1 == 0,
        k < RESET_TIME ==> gesture_run(RESET_TIME, held_for(k).push(false)) == (RESET_TIME, 0nat),
        k == RESET_TIME ==> gesture_run(RESET_TIME, held_for(k)) == (RESET_TIME, 1nat),
        k == RESET_TIME ==> gesture_run(RESET_TIME, held_for((k - 1) as nat)).1 == 0,
{
    lemma_gesture_held(RESET_TIME, k);
    if k > 0 {
        lemma_gesture_held(RESET_TIME, (k - 1) as nat);
    }
    assert(held_for(k).push(false).drop_last() =~= held_for(k));
}

/// One player's match: its state, its presentation and the reset gesture.
/// The rules engine, the random sources and the input devices stay with the
/// caller, which asks this type what each tick does.
pub struct SingleplayerGame {
    ui: SingleplayerGameUi,
    state: State,
    reset_countdown: u32,
}

impl SingleplayerGame {
    pub closed spec fn state_view(&self) -> State {
        self.state
    }

    pub closed spec fn draw(&self) -> DrawView {
        self.ui.draw()
    }

    pub closed spec fn ticks(&self) -> u64 {
        self.ui.ticks()
    }

    /// Ticks the reset action must still be held to restart.
    pub closed spec fn reset_remaining(&self) -> u32 {
        self.reset_countdown
    }

    pub closed spec fn wf(&self) -> bool {
        &&& self.ui.wf()
        &&& 1 <= self.reset_countdown <= RESET_TIME
    }

    /// A new match in its starting countdown, shown from the rules engine's
    /// first preview.
    pub fn new(queue: Vec<Piece>) -> (r: SingleplayerGame)
        ensures
            r.wf(),
            r.state_view() == State::Starting(START_DELAY),
            r.reset_remaining() == RESET_TIME,
            r.draw() == fresh_view(blank_board(), queue@, player_name()),
            r.ticks() == 0,
    {
        SingleplayerGame {
            ui: SingleplayerGameUi::new(queue, "amogus".to_string()),
            state: State::Starting(START_DELAY),
            reset_countdown: RESET_TIME,
        }
    }

    /// Where the match stands.
    pub fn state(&self) -> (r: State)
        ensures
            r == self.state_view(),
    {
        self.state
    }

    /// The presentation, for drawing.
    pub fn ui(&self) -> (r: &SingleplayerGameUi)
        ensures
            r.draw() == self.draw(),
            r.ticks() == self.ticks(),
            self.wf() ==> r.wf(),
    {
        &self.ui
    }

    /// Ticks the reset action must still be held to restart.
    pub fn reset_countdown(&self) -> (r: u32)
        ensures
            r == self.reset_remaining(),
    {
        self.reset_countdown
    }

    /// Starts a tick: moves the countdowns on and says whether the rules
    /// engine is to be stepped on this tick.
    pub fn begin_tick(&mut self) -> (simulate: bool)
        ensures
            (final(self).state_view(), simulate) == begin_tick_spec(old(self).state_view()),
            final(self).draw() == old(self).draw(),
            final(self).ticks() == old(self).ticks(),
            final(self).reset_remaining() == old(self).reset_remaining(),
            final(self).wf() == old(self).wf(),
    {
        match self.state {
            State::GameOver(n) => {
                if n == 0 {
                    false
                } else {
                    self.state = State::GameOver(n - 1);
                    true
                }
            },
            State::Starting(n) => {
                if n == 0 {
                    self.state = State::Playing;
                    true
                } else {
                    self.state = State::Starting(n - 1);
                    false
                }
            },
            State::Playing => true,
        }
    }

    /// Takes in what one simulation step produced: a reported loss while
    /// playing opens the game-over window, and the events go to the
    /// presentation.
    pub fn apply_update(&mut self, update: PlayerUpdate)
        requires
            old(self).wf(),
            events_fit(update.events@),
        ensures
            final(self).wf(),
            final(self).state_view() == observe_spec(old(self).state_view(), update.events@),
            final(self).ticks() == next_tick(old(self).ticks()),
            final(self).draw() == update_view(
                old(self).draw(),
                update.events@,
                update.garbage_queue,
                next_tick(old(self).ticks()),
            ),
            final(self).reset_remaining() == old(self).reset_remaining(),
    {
        if let State::Playing = self.state {
            if contains_game_over(&update.events) {
                self.state = State::GameOver(GAME_OVER_DELAY);
            }
        }
        self.ui.update(update);
    }

    /// Ends a tick with the reset action's state: holding it counts down,
    /// releasing it re-arms the gesture. Returns whether a reset is due, in
    /// which case the caller builds a new rules engine and calls `reset`.
    pub fn reset_gesture(&mut self, held: bool) -> (reset: bool)
        requires
            old(self).wf(),
        ensures
            final(self).wf(),
            (final(self).reset_remaining(), reset) == gesture_step(old(self).reset_remaining(), held),
            final(self).state_view() == old(self).state_view(),
            final(self).draw() == old(self).draw(),
            final(self).ticks() == old(self).ticks(),
    {
        if !held {
            self.reset_countdown = RESET_TIME;
            false
        } else if self.reset_countdown <= 1 {
            self.reset_countdown = RESET_TIME;
            true
        } else {
            self.reset_countdown = self.reset_countdown - 1;
            false
        }
    }

    /// Restarts the match from scratch, shown from a new rules engine's first
    /// preview.
    pub fn reset(&mut self, queue: Vec<Piece>)
        ensures
            final(self).wf(),
            final(self).state_view() == State::Starting(START_DELAY),
            final(self).reset_remaining() == RESET_TIME,
            final(self).draw() == fresh_view(blank_board(), queue@, player_name()),
            final(self).ticks() == 0,
    {
        *self = SingleplayerGame::new(queue);
    }
}

} // verus!
