use vstd::prelude::*;

verus! {

/// Logical ticks per second.
pub const TICKS_PER_SECOND: u64 = 60;

/// One tick in the clock's unit, a sixtieth of a microsecond, so that the
/// tick period is a whole number.
pub const TICK_UNITS: u128 = 1000000;

/// A lag of this many ticks or more is dropped rather than caught up.
pub const MAX_CATCH_UP: u128 = 600;

/// A time in microseconds, in the clock's unit.
pub open spec fn clock_units(micros: u64) -> int {
    micros as int * (TICKS_PER_SECOND as int)
}

/// One call of the scheduler: from the time of the last tick and the time
/// now (both in clock units), the new time of the last tick and the number
/// of ticks to run.
pub open spec fn clock_step(last: int, now: int, paused: bool) -> (int, int) {
    if paused {
        (now, 0)
    } else if now < last {
        (last, 0)
    } else {
        let pending = (now - last) / (TICK_UNITS as int);
        if pending >= MAX_CATCH_UP {
            (now, 0)
        } else {
            (last + pending * TICK_UNITS, pending)
        }
    }
}

fn to_clock_units(micros: u64) -> (r: u128)
    ensures
        r == clock_units(micros),
        r <= clock_units(u64::MAX),
{
    proof {
        assert(micros as int * 60 <= 0xffff_ffff_ffff_ffffint * 60) by (nonlinear_arith)
            requires
                micros <= 0xffff_ffff_ffff_ffffint,
        ;
    }
    micros as u128 * 60
}

/// The fixed-timestep scheduler: it remembers when the last logical tick
/// fell due and says how many ticks each frame must run.
pub struct TickClock {
    last_tick: u128,
}

impl TickClock {
    /// The time of the last tick, in clock units.
    pub closed spec fn last(&self) -> int {
        self.last_tick as int
    }

    pub closed spec fn wf(&self) -> bool {
        self.last_tick <= clock_units(u64::MAX)
    }

    /// A clock whose last tick fell at `now_micros`.
    pub fn new(now_micros: u64) -> (r: TickClock)
        ensures
            r.wf(),
            r.last() == clock_units(now_micros),
    {
        let now = to_clock_units(now_micros);
        TickClock { last_tick: now }
    }

    /// Called once per frame with the time since start, in microseconds:
    /// returns how many logical ticks to run now. While paused no debt
    /// builds up; after a lag of `MAX_CATCH_UP` ticks or more the ticks are
    /// dropped and the clock jumps to now; otherwise the clock moves on by
    /// exactly the ticks returned, so the remainder carries over.
    pub fn update(&mut self, now_micros: u64, paused: bool) -> (ticks: u32)
        requires
            old(self).wf(),
        ensures
            final(self).wf(),
            (final(self).last(), ticks as int) == clock_step(
                old(self).last(),
                clock_units(now_micros),
                paused,
            ),
            !paused && clock_units(now_micros) - old(self).last() >= MAX_CATCH_UP * TICK_UNITS
                ==> ticks == 0 && final(self).last() == clock_units(now_micros),
    {
        let now = to_clock_units(now_micros);
        if paused {
            self.last_tick = now;
            return 0;
        }
        if now < self.last_tick {
            return 0;
        }
        let pending = (now - self.last_tick) / TICK_UNITS;
        if pending >= MAX_CATCH_UP {
            self.last_tick = now;
            0
        } else {
            self.last_tick = self.last_tick + pending * TICK_UNITS;
            pending as u32
        }
    }
}

/// Within the catch-up limit the ticks run are the whole tick periods that
/// have passed, and what is left over is the remainder; two calls in a row
/// run as many ticks together as one call at the later time would, and
/// leave the same remainder, so nothing drifts.
pub proof fn lemma_tick_conservation(last: int, t1: int, t2: int)
    requires
        last <= t1 <= t2,
        (t2 - last) / (TICK_UNITS as int) < MAX_CATCH_UP,
    ensures
        clock_step(last, t1, false).1 == (t1 - last) / (TICK_UNITS as int),
        t1 - clock_step(last, t1, false).0 == (t1 - last) % (TICK_UNITS as int),
        clock_step(last, t1, false).1 + clock_step(clock_step(last, t1, false).0, t2, false).1 == (
        t2 - last) / (TICK_UNITS as int),
        t2 - clock_step(clock_step(last, t1, false).0, t2, false).0 == (t2 - last)
            % (TICK_UNITS as int),
{
    let p = (TICK_UNITS as int);
    let k1 = (t1 - last) / p;
    assert(k1 <= (t2 - last) / p) by (nonlinear_arith)
        requires
            t1 - last <= t2 - last,
            p > 0,
            k1 == (t1 - last) / p,
    ;
    let l1 = last + k1 * p;
    assert(t2 - l1 == (t2 - last) - k1 * p);
    let q = (t2 - last) / p;
    let r = (t2 - last) % p;
    vstd::arithmetic::div_mod::lemma_fundamental_div_mod(t2 - last, p);
    assert(t2 - l1 == p * (q - k1) + r) by (nonlinear_arith)
        requires
            t2 - last == p * q + r,
            t2 - l1 == (t2 - last) - k1 * p,
    ;
    vstd::arithmetic::div_mod::lemma_div_multiples_vanish_fancy(q - k1, r, p);
    vstd::arithmetic::div_mod::lemma_mod_multiples_vanish(q - k1, r, p);
    vstd::arithmetic::div_mod::lemma_small_mod(r as nat, p as nat);
    vstd::arithmetic::div_mod::lemma_fundamental_div_mod(t1 - last, p);
}

} // verus!
