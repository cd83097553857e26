//! Fixed-timestep scheduling: each presentation frame banks the time that
//! passed since the previous one, and the simulation advances in whole ticks
//! of `FRAME_SIZE` while more than one tick is banked.
use vstd::arithmetic::div_mod::{lemma_fundamental_div_mod, lemma_fundamental_div_mod_converse};
use vstd::prelude::*;

verus! {

/// The length of one simulation step in microseconds: a sixtieth of a
/// second, rounded to the nearest microsecond.
pub const FRAME_SIZE: u64 = 16_667;

/// Time that passed from `last` to `now`; a timestamp that runs backwards
/// contributes nothing.
pub open spec fn elapsed(last: u64, now: u64) -> nat {
    if now >= last {
        (now - last) as nat
    } else {
        0
    }
}

/// The time banked once the frame at `now` is accounted for, held at the
/// largest `u64`.
pub open spec fn banked(accumulated: u64, last: u64, now: u64) -> nat {
    let total = accumulated + elapsed(last, now);
    if total > u64::MAX {
        u64::MAX as nat
    } else {
        total as nat
    }
}

/// How many steps the catch-up loop runs on `total` banked time: it steps
/// while strictly more than one tick is left.
pub open spec fn steps_for(total: nat) -> nat {
    if total == 0 {
        0
    } else {
        ((total - 1) as nat) / (FRAME_SIZE as nat)
    }
}

/// The time left banked after the catch-up loop on `total`.
pub open spec fn remainder_for(total: nat) -> nat {
    (total - steps_for(total) * FRAME_SIZE) as nat
}

/// Over a frame whose timestamp is no earlier than the last one, the number of
/// steps is the banked time (what was left plus what elapsed) divided by the
/// tick, rounded down, and what stays banked is non-negative and under one
/// tick. The loop steps only while strictly more than a tick is left, so this
/// holds except where the banked time is a whole positive number of ticks
/// (then one tick stays banked and one step fewer runs).
pub proof fn lemma_steps_match_banked_time(accumulated: u64, last: u64, now: u64)
    requires
        now >= last,
        accumulated + (now - last) <= u64::MAX,
        (accumulated + (now - last)) % (FRAME_SIZE as int) != 0,
    ensures
        steps_for(banked(accumulated, last, now)) == (accumulated + (now - last)) / (
        FRAME_SIZE as int),
        0 <= remainder_for(banked(accumulated, last, now)) < FRAME_SIZE,
{
    let t: int = accumulated + (now - last);
    let d: int = FRAME_SIZE as int;
    assert(banked(accumulated, last, now) == t);
    lemma_fundamental_div_mod(t, d);
    let q = t / d;
    let r = t % d;
    assert(t == d * q + r);
    assert(0 < r < d);
    assert(t == q * d + r) by (nonlinear_arith)
        requires
            t == d * q + r,
    ;
    lemma_fundamental_div_mod_converse(t - 1, d, q, r - 1);
    assert(steps_for(t as nat) == q);
}

/// What the host has to do for one presentation frame, besides draining
/// the input and drawing once: run `update` this many times.
#[derive(Clone, Copy, Debug, PartialEq, Eq, Structural)]
pub struct FramePlan {
    pub updates: u64,
}

/// The scheduler's state: when the last frame came, how much time is
/// banked for simulation, and how many frame callbacks are registered.
#[derive(Debug)]
pub struct GameLoop {
    last_frame: u64,
    accumulated_delta: u64,
    pending_frames: u64,
}

impl GameLoop {
    pub closed spec fn spec_last_frame(&self) -> u64 {
        self.last_frame
    }

    pub closed spec fn spec_accumulated_delta(&self) -> u64 {
        self.accumulated_delta
    }

    pub closed spec fn spec_pending_frames(&self) -> u64 {
        self.pending_frames
    }

    /// At most one tick stays banked between frames, and at most one frame
    /// callback is registered.
    pub open spec fn wf(&self) -> bool {
        &&& self.spec_accumulated_delta() <= FRAME_SIZE
        &&& self.spec_pending_frames() <= 1
    }

    /// A loop that starts at `now` with nothing banked and no callback
    /// registered yet.
    pub fn new(now: u64) -> (r: GameLoop)
        ensures
            r.wf(),
            r.spec_last_frame() == now,
            r.spec_accumulated_delta() == 0,
            r.spec_pending_frames() == 0,
    {
        GameLoop { last_frame: now, accumulated_delta: 0, pending_frames: 0 }
    }

    /// Records the registration of the first frame callback.
    pub fn arm(&mut self)
        requires
            old(self).wf(),
            old(self).spec_pending_frames() == 0,
        ensures
            final(self).wf(),
            final(self).spec_pending_frames() == 1,
            final(self).spec_last_frame() == old(self).spec_last_frame(),
            final(self).spec_accumulated_delta() == old(self).spec_accumulated_delta(),
    {
        self.pending_frames = 1;
    }

    /// Accounts for the presentation frame at `perf`: the registered callback
    /// that fired is used up, the elapsed time is banked, whole ticks are taken
    /// off while more than one is banked (one update each), the frame time is
    /// recorded, and exactly one callback is registered for the next frame.
    pub fn on_frame(&mut self, perf: u64) -> (plan: FramePlan)
        requires
            old(self).wf(),
            old(self).spec_pending_frames() == 1,
        ensures
            final(self).wf(),
            plan.updates == steps_for(
                banked(old(self).spec_accumulated_delta(), old(self).spec_last_frame(), perf),
            ),
            final(self).spec_accumulated_delta() == remainder_for(
                banked(old(self).spec_accumulated_delta(), old(self).spec_last_frame(), perf),
            ),
            final(self).spec_last_frame() == perf,
            final(self).spec_pending_frames() == 1,
    {
        self.pending_frames = self.pending_frames - 1;
        let delta: u64 = if perf >= self.last_frame {
            perf - self.last_frame
        } else {
            0
        };
        let total: u64 = self.accumulated_delta.saturating_add(delta);
        let ghost t = total as nat;
        assert(t == banked(self.accumulated_delta, self.last_frame, perf));
        let mut acc: u64 = total;
        let mut updates: u64 = 0;
        while acc > FRAME_SIZE
            invariant
                acc + updates * FRAME_SIZE == t,
                t > 0 ==> acc > 0,
                t <= u64::MAX,
            decreases acc,
        {
            assert(updates * FRAME_SIZE + FRAME_SIZE <= t) by (nonlinear_arith)
                requires
                    acc + updates * FRAME_SIZE == t,
                    acc > FRAME_SIZE,
            ;
            assert(updates + 1 <= t) by (nonlinear_arith)
                requires
                    updates * FRAME_SIZE + FRAME_SIZE <= t,
                    FRAME_SIZE >= 1,
            ;
            updates = updates + 1;
            acc = acc - FRAME_SIZE;
        }
        proof {
            if t == 0 {
                assert(updates * FRAME_SIZE == 0);
                assert(updates == 0) by (nonlinear_arith)
                    requires
                        updates * FRAME_SIZE == 0,
                        FRAME_SIZE > 0,
                ;
            } else {
                lemma_fundamental_div_mod_converse(
                    t - 1,
                    FRAME_SIZE as int,
                    updates as int,
                    acc - 1,
                );
            }
        }
        self.accumulated_delta = acc;
        self.last_frame = perf;
        self.pending_frames = self.pending_frames + 1;
        FramePlan { updates }
    }

    /// The timestamp of the last frame accounted for.
    pub fn last_frame(&self) -> (r: u64)
        ensures
            r == self.spec_last_frame(),
    {
        self.last_frame
    }

    /// The time banked for simulation.
    pub fn accumulated_delta(&self) -> (r: u64)
        ensures
            r == self.spec_accumulated_delta(),
    {
        self.accumulated_delta
    }

    /// The number of frame callbacks registered and not yet fired.
    pub fn pending_frames(&self) -> (r: u64)
        ensures
            r == self.spec_pending_frames(),
    {
        self.pending_frames
    }
}

} // verus!
