//! The authoritative countdown state and its transition functions.
//!
//! A `TimerState` is owned by exactly one orchestrating thread; every
//! mutation goes through the operations here. Ticks decrement the
//! remaining time while the countdown is running, the alarm fires exactly
//! once per countdown segment, and `pause_for_percent` rearms a fresh
//! segment at a fraction of the original length.

use vstd::prelude::*;

verus! {

/// The countdown state machine.
///
/// `remaining` is signed on purpose: ticking past expiry drives it
/// negative, which shows overrun time and records that the current
/// segment has already fired its alarm.
#[derive(Clone, Copy, Debug, PartialEq, Eq, Structural)]
pub struct TimerState {
    /// Configured countdown length in seconds; never changes after creation.
    pub original: i64,
    /// Seconds left in the current segment; unbounded below.
    pub remaining: i64,
    /// Whether ticks decrement `remaining`.
    pub running: bool,
    /// True once the alarm has fired for the current countdown segment;
    /// reset only by `pause_for_percent`, which starts a new segment.
    pub alarm_triggered: bool,
}

/// The remaining time that `pause_for_percent` computes: `percent` percent
/// of `original`, rounded half up, floored at 1 so the new segment cannot
/// expire instantly.
pub open spec fn percent_remaining(original: int, percent: int) -> int {
    let rounded = (original * percent + 50) / 100;
    if rounded < 1 {
        1
    } else {
        rounded
    }
}

impl TimerState {
    /// A well-formed state has a positive configured length.
    pub open spec fn wf(self) -> bool {
        self.original > 0
    }

    /// Whether the next tick fires the alarm: the countdown is running,
    /// the alarm has not fired in this segment, and the decrement reaches
    /// or crosses zero.
    pub open spec fn tick_fires(self) -> bool {
        self.running && !self.alarm_triggered && self.remaining <= 1
    }

    /// The state after one tick.
    pub open spec fn spec_tick(self) -> TimerState {
        if self.running {
            TimerState {
                remaining: (self.remaining - 1) as i64,
                alarm_triggered: self.alarm_triggered || self.tick_fires(),
                ..self
            }
        } else {
            self
        }
    }

    /// The state after flipping `running`.
    pub open spec fn spec_toggle(self) -> TimerState {
        TimerState { running: !self.running, ..self }
    }

    /// The state after `pause_for_percent`: a fresh countdown segment at
    /// `percent` percent of the original length, running, alarm rearmed.
    pub open spec fn spec_pause(self, percent: int) -> TimerState {
        TimerState {
            remaining: percent_remaining(self.original as int, percent) as i64,
            running: true,
            alarm_triggered: false,
            ..self
        }
    }

    /// Creates the initial state of a countdown: the full configured
    /// length remains, the countdown is running, the alarm is armed.
    pub fn new(original_seconds: i64) -> (s: TimerState)
        requires
            original_seconds > 0,
        ensures
            s.wf(),
            s.original == original_seconds,
            s.remaining == original_seconds,
            s.running,
            !s.alarm_triggered,
    {
        TimerState {
            original: original_seconds,
            remaining: original_seconds,
            running: true,
            alarm_triggered: false,
        }
    }

    /// Advances the countdown by one second. Returns whether this tick
    /// fired the alarm; the caller owes the alarm side effects exactly
    /// when it did. A paused countdown is left untouched.
    pub fn tick(&mut self) -> (fired: bool)
        requires
            old(self).remaining > i64::MIN,
        ensures
            *final(self) == old(self).spec_tick(),
            fired == old(self).tick_fires(),
            final(self).original == old(self).original,
            final(self).running == old(self).running,
            old(self).running ==> final(self).remaining == old(self).remaining - 1,
            !old(self).running ==> *final(self) == *old(self),
            final(self).alarm_triggered == (old(self).alarm_triggered || fired),
            fired ==> !old(self).alarm_triggered,
    {
        let mut fired: bool = false;
        if self.running {
            self.remaining = self.remaining - 1;
            if self.remaining <= 0 && !self.alarm_triggered {
                self.alarm_triggered = true;
                fired = true;
            }
        }
        fired
    }

    /// Flips `running` and changes nothing else. Applying it twice
    /// restores the state it started from.
    pub fn toggle_running(&mut self)
        ensures
            *final(self) == old(self).spec_toggle(),
            final(self).running == !old(self).running,
            final(self).original == old(self).original,
            final(self).remaining == old(self).remaining,
            final(self).alarm_triggered == old(self).alarm_triggered,
    {
        self.running = !self.running;
    }

    /// Restarts the countdown at `percent` percent of the original
    /// length (rounded half up, floored at 1), running and with the
    /// alarm rearmed. Despite the name this is a restart, not a freeze:
    /// the percentage may exceed 100, in which case the new segment is
    /// longer than the original.
    pub fn pause_for_percent(&mut self, percent: u64)
        requires
            old(self).wf(),
            percent >= 1,
            old(self).original * percent + 50 <= i64::MAX,
        ensures
            *final(self) == old(self).spec_pause(percent as int),
            final(self).remaining == percent_remaining(
                old(self).original as int,
                percent as int,
            ),
            final(self).remaining >= 1,
            final(self).running,
            !final(self).alarm_triggered,
            final(self).original == old(self).original,
    {
        proof {
            let orig = old(self).original as int;
            let pct = percent as int;
            assert(orig * pct >= pct) by (nonlinear_arith)
                requires
                    orig >= 1,
                    pct >= 0,
            ;
        }
        let prod: u64 = (self.original as u64) * percent + 50;
        let rounded: u64 = prod / 100;
        self.remaining = if rounded < 1 {
            1
        } else {
            rounded as i64
        };
        self.running = true;
        self.alarm_triggered = false;
    }
}

/// The state after `n` consecutive ticks with no other operation between
/// them.
pub open spec fn run_ticks(s: TimerState, n: nat) -> TimerState
    decreases n,
{
    if n == 0 {
        s
    } else {
        run_ticks(s, (n - 1) as nat).spec_tick()
    }
}

/// Flipping `running` twice restores the state exactly; in particular no
/// field other than `running` is ever touched by a toggle.
pub proof fn lemma_toggle_twice(s: TimerState)
    ensures
        s.spec_toggle().spec_toggle() == s,
{
}

/// Once the alarm has fired for the current segment it never fires again:
/// however many ticks follow, `alarm_triggered` stays set and no tick
/// among them fires.
pub proof fn lemma_alarm_at_most_once(s: TimerState, n: nat)
    requires
        s.alarm_triggered,
    ensures
        run_ticks(s, n).alarm_triggered,
        !run_ticks(s, n).tick_fires(),
    decreases n,
{
    if n > 0 {
        lemma_alarm_at_most_once(s, (n - 1) as nat);
    }
}

/// What `n` uninterrupted ticks do to a running, armed segment: the
/// remaining time goes down by one per tick, the countdown stays running,
/// and the alarm is triggered exactly from the tick that crossed zero on.
pub proof fn lemma_segment_state(s: TimerState, n: nat)
    requires
        s.running,
        !s.alarm_triggered,
        s.remaining >= 1,
        s.remaining - n >= i64::MIN,
    ensures
        run_ticks(s, n).running,
        run_ticks(s, n).original == s.original,
        run_ticks(s, n).remaining == s.remaining - n,
        run_ticks(s, n).alarm_triggered == (n >= s.remaining),
    decreases n,
{
    if n > 0 {
        lemma_segment_state(s, (n - 1) as nat);
    }
}

/// The alarm fires exactly once per countdown segment: starting a segment
/// with `remaining == r >= 1`, running and armed, the one tick that fires
/// is the tick taken after `r - 1` others — the tick whose decrement
/// crosses zero — and no earlier or later tick fires.
pub proof fn lemma_alarm_exactly_once(s: TimerState, n: nat)
    requires
        s.running,
        !s.alarm_triggered,
        s.remaining >= 1,
        s.remaining - n >= i64::MIN,
    ensures
        forall|k: nat|
            k <= n ==> (run_ticks(s, k).tick_fires() <==> k == s.remaining - 1),
{
    assert forall|k: nat| k <= n implies (run_ticks(s, k).tick_fires() <==> k == s.remaining
        - 1) by {
        lemma_segment_state(s, k);
    }
}

} // verus!
