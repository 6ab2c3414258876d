//! Transport bytes and the decisions of a tempo-locked MIDI clock.
//!
//! The clock loop itself waits and writes, so it runs outside this crate; what
//! it decides at each step is here: whether to pulse or stop, and how long to
//! sleep before the next pulse.
use vstd::prelude::*;
use vstd::arithmetic::div_mod::{lemma_div_is_ordered_by_denominator, lemma_div_multiples_vanish};
use crate::consts::{CLOCK, CONTINUE, START, STOP};

verus! {

/// Clock pulses sent per quarter note.
pub const PULSES_PER_QUARTER_NOTE: u64 = 24;

/// Nanoseconds in one minute.
pub const NANOS_PER_MINUTE: u64 = 60_000_000_000;

/// Bytes of a Start message.
pub fn start() -> (r: Vec<u8>)
    ensures
        r@ == seq![START],
{
    vec![START]
}

/// Bytes of a Stop message.
pub fn stop() -> (r: Vec<u8>)
    ensures
        r@ == seq![STOP],
{
    vec![STOP]
}

/// Bytes of a Continue message.
pub fn cont() -> (r: Vec<u8>)
    ensures
        r@ == seq![CONTINUE],
{
    vec![CONTINUE]
}

/// Bytes of one timing-clock pulse.
pub fn clock() -> (r: Vec<u8>)
    ensures
        r@ == seq![CLOCK],
{
    vec![CLOCK]
}

/// Nominal nanoseconds between two pulses at `bpm` beats per minute
/// (rounded down to whole nanoseconds).
pub open spec fn pulse_interval(bpm: nat) -> nat {
    NANOS_PER_MINUTE as nat / (PULSES_PER_QUARTER_NOTE as nat * bpm)
}

/// The nominal pulse interval at `bpm`; none at a tempo of zero.
pub fn pulse_interval_nanos(bpm: u32) -> (r: Option<u64>)
    ensures
        r is None <==> bpm == 0,
        r matches Some(n) ==> n == pulse_interval(bpm as nat),
{
    if bpm == 0 {
        None
    } else {
        Some(NANOS_PER_MINUTE / (PULSES_PER_QUARTER_NOTE * bpm as u64))
    }
}

/// How long to sleep after a tick whose own work took `elapsed` nanoseconds.
///
/// On time, the sleep fills the rest of the interval. Late, the nominal
/// interval is scaled down by the overshoot ratio `elapsed / interval`.
pub open spec fn next_sleep(interval: nat, elapsed: nat) -> nat {
    if elapsed > interval {
        interval * interval / elapsed
    } else {
        (interval - elapsed) as nat
    }
}

/// The sleep that follows a tick of `elapsed` nanoseconds at `interval`.
pub fn next_sleep_nanos(interval: u64, elapsed: u64) -> (r: u64)
    ensures
        r == next_sleep(interval as nat, elapsed as nat),
        r <= interval,
        elapsed <= interval ==> elapsed + r == interval,
        elapsed > interval ==> r < interval || interval == 0,
{
    if elapsed > interval {
        proof {
            let i = interval as int;
            assert(i * i <= 0xffff_ffff_ffff_ffffint * 0xffff_ffff_ffff_ffffint) by (nonlinear_arith)
                requires
                    0 <= i <= 0xffff_ffff_ffff_ffffint,
            ;
        }
        let square: u128 = interval as u128 * interval as u128;
        let scaled: u128 = square / elapsed as u128;
        proof {
            let i = interval as int;
            let e = elapsed as int;
            if i > 0 {
                lemma_div_is_ordered_by_denominator(i * i, i, e);
                lemma_div_multiples_vanish(i, i);
                assert(i * i / i == i);
                assert(i * i / e <= i);
                assert(i * i / e < i) by {
                    vstd::arithmetic::div_mod::lemma_fundamental_div_mod(i * i, e);
                    assert(i * i < e * i) by (nonlinear_arith)
                        requires
                            i > 0,
                            e > i,
                    ;
                    assert(e * (i * i / e) <= i * i) by {
                        vstd::arithmetic::div_mod::lemma_mod_pos_bound(i * i, e);
                    }
                    if i * i / e >= i {
                        assert(e * (i * i / e) >= e * i) by (nonlinear_arith)
                            requires
                                i * i / e >= i,
                                e > 0,
                        ;
                    }
                }
            } else {
                assert(i == 0);
                assert(i * i == 0) by (nonlinear_arith)
                    requires
                        i == 0,
                ;
            }
        }
        scaled as u64
    } else {
        interval - elapsed
    }
}

/// Where a clock run stands.
#[derive(Debug, Clone, Copy, PartialEq, Eq, Structural)]
pub enum ClockState {
    /// Built, loop not begun.
    Idle,
    /// Loop active: one pulse per interval.
    Running,
    /// Loop left for good; a new run needs a new clock.
    Stopped,
}

/// What the loop does at the top of an iteration.
#[derive(Debug, Clone, Copy, PartialEq, Eq, Structural)]
pub enum ClockAction {
    /// Send one pulse, then sleep.
    Pulse,
    /// Leave the loop.
    Exit,
}

/// One loop-top step: the new state and the action, given the state and the
/// value of the external running flag observed there.
pub open spec fn clock_step(state: ClockState, running: bool) -> (ClockState, ClockAction) {
    match state {
        ClockState::Running => if running {
            (ClockState::Running, ClockAction::Pulse)
        } else {
            (ClockState::Stopped, ClockAction::Exit)
        },
        _ => (state, ClockAction::Exit),
    }
}

/// The actions of successive loop-top steps from `state`, one per observed
/// flag value.
pub open spec fn clock_actions(state: ClockState, flags: Seq<bool>) -> Seq<ClockAction>
    decreases flags.len(),
{
    if flags.len() == 0 {
        Seq::empty()
    } else {
        let (next, action) = clock_step(state, flags[0]);
        seq![action] + clock_actions(next, flags.drop_first())
    }
}

/// One action per observed flag value.
pub proof fn lemma_clock_actions_len(state: ClockState, flags: Seq<bool>)
    ensures
        clock_actions(state, flags).len() == flags.len(),
    decreases flags.len(),
{
    if flags.len() > 0 {
        let (next, action) = clock_step(state, flags[0]);
        lemma_clock_actions_len(next, flags.drop_first());
    }
}

/// The clock pulses only while it is running and the flag has held at every
/// observation so far: once it sees the flag lowered it exits, and it never
/// pulses again whatever the flag does afterwards.
pub proof fn lemma_pulses_only_while_flag_holds(state: ClockState, flags: Seq<bool>)
    ensures
        forall|i: int|
            0 <= i < flags.len() && #[trigger] clock_actions(state, flags)[i] == ClockAction::Pulse
                ==> state == ClockState::Running && forall|j: int| 0 <= j <= i ==> flags[j],
    decreases flags.len(),
{
    lemma_clock_actions_len(state, flags);
    if flags.len() > 0 {
        let (next, action) = clock_step(state, flags[0]);
        let rest = flags.drop_first();
        lemma_pulses_only_while_flag_holds(next, rest);
        lemma_clock_actions_len(next, rest);
        let acts = clock_actions(state, flags);
        assert(acts == seq![action] + clock_actions(next, rest));
        assert forall|i: int|
            0 <= i < flags.len() && #[trigger] clock_actions(state, flags)[i] == ClockAction::Pulse
                implies state == ClockState::Running && forall|j: int| 0 <= j <= i ==> flags[j] by {
            if i == 0 {
                assert(acts[0] == action);
            } else {
                assert(acts[i] == clock_actions(next, rest)[i - 1]);
                assert(next == ClockState::Running);
                assert(state == ClockState::Running);
                assert(action == ClockAction::Pulse || !flags[0]);
                assert forall|j: int| 0 <= j <= i implies flags[j] by {
                    if j > 0 {
                        assert(flags[j] == rest[j - 1]);
                    }
                }
            }
        }
    }
}

/// Total time of successive ticks whose own work took `elapsed[k]`
/// nanoseconds, each followed by the sleep that the clock chooses.
pub open spec fn ticks_duration(interval: nat, elapsed: Seq<nat>) -> nat
    decreases elapsed.len(),
{
    if elapsed.len() == 0 {
        0
    } else {
        elapsed[0] + next_sleep(interval, elapsed[0]) + ticks_duration(
            interval,
            elapsed.drop_first(),
        )
    }
}

/// Ticks that finish their work within the interval keep the tempo exactly:
/// any number of them take that many nominal intervals in all.
pub proof fn lemma_on_time_ticks_keep_tempo(interval: nat, elapsed: Seq<nat>)
    requires
        forall|k: int| 0 <= k < elapsed.len() ==> elapsed[k] <= interval,
    ensures
        ticks_duration(interval, elapsed) == elapsed.len() * interval,
    decreases elapsed.len(),
{
    if elapsed.len() > 0 {
        let rest = elapsed.drop_first();
        assert forall|k: int| 0 <= k < rest.len() implies rest[k] <= interval by {
            assert(rest[k] == elapsed[k + 1]);
        }
        lemma_on_time_ticks_keep_tempo(interval, rest);
        assert(elapsed.len() * interval == interval + rest.len() * interval) by (nonlinear_arith)
            requires
                elapsed.len() == rest.len() + 1,
        ;
    }
}

/// A late tick never sleeps a full interval, and the sleep is the nominal
/// interval shrunk by the overshoot ratio: `sleep / interval` is at most
/// `interval / elapsed`, rounded down to whole nanoseconds.
pub proof fn lemma_late_tick_scales_sleep(interval: nat, elapsed: nat)
    requires
        elapsed > interval,
        interval > 0,
    ensures
        next_sleep(interval, elapsed) < interval,
        next_sleep(interval, elapsed) * elapsed <= interval * interval,
        interval * interval < (next_sleep(interval, elapsed) + 1) * elapsed,
{
    let i = interval as int;
    let e = elapsed as int;
    let q = i * i / e;
    vstd::arithmetic::div_mod::lemma_fundamental_div_mod(i * i, e);
    vstd::arithmetic::div_mod::lemma_mod_pos_bound(i * i, e);
    assert(q * e <= i * i && i * i < (q + 1) * e) by (nonlinear_arith)
        requires
            i * i == e * q + (i * i) % e,
            0 <= (i * i) % e < e,
    ;
    assert(q < i) by (nonlinear_arith)
        requires
            i * i < (q + 1) * e,
            q * e <= i * i,
            e > i,
            i > 0,
    ;
}

/// A clock run at a fixed tempo: the nominal pulse interval and where the run
/// stands.
#[derive(Debug)]
pub struct TransportClock {
    interval: u64,
    state: ClockState,
}

impl TransportClock {
    /// Nominal nanoseconds between pulses.
    pub closed spec fn spec_interval(&self) -> u64 {
        self.interval
    }

    /// Where the run stands.
    pub closed spec fn spec_state(&self) -> ClockState {
        self.state
    }

    /// An idle clock for `bpm` beats per minute; none at a tempo of zero.
    pub fn new(bpm: u32) -> (r: Option<Self>)
        ensures
            r is None <==> bpm == 0,
            r matches Some(c) ==> c.spec_state() == ClockState::Idle && c.spec_interval()
                == pulse_interval(bpm as nat),
    {
        match pulse_interval_nanos(bpm) {
            Some(interval) => Some(TransportClock { interval, state: ClockState::Idle }),
            None => None,
        }
    }

    /// Nominal nanoseconds between pulses.
    pub fn interval(&self) -> (r: u64)
        ensures
            r == self.spec_interval(),
    {
        self.interval
    }

    /// Where the run stands.
    pub fn state(&self) -> (r: ClockState)
        ensures
            r == self.spec_state(),
    {
        self.state
    }

    /// Enters the loop. Only an idle clock can begin; a stopped one stays
    /// stopped.
    pub fn begin(&mut self) -> (r: bool)
        ensures
            r == (old(self).spec_state() == ClockState::Idle),
            final(self).spec_state() == if r {
                ClockState::Running
            } else {
                old(self).spec_state()
            },
            final(self).spec_interval() == old(self).spec_interval(),
    {
        if self.state == ClockState::Idle {
            self.state = ClockState::Running;
            true
        } else {
            false
        }
    }

    /// The loop-top step, given the running flag just observed: a running
    /// clock pulses while the flag holds and stops at the first time it does
    /// not; a clock that is not running only exits.
    pub fn tick(&mut self, running: bool) -> (r: ClockAction)
        ensures
            (final(self).spec_state(), r) == clock_step(old(self).spec_state(), running),
            final(self).spec_interval() == old(self).spec_interval(),
    {
        match self.state {
            ClockState::Running => {
                if running {
                    ClockAction::Pulse
                } else {
                    self.state = ClockState::Stopped;
                    ClockAction::Exit
                }
            },
            _ => ClockAction::Exit,
        }
    }

    /// The sleep after a pulse whose tick took `elapsed` nanoseconds.
    pub fn pause_after(&self, elapsed: u64) -> (r: u64)
        ensures
            r == next_sleep(self.spec_interval() as nat, elapsed as nat),
            r <= self.spec_interval(),
    {
        next_sleep_nanos(self.interval, elapsed)
    }
}

} // verus!
