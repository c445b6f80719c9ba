//! The per-entity animation clock and the wall-clock cadence gate that
//! decouples animation speed from the frame rate.

use vstd::prelude::*;

use crate::automaton::{spec_delta, CharacterInput, CharacterState};

verus! {

/// Frames in the idle animation cycle: the atlas stores four idle clips.
pub const IDLE_CYCLE: u32 = 4;

/// Frames in the running animation cycle. The source material varies
/// between six and twelve; this library fixes it at six, the number of
/// running clips the atlas layout stores in its second row.
pub const RUNNING_CYCLE: u32 = 6;

/// Minimal wall-clock time between two clock advances, in milliseconds.
/// 133 ms is a cadence of 7.5 Hz, independent of the render or physics
/// rate.
pub const CADENCE_PERIOD_MS: u64 = 133;

/// Length of the animation cycle while in `state`: the clock wraps modulo
/// this value, re-derived from the current state on every tick.
pub open spec fn spec_cycle_length(state: CharacterState) -> u32 {
    match state {
        CharacterState::Idle => IDLE_CYCLE,
        CharacterState::RunningLeft => RUNNING_CYCLE,
        CharacterState::RunningRight => RUNNING_CYCLE,
    }
}

/// Exec mirror of `spec_cycle_length`.
pub fn cycle_length(state: CharacterState) -> (n: u32)
    ensures
        n == spec_cycle_length(state),
{
    match state {
        CharacterState::Idle => IDLE_CYCLE,
        CharacterState::RunningLeft => RUNNING_CYCLE,
        CharacterState::RunningRight => RUNNING_CYCLE,
    }
}

/// The animation component of one entity: the automaton state it is posing
/// for and the clock counting animation frames within the state's cycle.
#[derive(Debug, Copy, Clone, PartialEq, Eq, Structural)]
pub struct Animate {
    /// Current automaton state.
    pub current: CharacterState,
    /// Current animation frame, always below the cycle length of `current`.
    pub ticks: u32,
}

/// One observable event in the life of an animation component: a clock
/// tick or a consumed input.
#[derive(Debug, Copy, Clone, PartialEq, Eq, Structural)]
pub enum ClockEvent {
    Tick,
    Input(CharacterInput),
}

/// What one event does to the component: a tick advances the clock modulo
/// the cycle length of the current state; an input moves the automaton and
/// resets the clock to zero only on `Interrupt`, so that switching
/// direction while moving keeps the animation phase.
pub open spec fn spec_step(c: Animate, e: ClockEvent) -> Animate {
    match e {
        ClockEvent::Tick => Animate {
            current: c.current,
            ticks: (((c.ticks + 1) as int) % (spec_cycle_length(c.current) as int)) as u32,
        },
        ClockEvent::Input(i) => Animate {
            current: spec_delta(c.current, i),
            ticks: if i == CharacterInput::Interrupt {
                0
            } else {
                c.ticks
            },
        },
    }
}

/// The component's invariant: the clock always reads below the cycle
/// length derived from the current state.
pub open spec fn wf_animate(c: Animate) -> bool {
    c.ticks < spec_cycle_length(c.current)
}

impl Animate {
    /// A fresh component: the automaton starts in `state`, the clock at
    /// zero.
    pub fn new(state: CharacterState) -> (c: Animate)
        ensures
            c.current == state,
            c.ticks == 0,
            wf_animate(c),
    {
        Animate { current: state, ticks: 0 }
    }

    /// The automaton state the component currently poses for.
    pub fn state(&self) -> (s: CharacterState)
        ensures
            s == self.current,
    {
        self.current
    }

    /// Consumes one input: moves the automaton by its transition table and
    /// resets the clock only on `Interrupt`.
    pub fn delta(&mut self, input: CharacterInput)
        ensures
            *final(self) == spec_step(*old(self), ClockEvent::Input(input)),
            wf_animate(*old(self)) ==> wf_animate(*final(self)),
    {
        let next = match crate::automaton::transition(self.current, input) {
            Ok(s) => s,
            Err(_) => self.current,
        };
        self.current = next;
        if let CharacterInput::Interrupt = input {
            self.ticks = 0;
        }
    }

    /// Advances the clock one frame, wrapping modulo the cycle length of
    /// the current state.
    pub fn animate(&mut self)
        requires
            wf_animate(*old(self)),
        ensures
            *final(self) == spec_step(*old(self), ClockEvent::Tick),
            wf_animate(*final(self)),
    {
        let states = cycle_length(self.current);
        self.ticks = (self.ticks + 1) % states;
    }
}

/// The shared cadence gate: remembers when the animation clocks last
/// advanced.
#[derive(Debug, Copy, Clone, PartialEq, Eq, Structural)]
pub struct DeltaTime {
    /// Wall-clock instant of the last advance, in milliseconds.
    pub last_advance_ms: u64,
}

/// The throttle opens once a full cadence period lies between the last
/// advance and now.
pub open spec fn spec_gate_open(last_ms: u64, now_ms: u64) -> bool {
    now_ms >= last_ms + CADENCE_PERIOD_MS
}

impl DeltaTime {
    /// A gate that last fired at `now_ms`.
    pub fn new(now_ms: u64) -> (t: DeltaTime)
        ensures
            t.last_advance_ms == now_ms,
    {
        DeltaTime { last_advance_ms: now_ms }
    }

    /// Offers an advance at wall-clock time `now_ms`: with a full cadence
    /// period behind it the throttle fires and re-arms at `now_ms`;
    /// otherwise nothing changes.
    pub fn advance(&mut self, now_ms: u64) -> (fired: bool)
        ensures
            fired == spec_gate_open(old(self).last_advance_ms, now_ms),
            fired ==> final (self).last_advance_ms == now_ms,
            !fired ==> *final (self) == *old(self),
    {
        if now_ms >= self.last_advance_ms && now_ms - self.last_advance_ms >= CADENCE_PERIOD_MS {
            self.last_advance_ms = now_ms;
            true
        } else {
            false
        }
    }
}

/// One event preserves the clock invariant.
pub proof fn lemma_step_preserves_wf(c: Animate, e: ClockEvent)
    requires
        wf_animate(c),
    ensures
        wf_animate(spec_step(c, e)),
{
}

/// Folds a sequence of events over a component, oldest first.
pub open spec fn spec_run(c: Animate, es: Seq<ClockEvent>) -> Animate
    decreases es.len(),
{
    if es.len() == 0 {
        c
    } else {
        spec_run(spec_step(c, es[0]), es.drop_first())
    }
}

/// The clock invariant holds at every point of every reachable run: after
/// any sequence of ticks and inputs from a well-formed component, the
/// clock still reads below the cycle length of the then-current state.
pub proof fn lemma_reachable_wf(c: Animate, es: Seq<ClockEvent>)
    requires
        wf_animate(c),
    ensures
        wf_animate(spec_run(c, es)),
    decreases es.len(),
{
    if es.len() > 0 {
        lemma_step_preserves_wf(c, es[0]);
        lemma_reachable_wf(spec_step(c, es[0]), es.drop_first());
    }
}

/// Idempotence within one cadence period: while the throttle is shut, a
/// throttled tick is a no-op however often it is attempted, so `ticks`
/// is unchanged.
pub proof fn lemma_gated_tick_idempotent(c: Animate, last_ms: u64, now_ms: u64)
    requires
        !spec_gate_open(last_ms, now_ms),
    ensures
        spec_gated_tick(c, last_ms, now_ms) == (c, last_ms),
{
}

/// One throttled tick as a mathematical function: the component and the
/// throttle after offering a tick at wall-clock time `now_ms`.
pub open spec fn spec_gated_tick(c: Animate, last_ms: u64, now_ms: u64) -> (Animate, u64) {
    if spec_gate_open(last_ms, now_ms) {
        (spec_step(c, ClockEvent::Tick), now_ms)
    } else {
        (c, last_ms)
    }
}

/// Repeated throttled ticks, offered at the wall-clock times in `nows`,
/// oldest first.
pub open spec fn spec_gated_run(c: Animate, last_ms: u64, nows: Seq<u64>) -> (Animate, u64)
    decreases nows.len(),
{
    if nows.len() == 0 {
        (c, last_ms)
    } else {
        let first = spec_gated_tick(c, last_ms, nows[0]);
        spec_gated_run(first.0, first.1, nows.drop_first())
    }
}

/// However often a throttled tick is offered, as long as every offer falls
/// short of one cadence period past the last advance, the component and
/// the throttle are left exactly as they were.
pub proof fn lemma_gated_run_idempotent(c: Animate, last_ms: u64, nows: Seq<u64>)
    requires
        forall|i: int| 0 <= i < nows.len() ==> !spec_gate_open(last_ms, #[trigger] nows[i]),
    ensures
        spec_gated_run(c, last_ms, nows) == (c, last_ms),
    decreases nows.len(),
{
    if nows.len() > 0 {
        lemma_gated_tick_idempotent(c, last_ms, nows[0]);
        lemma_gated_run_idempotent(c, last_ms, nows.drop_first());
    }
}

/// Round trip: from any well-formed component, pressing `Left`, then
/// `Right`, then releasing (`Interrupt`) returns the automaton to `Idle`
/// and the clock to zero, whatever the clock read in between.
pub proof fn lemma_round_trip(c: Animate)
    ensures
        ({
            let after = spec_step(
                spec_step(
                    spec_step(c, ClockEvent::Input(CharacterInput::Left)),
                    ClockEvent::Input(CharacterInput::Right),
                ),
                ClockEvent::Input(CharacterInput::Interrupt),
            );
            after.current == CharacterState::Idle && after.ticks == 0
        }),
{
}

} // verus!
