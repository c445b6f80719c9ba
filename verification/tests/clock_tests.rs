use fork_core::automaton::{CharacterInput, CharacterState};
use fork_core::clock::{Animate, DeltaTime, CADENCE_PERIOD_MS, IDLE_CYCLE, RUNNING_CYCLE};
use fork_core::world::{KeyCode, MovementInput};

#[test]
fn idle_clock_wraps_after_five_ticks() {
    // An idle entity has a cycle of four frames, so five ticks at full
    // cadence land on frame one.
    assert_eq!(IDLE_CYCLE, 4);
    let mut anim = Animate::new(CharacterState::Idle);
    for _ in 0..5 {
        anim.animate();
    }
    assert_eq!(anim.ticks, 1);
}

#[test]
fn running_clock_wraps_modulo_its_cycle() {
    assert_eq!(RUNNING_CYCLE, 6);
    let mut anim = Animate::new(CharacterState::RunningRight);
    for _ in 0..6 {
        anim.animate();
        assert!(anim.ticks < RUNNING_CYCLE);
    }
    assert_eq!(anim.ticks, 0);
}

#[test]
fn clock_invariant_holds_through_mixed_events() {
    let mut anim = Animate::new(CharacterState::Idle);
    let inputs = [
        CharacterInput::Left,
        CharacterInput::Right,
        CharacterInput::Interrupt,
    ];
    for round in 0..30usize {
        anim.animate();
        assert!(anim.ticks < fork_core::clock::cycle_length(anim.state()));
        if round % 4 == 0 {
            anim.delta(inputs[round / 4 % 3]);
            assert!(anim.ticks < fork_core::clock::cycle_length(anim.state()));
        }
    }
}

#[test]
fn press_left_then_release_resets_mid_cycle_clock() {
    // Press Left, then release before any tick: the state goes to
    // RunningLeft and back to Idle, the clock forced to zero even from
    // mid-cycle.
    let mut anim = Animate::new(CharacterState::Idle);
    anim.animate();
    anim.animate();
    anim.animate();
    assert_eq!(anim.ticks, 3);
    MovementInput::process(Some(KeyCode::Left), &mut anim);
    assert_eq!(anim.state(), CharacterState::RunningLeft);
    assert_eq!(anim.ticks, 3, "switching direction keeps the phase");
    MovementInput::interrupt(Some(KeyCode::Left), &mut anim);
    assert_eq!(anim.state(), CharacterState::Idle);
    assert_eq!(anim.ticks, 0);
}

#[test]
fn round_trip_left_right_interrupt_returns_to_start() {
    let mut anim = Animate::new(CharacterState::Idle);
    anim.animate();
    anim.delta(CharacterInput::Left);
    anim.delta(CharacterInput::Right);
    anim.delta(CharacterInput::Interrupt);
    assert_eq!(anim.state(), CharacterState::Idle);
    assert_eq!(anim.ticks, 0);
}

#[test]
fn gate_stays_shut_within_one_period() {
    let mut time = DeltaTime::new(10_000);
    assert!(!time.advance(10_000));
    assert!(!time.advance(10_000 + CADENCE_PERIOD_MS - 1));
    assert_eq!(time.last_advance_ms, 10_000, "a shut gate does not re-arm");
}

#[test]
fn gate_fires_once_per_period() {
    let mut time = DeltaTime::new(10_000);
    assert!(time.advance(10_000 + CADENCE_PERIOD_MS));
    assert_eq!(time.last_advance_ms, 10_000 + CADENCE_PERIOD_MS);
    assert!(!time.advance(10_000 + CADENCE_PERIOD_MS + 1));
    assert!(time.advance(10_000 + 2 * CADENCE_PERIOD_MS));
}

#[test]
fn unrecognized_keys_are_ignored() {
    let mut anim = Animate::new(CharacterState::Idle);
    MovementInput::process(Some(KeyCode::Other), &mut anim);
    assert_eq!(anim.state(), CharacterState::Idle);
    MovementInput::process(None, &mut anim);
    assert_eq!(anim.state(), CharacterState::Idle);
}
