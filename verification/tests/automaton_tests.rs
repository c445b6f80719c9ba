use fork_core::automaton::{delta, transition, CharacterInput, CharacterState};

#[test]
fn transition_is_total_and_input_dominant() {
    let states = [
        CharacterState::Idle,
        CharacterState::RunningLeft,
        CharacterState::RunningRight,
    ];
    for s in states {
        assert_eq!(
            transition(s, CharacterInput::Left),
            Ok(CharacterState::RunningLeft)
        );
        assert_eq!(
            transition(s, CharacterInput::Right),
            Ok(CharacterState::RunningRight)
        );
        assert_eq!(
            transition(s, CharacterInput::Interrupt),
            Ok(CharacterState::Idle)
        );
    }
}

#[test]
fn delta_on_numeric_tags() {
    for state in 0..3u32 {
        assert_eq!(delta(state, 0), 1, "Left always runs left");
        assert_eq!(delta(state, 1), 2, "Right always runs right");
        assert_eq!(delta(state, 2), 0, "Interrupt always idles");
    }
}

#[test]
fn state_tags_round_trip() {
    assert!(matches!(
        CharacterState::from_u32(0),
        Some(CharacterState::Idle)
    ));
    assert!(matches!(
        CharacterState::from_u32(1),
        Some(CharacterState::RunningLeft)
    ));
    assert!(matches!(
        CharacterState::from_u32(2),
        Some(CharacterState::RunningRight)
    ));
    assert!(CharacterState::from_u32(3).is_none());
    for s in [
        CharacterState::Idle,
        CharacterState::RunningLeft,
        CharacterState::RunningRight,
    ] {
        assert_eq!(CharacterState::from_u32(s.to_u32()), Some(s));
    }
}

#[test]
fn input_tags_decode() {
    assert!(matches!(
        CharacterInput::from_u32(0),
        Some(CharacterInput::Left)
    ));
    assert!(matches!(
        CharacterInput::from_u32(1),
        Some(CharacterInput::Right)
    ));
    assert!(matches!(
        CharacterInput::from_u32(2),
        Some(CharacterInput::Interrupt)
    ));
    assert!(CharacterInput::from_u32(9).is_none());
}
