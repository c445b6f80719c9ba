//! The character behaviour automaton: a deterministic finite-state machine
//! over three states and three inputs.

use vstd::prelude::*;

verus! {

/// Pose of a controlled character. Exactly one holder per controlled
/// entity; mutated only through the automaton's transition function.
#[derive(Debug, Copy, Clone, PartialEq, Eq, Structural)]
pub enum CharacterState {
    Idle,
    RunningLeft,
    RunningRight,
}

/// One discrete input event, consumed once and never stored. `Left` and
/// `Right` come from key presses, `Interrupt` from any key release.
#[derive(Debug, Copy, Clone, PartialEq, Eq, Structural)]
pub enum CharacterInput {
    Left,
    Right,
    Interrupt,
}

impl CharacterState {
    /// The state the automaton starts in.
    pub fn initial() -> (s: CharacterState)
        ensures
            s == CharacterState::Idle,
    {
        CharacterState::Idle
    }

    /// Decodes a state from its numeric tag: 0 is `Idle`, 1 is
    /// `RunningLeft`, 2 is `RunningRight`; anything else is unknown.
    pub fn from_u32(n: u32) -> (s: Option<CharacterState>)
        ensures
            s == CharacterState::spec_from_u32(n),
    {
        match n {
            0u32 => Some(CharacterState::Idle),
            1u32 => Some(CharacterState::RunningLeft),
            2u32 => Some(CharacterState::RunningRight),
            _ => None,
        }
    }

    pub open spec fn spec_from_u32(n: u32) -> Option<CharacterState> {
        if n == 0 {
            Some(CharacterState::Idle)
        } else if n == 1 {
            Some(CharacterState::RunningLeft)
        } else if n == 2 {
            Some(CharacterState::RunningRight)
        } else {
            None
        }
    }

    /// Decodes a state from a wide tag, the same table as `from_u32`.
    pub fn from_u64(n: u64) -> (s: Option<CharacterState>)
        ensures
            n < 3 ==> s == CharacterState::spec_from_u32(n as u32),
            n >= 3 ==> s is None,
    {
        match n {
            0u64 => Some(CharacterState::Idle),
            1u64 => Some(CharacterState::RunningLeft),
            2u64 => Some(CharacterState::RunningRight),
            _ => None,
        }
    }

    /// Decodes a state from a signed tag, the same table as `from_u32`.
    pub fn from_i64(n: i64) -> (s: Option<CharacterState>)
        ensures
            0 <= n < 3 ==> s == CharacterState::spec_from_u32(n as u32),
            !(0 <= n < 3) ==> s is None,
    {
        match n {
            0i64 => Some(CharacterState::Idle),
            1i64 => Some(CharacterState::RunningLeft),
            2i64 => Some(CharacterState::RunningRight),
            _ => None,
        }
    }

    /// The numeric tag of a state, the inverse of `from_u32`.
    pub fn to_u32(self) -> (n: u32)
        ensures
            CharacterState::spec_from_u32(n) == Some(self),
            n < 3,
    {
        match self {
            CharacterState::Idle => 0u32,
            CharacterState::RunningLeft => 1u32,
            CharacterState::RunningRight => 2u32,
        }
    }
}

impl CharacterInput {
    /// Decodes an input from its numeric tag: 0 is `Left`, 1 is `Right`,
    /// 2 is `Interrupt`; anything else is unknown.
    pub fn from_u32(n: u32) -> (i: Option<CharacterInput>)
        ensures
            i == CharacterInput::spec_from_u32(n),
    {
        match n {
            0u32 => Some(CharacterInput::Left),
            1u32 => Some(CharacterInput::Right),
            2u32 => Some(CharacterInput::Interrupt),
            _ => None,
        }
    }

    pub open spec fn spec_from_u32(n: u32) -> Option<CharacterInput> {
        if n == 0 {
            Some(CharacterInput::Left)
        } else if n == 1 {
            Some(CharacterInput::Right)
        } else if n == 2 {
            Some(CharacterInput::Interrupt)
        } else {
            None
        }
    }

    /// Decodes an input from a wide tag, the same table as `from_u32`.
    pub fn from_u64(n: u64) -> (i: Option<CharacterInput>)
        ensures
            n < 3 ==> i == CharacterInput::spec_from_u32(n as u32),
            n >= 3 ==> i is None,
    {
        match n {
            0u64 => Some(CharacterInput::Left),
            1u64 => Some(CharacterInput::Right),
            2u64 => Some(CharacterInput::Interrupt),
            _ => None,
        }
    }

    /// Decodes an input from a signed tag, the same table as `from_u32`.
    pub fn from_i64(n: i64) -> (i: Option<CharacterInput>)
        ensures
            0 <= n < 3 ==> i == CharacterInput::spec_from_u32(n as u32),
            !(0 <= n < 3) ==> i is None,
    {
        match n {
            0i64 => Some(CharacterInput::Left),
            1i64 => Some(CharacterInput::Right),
            2i64 => Some(CharacterInput::Interrupt),
            _ => None,
        }
    }
}

/// The transition table as a total mathematical function: the input alone
/// decides the next state, whatever the current state is.
pub open spec fn spec_delta(state: CharacterState, input: CharacterInput) -> CharacterState {
    match input {
        CharacterInput::Left => CharacterState::RunningLeft,
        CharacterInput::Right => CharacterState::RunningRight,
        CharacterInput::Interrupt => CharacterState::Idle,
    }
}

/// The transition function of the automaton. The table is total, so the
/// result is always `Ok`; the signature surfaces rejection so that a future
/// non-total table needs no interface change.
pub fn transition(state: CharacterState, input: CharacterInput) -> (r: Result<
    CharacterState,
    crate::ErrorKind,
>)
    ensures
        r == Ok::<CharacterState, crate::ErrorKind>(spec_delta(state, input)),
{
    match (state, input) {
        (_, CharacterInput::Left) => Ok(CharacterState::RunningLeft),
        (_, CharacterInput::Right) => Ok(CharacterState::RunningRight),
        (_, CharacterInput::Interrupt) => Ok(CharacterState::Idle),
    }
}

/// The transition function over numeric tags, as the entity table stores
/// them. Tags outside the table are left out: the verified core never
/// produces one.
pub fn delta(state: u32, input: u32) -> (next: u32)
    requires
        CharacterState::spec_from_u32(state) is Some,
        CharacterInput::spec_from_u32(input) is Some,
    ensures
        CharacterState::spec_from_u32(next) == Some(
            spec_delta(
                CharacterState::spec_from_u32(state).unwrap(),
                CharacterInput::spec_from_u32(input).unwrap(),
            ),
        ),
        next < 3,
{
    let s = CharacterState::from_u32(state).unwrap();
    let i = CharacterInput::from_u32(input).unwrap();
    match transition(s, i) {
        Ok(next) => next.to_u32(),
        Err(_) => s.to_u32(),
    }
}

/// Input dominance: whatever the current state is, `Interrupt` always leads
/// to `Idle`, `Left` always to `RunningLeft`, and `Right` always to
/// `RunningRight`. Totality — no transition is rejected — is stated by
/// `transition` itself, whose result is `Ok` on every state and input.
pub proof fn lemma_input_dominance(s: CharacterState)
    ensures
        spec_delta(s, CharacterInput::Interrupt) == CharacterState::Idle,
        spec_delta(s, CharacterInput::Left) == CharacterState::RunningLeft,
        spec_delta(s, CharacterInput::Right) == CharacterState::RunningRight,
{
}

} // verus!
