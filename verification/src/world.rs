//! The entity/component store and the input dispatch components.
//!
//! Entities own their components by composition: a record per entity, each
//! component optional. Queries yield exactly the entities holding all the
//! requested components, in ascending entity order — unspecified to
//! callers, but stable within a pass.

use vstd::prelude::*;

use crate::automaton::CharacterInput;
use crate::clock::{wf_animate, Animate};
use crate::physics::RigidBodyHandle;
use crate::ErrorKind;

verus! {

/// An opaque entity identifier issued by the store.
#[derive(Debug, Copy, Clone, PartialEq, Eq, Structural)]
pub struct Entity {
    pub index: usize,
}

/// The sprite component: the identifying key of the sheet this entity is
/// drawn with. The cache owns the canonical sheet; entities never hold the
/// pixel data.
pub struct Sprite {
    pub key: String,
}

impl Sprite {
    /// A sprite component referring to the sheet decoded from `key`.
    pub fn new(key: String) -> (s: Sprite)
        ensures
            s.key == key,
    {
        Sprite { key }
    }
}

/// Marker component: this entity consumes key input.
#[derive(Debug, Copy, Clone, PartialEq, Eq, Structural)]
pub struct KeyInputHandler {}

impl KeyInputHandler {
    /// A fresh input marker.
    pub fn new() -> KeyInputHandler {
        KeyInputHandler {}
    }
}

/// A key as the window shell reports it; anything the simulation does not
/// recognize arrives as `Other` and is ignored.
#[derive(Debug, Copy, Clone, PartialEq, Eq, Structural)]
pub enum KeyCode {
    Left,
    Right,
    Other,
}

/// The components one entity may hold.
pub struct Components {
    pub body: Option<RigidBodyHandle>,
    pub animate: Option<Animate>,
    pub sprite: Option<Sprite>,
    pub input: Option<KeyInputHandler>,
}

/// Whatever animation component an entity holds is within its invariant.
pub open spec fn wf_components(c: &Components) -> bool {
    c.animate matches Some(a) ==> wf_animate(a)
}

/// The entity/component store: a record per entity, indexed by the entity
/// identifier; removed entities leave an empty slot so that identifiers
/// are never reused.
pub struct World {
    pub entities: Vec<Option<Components>>,
}

/// Every present entity's components are well formed.
pub open spec fn wf_world(w: &World) -> bool {
    forall|i: int|
        0 <= i < w.entities@.len() && w.entities@[i] is Some ==> wf_components(
            &(#[trigger] w.entities@[i])->0,
        )
}

/// An entity identifier is live when its record is still there.
pub open spec fn entity_live(w: &World, e: Entity) -> bool {
    e.index < w.entities@.len() && w.entities@[e.index as int] is Some
}

impl World {
    /// An empty store.
    pub fn new() -> (w: World)
        ensures
            w.entities@.len() == 0,
            wf_world(&w),
    {
        World { entities: Vec::new() }
    }

    /// Creates an entity owning the given components and returns its
    /// identifier. Existing entities are untouched.
    pub fn insert(&mut self, components: Components) -> (e: Entity)
        ensures
            e.index == old(self).entities@.len(),
            final (self).entities@ == old(self).entities@.push(Some(components)),
            entity_live(final (self), e),
            wf_world(old(self)) && wf_components(&components) ==> wf_world(final (self)),
    {
        let index = self.entities.len();
        self.entities.push(Some(components));
        Entity { index }
    }

    /// Destroys an entity. A stale or unknown identifier fails with
    /// `NotFound`; other entities are untouched either way.
    pub fn remove(&mut self, e: Entity) -> (r: Result<(), ErrorKind>)
        ensures
            entity_live(old(self), e) <==> r is Ok,
            r is Err ==> r == Err::<(), ErrorKind>(ErrorKind::NotFound)
                && *final (self) == *old(self),
            r is Ok ==> final (self).entities@ == old(self).entities@.update(e.index as int, None),
            wf_world(old(self)) ==> wf_world(final (self)),
    {
        if e.index < self.entities.len() {
            let live = match &self.entities[e.index] {
                Some(_) => true,
                None => false,
            };
            if live {
                self.entities.set(e.index, None);
                return Ok(());
            }
        }
        Err(ErrorKind::NotFound)
    }

    /// Reads the animation component of one entity, as targeted lookups
    /// do. Fails with `NotFound` when the entity is gone or holds no such
    /// component.
    pub fn get_animate(&self, e: Entity) -> (r: Result<Animate, ErrorKind>)
        ensures
            r matches Ok(a) ==> entity_live(self, e) && self.entities@[e.index as int]->0.animate
                == Some(a),
            r is Ok <==> entity_live(self, e) && self.entities@[e.index as int]->0.animate
                is Some,
            r matches Err(err) ==> err == ErrorKind::NotFound,
    {
        if e.index < self.entities.len() {
            match &self.entities[e.index] {
                Some(c) => match &c.animate {
                    Some(a) => Ok(*a),
                    None => Err(ErrorKind::NotFound),
                },
                None => Err(ErrorKind::NotFound),
            }
        } else {
            Err(ErrorKind::NotFound)
        }
    }

    /// Replaces the animation component of one entity. Fails with
    /// `NotFound`, changing nothing, when the entity is gone or holds no
    /// such component; no query mutates component composition.
    pub fn set_animate(&mut self, e: Entity, a: Animate) -> (r: Result<(), ErrorKind>)
        ensures
            r is Ok <==> entity_live(old(self), e)
                && old(self).entities@[e.index as int]->0.animate is Some,
            r is Err ==> r == Err::<(), ErrorKind>(ErrorKind::NotFound)
                && *final (self) == *old(self),
            r is Ok ==> {
                &&& final (self).entities@.len() == old(self).entities@.len()
                &&& forall|i: int|
                    0 <= i < old(self).entities@.len() && i != e.index
                        ==> #[trigger] final (self).entities@[i] == old(self).entities@[i]
                &&& final (self).entities@[e.index as int] is Some
                &&& ({
                    let oldc = old(self).entities@[e.index as int]->0;
                    let newc = final (self).entities@[e.index as int]->0;
                    newc.animate == Some(a) && newc.body == oldc.body && newc.sprite == oldc.sprite
                        && newc.input == oldc.input
                })
            },
            wf_world(old(self)) && wf_animate(a) ==> wf_world(final (self)),
    {
        if e.index >= self.entities.len() {
            return Err(ErrorKind::NotFound);
        }
        let present = match &self.entities[e.index] {
            Some(c) => match &c.animate {
                Some(_) => true,
                None => false,
            },
            None => false,
        };
        if !present {
            return Err(ErrorKind::NotFound);
        }
        let slot = self.entities.remove(e.index);
        let mut c = match slot {
            Some(c) => c,
            None => {
                return Err(ErrorKind::NotFound);
            },
        };
        c.animate = Some(a);
        self.entities.insert(e.index, Some(c));
        Ok(())
    }
}

/// The movement-input dispatch: maps raw key events onto automaton inputs
/// for the controlled character.
#[derive(Debug, Copy, Clone, PartialEq, Eq, Structural, Default)]
pub struct MovementInput {}

impl MovementInput {
    /// A key press: the arrow keys drive the automaton, any other key —
    /// or none — is ignored.
    pub fn process(keycode: Option<KeyCode>, controlled_character: &mut Animate)
        ensures
            *final (controlled_character) == match keycode {
                Some(KeyCode::Left) => crate::clock::spec_step(
                    *old(controlled_character),
                    crate::clock::ClockEvent::Input(CharacterInput::Left),
                ),
                Some(KeyCode::Right) => crate::clock::spec_step(
                    *old(controlled_character),
                    crate::clock::ClockEvent::Input(CharacterInput::Right),
                ),
                _ => *old(controlled_character),
            },
            wf_animate(*old(controlled_character)) ==> wf_animate(*final (controlled_character)),
    {
        match keycode {
            Some(KeyCode::Left) => controlled_character.delta(CharacterInput::Left),
            Some(KeyCode::Right) => controlled_character.delta(CharacterInput::Right),
            _ => {},
        }
    }

    /// A key release: whatever the key was, the automaton is interrupted
    /// back to idle and the animation clock forced to zero.
    pub fn interrupt(_keycode: Option<KeyCode>, controlled_character: &mut Animate)
        ensures
            *final (controlled_character) == crate::clock::spec_step(
                *old(controlled_character),
                crate::clock::ClockEvent::Input(CharacterInput::Interrupt),
            ),
            wf_animate(*final (controlled_character)),
    {
        controlled_character.delta(CharacterInput::Interrupt);
    }
}

/// What one raw key event does to an animation component: presses of the
/// arrow keys run the automaton, releases interrupt it, everything else is
/// a no-op.
pub open spec fn spec_key_event(c: Animate, keycode: Option<KeyCode>, pressed: bool) -> Animate {
    if pressed {
        match keycode {
            Some(KeyCode::Left) => crate::clock::spec_step(
                c,
                crate::clock::ClockEvent::Input(CharacterInput::Left),
            ),
            Some(KeyCode::Right) => crate::clock::spec_step(
                c,
                crate::clock::ClockEvent::Input(CharacterInput::Right),
            ),
            _ => c,
        }
    } else {
        crate::clock::spec_step(c, crate::clock::ClockEvent::Input(CharacterInput::Interrupt))
    }
}

impl KeyInputHandler {
    /// Dispatches one raw key event: presses run the automaton, releases
    /// interrupt it.
    pub fn process(&self, keycode: Option<KeyCode>, pressed: bool, controlled_character: &mut Animate)
        ensures
            *final (controlled_character) == spec_key_event(
                *old(controlled_character),
                keycode,
                pressed,
            ),
            wf_animate(*old(controlled_character)) ==> wf_animate(*final (controlled_character)),
    {
        if pressed {
            MovementInput::process(keycode, controlled_character);
        } else {
            MovementInput::interrupt(keycode, controlled_character);
        }
    }
}

} // verus!
