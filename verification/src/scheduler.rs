//! The per-frame scheduler: one `run_frame` call steps the physics bridge,
//! then offers every animation clock one cadence-gated tick, then hands the
//! external renderer its per-entity draw data — in that fixed order, so
//! that positions settle before poses are sampled.

use vstd::prelude::*;

use crate::clock::{spec_gate_open, spec_step, wf_animate, Animate, ClockEvent, DeltaTime};
use crate::level::{spec_level_body, Level};
use crate::physics::{wf_physics, Physics, RigidBodyHandle, SUBSTEPS_PER_FRAME};
use crate::sprite::{
    spec_pose, wf_cache, wf_sheet, AnimationName, ClipOrientation, ClipRect, SpriteAtlasCache,
};
use crate::world::{
    entity_live, spec_key_event, wf_world, Components, Entity, KeyCode, KeyInputHandler, World,
};
use crate::ErrorKind;

verus! {

/// One entity's draw data for the external renderer: where it is (the
/// body handle to read the position from), which clip it shows, and how
/// the clip is oriented.
#[derive(Debug, Copy, Clone, PartialEq, Eq, Structural)]
pub struct DrawCmd {
    pub body: RigidBodyHandle,
    pub name: AnimationName,
    pub frame: usize,
    pub orientation: ClipOrientation,
    pub rect: ClipRect,
}

/// What one frame asks of the host: how many solver substeps to perform,
/// whether the animation clocks advanced, and what to draw.
pub struct FrameOutput {
    pub substeps: u32,
    pub ticked: bool,
    pub draws: Vec<DrawCmd>,
}

/// What one frame tick does to an entity record: every entity holding an
/// animation clock advances it one frame; everything else is untouched.
pub open spec fn spec_tick_slot(slot: Option<Components>) -> Option<Components> {
    match slot {
        Some(c) => {
            if c.animate is Some {
                Some(
                    Components {
                        body: c.body,
                        animate: Some(spec_step(c.animate->0, ClockEvent::Tick)),
                        sprite: c.sprite,
                        input: c.input,
                    },
                )
            } else {
                Some(c)
            }
        },
        None => None,
    }
}

/// The draw data of one entity record, if it is drawable: it must hold a
/// body, an animation clock and a sprite key, the key must be the resident
/// sheet's identity, and the clock must point inside the stored clips — as
/// it always does within its invariant.
pub open spec fn spec_draw_of(atlas: SpriteAtlasCache, slot: Option<Components>) -> Option<
    DrawCmd,
> {
    match slot {
        Some(c) => {
            if c.body is Some && c.animate is Some && c.sprite is Some && atlas.spec_hit(
                c.sprite->0.key@,
            ) {
                let sheet = atlas.resident->0.sheet;
                let a = c.animate->0;
                let pose = spec_pose(a.current);
                if (a.ticks as int) < sheet.spec_clips(pose.0).len() {
                    Some(
                        DrawCmd {
                            body: c.body->0,
                            name: pose.0,
                            frame: a.ticks as usize,
                            orientation: pose.1,
                            rect: sheet.spec_clips(pose.0)[a.ticks as int].rect,
                        },
                    )
                } else {
                    None
                }
            } else {
                None
            }
        },
        None => None,
    }
}

/// The draw list of a whole entity table, in ascending entity order.
pub open spec fn spec_draw_list(atlas: SpriteAtlasCache, slots: Seq<Option<Components>>) -> Seq<
    DrawCmd,
>
    decreases slots.len(),
{
    if slots.len() == 0 {
        Seq::empty()
    } else {
        spec_draw_list(atlas, slots.drop_last()) + (match spec_draw_of(atlas, slots.last()) {
            Some(d) => seq![d],
            None => Seq::empty(),
        })
    }
}

/// The animation system of one frame: advances the clock of every entity
/// holding one. Entity order is immaterial; every clock advances exactly
/// once.
pub fn animate_entities(world: &mut World)
    requires
        wf_world(old(world)),
    ensures
        wf_world(final (world)),
        final (world).entities@.len() == old(world).entities@.len(),
        forall|i: int|
            0 <= i < old(world).entities@.len() ==> #[trigger] final (world).entities@[i]
                == spec_tick_slot(old(world).entities@[i]),
{
    let mut i: usize = 0;
    while i < world.entities.len()
        invariant
            i <= world.entities@.len(),
            world.entities@.len() == old(world).entities@.len(),
            wf_world(old(world)),
            wf_world(world),
            forall|m: int|
                0 <= m < i ==> #[trigger] world.entities@[m] == spec_tick_slot(
                    old(world).entities@[m],
                ),
            forall|m: int|
                i <= m < world.entities@.len() ==> #[trigger] world.entities@[m] == old(
                    world,
                ).entities@[m],
        decreases world.entities@.len() - i,
    {
        let needs = match &world.entities[i] {
            Some(c) => c.animate.is_some(),
            None => false,
        };
        if needs {
            let ghost pre = world.entities@;
            let slot = world.entities.remove(i);
            match slot {
                Some(mut c) => {
                    let mut a = match c.animate {
                        Some(a) => a,
                        None => Animate::new(crate::automaton::CharacterState::Idle),
                    };
                    a.animate();
                    c.animate = Some(a);
                    world.entities.insert(i, Some(c));
                    proof {
                        assert(world.entities@ =~= pre.update(
                            i as int,
                            spec_tick_slot(pre[i as int]),
                        ));
                    }
                },
                None => {
                    world.entities.insert(i, None);
                },
            }
        }
        i = i + 1;
    }
}

/// The draw data of one entity record; `None` when the record is not
/// drawable.
fn draw_for_slot(atlas: &SpriteAtlasCache, slot: &Option<Components>) -> (r: Option<DrawCmd>)
    ensures
        r == spec_draw_of(*atlas, *slot),
{
    let c = match slot {
        Some(c) => c,
        None => {
            return None;
        },
    };
    let (h, a, sp) = match (&c.body, &c.animate, &c.sprite) {
        (Some(h), Some(a), Some(sp)) => (h, a, sp),
        _ => {
            return None;
        },
    };
    match &atlas.resident {
        Some(r) => {
            if r.identity == sp.key {
                let (name, orientation) = match a.state() {
                    crate::automaton::CharacterState::Idle => (
                        AnimationName::Idle,
                        ClipOrientation::Original,
                    ),
                    crate::automaton::CharacterState::RunningLeft => (
                        AnimationName::Running,
                        ClipOrientation::Flipped,
                    ),
                    crate::automaton::CharacterState::RunningRight => (
                        AnimationName::Running,
                        ClipOrientation::Original,
                    ),
                };
                match r.sheet.clip_at(name, a.ticks as usize) {
                    Ok(clip) => Some(
                        DrawCmd {
                            body: *h,
                            name,
                            frame: a.ticks as usize,
                            orientation,
                            rect: clip.rect,
                        },
                    ),
                    Err(_) => None,
                }
            } else {
                None
            }
        },
        None => None,
    }
}

/// The running simulation: the entity store, the physics bridge, the
/// sprite atlas cache, the shared cadence gate, and the handle of the one
/// controlled entity.
pub struct Game {
    pub world: World,
    pub physics: Physics,
    pub atlas: SpriteAtlasCache,
    pub time: DeltaTime,
    pub character_handle: Entity,
}

/// All the parts of a game are within their invariants.
pub open spec fn wf_game(g: &Game) -> bool {
    &&& wf_world(&g.world)
    &&& wf_physics(g.physics)
    &&& wf_cache(g.atlas)
}

impl Game {
    /// Starts a fresh simulation at wall-clock time `now_ms`: an empty
    /// world and physics set, populated by the test level from the sprite
    /// sheet decoded out of `bytes` under the identity `identity`.
    /// Startup succeeds exactly when the bytes decode to an image that
    /// holds the atlas grid; a malformed or undersized sheet aborts it
    /// with `AssetLoad`.
    pub fn new(now_ms: u64, identity: &String, bytes: &Vec<u8>) -> (r: Result<Game, ErrorKind>)
        ensures
            r is Ok <==> (crate::sprite::spec_decoded_dims(bytes@) matches Some(d) && d.0
                >= crate::sprite::ATLAS_COLUMNS && d.1 >= crate::sprite::ATLAS_ROWS),
            r matches Err(e) ==> e == ErrorKind::AssetLoad,
            r matches Ok(g) ==> {
                &&& wf_game(&g)
                &&& g.time.last_advance_ms == now_ms
                &&& g.physics.nsteps == SUBSTEPS_PER_FRAME
                &&& g.physics.substeps_done == 0
                &&& g.physics.bodies@.len() == 27
                &&& g.physics.colliders@.len() == 27
                &&& forall|k: int|
                    0 <= k < 27 ==> g.physics.bodies@[k] == Some(#[trigger] spec_level_body(k))
                &&& forall|k: int|
                    0 <= k < 27 ==> (#[trigger] g.physics.colliders@[k]) is Some
                        && g.physics.colliders@[k]->0.parent == RigidBodyHandle {
                        index: k as usize,
                    }
                &&& g.world.entities@.len() == 1
                &&& g.character_handle.index == 0
                &&& entity_live(&g.world, g.character_handle)
                &&& ({
                    let c = g.world.entities@[0]->0;
                    &&& c.animate == Some(
                        Animate { current: crate::automaton::CharacterState::Idle, ticks: 0 },
                    )
                    &&& c.body == Some(RigidBodyHandle { index: 26 })
                    &&& c.input is Some
                    &&& c.sprite is Some
                    &&& c.sprite->0.key@ == identity@
                })
                &&& g.atlas.spec_hit(identity@)
            },
    {
        let mut world = World::new();
        let mut physics = Physics::new();
        let mut atlas = SpriteAtlasCache::new();
        let level = Level::new();
        let character_handle = match level.init(&mut world, &mut physics, &mut atlas, identity, bytes) {
            Ok(e) => e,
            Err(e) => {
                return Err(e);
            },
        };
        proof {
            assert forall|k: int| 0 <= k < 27 implies (physics.colliders@[k]) is Some
                && physics.colliders@[k]->0.parent == (RigidBodyHandle { index: k as usize }) by {
                assert(physics.colliders@[0 + k] is Some);
            }
        }
        Ok(
            Game {
                world,
                physics,
                atlas,
                time: DeltaTime::new(now_ms),
                character_handle,
            },
        )
    }

    /// Feeds one raw key event to the controlled entity, as the window
    /// shell reports them: presses of the arrow keys run the automaton,
    /// releases interrupt it, anything else is ignored. An entity that is
    /// gone, or does not consume input, is skipped without error.
    pub fn send(&mut self, keycode: Option<KeyCode>, pressed: bool)
        requires
            wf_world(&old(self).world),
        ensures
            wf_world(&final (self).world),
            final (self).physics == old(self).physics,
            final (self).atlas == old(self).atlas,
            final (self).time == old(self).time,
            final (self).character_handle == old(self).character_handle,
            ({
                let w = old(self).world;
                let e = old(self).character_handle;
                if entity_live(&w, e) && w.entities@[e.index as int]->0.animate is Some
                    && w.entities@[e.index as int]->0.input is Some {
                    &&& final (self).world.entities@.len() == w.entities@.len()
                    &&& forall|i: int|
                        0 <= i < w.entities@.len() && i != e.index
                            ==> #[trigger] final (self).world.entities@[i] == w.entities@[i]
                    &&& final (self).world.entities@[e.index as int] is Some
                    &&& ({
                        let oldc = w.entities@[e.index as int]->0;
                        let newc = final (self).world.entities@[e.index as int]->0;
                        &&& newc.animate == Some(
                            spec_key_event(oldc.animate->0, keycode, pressed),
                        )
                        &&& newc.body == oldc.body
                        &&& newc.sprite == oldc.sprite
                        &&& newc.input == oldc.input
                    })
                } else {
                    final (self).world == old(self).world
                }
            }),
    {
        let e = self.character_handle;
        let consumes = e.index < self.world.entities.len() && match &self.world.entities[e.index] {
            Some(c) => c.input.is_some(),
            None => false,
        };
        if !consumes {
            return;
        }
        let mut anim = match self.world.get_animate(e) {
            Ok(a) => a,
            Err(_) => {
                return;
            },
        };
        let handler = KeyInputHandler {};
        handler.process(keycode, pressed, &mut anim);
        match self.world.set_animate(e, anim) {
            Ok(_) => {},
            Err(_) => {},
        }
    }

    /// Runs one frame at wall-clock time `now_ms`, in fixed order: first
    /// the physics bridge commands its substeps, then — if a full cadence
    /// period has elapsed — every animation clock advances once, and last
    /// the draw list is computed from the settled, post-tick state for the
    /// external renderer. No step is skipped or reordered.
    pub fn run_frame(&mut self, now_ms: u64) -> (out: FrameOutput)
        requires
            wf_game(old(self)),
            old(self).physics.substeps_done + old(self).physics.nsteps <= u64::MAX,
        ensures
            wf_game(final (self)),
            out.substeps == old(self).physics.nsteps,
            final (self).physics.substeps_done == old(self).physics.substeps_done + old(
                self,
            ).physics.nsteps,
            final (self).physics.bodies@ == old(self).physics.bodies@,
            final (self).physics.colliders@ == old(self).physics.colliders@,
            final (self).physics.nsteps == old(self).physics.nsteps,
            out.ticked == spec_gate_open(old(self).time.last_advance_ms, now_ms),
            out.ticked ==> final (self).time.last_advance_ms == now_ms,
            !out.ticked ==> final (self).time == old(self).time,
            final (self).world.entities@.len() == old(self).world.entities@.len(),
            out.ticked ==> forall|i: int|
                0 <= i < old(self).world.entities@.len()
                    ==> #[trigger] final (self).world.entities@[i] == spec_tick_slot(
                    old(self).world.entities@[i],
                ),
            !out.ticked ==> final (self).world == old(self).world,
            final (self).atlas == old(self).atlas,
            final (self).character_handle == old(self).character_handle,
            out.draws@ == spec_draw_list(final (self).atlas, final (self).world.entities@),
    {
        // (a) Physics settles first.
        let substeps = self.physics.nsteps;
        self.physics.step(substeps);

        // (b) Animation clocks advance at their own cadence.
        let ticked = self.time.advance(now_ms);
        if ticked {
            animate_entities(&mut self.world);
        }

        // (c) Draw data for the external renderer, from the settled state.
        let mut draws: Vec<DrawCmd> = Vec::new();
        let mut i: usize = 0;
        while i < self.world.entities.len()
            invariant
                i <= self.world.entities@.len(),
                draws@ == spec_draw_list(self.atlas, self.world.entities@.take(i as int)),
            decreases self.world.entities@.len() - i,
        {
            let ghost prefix = self.world.entities@.take(i as int);
            match draw_for_slot(&self.atlas, &self.world.entities[i]) {
                Some(d) => draws.push(d),
                None => {},
            }
            proof {
                let longer = self.world.entities@.take(i + 1);
                assert(longer.drop_last() =~= prefix);
                assert(longer.last() == self.world.entities@[i as int]);
            }
            i = i + 1;
        }
        proof {
            assert(self.world.entities@.take(self.world.entities@.len() as int)
                =~= self.world.entities@);
        }
        FrameOutput { substeps, ticked, draws }
    }
}

} // verus!
