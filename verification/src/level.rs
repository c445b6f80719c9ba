//! The level definition: the bodies, colliders and the one controlled
//! entity that populate a fresh simulation.

use vstd::prelude::*;

use crate::automaton::CharacterState;
use crate::clock::Animate;
use crate::physics::{
    BodyDesc, BodyStatus, ColliderDesc, ColliderRec, Physics, RigidBodyHandle, ShapeDesc,
};
use crate::sprite::{wf_cache, SpriteAtlasCache};
use crate::world::{Components, Entity, KeyInputHandler, Sprite, World};
use crate::ErrorKind;

verus! {

/// Half thickness of the ground slab, in milli-units.
pub const GROUND_THICKNESS_MILLI: i64 = 200;

/// Half width of the ground slab, in milli-units.
pub const GROUND_HALF_EXTENTS_WIDTH_MILLI: i64 = 3000;

/// Radius of one falling ball, in milli-units.
pub const BALL_RADIUS_MILLI: i64 = 500;

/// Balls per row and per column of the falling grid.
pub const BALL_COUNT: usize = 5;

/// Horizontal and vertical spacing of the ball grid: one ball diameter
/// plus twice the solver's default collider margin, in milli-units.
pub const BALL_SHIFT_MILLI: i64 = 1020;

/// Density given to every dynamic collider, in milli-units.
pub const DENSITY_MILLI: i64 = 1000;

/// The body inserted `k`-th while loading the level: first the ground
/// slab, then the five-by-five grid of falling balls column by column,
/// last the controlled character, one body diameter above the origin.
pub open spec fn spec_level_body(k: int) -> BodyDesc {
    if k == 0 {
        BodyDesc { status: BodyStatus::Ground, translation_x_milli: 0, translation_y_milli: 0 }
    } else if k <= 25 {
        let i = (k - 1) / 5;
        let j = (k - 1) % 5;
        BodyDesc {
            status: BodyStatus::Dynamic,
            translation_x_milli: (i * BALL_SHIFT_MILLI - 2550) as i64,
            translation_y_milli: (j * BALL_SHIFT_MILLI + 3510) as i64,
        }
    } else {
        BodyDesc { status: BodyStatus::Dynamic, translation_x_milli: 0, translation_y_milli: 1000 }
    }
}

/// The collider inserted `k`-th while loading the level, attached to the
/// body inserted `k`-th: the ground slab, the balls, and the character's
/// box, whose half width is the aspect ratio of an idle clip in
/// milli-units.
pub open spec fn spec_level_collider(k: int, ratio_milli: i64) -> ColliderDesc {
    if k == 0 {
        ColliderDesc {
            shape: ShapeDesc::Cuboid {
                half_width_milli: GROUND_HALF_EXTENTS_WIDTH_MILLI,
                half_height_milli: GROUND_THICKNESS_MILLI,
            },
            density_milli: 0,
            translation_x_milli: 0,
            translation_y_milli: (-GROUND_THICKNESS_MILLI) as i64,
        }
    } else if k <= 25 {
        ColliderDesc {
            shape: ShapeDesc::Ball { radius_milli: BALL_RADIUS_MILLI },
            density_milli: DENSITY_MILLI,
            translation_x_milli: 0,
            translation_y_milli: 0,
        }
    } else {
        ColliderDesc {
            shape: ShapeDesc::Cuboid { half_width_milli: ratio_milli, half_height_milli: 500 },
            density_milli: DENSITY_MILLI,
            translation_x_milli: 0,
            translation_y_milli: 0,
        }
    }
}

/// A named level. The one level shipped is the test scene above.
pub struct Level {
    pub name: String,
}

impl Level {
    /// The test level.
    pub fn new() -> (l: Level)
        ensures
            l.name@ == "test"@,
    {
        Level { name: "test".to_owned() }
    }

    /// Populates a fresh simulation: decodes the sprite sheet into the
    /// cache, inserts the ground slab, the ball grid and the controlled
    /// character into the physics set, and creates the one entity holding
    /// the character's body handle, animation clock, sprite key and input
    /// marker. Loading succeeds exactly when the sheet is already resident
    /// under this identity or the bytes decode to an image that holds the
    /// grid; a failed sheet decode is fatal (`AssetLoad`) and leaves the
    /// world and physics untouched.
    pub fn init(
        &self,
        world: &mut World,
        physics: &mut Physics,
        atlas: &mut SpriteAtlasCache,
        identity: &String,
        bytes: &Vec<u8>,
    ) -> (r: Result<Entity, ErrorKind>)
        requires
            crate::world::wf_world(old(world)),
            crate::physics::wf_physics(*old(physics)),
            wf_cache(*old(atlas)),
            old(physics).bodies@.len() + 27 <= usize::MAX,
            old(physics).colliders@.len() + 27 <= usize::MAX,
        ensures
            crate::world::wf_world(final (world)),
            crate::physics::wf_physics(*final (physics)),
            wf_cache(*final (atlas)),
            r is Ok <==> old(atlas).spec_hit(identity@) || (crate::sprite::spec_decoded_dims(
                bytes@,
            ) matches Some(d) && d.0 >= crate::sprite::ATLAS_COLUMNS && d.1
                >= crate::sprite::ATLAS_ROWS),
            r matches Err(e) ==> e == ErrorKind::AssetLoad && *final (world) == *old(world)
                && *final (physics) == *old(physics),
            r matches Ok(e) ==> {
                let base_b = old(physics).bodies@.len() as int;
                let base_c = old(physics).colliders@.len() as int;
                let sheet = final (atlas).resident->0.sheet;
                let ratio = sheet.idle@[0].rect.width as int * 1000 / sheet.idle@[0].rect.height as int;
                &&& final (atlas).resident is Some
                &&& final (atlas).resident->0.identity@ == identity@
                &&& crate::sprite::wf_sheet(&sheet)
                &&& final (physics).bodies@.len() == base_b + 27
                &&& final (physics).colliders@.len() == base_c + 27
                &&& forall|k: int|
                    0 <= k < base_b ==> final (physics).bodies@[k] == old(physics).bodies@[k]
                &&& forall|k: int|
                    0 <= k < base_c ==> final (physics).colliders@[k] == old(physics).colliders@[k]
                &&& forall|k: int|
                    0 <= k < 27 ==> final (physics).bodies@[base_b + k] == Some(spec_level_body(k))
                &&& forall|k: int|
                    0 <= k < 27 ==> #[trigger] final (physics).colliders@[base_c + k] == Some(
                        ColliderRec {
                            desc: spec_level_collider(k, ratio as i64),
                            parent: RigidBodyHandle { index: (base_b + k) as usize },
                        },
                    )
                &&& final (physics).substeps_done == old(physics).substeps_done
                &&& final (physics).nsteps == old(physics).nsteps
                &&& e.index == old(world).entities@.len()
                &&& ({
                    let c = final (world).entities@[e.index as int]->0;
                    &&& final (world).entities@ == old(world).entities@.push(
                        final (world).entities@[e.index as int],
                    )
                    &&& final (world).entities@[e.index as int] is Some
                    &&& c.body == Some(RigidBodyHandle { index: (base_b + 26) as usize })
                    &&& c.animate == Some(
                        Animate { current: CharacterState::Idle, ticks: 0 },
                    )
                    &&& c.sprite is Some
                    &&& c.sprite->0.key@ == identity@
                    &&& c.input is Some
                })
            },
    {
        let sheet_rect = {
            let sheet = match atlas.get_sheet(identity, bytes) {
                Ok(s) => s,
                Err(e) => {
                    return Err(e);
                },
            };
            match sheet.clip_at(crate::sprite::AnimationName::Idle, 0) {
                Ok(clip) => clip.rect,
                Err(_) => {
                    return Err(ErrorKind::AssetLoad);
                },
            }
        };
        let ratio_milli = (sheet_rect.width as u64 * 1000 / sheet_rect.height as u64) as i64;

        let ghost base_b = physics.bodies@.len() as int;
        let ghost base_c = physics.colliders@.len() as int;

        // The ground slab.
        let ground = physics.insert_body(
            BodyDesc { status: BodyStatus::Ground, translation_x_milli: 0, translation_y_milli: 0 },
        );
        let ground_collider = ColliderDesc {
            shape: ShapeDesc::Cuboid {
                half_width_milli: GROUND_HALF_EXTENTS_WIDTH_MILLI,
                half_height_milli: GROUND_THICKNESS_MILLI,
            },
            density_milli: 0,
            translation_x_milli: 0,
            translation_y_milli: -GROUND_THICKNESS_MILLI,
        };
        match physics.insert_collider(ground_collider, ground) {
            Ok(_) => {},
            Err(_) => {},
        }

        // The falling ball grid.
        let mut i: usize = 0;
        while i < BALL_COUNT
            invariant
                i <= BALL_COUNT,
                0 <= base_b,
                0 <= base_c,
                crate::physics::wf_physics(*physics),
                physics.bodies@.len() == base_b + 1 + i * BALL_COUNT,
                physics.colliders@.len() == base_c + 1 + i * BALL_COUNT,
                physics.substeps_done == old(physics).substeps_done,
                physics.nsteps == old(physics).nsteps,
                forall|k: int| 0 <= k < base_b ==> physics.bodies@[k] == old(physics).bodies@[k],
                forall|k: int|
                    0 <= k < base_c ==> physics.colliders@[k] == old(physics).colliders@[k],
                forall|k: int|
                    0 <= k < 1 + i * BALL_COUNT ==> physics.bodies@[base_b + k] == Some(
                        spec_level_body(k),
                    ),
                forall|k: int|
                    0 <= k < 1 + i * BALL_COUNT ==> #[trigger] physics.colliders@[base_c + k]
                        == Some(
                        ColliderRec {
                            desc: spec_level_collider(k, ratio_milli),
                            parent: RigidBodyHandle { index: (base_b + k) as usize },
                        },
                    ),
            decreases BALL_COUNT - i,
        {
            let mut j: usize = 0;
            while j < BALL_COUNT
                invariant
                    i < BALL_COUNT,
                    j <= BALL_COUNT,
                    0 <= base_b,
                    0 <= base_c,
                    crate::physics::wf_physics(*physics),
                    physics.bodies@.len() == base_b + 1 + i * BALL_COUNT + j,
                    physics.colliders@.len() == base_c + 1 + i * BALL_COUNT + j,
                    physics.substeps_done == old(physics).substeps_done,
                    physics.nsteps == old(physics).nsteps,
                    forall|k: int| 0 <= k < base_b ==> physics.bodies@[k] == old(physics).bodies@[k],
                    forall|k: int|
                        0 <= k < base_c ==> physics.colliders@[k] == old(physics).colliders@[k],
                    forall|k: int|
                        0 <= k < 1 + i * BALL_COUNT + j ==> physics.bodies@[base_b + k] == Some(
                            spec_level_body(k),
                        ),
                    forall|k: int|
                        0 <= k < 1 + i * BALL_COUNT + j ==> #[trigger] physics.colliders@[base_c
                            + k] == Some(
                            ColliderRec {
                                desc: spec_level_collider(k, ratio_milli),
                                parent: RigidBodyHandle { index: (base_b + k) as usize },
                            },
                        ),
                decreases BALL_COUNT - j,
            {
                let x: i64 = (i as i64) * BALL_SHIFT_MILLI - 2550;
                let y: i64 = (j as i64) * BALL_SHIFT_MILLI + 3510;
                let ghost prev_bodies = physics.bodies@;
                let ghost prev_colliders = physics.colliders@;
                let ball = physics.insert_body(
                    BodyDesc {
                        status: BodyStatus::Dynamic,
                        translation_x_milli: x,
                        translation_y_milli: y,
                    },
                );
                let ball_collider = ColliderDesc {
                    shape: ShapeDesc::Ball { radius_milli: BALL_RADIUS_MILLI },
                    density_milli: DENSITY_MILLI,
                    translation_x_milli: 0,
                    translation_y_milli: 0,
                };
                match physics.insert_collider(ball_collider, ball) {
                    Ok(_) => {},
                    Err(_) => {},
                }
                proof {
                    let k: int = 1 + (i as int) * 5 + (j as int);
                    assert((k - 1) / 5 == i as int && (k - 1) % 5 == j as int)
                        by (nonlinear_arith)
                        requires
                            k == 1 + (i as int) * 5 + (j as int),
                            0 <= j < 5,
                            0 <= i,
                    ;
                    assert(spec_level_body(k) == BodyDesc {
                        status: BodyStatus::Dynamic,
                        translation_x_milli: x as i64,
                        translation_y_milli: y as i64,
                    });
                    assert forall|m: int| 0 <= m < 1 + i * BALL_COUNT + j implies physics.bodies@[
                        base_b + m
                    ] == Some(spec_level_body(m)) by {
                        assert(physics.bodies@[base_b + m] == prev_bodies[base_b + m]);
                    }
                    assert forall|m: int| 0 <= m < 1 + i * BALL_COUNT + j implies physics.colliders@[
                        base_c + m
                    ] == Some(
                        ColliderRec {
                            desc: spec_level_collider(m, ratio_milli),
                            parent: RigidBodyHandle { index: (base_b + m) as usize },
                        },
                    ) by {
                        assert(physics.colliders@[base_c + m] == prev_colliders[base_c + m]);
                    }
                }
                j = j + 1;
            }
            i = i + 1;
        }

        // The controlled character.
        let character_body = physics.insert_body(
            BodyDesc { status: BodyStatus::Dynamic, translation_x_milli: 0, translation_y_milli: 1000 },
        );
        let character_collider = ColliderDesc {
            shape: ShapeDesc::Cuboid { half_width_milli: ratio_milli, half_height_milli: 500 },
            density_milli: DENSITY_MILLI,
            translation_x_milli: 0,
            translation_y_milli: 0,
        };
        match physics.insert_collider(character_collider, character_body) {
            Ok(_) => {},
            Err(_) => {},
        }

        let components = Components {
            body: Some(character_body),
            animate: Some(Animate::new(CharacterState::initial())),
            sprite: Some(Sprite::new(identity.clone())),
            input: Some(KeyInputHandler {}),
        };
        Ok(world.insert(components))
    }
}

} // verus!
