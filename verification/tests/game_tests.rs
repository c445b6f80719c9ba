use fork_core::automaton::CharacterState;
use fork_core::clock::CADENCE_PERIOD_MS;
use fork_core::physics::{BodyDesc, BodyStatus, ColliderDesc, Physics, RigidBodyHandle, ShapeDesc};
use fork_core::scheduler::Game;
use fork_core::sprite::{AnimationName, ClipOrientation};
use fork_core::world::KeyCode;
use fork_core::ErrorKind;

fn sheet_png(cell_w: u32, cell_h: u32) -> Vec<u8> {
    let img = image::RgbaImage::from_fn(cell_w * 7, cell_h * 11, |x, y| {
        image::Rgba([(x % 256) as u8, (y % 256) as u8, 128, 255])
    });
    let mut bytes: Vec<u8> = Vec::new();
    let mut cursor = std::io::Cursor::new(&mut bytes);
    image::DynamicImage::ImageRgba8(img)
        .write_to(&mut cursor, image::ImageFormat::Png)
        .unwrap();
    bytes
}

fn fresh_game(now_ms: u64) -> Game {
    let identity = String::from("adventurer.png");
    let bytes = sheet_png(16, 8);
    Game::new(now_ms, &identity, &bytes).unwrap()
}

#[test]
fn a_fresh_game_holds_the_test_level() {
    let game = fresh_game(0);
    assert_eq!(game.physics.bodies.len(), 27);
    assert_eq!(game.physics.colliders.len(), 27);
    assert_eq!(game.physics.substeps_done, 0);
    let ground = game.physics.body(RigidBodyHandle { index: 0 }).unwrap();
    assert_eq!(ground.status, BodyStatus::Ground);
    let character = game.physics.body(RigidBodyHandle { index: 26 }).unwrap();
    assert_eq!(character.status, BodyStatus::Dynamic);
    assert_eq!(character.translation_y_milli, 1000);
    let anim = game.world.get_animate(game.character_handle).unwrap();
    assert_eq!(anim.state(), CharacterState::Idle);
    assert_eq!(anim.ticks, 0);
}

#[test]
fn the_ball_grid_is_laid_out_in_milli_units() {
    let game = fresh_game(0);
    // Ball records follow the ground record, column by column: the first
    // ball sits at the lower-left corner of the grid, one more ball
    // diameter plus margin apart each step.
    let first = game.physics.body(RigidBodyHandle { index: 1 }).unwrap();
    assert_eq!(first.translation_x_milli, -2550);
    assert_eq!(first.translation_y_milli, 3510);
    let second = game.physics.body(RigidBodyHandle { index: 2 }).unwrap();
    assert_eq!(second.translation_x_milli, -2550);
    assert_eq!(second.translation_y_milli, 3510 + 1020);
    let sixth = game.physics.body(RigidBodyHandle { index: 6 }).unwrap();
    assert_eq!(sixth.translation_x_milli, -2550 + 1020);
    assert_eq!(sixth.translation_y_milli, 3510);
    let last = game.physics.body(RigidBodyHandle { index: 25 }).unwrap();
    assert_eq!(last.translation_x_milli, -2550 + 4 * 1020);
    assert_eq!(last.translation_y_milli, 3510 + 4 * 1020);
    // Every collider hangs off the body inserted at the same offset.
    for k in 0..27usize {
        let rec = game
            .physics
            .collider(fork_core::physics::ColliderHandle { index: k })
            .unwrap();
        assert_eq!(rec.parent.index, k);
    }
}

#[test]
fn a_malformed_sheet_aborts_startup() {
    let identity = String::from("broken.png");
    let garbage: Vec<u8> = vec![42; 16];
    assert!(matches!(
        Game::new(0, &identity, &garbage),
        Err(ErrorKind::AssetLoad)
    ));
}

#[test]
fn one_frame_steps_physics_then_ticks_then_draws() {
    let mut game = fresh_game(1_000);
    let out = game.run_frame(1_000 + CADENCE_PERIOD_MS);
    assert_eq!(out.substeps, 3, "three solver substeps per frame");
    assert_eq!(game.physics.substeps_done, 3);
    assert!(out.ticked);
    let anim = game.world.get_animate(game.character_handle).unwrap();
    assert_eq!(anim.ticks, 1, "the clock advanced once");
    assert_eq!(out.draws.len(), 1, "one drawable entity");
    let cmd = &out.draws[0];
    assert_eq!(cmd.body, RigidBodyHandle { index: 26 });
    assert_eq!(cmd.name, AnimationName::Idle);
    assert_eq!(cmd.frame, 1, "the pose is sampled after the tick");
    assert_eq!(cmd.orientation, ClipOrientation::Original);
    assert_eq!(cmd.rect.x, 16, "the second idle clip");
    assert_eq!(cmd.rect.y, 0);
    assert_eq!(cmd.rect.width, 16);
    assert_eq!(cmd.rect.height, 8);
}

#[test]
fn frames_within_one_cadence_period_leave_the_clock_alone() {
    let mut game = fresh_game(1_000);
    let out = game.run_frame(1_000 + CADENCE_PERIOD_MS);
    assert!(out.ticked);
    // Many more frames, all within one period of the last advance: physics
    // keeps stepping, the clock stays put.
    let base = 1_000 + CADENCE_PERIOD_MS;
    for offset in 0..CADENCE_PERIOD_MS {
        let out = game.run_frame(base + offset);
        assert!(!out.ticked);
    }
    assert_eq!(
        game.world.get_animate(game.character_handle).unwrap().ticks,
        1
    );
    assert_eq!(game.physics.substeps_done, 3 * (1 + CADENCE_PERIOD_MS));
}

#[test]
fn running_left_draws_the_mirrored_running_clips() {
    let mut game = fresh_game(0);
    game.send(Some(KeyCode::Left), true);
    let out = game.run_frame(CADENCE_PERIOD_MS);
    let cmd = &out.draws[0];
    assert_eq!(cmd.name, AnimationName::Running);
    assert_eq!(cmd.orientation, ClipOrientation::Flipped);
    assert_eq!(cmd.frame, 1);
    assert_eq!(cmd.rect.x, 2 * 16, "the second running clip, one column in");
    assert_eq!(cmd.rect.y, 8);
}

#[test]
fn press_and_release_before_any_tick() {
    let mut game = fresh_game(0);
    game.send(Some(KeyCode::Left), true);
    assert_eq!(
        game.world
            .get_animate(game.character_handle)
            .unwrap()
            .state(),
        CharacterState::RunningLeft
    );
    game.send(Some(KeyCode::Left), false);
    let anim = game.world.get_animate(game.character_handle).unwrap();
    assert_eq!(anim.state(), CharacterState::Idle);
    assert_eq!(anim.ticks, 0);
}

#[test]
fn unknown_keys_do_not_move_the_automaton() {
    let mut game = fresh_game(0);
    game.send(Some(KeyCode::Other), true);
    game.send(None, true);
    assert_eq!(
        game.world
            .get_animate(game.character_handle)
            .unwrap()
            .state(),
        CharacterState::Idle
    );
}

#[test]
fn every_clock_holder_ticks_even_without_a_body() {
    let mut game = fresh_game(1_000);
    let loose = game.world.insert(fork_core::world::Components {
        body: None,
        animate: Some(fork_core::clock::Animate::new(CharacterState::Idle)),
        sprite: None,
        input: None,
    });
    let out = game.run_frame(1_000 + CADENCE_PERIOD_MS);
    assert!(out.ticked);
    assert_eq!(
        game.world.get_animate(loose).unwrap().ticks,
        1,
        "a clock without a body still advances"
    );
    // Without a body or sprite the entity yields no draw data.
    assert_eq!(out.draws.len(), 1);
    assert_eq!(out.draws[0].body, RigidBodyHandle { index: 26 });
}

#[test]
fn stale_handles_fail_lookups_with_not_found() {
    let mut physics = Physics::new();
    let a = physics.insert_body(BodyDesc {
        status: BodyStatus::Dynamic,
        translation_x_milli: 0,
        translation_y_milli: 0,
    });
    let b = physics.insert_body(BodyDesc {
        status: BodyStatus::Dynamic,
        translation_x_milli: 1,
        translation_y_milli: 1,
    });
    let ca = physics
        .insert_collider(
            ColliderDesc {
                shape: ShapeDesc::Ball { radius_milli: 100 },
                density_milli: 1000,
                translation_x_milli: 0,
                translation_y_milli: 0,
            },
            a,
        )
        .unwrap();
    assert!(physics.body(a).is_ok());
    assert!(physics.remove_body(a).is_ok());
    assert_eq!(physics.body(a).unwrap_err(), ErrorKind::NotFound);
    assert_eq!(physics.remove_body(a).unwrap_err(), ErrorKind::NotFound);
    assert_eq!(physics.collider(ca).unwrap_err(), ErrorKind::NotFound);
    assert!(physics.body(b).is_ok(), "other handles stay live");
    assert_eq!(
        physics.body(RigidBodyHandle { index: 99 }).unwrap_err(),
        ErrorKind::NotFound
    );
    assert_eq!(
        physics
            .insert_collider(
                ColliderDesc {
                    shape: ShapeDesc::Ball { radius_milli: 100 },
                    density_milli: 1000,
                    translation_x_milli: 0,
                    translation_y_milli: 0,
                },
                a,
            )
            .unwrap_err(),
        ErrorKind::NotFound
    );
}

#[test]
fn entity_removal_is_supported_and_idempotent_failures_are_not_found() {
    let mut game = fresh_game(0);
    let e = game.character_handle;
    assert!(game.world.remove(e).is_ok());
    assert_eq!(game.world.remove(e).unwrap_err(), ErrorKind::NotFound);
    assert_eq!(game.world.get_animate(e).unwrap_err(), ErrorKind::NotFound);
    // A frame over an empty world draws nothing and does not fail.
    let out = game.run_frame(CADENCE_PERIOD_MS);
    assert_eq!(out.draws.len(), 0);
}
