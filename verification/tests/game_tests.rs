use erlking::asset::{ShaderStage, SpriteAsset};
use erlking::components::{
    AngularVelocity, KeyEvent, KeyState, KeyboardInput, MoveSpeed, ParallaxCamera, PlayerState,
    Position, Rotation, Scale, Sprite, VirtualKey, WindowEvent,
};
use erlking::game::Game;
use erlking::math::{Mat4Fx, QuatFx, Vec3Fx, FX_LIMIT, FX_ONE};
use erlking::systems::{MoveCamera, MovePlayer, RotateObjects, UpdateAnimationState};
use erlking::time::Timer;
use erlking::world::EntityBundle;

fn cam() -> ParallaxCamera {
    ParallaxCamera::new(Vec3Fx::new(0, 3000, 0), Vec3Fx::new(0, 0, 1000), 1000, 100, 500_000)
}

fn camera_bundle() -> EntityBundle {
    let mut b = EntityBundle::new();
    b.camera = Some(cam());
    b.active_camera = true;
    b
}

fn right_pressed() -> WindowEvent {
    WindowEvent::Keyboard(KeyEvent { key: VirtualKey::Right, state: KeyState::Pressed })
}

#[test]
fn one_frame_one_identity_instance() {
    // One sprite at the origin plus one camera: the frame yields exactly
    // one instance with the identity transform and frame zero.
    let mut game = Game::new(0);
    let mut b = EntityBundle::new();
    b.position = Some(Position(Vec3Fx::new(0, 0, 0)));
    b.rotation = Some(Rotation(QuatFx::identity()));
    b.scale = Some(Scale(1));
    b.sprite = Some(Sprite::new("x"));
    game.spawn_entity(b);
    game.spawn_entity(camera_bundle());
    let scene = game.run(16).unwrap();
    assert_eq!(scene.sprite_instances.len(), 1);
    let batch = &scene.sprite_instances[0];
    assert_eq!(batch.id, "x");
    assert_eq!(batch.instances.len(), 1);
    assert_eq!(batch.instances[0].model, Mat4Fx::identity());
    assert_eq!(batch.instances[0].frame_id, 0);
    assert_eq!(scene.camera, cam());
}

#[test]
fn run_without_camera_fails() {
    let mut game = Game::new(0);
    assert!(game.run(16).is_err());
}

#[test]
fn input_moves_player_by_speed_times_dt() {
    // speed 10 units per second, right key held, one frame of 100 ms:
    // the position advances by exactly 1 unit along x.
    let mut game = Game::new(0);
    let mut b = EntityBundle::new();
    b.position = Some(Position(Vec3Fx::new(0, 0, 0)));
    b.move_speed = Some(MoveSpeed(10_000));
    b.keyboard_input = Some(KeyboardInput(None));
    b.player_state = Some(PlayerState::Idle);
    let player = game.spawn_entity(b);
    game.spawn_entity(camera_bundle());
    game.add_system(Box::new(MovePlayer));
    game.capture_input(right_pressed());
    let _ = game.run(100);
    assert_eq!(game.world().position(player), Some(Position(Vec3Fx::new(1000, 0, 0))));
    assert_eq!(game.world().player_state(player), Some(PlayerState::Walk(100)));
}

#[test]
fn input_broadcast_reaches_every_slot() {
    let mut game = Game::new(0);
    let mut b1 = EntityBundle::new();
    b1.keyboard_input = Some(KeyboardInput(None));
    let e1 = game.spawn_entity(b1);
    let mut b2 = EntityBundle::new();
    b2.keyboard_input = Some(KeyboardInput(None));
    let e2 = game.spawn_entity(b2);
    let e3 = game.spawn_entity(EntityBundle::new());
    let ev = KeyEvent { key: VirtualKey::Left, state: KeyState::Pressed };
    game.capture_input(WindowEvent::Keyboard(ev));
    assert_eq!(game.world().keyboard_input(e1), Some(KeyboardInput(Some(ev))));
    assert_eq!(game.world().keyboard_input(e2), Some(KeyboardInput(Some(ev))));
    assert_eq!(game.world().keyboard_input(e3), None);
}

#[test]
fn non_keyboard_event_clears_every_slot() {
    let mut game = Game::new(0);
    let mut b = EntityBundle::new();
    b.keyboard_input = Some(KeyboardInput(None));
    let e = game.spawn_entity(b);
    game.capture_input(right_pressed());
    game.capture_input(WindowEvent::Other);
    assert_eq!(game.world().keyboard_input(e), Some(KeyboardInput(None)));
}

#[test]
fn identical_frames_give_identical_scenes() {
    // Two games built the same way, run with the same instants, produce
    // byte-identical scene content.
    let mut scenes = Vec::new();
    for _ in 0..2 {
        let mut game = Game::new(0);
        let mut b = EntityBundle::new();
        b.position = Some(Position(Vec3Fx::new(500, 0, 0)));
        b.rotation = Some(Rotation(QuatFx::identity()));
        b.scale = Some(Scale(2));
        b.sprite = Some(Sprite::new("apple"));
        b.keyboard_input = Some(KeyboardInput(None));
        b.move_speed = Some(MoveSpeed(10_000));
        b.player_state = Some(PlayerState::Idle);
        game.spawn_entity(b);
        game.spawn_entity(camera_bundle());
        game.add_system(Box::new(MovePlayer));
        game.add_system(Box::new(UpdateAnimationState));
        game.capture_input(right_pressed());
        scenes.push(game.run(50).unwrap());
    }
    let a = &scenes[0];
    let b = &scenes[1];
    assert_eq!(a.camera, b.camera);
    assert_eq!(a.sprite_instances.len(), b.sprite_instances.len());
    for (ba, bb) in a.sprite_instances.iter().zip(b.sprite_instances.iter()) {
        assert_eq!(ba.id, bb.id);
        assert_eq!(ba.instances, bb.instances);
    }
}

#[test]
fn later_system_observes_earlier_write() {
    // The movement system turns a walking player idle when no key is held.
    // Registered before the animation system, the animation system sees the
    // idle state and selects frame zero; registered after it, it still sees
    // the walk begun at instant zero and selects the late walk frame.
    let frame_of = |first_movement: bool| -> u32 {
        let mut game = Game::new(0);
        let mut b = EntityBundle::new();
        b.position = Some(Position(Vec3Fx::new(0, 0, 0)));
        b.move_speed = Some(MoveSpeed(10_000));
        b.keyboard_input = Some(KeyboardInput(None));
        b.player_state = Some(PlayerState::Walk(0));
        b.sprite = Some(Sprite::new("player"));
        let e = game.spawn_entity(b);
        if first_movement {
            game.add_system(Box::new(MovePlayer));
            game.add_system(Box::new(UpdateAnimationState));
        } else {
            game.add_system(Box::new(UpdateAnimationState));
            game.add_system(Box::new(MovePlayer));
        }
        let _ = game.run(300);
        game.world().sprite(e).unwrap().frame()
    };
    assert_eq!(frame_of(true), 0);
    assert_eq!(frame_of(false), 2);
}

#[test]
fn rotation_system_composes_angular_velocity() {
    let mut game = Game::new(0);
    let half_turn = QuatFx { s: 0, x: 0, y: FX_ONE, z: 0 };
    let mut b = EntityBundle::new();
    b.rotation = Some(Rotation(QuatFx::identity()));
    b.angular_velocity = Some(AngularVelocity(half_turn));
    let e = game.spawn_entity(b);
    game.add_system(Box::new(RotateObjects));
    let _ = game.run(16);
    assert_eq!(game.world().rotation(e), Some(Rotation(half_turn)));
    let _ = game.run(32);
    assert_eq!(
        game.world().rotation(e),
        Some(Rotation(QuatFx { s: -FX_ONE, x: 0, y: 0, z: 0 })),
    );
}

#[test]
fn walk_animation_cycles_frames() {
    let st = PlayerState::Walk(0);
    assert_eq!(st.animation_state(0), 0);
    assert_eq!(st.animation_state(100), 1);
    assert_eq!(st.animation_state(200), 1);
    assert_eq!(st.animation_state(300), 2);
    assert_eq!(st.animation_state(400), 0);
    assert_eq!(st.animation_state(700), 2);
    assert_eq!(PlayerState::Idle.animation_state(12345), 0);
}

#[test]
fn timer_measures_deltas() {
    let mut t = Timer::new(0);
    assert_eq!(t.elapsed(), 0);
    t.tick(16);
    assert_eq!(t.elapsed(), 16);
    t.tick(48);
    assert_eq!(t.elapsed(), 32);
    // a clock reading that went backwards records a zero delta
    t.tick(40);
    assert_eq!(t.elapsed(), 0);
}

#[test]
fn fps_has_defined_zero_delta_fallback() {
    let mut t = Timer::new(0);
    assert_eq!(t.fps(), u64::MAX);
    t.tick(16);
    assert_eq!(t.fps(), 62);
    t.tick(16);
    assert_eq!(t.fps(), u64::MAX);
}

#[test]
fn sprite_asset_keeps_id_and_frames() {
    let a = SpriteAsset::new(
        "player",
        vec![
            "assets/adventurer_idle.png",
            "assets/adventurer_walk1.png",
            "assets/adventurer_walk2.png",
        ],
    );
    assert_eq!(a.id, "player");
    assert_eq!(a.frames.len(), 3);
    assert_eq!(a.frames[1], "assets/adventurer_walk1.png");
    let stage = ShaderStage::Vertex;
    assert!(matches!(stage, ShaderStage::Vertex));
}

#[test]
fn default_game_is_empty() {
    let mut game = Game::default();
    assert_eq!(game.world().num_entities(), 0);
    assert!(game.run(16).is_err());
}

#[test]
fn camera_system_scrolls_active_camera() {
    let mut game = Game::new(0);
    let mut b = camera_bundle();
    b.keyboard_input = Some(KeyboardInput(None));
    b.move_speed = Some(MoveSpeed(10_000));
    game.spawn_entity(b);
    game.add_system(Box::new(MoveCamera));
    game.capture_input(right_pressed());
    // 10 units per second for 200 ms moves the eye 2 units right.
    let scene = game.run(200).unwrap();
    assert_eq!(scene.camera.eye, Vec3Fx::new(2000, 3000, 0));
    // releasing the key stops the scroll
    game.capture_input(WindowEvent::Keyboard(KeyEvent {
        key: VirtualKey::Right,
        state: KeyState::Released,
    }));
    let scene = game.run(300).unwrap();
    assert_eq!(scene.camera.eye, Vec3Fx::new(2000, 3000, 0));
}

#[test]
fn position_clamps_at_world_limit() {
    // A pathologically long frame cannot push a position past the world
    // bounds: the delta and the sum both saturate.
    let mut game = Game::new(0);
    let mut b = EntityBundle::new();
    b.position = Some(Position(Vec3Fx::new(0, 0, 0)));
    b.move_speed = Some(MoveSpeed(10_000));
    b.keyboard_input = Some(KeyboardInput(None));
    b.player_state = Some(PlayerState::Idle);
    let player = game.spawn_entity(b);
    game.add_system(Box::new(MovePlayer));
    game.capture_input(right_pressed());
    let _ = game.run(1_000_000_000_000);
    assert_eq!(game.world().position(player), Some(Position(Vec3Fx::new(FX_LIMIT, 0, 0))));
}
