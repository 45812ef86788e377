use erlking::components::{
    ActiveCamera, AngularVelocity, KeyboardInput, MoveSpeed, ParallaxCamera, PlayerState,
    Position, Rotation, Scale, Sprite, StaticMesh,
};
use erlking::math::{QuatFx, Vec3Fx};
use erlking::world::{ComponentMask, Entity, EntityBundle, World};

fn sample_camera() -> ParallaxCamera {
    ParallaxCamera::new(Vec3Fx::new(0, 3000, 0), Vec3Fx::new(0, 0, 1000), 1000, 100, 500_000)
}

#[test]
fn spawn_returns_distinct_handles() {
    let mut w = World::new();
    let a = w.spawn(EntityBundle::new());
    let b = w.spawn(EntityBundle::new());
    let c = w.spawn(EntityBundle::new());
    assert_eq!(a.id, 0);
    assert_eq!(b.id, 1);
    assert_eq!(c.id, 2);
    assert_eq!(w.num_entities(), 3);
    assert!(w.is_alive(a) && w.is_alive(b) && w.is_alive(c));
}

#[test]
fn bundle_components_read_back() {
    let mut w = World::new();
    let mut b = EntityBundle::new();
    b.position = Some(Position(Vec3Fx::new(1, 2, 3)));
    b.rotation = Some(Rotation(QuatFx::identity()));
    b.angular_velocity = Some(AngularVelocity(QuatFx::identity()));
    b.scale = Some(Scale(4));
    b.keyboard_input = Some(KeyboardInput(None));
    b.camera = Some(sample_camera());
    b.move_speed = Some(MoveSpeed(10_000));
    b.player_state = Some(PlayerState::Idle);
    b.static_mesh = Some(StaticMesh(7));
    b.sprite = Some(Sprite::new("apple"));
    b.active_camera = true;
    let e = w.spawn(b);
    assert_eq!(w.position(e), Some(Position(Vec3Fx::new(1, 2, 3))));
    assert_eq!(w.rotation(e), Some(Rotation(QuatFx::identity())));
    assert_eq!(w.angular_velocity(e), Some(AngularVelocity(QuatFx::identity())));
    assert_eq!(w.scale(e), Some(Scale(4)));
    assert_eq!(w.keyboard_input(e), Some(KeyboardInput(None)));
    assert_eq!(w.camera(e), Some(sample_camera()));
    assert_eq!(w.move_speed(e), Some(MoveSpeed(10_000)));
    assert_eq!(w.player_state(e), Some(PlayerState::Idle));
    assert_eq!(w.static_mesh(e), Some(StaticMesh(7)));
    assert!(w.has_active_camera(e));
    let sp = w.sprite(e).unwrap();
    assert_eq!(sp.id(), "apple");
    assert_eq!(sp.frame(), 0);
}

#[test]
fn empty_bundle_has_no_components() {
    let mut w = World::new();
    let e = w.spawn(EntityBundle::new());
    assert_eq!(w.position(e), None);
    assert_eq!(w.scale(e), None);
    assert!(w.sprite(e).is_none());
    assert!(!w.has_active_camera(e));
}

#[test]
fn insert_and_remove_component() {
    let mut w = World::new();
    let e = w.spawn(EntityBundle::new());
    w.insert_position(e, Position(Vec3Fx::new(5, 0, 0)));
    assert_eq!(w.position(e), Some(Position(Vec3Fx::new(5, 0, 0))));
    w.insert_position(e, Position(Vec3Fx::new(9, 0, 0)));
    assert_eq!(w.position(e), Some(Position(Vec3Fx::new(9, 0, 0))));
    w.remove_position(e);
    assert_eq!(w.position(e), None);
}

#[test]
fn insert_on_dead_handle_is_ignored() {
    let mut w = World::new();
    let e = w.spawn(EntityBundle::new());
    let ghost_handle = Entity { id: 42 };
    w.insert_position(ghost_handle, Position(Vec3Fx::new(1, 1, 1)));
    assert_eq!(w.position(ghost_handle), None);
    assert_eq!(w.position(e), None);
}

#[test]
fn despawn_kills_entity_and_drops_components() {
    let mut w = World::new();
    let mut b = EntityBundle::new();
    b.position = Some(Position(Vec3Fx::new(1, 2, 3)));
    b.sprite = Some(Sprite::new("apple"));
    let e = w.spawn(b);
    assert!(w.despawn(e));
    assert!(!w.is_alive(e));
    assert_eq!(w.position(e), None);
    assert!(w.sprite(e).is_none());
    // the handle is dead for good
    assert!(!w.despawn(e));
    // and is never reused
    let f = w.spawn(EntityBundle::new());
    assert_eq!(f.id, 1);
}

#[test]
fn query_conjunction_filters() {
    let mut w = World::new();
    let mut b0 = EntityBundle::new();
    b0.position = Some(Position(Vec3Fx::new(0, 0, 0)));
    b0.scale = Some(Scale(1));
    let e0 = w.spawn(b0);
    let mut b1 = EntityBundle::new();
    b1.position = Some(Position(Vec3Fx::new(0, 0, 0)));
    let _e1 = w.spawn(b1);
    let mut b2 = EntityBundle::new();
    b2.scale = Some(Scale(2));
    let _e2 = w.spawn(b2);
    let mut b3 = EntityBundle::new();
    b3.position = Some(Position(Vec3Fx::new(0, 0, 0)));
    b3.scale = Some(Scale(3));
    let e3 = w.spawn(b3);

    let mut m = ComponentMask::none();
    m.position = true;
    m.scale = true;
    let r = w.query(m);
    assert_eq!(r, vec![e0, e3]);
}

#[test]
fn query_without_requests_yields_live_entities() {
    let mut w = World::new();
    let a = w.spawn(EntityBundle::new());
    let b = w.spawn(EntityBundle::new());
    w.despawn(a);
    let r = w.query(ComponentMask::none());
    assert_eq!(r, vec![b]);
}

#[test]
fn query_no_match_is_empty_not_error() {
    let mut w = World::new();
    w.spawn(EntityBundle::new());
    let mut m = ComponentMask::none();
    m.camera = true;
    assert_eq!(w.query(m), vec![]);
}

#[test]
fn set_sprite_frame_keeps_key() {
    let mut w = World::new();
    let mut b = EntityBundle::new();
    b.sprite = Some(Sprite::new("player"));
    let e = w.spawn(b);
    w.set_sprite_frame(e, 2);
    let sp = w.sprite(e).unwrap();
    assert_eq!(sp.id(), "player");
    assert_eq!(sp.frame(), 2);
}
