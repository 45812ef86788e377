use erlking::components::{ParallaxCamera, Position, Rotation, Scale, Sprite};
use erlking::math::{Mat4Fx, QuatFx, Vec3Fx, FX_ONE};
use erlking::scene::{build_scene, SceneError};
use erlking::world::{EntityBundle, World};

fn camera_bundle(cam: ParallaxCamera) -> EntityBundle {
    let mut b = EntityBundle::new();
    b.camera = Some(cam);
    b.active_camera = true;
    b
}

fn sprite_bundle(key: &str, x: i64) -> EntityBundle {
    let mut b = EntityBundle::new();
    b.position = Some(Position(Vec3Fx::new(x, 0, 0)));
    b.rotation = Some(Rotation(QuatFx::identity()));
    b.scale = Some(Scale(1));
    b.sprite = Some(Sprite::new(key));
    b
}

fn cam_a() -> ParallaxCamera {
    ParallaxCamera::new(Vec3Fx::new(0, 3000, 0), Vec3Fx::new(0, 0, 1000), 1000, 100, 500_000)
}

fn cam_b() -> ParallaxCamera {
    ParallaxCamera::new(Vec3Fx::new(0, 0, -5000), Vec3Fx::new(0, 0, 1000), 1000, 100, 50_000)
}

#[test]
fn missing_camera_fails_with_diagnostic() {
    let mut w = World::new();
    w.spawn(sprite_bundle("apple", 0));
    let r = build_scene(&w);
    assert!(matches!(r, Err(SceneError::NoActiveCamera)));
    assert_eq!(SceneError::NoActiveCamera.message(), "no active camera entity");
}

#[test]
fn marker_without_parameters_is_no_camera() {
    let mut w = World::new();
    let mut b = EntityBundle::new();
    b.active_camera = true;
    w.spawn(b);
    assert!(matches!(build_scene(&w), Err(SceneError::NoActiveCamera)));
}

#[test]
fn single_camera_populates_scene() {
    let mut w = World::new();
    w.spawn(camera_bundle(cam_a()));
    let scene = build_scene(&w).unwrap();
    assert_eq!(scene.camera, cam_a());
    assert!(scene.sprite_instances.is_empty());
}

#[test]
fn first_of_two_cameras_wins() {
    let mut w = World::new();
    w.spawn(camera_bundle(cam_a()));
    w.spawn(camera_bundle(cam_b()));
    let scene = build_scene(&w).unwrap();
    assert_eq!(scene.camera, cam_a());
}

#[test]
fn grouping_by_sprite_key() {
    let mut w = World::new();
    w.spawn(sprite_bundle("apple", 1000));
    w.spawn(sprite_bundle("beech", 2000));
    w.spawn(sprite_bundle("apple", 3000));
    w.spawn(camera_bundle(cam_a()));
    let scene = build_scene(&w).unwrap();
    // Two batches, keyed in first-seen order.
    assert_eq!(scene.sprite_instances.len(), 2);
    let apples = &scene.sprite_instances[0];
    let beeches = &scene.sprite_instances[1];
    assert_eq!(apples.id, "apple");
    assert_eq!(beeches.id, "beech");
    // Instances stay in world iteration order within a batch.
    assert_eq!(apples.instances.len(), 2);
    assert_eq!(apples.instances[0].model.m03, 1000);
    assert_eq!(apples.instances[1].model.m03, 3000);
    assert_eq!(beeches.instances.len(), 1);
    assert_eq!(beeches.instances[0].model.m03, 2000);
}

#[test]
fn entity_missing_one_component_is_skipped() {
    let mut w = World::new();
    let mut b = sprite_bundle("apple", 0);
    b.rotation = None;
    w.spawn(b);
    w.spawn(camera_bundle(cam_a()));
    let scene = build_scene(&w).unwrap();
    assert!(scene.sprite_instances.is_empty());
}

#[test]
fn despawned_entity_leaves_the_scene() {
    let mut w = World::new();
    let e = w.spawn(sprite_bundle("apple", 0));
    w.spawn(sprite_bundle("apple", 500));
    w.spawn(camera_bundle(cam_a()));
    w.despawn(e);
    let scene = build_scene(&w).unwrap();
    assert_eq!(scene.sprite_instances.len(), 1);
    assert_eq!(scene.sprite_instances[0].instances.len(), 1);
    assert_eq!(scene.sprite_instances[0].instances[0].model.m03, 500);
}

#[test]
fn instance_carries_frame_and_transform() {
    let mut w = World::new();
    let mut b = sprite_bundle("player", 0);
    b.sprite = Some(Sprite::new("player").with_frame(2));
    b.scale = Some(Scale(3));
    w.spawn(b);
    w.spawn(camera_bundle(cam_a()));
    let scene = build_scene(&w).unwrap();
    let inst = scene.sprite_instances[0].instances[0];
    assert_eq!(inst.frame_id, 2);
    assert_eq!(inst.model.m00, 3 * FX_ONE);
    assert_eq!(inst.model.m33, FX_ONE);
}

#[test]
fn identity_components_give_identity_transform() {
    let mut w = World::new();
    w.spawn(sprite_bundle("x", 0));
    w.spawn(camera_bundle(cam_a()));
    let scene = build_scene(&w).unwrap();
    assert_eq!(scene.sprite_instances[0].instances[0].model, Mat4Fx::identity());
}
