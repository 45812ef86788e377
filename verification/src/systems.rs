//! The update systems the demo registers each frame, and the `System`
//! trait the scheduler runs them through.
//!
//! A system is a function of the whole world, the frame's delta time and
//! the current instant. The trait carries the system's own specification:
//! every implementation proves that running it produces exactly the world
//! its `spec_run` describes, so the scheduler's contract can name the
//! composed effect of a whole frame.
use crate::components::{
    animation_frame_s, KeyState, KeyboardInput, MoveSpeed, ParallaxCamera, PlayerState, Position,
    Rotation, SpriteView, VirtualKey,
};
use crate::math::{fx_clamp_s, fx_mul, fx_mul_s, fx_sat_add, quat_mul, quat_mul_s, Vec3Fx, FX_LIMIT};
use crate::world::{Entity, World, WorldView};
use vstd::prelude::*;

verus! {

/// One update step run once per frame against the world.
///
/// `spec_run` is the system's specification; `run` must produce exactly
/// that world. Callers registering their own systems implement both.
pub trait System {
    /// The world this system turns `w` into, given the frame's delta time
    /// and the current instant, both in milliseconds.
    spec fn spec_run(&self, w: WorldView, dt_ms: u64, now_ms: u64) -> WorldView;

    /// Run the system: the result is exactly what `spec_run` describes,
    /// and a well-formed world stays well-formed.
    fn run(&self, w: World, dt_ms: u64, now_ms: u64) -> (out: World)
        requires
            w.wf(),
        ensures
            out.wf(),
            out@ == self.spec_run(w@, dt_ms, now_ms),
    ;
}

/// The delta time as a fixed-point duration in seconds, clamped into the
/// world-coordinate range (milliseconds are thousandths, so the numeric
/// value carries over unchanged).
pub open spec fn dt_clamped(dt_ms: u64) -> int {
    if dt_ms as int > FX_LIMIT as int {
        FX_LIMIT as int
    } else {
        dt_ms as int
    }
}

/// How far a walk at `speed` advances during one frame of `dt_ms`.
pub open spec fn walk_dx(speed: MoveSpeed, dt_ms: u64) -> int {
    fx_mul_s(speed.0 as int, dt_clamped(dt_ms))
}

/// Entity `i` carries everything the player-movement system reads and
/// writes: an input slot, a position, a speed and a player state.
pub open spec fn mp_affected(w: WorldView, i: int) -> bool {
    &&& w.alive_at(i)
    &&& w.inputs[i] is Some
    &&& w.positions[i] is Some
    &&& w.move_speeds[i] is Some
    &&& w.player_states[i] is Some
}

/// Where the player-movement system puts an entity: a pressed left or
/// right arrow moves it along the x axis by `speed * dt`, anything else
/// leaves it in place.
pub open spec fn mp_new_position(
    p: Position,
    speed: MoveSpeed,
    key: KeyboardInput,
    dt_ms: u64,
) -> Position {
    match key.0 {
        Some(ev) => {
            if ev.key is Left && ev.state is Pressed {
                Position(
                    Vec3Fx {
                        x: fx_clamp_s(p.0.x - walk_dx(speed, dt_ms)) as i64,
                        y: p.0.y,
                        z: p.0.z,
                    },
                )
            } else if ev.key is Right && ev.state is Pressed {
                Position(
                    Vec3Fx {
                        x: fx_clamp_s(p.0.x + walk_dx(speed, dt_ms)) as i64,
                        y: p.0.y,
                        z: p.0.z,
                    },
                )
            } else {
                p
            }
        },
        None => p,
    }
}

/// The player state the movement system leaves behind: a pressed arrow
/// starts a walk at the current instant (an ongoing walk keeps its start),
/// anything else returns the player to idle.
pub open spec fn mp_new_state(st: PlayerState, key: KeyboardInput, now_ms: u64) -> PlayerState {
    match key.0 {
        Some(ev) => {
            if (ev.key is Left || ev.key is Right) && ev.state is Pressed {
                match st {
                    PlayerState::Idle => PlayerState::Walk(now_ms),
                    PlayerState::Walk(start) => PlayerState::Walk(start),
                }
            } else {
                PlayerState::Idle
            }
        },
        None => PlayerState::Idle,
    }
}

/// The world after the player-movement system has processed the first `k`
/// entities.
pub open spec fn move_player_upto(w: WorldView, dt_ms: u64, now_ms: u64, k: int) -> WorldView {
    WorldView {
        positions: Seq::new(
            w.positions.len(),
            |i: int|
                if 0 <= i < k && mp_affected(w, i) {
                    Some(
                        mp_new_position(
                            w.positions[i]->Some_0,
                            w.move_speeds[i]->Some_0,
                            w.inputs[i]->Some_0,
                            dt_ms,
                        ),
                    )
                } else {
                    w.positions[i]
                },
        ),
        player_states: Seq::new(
            w.player_states.len(),
            |i: int|
                if 0 <= i < k && mp_affected(w, i) {
                    Some(mp_new_state(w.player_states[i]->Some_0, w.inputs[i]->Some_0, now_ms))
                } else {
                    w.player_states[i]
                },
        ),
        ..w
    }
}

/// The world after the player-movement system.
pub open spec fn move_player_spec(w: WorldView, dt_ms: u64, now_ms: u64) -> WorldView {
    move_player_upto(w, dt_ms, now_ms, w.len())
}

/// Moves every entity with an input slot, position, speed and player state
/// by `speed * dt` along the x axis while a left or right arrow is held,
/// and tracks whether the player is idle or walking.
pub struct MovePlayer;

impl System for MovePlayer {
    open spec fn spec_run(&self, w: WorldView, dt_ms: u64, now_ms: u64) -> WorldView {
        move_player_spec(w, dt_ms, now_ms)
    }

    fn run(&self, w: World, dt_ms: u64, now_ms: u64) -> (out: World) {
        let mut w = w;
        let ghost w0 = w@;
        let n: usize = w.num_entities();
        let mut i: usize = 0;
        proof {
            assert(move_player_upto(w0, dt_ms, now_ms, 0).positions =~= w0.positions);
            assert(move_player_upto(w0, dt_ms, now_ms, 0).player_states =~= w0.player_states);
        }
        while i < n
            invariant
                w.wf(),
                n as int == w0.len(),
                i <= n,
                w@ == move_player_upto(w0, dt_ms, now_ms, i as int),
            decreases n - i,
        {
            let e = Entity { id: i };
            match (w.keyboard_input(e), w.position(e), w.move_speed(e), w.player_state(e)) {
                (Some(key), Some(p), Some(speed), Some(st)) => {
                    let dtc: i64 = if dt_ms > FX_LIMIT as u64 {
                        FX_LIMIT
                    } else {
                        dt_ms as i64
                    };
                    let dx: i64 = fx_mul(speed.0, dtc);
                    let np: Position = match key.0 {
                        Some(ev) => {
                            if ev.key == VirtualKey::Left && ev.state == KeyState::Pressed {
                                Position(Vec3Fx { x: fx_sat_add(p.0.x, -dx), y: p.0.y, z: p.0.z })
                            } else if ev.key == VirtualKey::Right && ev.state
                                == KeyState::Pressed {
                                Position(Vec3Fx { x: fx_sat_add(p.0.x, dx), y: p.0.y, z: p.0.z })
                            } else {
                                p
                            }
                        },
                        None => p,
                    };
                    let ns: PlayerState = match key.0 {
                        Some(ev) => {
                            if (ev.key == VirtualKey::Left || ev.key == VirtualKey::Right)
                                && ev.state == KeyState::Pressed {
                                match st {
                                    PlayerState::Idle => PlayerState::Walk(now_ms),
                                    PlayerState::Walk(start) => PlayerState::Walk(start),
                                }
                            } else {
                                PlayerState::Idle
                            }
                        },
                        None => PlayerState::Idle,
                    };
                    proof {
                        assert(mp_affected(w0, i as int));
                        assert(np == mp_new_position(
                            w0.positions[i as int]->Some_0,
                            w0.move_speeds[i as int]->Some_0,
                            w0.inputs[i as int]->Some_0,
                            dt_ms,
                        ));
                        assert(ns == mp_new_state(
                            w0.player_states[i as int]->Some_0,
                            w0.inputs[i as int]->Some_0,
                            now_ms,
                        ));
                    }
                    w.insert_position(e, np);
                    w.insert_player_state(e, ns);
                    proof {
                        assert(w@.positions =~= move_player_upto(
                            w0,
                            dt_ms,
                            now_ms,
                            i as int + 1,
                        ).positions);
                        assert(w@.player_states =~= move_player_upto(
                            w0,
                            dt_ms,
                            now_ms,
                            i as int + 1,
                        ).player_states);
                    }
                },
                _ => {
                    proof {
                        assert(!mp_affected(w0, i as int));
                        assert(w@.positions =~= move_player_upto(
                            w0,
                            dt_ms,
                            now_ms,
                            i as int + 1,
                        ).positions);
                        assert(w@.player_states =~= move_player_upto(
                            w0,
                            dt_ms,
                            now_ms,
                            i as int + 1,
                        ).player_states);
                    }
                },
            }
            i = i + 1;
        }
        w
    }
}

/// Entity `i` carries a rotation and an angular velocity.
pub open spec fn ro_affected(w: WorldView, i: int) -> bool {
    &&& w.alive_at(i)
    &&& w.rotations[i] is Some
    &&& w.angular_velocities[i] is Some
}

/// The world after the rotation system has processed the first `k`
/// entities: each affected rotation is the angular velocity composed onto
/// it.
pub open spec fn rotate_objects_upto(w: WorldView, k: int) -> WorldView {
    WorldView {
        rotations: Seq::new(
            w.rotations.len(),
            |i: int|
                if 0 <= i < k && ro_affected(w, i) {
                    Some(
                        Rotation(
                            quat_mul_s(w.angular_velocities[i]->Some_0.0, w.rotations[i]->Some_0.0),
                        ),
                    )
                } else {
                    w.rotations[i]
                },
        ),
        ..w
    }
}

/// The world after the rotation system.
pub open spec fn rotate_objects_spec(w: WorldView) -> WorldView {
    rotate_objects_upto(w, w.len())
}

/// Composes each entity's angular velocity onto its rotation, once per
/// frame.
pub struct RotateObjects;

impl System for RotateObjects {
    open spec fn spec_run(&self, w: WorldView, dt_ms: u64, now_ms: u64) -> WorldView {
        rotate_objects_spec(w)
    }

    fn run(&self, w: World, dt_ms: u64, now_ms: u64) -> (out: World) {
        let mut w = w;
        let ghost w0 = w@;
        let n: usize = w.num_entities();
        let mut i: usize = 0;
        proof {
            assert(rotate_objects_upto(w0, 0).rotations =~= w0.rotations);
        }
        while i < n
            invariant
                w.wf(),
                n as int == w0.len(),
                i <= n,
                w@ == rotate_objects_upto(w0, i as int),
            decreases n - i,
        {
            let e = Entity { id: i };
            match (w.rotation(e), w.angular_velocity(e)) {
                (Some(rot), Some(av)) => {
                    let nr = Rotation(quat_mul(av.0, rot.0));
                    proof {
                        assert(ro_affected(w0, i as int));
                        assert(nr == Rotation(
                            quat_mul_s(
                                w0.angular_velocities[i as int]->Some_0.0,
                                w0.rotations[i as int]->Some_0.0,
                            ),
                        ));
                    }
                    w.insert_rotation(e, nr);
                    proof {
                        assert(w@.rotations =~= rotate_objects_upto(w0, i as int + 1).rotations);
                    }
                },
                _ => {
                    proof {
                        assert(!ro_affected(w0, i as int));
                        assert(w@.rotations =~= rotate_objects_upto(w0, i as int + 1).rotations);
                    }
                },
            }
            i = i + 1;
        }
        w
    }
}

/// Entity `i` carries a player state and a sprite.
pub open spec fn ua_affected(w: WorldView, i: int) -> bool {
    &&& w.alive_at(i)
    &&& w.player_states[i] is Some
    &&& w.sprites[i] is Some
}

/// The animation frame the animation system selects: the frame of the
/// player state at the current instant; a walk that claims to start in the
/// future shows the idle frame.
pub open spec fn ua_frame(st: PlayerState, now_ms: u64) -> u32 {
    match st {
        PlayerState::Idle => 0u32,
        PlayerState::Walk(start) => if start <= now_ms {
            animation_frame_s(st, now_ms)
        } else {
            0u32
        },
    }
}

/// The world after the animation system has processed the first `k`
/// entities: each affected sprite shows the frame its player state calls
/// for.
pub open spec fn update_animation_upto(w: WorldView, now_ms: u64, k: int) -> WorldView {
    WorldView {
        sprites: Seq::new(
            w.sprites.len(),
            |i: int|
                if 0 <= i < k && ua_affected(w, i) {
                    Some(
                        SpriteView {
                            id: w.sprites[i]->Some_0.id,
                            frame_id: ua_frame(w.player_states[i]->Some_0, now_ms),
                        },
                    )
                } else {
                    w.sprites[i]
                },
        ),
        ..w
    }
}

/// The world after the animation system.
pub open spec fn update_animation_spec(w: WorldView, now_ms: u64) -> WorldView {
    update_animation_upto(w, now_ms, w.len())
}

/// Points each sprite at the animation frame its entity's player state
/// calls for at the current instant.
pub struct UpdateAnimationState;

impl System for UpdateAnimationState {
    open spec fn spec_run(&self, w: WorldView, dt_ms: u64, now_ms: u64) -> WorldView {
        update_animation_spec(w, now_ms)
    }

    fn run(&self, w: World, dt_ms: u64, now_ms: u64) -> (out: World) {
        let mut w = w;
        let ghost w0 = w@;
        let n: usize = w.num_entities();
        let mut i: usize = 0;
        proof {
            assert(update_animation_upto(w0, now_ms, 0).sprites =~= w0.sprites);
        }
        while i < n
            invariant
                w.wf(),
                n as int == w0.len(),
                i <= n,
                w@ == update_animation_upto(w0, now_ms, i as int),
            decreases n - i,
        {
            let e = Entity { id: i };
            let has_sprite: bool = w.sprite(e).is_some();
            match w.player_state(e) {
                Some(st) if has_sprite => {
                    let frame: u32 = match st {
                        PlayerState::Idle => 0,
                        PlayerState::Walk(start) => {
                            if start <= now_ms {
                                st.animation_state(now_ms)
                            } else {
                                0
                            }
                        },
                    };
                    proof {
                        assert(ua_affected(w0, i as int));
                        assert(frame == ua_frame(w0.player_states[i as int]->Some_0, now_ms));
                    }
                    w.set_sprite_frame(e, frame);
                    proof {
                        assert(w@.sprites =~= update_animation_upto(
                            w0,
                            now_ms,
                            i as int + 1,
                        ).sprites);
                    }
                },
                _ => {
                    proof {
                        assert(!ua_affected(w0, i as int));
                        assert(w@.sprites =~= update_animation_upto(
                            w0,
                            now_ms,
                            i as int + 1,
                        ).sprites);
                    }
                },
            }
            i = i + 1;
        }
        w
    }
}

/// The first slot holding a live entity with the active-camera marker,
/// camera parameters, an input slot and a speed, searching from `i` up, or
/// -1 when none is.
pub open spec fn mc_index_from(w: WorldView, i: int) -> int
    decreases w.len() - i,
{
    if i < 0 || i >= w.len() {
        -1
    } else if w.has_active_camera(i) && w.has_camera(i) && w.inputs[i] is Some
        && w.move_speeds[i] is Some {
        i
    } else {
        mc_index_from(w, i + 1)
    }
}

/// Where the camera system moves the camera: a pressed left or right arrow
/// shifts the eye along the x axis by `speed * dt`.
pub open spec fn mc_new_camera(
    cam: ParallaxCamera,
    speed: MoveSpeed,
    key: KeyboardInput,
    dt_ms: u64,
) -> ParallaxCamera {
    match key.0 {
        Some(ev) => {
            if ev.key is Left && ev.state is Pressed {
                ParallaxCamera {
                    eye: Vec3Fx {
                        x: fx_clamp_s(cam.eye.x - walk_dx(speed, dt_ms)) as i64,
                        y: cam.eye.y,
                        z: cam.eye.z,
                    },
                    ..cam
                }
            } else if ev.key is Right && ev.state is Pressed {
                ParallaxCamera {
                    eye: Vec3Fx {
                        x: fx_clamp_s(cam.eye.x + walk_dx(speed, dt_ms)) as i64,
                        y: cam.eye.y,
                        z: cam.eye.z,
                    },
                    ..cam
                }
            } else {
                cam
            }
        },
        None => cam,
    }
}

/// The world after the camera system: the first fully equipped active
/// camera follows the held arrow key; without one the world is unchanged.
pub open spec fn move_camera_spec(w: WorldView, dt_ms: u64) -> WorldView {
    let j = mc_index_from(w, 0);
    if j == -1 {
        w
    } else {
        WorldView {
            cameras: w.cameras.update(
                j,
                Some(
                    mc_new_camera(
                        w.cameras[j]->Some_0,
                        w.move_speeds[j]->Some_0,
                        w.inputs[j]->Some_0,
                        dt_ms,
                    ),
                ),
            ),
            ..w
        }
    }
}

/// Scrolls the active camera along the x axis by `speed * dt` while a left
/// or right arrow is held. Only the first marked, fully equipped camera
/// entity moves; with none the frame changes nothing.
pub struct MoveCamera;

impl System for MoveCamera {
    open spec fn spec_run(&self, w: WorldView, dt_ms: u64, now_ms: u64) -> WorldView {
        move_camera_spec(w, dt_ms)
    }

    fn run(&self, w: World, dt_ms: u64, now_ms: u64) -> (out: World) {
        let mut w = w;
        let ghost w0 = w@;
        let n: usize = w.num_entities();
        let mut fnd: Option<usize> = None;
        let mut j: usize = 0;
        while j < n
            invariant
                w.wf(),
                w@ == w0,
                n as int == w0.len(),
                j <= n,
                fnd is None ==> mc_index_from(w0, 0) == mc_index_from(w0, j as int),
                fnd matches Some(jj) ==> mc_index_from(w0, 0) == jj as int && (jj as int) < n
                    as int && w0.has_active_camera(jj as int) && w0.has_camera(jj as int)
                    && w0.inputs[jj as int] is Some && w0.move_speeds[jj as int] is Some,
            decreases n - j,
        {
            if fnd.is_none() {
                let e = Entity { id: j };
                if w.has_active_camera(e) && w.camera(e).is_some() && w.keyboard_input(e).is_some()
                    && w.move_speed(e).is_some() {
                    fnd = Some(j);
                }
            }
            j = j + 1;
        }
        match fnd {
            Some(jj) => {
                let e = Entity { id: jj };
                let cam = w.camera(e).unwrap();
                let key = w.keyboard_input(e).unwrap();
                let speed = w.move_speed(e).unwrap();
                let dtc: i64 = if dt_ms > FX_LIMIT as u64 {
                    FX_LIMIT
                } else {
                    dt_ms as i64
                };
                let dx: i64 = fx_mul(speed.0, dtc);
                let ncam: ParallaxCamera = match key.0 {
                    Some(ev) => {
                        if ev.key == VirtualKey::Left && ev.state == KeyState::Pressed {
                            ParallaxCamera {
                                eye: Vec3Fx {
                                    x: fx_sat_add(cam.eye.x, -dx),
                                    y: cam.eye.y,
                                    z: cam.eye.z,
                                },
                                ..cam
                            }
                        } else if ev.key == VirtualKey::Right && ev.state == KeyState::Pressed {
                            ParallaxCamera {
                                eye: Vec3Fx {
                                    x: fx_sat_add(cam.eye.x, dx),
                                    y: cam.eye.y,
                                    z: cam.eye.z,
                                },
                                ..cam
                            }
                        } else {
                            cam
                        }
                    },
                    None => cam,
                };
                proof {
                    assert(ncam == mc_new_camera(
                        w0.cameras[jj as int]->Some_0,
                        w0.move_speeds[jj as int]->Some_0,
                        w0.inputs[jj as int]->Some_0,
                        dt_ms,
                    ));
                }
                w.insert_camera(e, ncam);
                w
            },
            None => {
                w
            },
        }
    }
}

/// System ordering: a system registered later observes the writes a system
/// registered earlier made in the same frame. Concretely: the player state
/// the movement system writes is what its specification computes from the
/// world the frame began with, and the animation system — run after it in
/// the same frame, as the scheduler's fold composes them — selects the
/// frame of that written state, not of the state the frame began with.
pub proof fn lemma_system_ordering(w: WorldView, dt_ms: u64, now_ms: u64, i: int)
    requires
        w.wf(),
        0 <= i < w.len(),
        mp_affected(w, i),
        w.sprites[i] is Some,
    ensures
        move_player_spec(w, dt_ms, now_ms).player_states[i] == Some(
            mp_new_state(w.player_states[i]->Some_0, w.inputs[i]->Some_0, now_ms),
        ),
        update_animation_spec(
            move_player_spec(w, dt_ms, now_ms),
            now_ms,
        ).sprites[i]->Some_0.frame_id == ua_frame(
            mp_new_state(w.player_states[i]->Some_0, w.inputs[i]->Some_0, now_ms),
            now_ms,
        ),
{
    let w1 = move_player_spec(w, dt_ms, now_ms);
    assert(w1.player_states[i] == Some(
        mp_new_state(w.player_states[i]->Some_0, w.inputs[i]->Some_0, now_ms),
    ));
    assert(w1.alive_at(i));
    assert(ua_affected(w1, i));
    assert(update_animation_spec(w1, now_ms).sprites[i] == Some(
        SpriteView {
            id: w1.sprites[i]->Some_0.id,
            frame_id: ua_frame(w1.player_states[i]->Some_0, now_ms),
        },
    ));
}

} // verus!
