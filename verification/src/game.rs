//! The game orchestrator: owns the world, the frame timer and the ordered
//! system list, and exposes one call per frame.
//!
//! `run` ticks the timer, runs every registered system in registration
//! order — each one completing before the next begins — and projects the
//! resulting world into a `Scene`. Its contract names the frame's whole
//! effect: the world after the call is the fold of the systems' own
//! specifications over the world before it.
use crate::components::{KeyEvent, KeyboardInput, WindowEvent};
use crate::scene::{active_camera_index, build_scene, scene_batches, Scene, SceneError};
use crate::systems::System;
use crate::time::{tick_delta, Timer, TimerView};
use crate::world::{Entity, EntityBundle, World, WorldView};
use vstd::prelude::*;

verus! {

/// The keyboard event one window event carries, if any.
pub open spec fn captured_event(event: WindowEvent) -> Option<KeyEvent> {
    match event {
        WindowEvent::Keyboard(k) => Some(k),
        WindowEvent::Other => None,
    }
}

/// The world after an input broadcast to its first `k` entities: every one
/// of them with an input slot holds the captured event; everything else is
/// untouched.
pub open spec fn capture_input_upto(w: WorldView, event: WindowEvent, k: int) -> WorldView {
    WorldView {
        inputs: Seq::new(
            w.inputs.len(),
            |i: int|
                if 0 <= i < k && w.has_keyboard_input(i) {
                    Some(KeyboardInput(captured_event(event)))
                } else {
                    w.inputs[i]
                },
        ),
        ..w
    }
}

/// The world after one input broadcast.
pub open spec fn capture_input_spec(w: WorldView, event: WindowEvent) -> WorldView {
    capture_input_upto(w, event, w.len())
}

/// Input broadcast: after capturing a window event, every live entity with
/// an input slot holds that same keyboard event — or none, when the event
/// was not a keyboard event — and entities without an input slot keep what
/// they had.
pub proof fn lemma_input_broadcast(w: WorldView, event: WindowEvent, i: int)
    requires
        w.wf(),
        0 <= i < w.len(),
    ensures
        w.has_keyboard_input(i) ==> capture_input_spec(w, event).inputs[i] == Some(
            KeyboardInput(captured_event(event)),
        ),
        !w.has_keyboard_input(i) ==> capture_input_spec(w, event).inputs[i] == w.inputs[i],
{
}

/// The world after the registered systems have run in order: the first
/// registered runs first, and each runs on the world the one before it
/// produced — no reordering, no skipping.
pub open spec fn fold_systems(
    systems: Seq<Box<dyn System>>,
    w: WorldView,
    dt_ms: u64,
    now_ms: u64,
) -> WorldView
    decreases systems.len(),
{
    if systems.len() == 0 {
        w
    } else {
        systems.last().spec_run(fold_systems(systems.drop_last(), w, dt_ms, now_ms), dt_ms, now_ms)
    }
}

/// Order determinism: a frame is a pure function of the world, the system
/// list, the delta time and the instant. Two frames from equal state with
/// equal inputs produce equal worlds and identical scene content — the
/// only nondeterminism of a real frame enters through the clock reading,
/// which `Game::run` takes as an argument.
pub proof fn lemma_frame_deterministic(
    w1: WorldView,
    w2: WorldView,
    s1: Seq<Box<dyn System>>,
    s2: Seq<Box<dyn System>>,
    dt1: u64,
    dt2: u64,
    now1: u64,
    now2: u64,
)
    requires
        w1 == w2,
        s1 == s2,
        dt1 == dt2,
        now1 == now2,
    ensures
        fold_systems(s1, w1, dt1, now1) == fold_systems(s2, w2, dt2, now2),
        scene_batches(fold_systems(s1, w1, dt1, now1)) == scene_batches(
            fold_systems(s2, w2, dt2, now2),
        ),
        active_camera_index(fold_systems(s1, w1, dt1, now1)) == active_camera_index(
            fold_systems(s2, w2, dt2, now2),
        ),
{
}

/// Ties the world, the timer and the system list together and presents one
/// call per frame to the window and render layer.
pub struct Game {
    world: World,
    timer: Timer,
    systems: Vec<Box<dyn System>>,
}

impl Game {
    /// The world as the contracts see it.
    pub closed spec fn world_view(&self) -> WorldView {
        self.world@
    }

    /// The timer as the contracts see it.
    pub closed spec fn timer_view(&self) -> TimerView {
        self.timer@
    }

    /// The registered systems, in registration order.
    pub closed spec fn systems_seq(&self) -> Seq<Box<dyn System>> {
        self.systems@
    }

    /// The game's world respects its internal shape.
    pub open spec fn wf(&self) -> bool {
        self.world_view().wf()
    }

    /// An empty game: no entities, no systems, a timer that will measure
    /// from `now_ms`.
    pub fn new(now_ms: u64) -> (g: Game)
        ensures
            g.wf(),
            g.world_view().len() == 0,
            g.timer_view() == (TimerView { last_ms: now_ms, elapsed_ms: 0u64 }),
            g.systems_seq().len() == 0,
    {
        Game { world: World::new(), timer: Timer::new(now_ms), systems: Vec::new() }
    }

    /// A read-only view of the world, for callers inspecting entity state.
    pub fn world(&self) -> (w: &World)
        ensures
            w@ == self.world_view(),
    {
        &self.world
    }

    /// A read-only view of the frame timer.
    pub fn timer(&self) -> (t: &Timer)
        ensures
            t@ == self.timer_view(),
    {
        &self.timer
    }

    /// Insert a fresh entity owning the bundle's components; delegates to
    /// the world.
    pub fn spawn_entity(&mut self, bundle: EntityBundle) -> (e: Entity)
        requires
            old(self).wf(),
            bundle.wf(),
            old(self).world_view().len() < usize::MAX,
        ensures
            final(self).wf(),
            e.id as int == old(self).world_view().len(),
            final(self).world_view() == (WorldView {
                alive: old(self).world_view().alive.push(true),
                positions: old(self).world_view().positions.push(bundle.position),
                rotations: old(self).world_view().rotations.push(bundle.rotation),
                angular_velocities: old(self).world_view().angular_velocities.push(
                    bundle.angular_velocity,
                ),
                scales: old(self).world_view().scales.push(bundle.scale),
                inputs: old(self).world_view().inputs.push(bundle.keyboard_input),
                cameras: old(self).world_view().cameras.push(bundle.camera),
                move_speeds: old(self).world_view().move_speeds.push(bundle.move_speed),
                player_states: old(self).world_view().player_states.push(bundle.player_state),
                static_meshes: old(self).world_view().static_meshes.push(bundle.static_mesh),
                sprites: old(self).world_view().sprites.push(
                    crate::world::sprite_view_opt(bundle.sprite),
                ),
                active_cameras: old(self).world_view().active_cameras.push(bundle.active_camera),
            }),
            final(self).timer_view() == old(self).timer_view(),
            final(self).systems_seq() == old(self).systems_seq(),
    {
        self.world.spawn(bundle)
    }

    /// Append a system to the end of the ordered list: no deduplication, no
    /// priority, no dependency inference.
    pub fn add_system(&mut self, system: Box<dyn System>)
        ensures
            final(self).systems_seq() == old(self).systems_seq().push(system),
            final(self).world_view() == old(self).world_view(),
            final(self).timer_view() == old(self).timer_view(),
    {
        self.systems.push(system)
    }

    /// Broadcast one window event into every entity's input slot: a
    /// keyboard event is seen by all of them at once, anything else clears
    /// the slots, so several entities can react to the same keystroke
    /// without a central routing table.
    pub fn capture_input(&mut self, event: WindowEvent)
        requires
            old(self).wf(),
        ensures
            final(self).wf(),
            final(self).world_view() == capture_input_spec(old(self).world_view(), event),
            final(self).timer_view() == old(self).timer_view(),
            final(self).systems_seq() == old(self).systems_seq(),
    {
        let ghost w0 = self.world@;
        let val: Option<KeyEvent> = match event {
            WindowEvent::Keyboard(k) => Some(k),
            WindowEvent::Other => None,
        };
        let n: usize = self.world.num_entities();
        let mut i: usize = 0;
        proof {
            assert(capture_input_upto(w0, event, 0).inputs =~= w0.inputs);
        }
        while i < n
            invariant
                self.world.wf(),
                n as int == w0.len(),
                i <= n,
                self.world@ == capture_input_upto(w0, event, i as int),
                self.timer@ == old(self).timer@,
                self.systems@ == old(self).systems@,
                val == captured_event(event),
            decreases n - i,
        {
            let e = Entity { id: i };
            if self.world.keyboard_input(e).is_some() {
                self.world.insert_keyboard_input(e, KeyboardInput(val));
                proof {
                    assert(self.world@.inputs =~= capture_input_upto(
                        w0,
                        event,
                        i as int + 1,
                    ).inputs);
                }
            } else {
                proof {
                    assert(self.world@.inputs =~= capture_input_upto(
                        w0,
                        event,
                        i as int + 1,
                    ).inputs);
                }
            }
            i = i + 1;
        }
    }

    /// One full frame: tick the timer, run every registered system in
    /// registration order — each completing all its mutations before the
    /// next begins — and build the scene from the resulting world. With no
    /// active camera the frame fails with a diagnostic error.
    pub fn run(&mut self, now_ms: u64) -> (r: Result<Scene, SceneError>)
        requires
            old(self).wf(),
        ensures
            final(self).wf(),
            final(self).systems_seq() == old(self).systems_seq(),
            final(self).timer_view() == (TimerView {
                last_ms: now_ms,
                elapsed_ms: tick_delta(old(self).timer_view().last_ms, now_ms),
            }),
            final(self).world_view() == fold_systems(
                old(self).systems_seq(),
                old(self).world_view(),
                tick_delta(old(self).timer_view().last_ms, now_ms),
                now_ms,
            ),
            r is Ok <==> active_camera_index(final(self).world_view()) >= 0,
            r matches Err(e) ==> e == SceneError::NoActiveCamera && active_camera_index(
                final(self).world_view(),
            ) == -1,
            r matches Ok(s) ==> s@.batches == scene_batches(final(self).world_view()) && s@.camera
                == final(self).world_view().cameras[active_camera_index(
                final(self).world_view(),
            )]->Some_0,
    {
        self.timer.tick(now_ms);
        let dt_ms: u64 = self.timer.elapsed();
        let ghost w0 = self.world@;
        let mut w: World = World::new();
        std::mem::swap(&mut self.world, &mut w);
        let n: usize = self.systems.len();
        let mut i: usize = 0;
        proof {
            assert(self.systems@.take(0) =~= Seq::<Box<dyn System>>::empty());
        }
        while i < n
            invariant
                w.wf(),
                n == self.systems@.len(),
                i <= n,
                w@ == fold_systems(self.systems@.take(i as int), w0, dt_ms, now_ms),
                self.systems@ == old(self).systems@,
                self.timer@ == (TimerView {
                    last_ms: now_ms,
                    elapsed_ms: tick_delta(old(self).timer@.last_ms, now_ms),
                }),
                dt_ms == tick_delta(old(self).timer@.last_ms, now_ms),
            decreases n - i,
        {
            w = self.systems[i].run(w, dt_ms, now_ms);
            proof {
                assert(self.systems@.take(i as int + 1).drop_last() =~= self.systems@.take(
                    i as int,
                ));
                assert(self.systems@.take(i as int + 1).last() == self.systems@[i as int]);
            }
            i = i + 1;
        }
        proof {
            assert(self.systems@.take(n as int) =~= self.systems@);
        }
        self.world = w;
        build_scene(&self.world)
    }
}

impl Default for Game {
    /// An empty game whose timer measures from instant zero.
    fn default() -> (g: Game)
        ensures
            g.wf(),
            g.world_view().len() == 0,
            g.timer_view() == (TimerView { last_ms: 0u64, elapsed_ms: 0u64 }),
            g.systems_seq().len() == 0,
    {
        Game::new(0)
    }
}

} // verus!
