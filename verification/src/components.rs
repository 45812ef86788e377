//! The component kinds an entity may carry, and the plain input-event model
//! the window driver hands to `Game::capture_input`.
use crate::math::{fx_bounded, QuatFx, Vec3Fx};
use vstd::prelude::*;

verus! {

/// The keys the update systems distinguish; anything else is `Other`.
#[derive(Clone, Copy, PartialEq, Eq, Structural, Debug)]
pub enum VirtualKey {
    Left,
    Right,
    Other,
}

/// Whether a key went down or came up.
#[derive(Clone, Copy, PartialEq, Eq, Structural, Debug)]
pub enum KeyState {
    Pressed,
    Released,
}

/// One keyboard event as delivered by the window driver.
#[derive(Clone, Copy, PartialEq, Eq, Structural, Debug)]
pub struct KeyEvent {
    pub key: VirtualKey,
    pub state: KeyState,
}

/// A window event: either a keyboard event or anything else.
#[derive(Clone, Copy, PartialEq, Eq, Structural, Debug)]
pub enum WindowEvent {
    Keyboard(KeyEvent),
    Other,
}

/// World-space location of an entity.
#[derive(Clone, Copy, PartialEq, Eq, Structural, Debug)]
pub struct Position(pub Vec3Fx);

impl Position {
    /// The coordinates are within the world-coordinate range.
    pub open spec fn wf(self) -> bool {
        self.0.bounded()
    }
}

/// World-space orientation of an entity, a unit quaternion.
#[derive(Clone, Copy, PartialEq, Eq, Structural, Debug)]
pub struct Rotation(pub QuatFx);

impl Rotation {
    /// The quaternion components lie within one fixed-point unit.
    pub open spec fn wf(self) -> bool {
        self.0.unit_bounded()
    }
}

/// Per-frame orientation increment, composed onto `Rotation` each tick.
#[derive(Clone, Copy, PartialEq, Eq, Structural, Debug)]
pub struct AngularVelocity(pub QuatFx);

impl AngularVelocity {
    /// The quaternion components lie within one fixed-point unit.
    pub open spec fn wf(self) -> bool {
        self.0.unit_bounded()
    }
}

/// Uniform whole-unit scale factor of an entity.
#[derive(Clone, Copy, PartialEq, Eq, Structural, Debug)]
pub struct Scale(pub u8);

/// Index of a static mesh in the render layer's mesh table.
#[derive(Clone, Copy, PartialEq, Eq, Structural, Debug)]
pub struct StaticMesh(pub usize);

/// Movement speed in world units per second, fixed point.
#[derive(Clone, Copy, PartialEq, Eq, Structural, Debug)]
pub struct MoveSpeed(pub i64);

impl MoveSpeed {
    /// The speed is within the world-coordinate range.
    pub open spec fn wf(self) -> bool {
        fx_bounded(self.0 as int)
    }
}

/// The most recent captured keyboard event, or none when the last window
/// event was not a keyboard event.
#[derive(Clone, Copy, PartialEq, Eq, Debug)]
pub struct KeyboardInput(pub Option<KeyEvent>);

/// Which drawable asset an entity belongs to, and which animation frame of
/// that asset it currently shows.
#[derive(Clone, Debug)]
pub struct Sprite {
    id: String,
    pub frame_id: u32,
}

/// The mathematical value of a `Sprite`.
pub ghost struct SpriteView {
    pub id: Seq<char>,
    pub frame_id: u32,
}

impl View for Sprite {
    type V = SpriteView;

    closed spec fn view(&self) -> SpriteView {
        SpriteView { id: self.id@, frame_id: self.frame_id }
    }
}

impl Sprite {
    pub fn new(id: &str) -> (s: Sprite)
        ensures
            s@.id == id@,
            s@.frame_id == 0,
    {
        Sprite { id: id.to_owned(), frame_id: 0 }
    }

    /// The animation frame this sprite currently shows.
    pub fn frame(&self) -> (r: u32)
        ensures
            r == self@.frame_id,
    {
        self.frame_id
    }

    /// This sprite showing another animation frame.
    pub fn with_frame(&self, frame: u32) -> (s: Sprite)
        ensures
            s@ == (SpriteView { frame_id: frame, ..self@ }),
    {
        Sprite { id: self.id.clone(), frame_id: frame }
    }

    /// The asset key this sprite is grouped under.
    pub fn id(&self) -> (r: &str)
        ensures
            r@ == self@.id,
    {
        self.id.as_str()
    }
}

/// Camera parameters: eye point, look direction, vertical field of view and
/// the near and far planes, all in fixed point.
#[derive(Clone, Copy, PartialEq, Eq, Structural, Debug)]
pub struct ParallaxCamera {
    pub eye: Vec3Fx,
    pub look_to: Vec3Fx,
    pub fov_y: i64,
    pub near: i64,
    pub far: i64,
}

impl ParallaxCamera {
    /// All parameters are within the world-coordinate range.
    pub open spec fn wf(self) -> bool {
        &&& self.eye.bounded()
        &&& self.look_to.bounded()
        &&& fx_bounded(self.fov_y as int)
        &&& fx_bounded(self.near as int)
        &&& fx_bounded(self.far as int)
    }

    pub fn new(eye: Vec3Fx, look_to: Vec3Fx, fov_y: i64, near: i64, far: i64) -> (c:
        ParallaxCamera)
        ensures
            c == (ParallaxCamera { eye, look_to, fov_y, near, far }),
    {
        ParallaxCamera { eye, look_to, fov_y, near, far }
    }

    /// Move the camera: replace the eye point and look direction.
    pub fn update(&mut self, eye: Vec3Fx, look_to: Vec3Fx)
        ensures
            *final(self) == (ParallaxCamera { eye, look_to, ..*old(self) }),
    {
        self.eye = eye;
        self.look_to = look_to;
    }
}

/// Marker component naming the one entity whose camera drives the scene.
#[derive(Clone, Copy, PartialEq, Eq, Structural, Debug)]
pub struct ActiveCamera;

/// Whether the player stands still or has been walking since some instant,
/// in milliseconds.
#[derive(Clone, Copy, PartialEq, Eq, Structural, Debug)]
pub enum PlayerState {
    Idle,
    Walk(u64),
}

/// The animation frame a player in state `st` shows at `now_ms`: idle shows
/// frame zero; a walk cycles every 400 milliseconds, the second walk frame
/// for the first 200 milliseconds past a cycle start and the first walk
/// frame for the rest.
pub open spec fn animation_frame_s(st: PlayerState, now_ms: u64) -> u32 {
    match st {
        PlayerState::Idle => 0u32,
        PlayerState::Walk(start) => {
            let dt = (now_ms - start) % 400;
            if dt > 200 {
                2u32
            } else if dt > 0 {
                1u32
            } else {
                0u32
            }
        },
    }
}

impl PlayerState {
    /// The animation frame to show at `now_ms`. A walk must not have started
    /// in the future.
    pub fn animation_state(&self, now_ms: u64) -> (frame: u32)
        requires
            self matches PlayerState::Walk(start) ==> start <= now_ms,
        ensures
            frame == animation_frame_s(*self, now_ms),
    {
        match self {
            PlayerState::Idle => 0,
            PlayerState::Walk(start) => {
                let dt: u64 = (now_ms - *start) % 400;
                if dt > 200 {
                    2
                } else if dt > 0 {
                    1
                } else {
                    0
                }
            },
        }
    }
}

} // verus!
