//! The component store: entities, spawn and despawn, per-component access
//! and the conjunctive component query.
use crate::components::{
    ActiveCamera, AngularVelocity, KeyboardInput, MoveSpeed, ParallaxCamera, PlayerState,
    Position, Rotation, Scale, Sprite, SpriteView, StaticMesh,
};
use vstd::prelude::*;

verus! {

/// An opaque handle naming one entity. Handles are indices that are never
/// reused: despawning leaves a permanently dead slot.
#[derive(Clone, Copy, PartialEq, Eq, Structural, Debug)]
pub struct Entity {
    pub id: usize,
}

/// The view of an optional sprite component.
pub open spec fn sprite_view_opt(o: Option<Sprite>) -> Option<SpriteView> {
    match o {
        Some(s) => Some(s@),
        None => None,
    }
}

/// The view of a sprite store.
pub open spec fn sprites_view(s: Seq<Option<Sprite>>) -> Seq<Option<SpriteView>> {
    Seq::new(s.len(), |i: int| sprite_view_opt(s[i]))
}

/// The mathematical value of a `World`: one sequence per component kind,
/// all of the same length, indexed by entity id.
#[verifier::ext_equal]
pub ghost struct WorldView {
    pub alive: Seq<bool>,
    pub positions: Seq<Option<Position>>,
    pub rotations: Seq<Option<Rotation>>,
    pub angular_velocities: Seq<Option<AngularVelocity>>,
    pub scales: Seq<Option<Scale>>,
    pub inputs: Seq<Option<KeyboardInput>>,
    pub cameras: Seq<Option<ParallaxCamera>>,
    pub move_speeds: Seq<Option<MoveSpeed>>,
    pub player_states: Seq<Option<PlayerState>>,
    pub static_meshes: Seq<Option<StaticMesh>>,
    pub sprites: Seq<Option<SpriteView>>,
    pub active_cameras: Seq<bool>,
}

impl WorldView {
    /// The number of slots ever spawned, live or dead.
    pub open spec fn len(self) -> int {
        self.alive.len() as int
    }

    /// All component stores cover the same entities, and every stored value
    /// with an internal range restriction respects it.
    pub open spec fn wf(self) -> bool {
        &&& self.positions.len() == self.alive.len()
        &&& self.rotations.len() == self.alive.len()
        &&& self.angular_velocities.len() == self.alive.len()
        &&& self.scales.len() == self.alive.len()
        &&& self.inputs.len() == self.alive.len()
        &&& self.cameras.len() == self.alive.len()
        &&& self.move_speeds.len() == self.alive.len()
        &&& self.player_states.len() == self.alive.len()
        &&& self.static_meshes.len() == self.alive.len()
        &&& self.sprites.len() == self.alive.len()
        &&& self.active_cameras.len() == self.alive.len()
        &&& forall|i: int|
            0 <= i < self.positions.len() ==> (#[trigger] self.positions[i] matches Some(v) ==> v.wf())
        &&& forall|i: int|
            0 <= i < self.rotations.len() ==> (#[trigger] self.rotations[i] matches Some(v) ==> v.wf())
        &&& forall|i: int|
            0 <= i < self.angular_velocities.len() ==> (#[trigger] self.angular_velocities[i] matches Some(v) ==> v.wf())
        &&& forall|i: int|
            0 <= i < self.cameras.len() ==> (#[trigger] self.cameras[i] matches Some(v) ==> v.wf())
        &&& forall|i: int|
            0 <= i < self.move_speeds.len() ==> (#[trigger] self.move_speeds[i] matches Some(v) ==> v.wf())
    }

    /// The slot is in range and holds a live entity.
    pub open spec fn alive_at(self, i: int) -> bool {
        0 <= i < self.len() && self.alive[i]
    }

    /// Entity `i` is live and carries a `Position`.
    pub open spec fn has_position(self, i: int) -> bool {
        self.alive_at(i) && self.positions[i] is Some
    }

    /// Entity `i` is live and carries a `Rotation`.
    pub open spec fn has_rotation(self, i: int) -> bool {
        self.alive_at(i) && self.rotations[i] is Some
    }

    /// Entity `i` is live and carries a `AngularVelocity`.
    pub open spec fn has_angular_velocity(self, i: int) -> bool {
        self.alive_at(i) && self.angular_velocities[i] is Some
    }

    /// Entity `i` is live and carries a `Scale`.
    pub open spec fn has_scale(self, i: int) -> bool {
        self.alive_at(i) && self.scales[i] is Some
    }

    /// Entity `i` is live and carries a `KeyboardInput`.
    pub open spec fn has_keyboard_input(self, i: int) -> bool {
        self.alive_at(i) && self.inputs[i] is Some
    }

    /// Entity `i` is live and carries a `ParallaxCamera`.
    pub open spec fn has_camera(self, i: int) -> bool {
        self.alive_at(i) && self.cameras[i] is Some
    }

    /// Entity `i` is live and carries a `MoveSpeed`.
    pub open spec fn has_move_speed(self, i: int) -> bool {
        self.alive_at(i) && self.move_speeds[i] is Some
    }

    /// Entity `i` is live and carries a `PlayerState`.
    pub open spec fn has_player_state(self, i: int) -> bool {
        self.alive_at(i) && self.player_states[i] is Some
    }

    /// Entity `i` is live and carries a `StaticMesh`.
    pub open spec fn has_static_mesh(self, i: int) -> bool {
        self.alive_at(i) && self.static_meshes[i] is Some
    }

    /// Entity `i` is live and carries a `Sprite`.
    pub open spec fn has_sprite(self, i: int) -> bool {
        self.alive_at(i) && self.sprites[i] is Some
    }

    /// Entity `i` is live and carries the active-camera marker.
    pub open spec fn has_active_camera(self, i: int) -> bool {
        self.alive_at(i) && self.active_cameras[i]
    }
}

/// The components one spawn call attaches to a fresh entity, any subset at
/// once.
pub struct EntityBundle {
    pub position: Option<Position>,
    pub rotation: Option<Rotation>,
    pub angular_velocity: Option<AngularVelocity>,
    pub scale: Option<Scale>,
    pub keyboard_input: Option<KeyboardInput>,
    pub camera: Option<ParallaxCamera>,
    pub move_speed: Option<MoveSpeed>,
    pub player_state: Option<PlayerState>,
    pub static_mesh: Option<StaticMesh>,
    pub sprite: Option<Sprite>,
    pub active_camera: bool,
}

impl EntityBundle {
    /// Every value carried respects its component's range restriction.
    pub open spec fn wf(&self) -> bool {
        &&& self.position matches Some(v) ==> v.wf()
        &&& self.rotation matches Some(v) ==> v.wf()
        &&& self.angular_velocity matches Some(v) ==> v.wf()
        &&& self.camera matches Some(v) ==> v.wf()
        &&& self.move_speed matches Some(v) ==> v.wf()
    }

    /// A bundle with no components at all.
    pub fn new() -> (b: EntityBundle)
        ensures
            b.position is None,
            b.rotation is None,
            b.angular_velocity is None,
            b.scale is None,
            b.keyboard_input is None,
            b.camera is None,
            b.move_speed is None,
            b.player_state is None,
            b.static_mesh is None,
            b.sprite is None,
            !b.active_camera,
            b.wf(),
    {
        EntityBundle {
            position: None,
            rotation: None,
            angular_velocity: None,
            scale: None,
            keyboard_input: None,
            camera: None,
            move_speed: None,
            player_state: None,
            static_mesh: None,
            sprite: None,
            active_camera: false,
        }
    }
}

/// The container owning all entity-component data.
pub struct World {
    alive: Vec<bool>,
    positions: Vec<Option<Position>>,
    rotations: Vec<Option<Rotation>>,
    angular_velocities: Vec<Option<AngularVelocity>>,
    scales: Vec<Option<Scale>>,
    inputs: Vec<Option<KeyboardInput>>,
    cameras: Vec<Option<ParallaxCamera>>,
    move_speeds: Vec<Option<MoveSpeed>>,
    player_states: Vec<Option<PlayerState>>,
    static_meshes: Vec<Option<StaticMesh>>,
    sprites: Vec<Option<Sprite>>,
    active_cameras: Vec<bool>,
}

impl View for World {
    type V = WorldView;

    closed spec fn view(&self) -> WorldView {
        WorldView {
            alive: self.alive@,
            positions: self.positions@,
            rotations: self.rotations@,
            angular_velocities: self.angular_velocities@,
            scales: self.scales@,
            inputs: self.inputs@,
            cameras: self.cameras@,
            move_speeds: self.move_speeds@,
            player_states: self.player_states@,
            static_meshes: self.static_meshes@,
            sprites: sprites_view(self.sprites@),
            active_cameras: self.active_cameras@,
        }
    }
}

/// Which component kinds a query requests; an entity matches when it is
/// live and carries every requested kind.
#[derive(Clone, Copy, PartialEq, Eq, Structural, Debug)]
pub struct ComponentMask {
    pub position: bool,
    pub rotation: bool,
    pub angular_velocity: bool,
    pub scale: bool,
    pub keyboard_input: bool,
    pub camera: bool,
    pub move_speed: bool,
    pub player_state: bool,
    pub static_mesh: bool,
    pub sprite: bool,
    pub active_camera: bool,
}

impl ComponentMask {
    /// The mask requesting nothing, matched by every live entity.
    pub fn none() -> (m: ComponentMask)
        ensures
            m == (ComponentMask {
                position: false,
                rotation: false,
                angular_velocity: false,
                scale: false,
                keyboard_input: false,
                camera: false,
                move_speed: false,
                player_state: false,
                static_mesh: false,
                sprite: false,
                active_camera: false,
            }),
    {
        ComponentMask {
            position: false,
            rotation: false,
            angular_velocity: false,
            scale: false,
            keyboard_input: false,
            camera: false,
            move_speed: false,
            player_state: false,
            static_mesh: false,
            sprite: false,
            active_camera: false,
        }
    }
}

/// Entity `i` is live and carries every component kind `m` requests.
pub open spec fn matches_mask(w: WorldView, m: ComponentMask, i: int) -> bool {
    &&& w.alive_at(i)
    &&& m.position ==> w.positions[i] is Some
    &&& m.rotation ==> w.rotations[i] is Some
    &&& m.angular_velocity ==> w.angular_velocities[i] is Some
    &&& m.scale ==> w.scales[i] is Some
    &&& m.keyboard_input ==> w.inputs[i] is Some
    &&& m.camera ==> w.cameras[i] is Some
    &&& m.move_speed ==> w.move_speeds[i] is Some
    &&& m.player_state ==> w.player_states[i] is Some
    &&& m.static_mesh ==> w.static_meshes[i] is Some
    &&& m.sprite ==> w.sprites[i] is Some
    &&& m.active_camera ==> w.active_cameras[i]
}

/// The entities among the first `n` slots that match `m`, in ascending
/// handle order.
pub open spec fn query_ids_upto(w: WorldView, m: ComponentMask, n: int) -> Seq<Entity>
    decreases n,
{
    if n <= 0 {
        Seq::empty()
    } else if matches_mask(w, m, n - 1) {
        query_ids_upto(w, m, n - 1).push(Entity { id: (n - 1) as usize })
    } else {
        query_ids_upto(w, m, n - 1)
    }
}

impl World {
    /// The whole world respects its internal shape.
    pub open spec fn wf(&self) -> bool {
        self@.wf()
    }

    /// A world with no entities.
    pub fn new() -> (w: World)
        ensures
            w.wf(),
            w@.len() == 0,
    {
        let w = World {
            alive: Vec::new(),
            positions: Vec::new(),
            rotations: Vec::new(),
            angular_velocities: Vec::new(),
            scales: Vec::new(),
            inputs: Vec::new(),
            cameras: Vec::new(),
            move_speeds: Vec::new(),
            player_states: Vec::new(),
            static_meshes: Vec::new(),
            sprites: Vec::new(),
            active_cameras: Vec::new(),
        };
        w
    }

    /// How many entity slots exist, live or dead.
    pub fn num_entities(&self) -> (n: usize)
        ensures
            n as int == self@.len(),
    {
        self.alive.len()
    }

    /// Whether `e` names a live entity.
    pub fn is_alive(&self, e: Entity) -> (r: bool)
        ensures
            r == self@.alive_at(e.id as int),
    {
        e.id < self.alive.len() && self.alive[e.id]
    }

    /// Insert a fresh entity owning the bundle's components in one call;
    /// the handle is the next slot, so no two entities ever share one.
    pub fn spawn(&mut self, bundle: EntityBundle) -> (e: Entity)
        requires
            old(self).wf(),
            bundle.wf(),
            old(self)@.len() < usize::MAX,
        ensures
            final(self).wf(),
            e.id as int == old(self)@.len(),
            final(self)@ == (WorldView {
                alive: old(self)@.alive.push(true),
                positions: old(self)@.positions.push(bundle.position),
                rotations: old(self)@.rotations.push(bundle.rotation),
                angular_velocities: old(self)@.angular_velocities.push(bundle.angular_velocity),
                scales: old(self)@.scales.push(bundle.scale),
                inputs: old(self)@.inputs.push(bundle.keyboard_input),
                cameras: old(self)@.cameras.push(bundle.camera),
                move_speeds: old(self)@.move_speeds.push(bundle.move_speed),
                player_states: old(self)@.player_states.push(bundle.player_state),
                static_meshes: old(self)@.static_meshes.push(bundle.static_mesh),
                sprites: old(self)@.sprites.push(sprite_view_opt(bundle.sprite)),
                active_cameras: old(self)@.active_cameras.push(bundle.active_camera),
            }),
    {
        let e = Entity { id: self.alive.len() };
        self.alive.push(true);
        self.positions.push(bundle.position);
        self.rotations.push(bundle.rotation);
        self.angular_velocities.push(bundle.angular_velocity);
        self.scales.push(bundle.scale);
        self.inputs.push(bundle.keyboard_input);
        self.cameras.push(bundle.camera);
        self.move_speeds.push(bundle.move_speed);
        self.player_states.push(bundle.player_state);
        self.static_meshes.push(bundle.static_mesh);
        self.sprites.push(bundle.sprite);
        self.active_cameras.push(bundle.active_camera);
        proof {
            assert(sprites_view(self.sprites@) =~= sprites_view(old(self).sprites@).push(
                sprite_view_opt(bundle.sprite),
            ));
        }
        e
    }

    /// Remove an entity: the slot dies and every component it carried is
    /// dropped. Returns whether `e` named a live entity. The handle is
    /// never reused.
    pub fn despawn(&mut self, e: Entity) -> (found: bool)
        requires
            old(self).wf(),
        ensures
            final(self).wf(),
            found == old(self)@.alive_at(e.id as int),
            (e.id as int) < old(self)@.len() ==> final(self)@ == (WorldView {
                alive: old(self)@.alive.update(e.id as int, false),
                positions: old(self)@.positions.update(e.id as int, None),
                rotations: old(self)@.rotations.update(e.id as int, None),
                angular_velocities: old(self)@.angular_velocities.update(e.id as int, None),
                scales: old(self)@.scales.update(e.id as int, None),
                inputs: old(self)@.inputs.update(e.id as int, None),
                cameras: old(self)@.cameras.update(e.id as int, None),
                move_speeds: old(self)@.move_speeds.update(e.id as int, None),
                player_states: old(self)@.player_states.update(e.id as int, None),
                static_meshes: old(self)@.static_meshes.update(e.id as int, None),
                sprites: old(self)@.sprites.update(e.id as int, None),
                active_cameras: old(self)@.active_cameras.update(e.id as int, false),
            }),
            (e.id as int) >= old(self)@.len() ==> final(self)@ == old(self)@,
    {
        if e.id < self.alive.len() {
            let found = self.alive[e.id];
            self.alive[e.id] = false;
            self.positions[e.id] = None;
            self.rotations[e.id] = None;
            self.angular_velocities[e.id] = None;
            self.scales[e.id] = None;
            self.inputs[e.id] = None;
            self.cameras[e.id] = None;
            self.move_speeds[e.id] = None;
            self.player_states[e.id] = None;
            self.static_meshes[e.id] = None;
            self.sprites[e.id] = None;
            self.active_cameras[e.id] = false;
            proof {
                assert(sprites_view(self.sprites@) =~= sprites_view(old(self).sprites@).update(
                    e.id as int,
                    None,
                ));
            }
            found
        } else {
            false
        }
    }

    /// The `Position` of `e`, when `e` is live and carries one.
    pub fn position(&self, e: Entity) -> (r: Option<Position>)
        requires
            self.wf(),
        ensures
            r is Some <==> self@.has_position(e.id as int),
            r is Some ==> r == self@.positions[e.id as int],
    {
        if e.id < self.alive.len() && self.alive[e.id] {
            self.positions[e.id]
        } else {
            None
        }
    }

    /// Attach a `Position` to `e`, replacing any it already carries. A dead
    /// or unknown handle leaves the world unchanged.
    pub fn insert_position(&mut self, e: Entity, v: Position)
        requires
            old(self).wf(),
            v.wf(),
        ensures
            final(self).wf(),
            old(self)@.alive_at(e.id as int) ==> final(self)@ == (WorldView {
                positions: old(self)@.positions.update(e.id as int, Some(v)),
                ..old(self)@
            }),
            !old(self)@.alive_at(e.id as int) ==> final(self)@ == old(self)@,
    {
        if e.id < self.alive.len() && self.alive[e.id] {
            self.positions[e.id] = Some(v);
        }
    }

    /// Detach the `Position` of `e`, if it carries one. A dead or unknown
    /// handle leaves the world unchanged.
    pub fn remove_position(&mut self, e: Entity)
        requires
            old(self).wf(),
        ensures
            final(self).wf(),
            old(self)@.alive_at(e.id as int) ==> final(self)@ == (WorldView {
                positions: old(self)@.positions.update(e.id as int, None),
                ..old(self)@
            }),
            !old(self)@.alive_at(e.id as int) ==> final(self)@ == old(self)@,
    {
        if e.id < self.alive.len() && self.alive[e.id] {
            self.positions[e.id] = None;
        }
    }

    /// The `Rotation` of `e`, when `e` is live and carries one.
    pub fn rotation(&self, e: Entity) -> (r: Option<Rotation>)
        requires
            self.wf(),
        ensures
            r is Some <==> self@.has_rotation(e.id as int),
            r is Some ==> r == self@.rotations[e.id as int],
    {
        if e.id < self.alive.len() && self.alive[e.id] {
            self.rotations[e.id]
        } else {
            None
        }
    }

    /// Attach a `Rotation` to `e`, replacing any it already carries. A dead
    /// or unknown handle leaves the world unchanged.
    pub fn insert_rotation(&mut self, e: Entity, v: Rotation)
        requires
            old(self).wf(),
            v.wf(),
        ensures
            final(self).wf(),
            old(self)@.alive_at(e.id as int) ==> final(self)@ == (WorldView {
                rotations: old(self)@.rotations.update(e.id as int, Some(v)),
                ..old(self)@
            }),
            !old(self)@.alive_at(e.id as int) ==> final(self)@ == old(self)@,
    {
        if e.id < self.alive.len() && self.alive[e.id] {
            self.rotations[e.id] = Some(v);
        }
    }

    /// Detach the `Rotation` of `e`, if it carries one. A dead or unknown
    /// handle leaves the world unchanged.
    pub fn remove_rotation(&mut self, e: Entity)
        requires
            old(self).wf(),
        ensures
            final(self).wf(),
            old(self)@.alive_at(e.id as int) ==> final(self)@ == (WorldView {
                rotations: old(self)@.rotations.update(e.id as int, None),
                ..old(self)@
            }),
            !old(self)@.alive_at(e.id as int) ==> final(self)@ == old(self)@,
    {
        if e.id < self.alive.len() && self.alive[e.id] {
            self.rotations[e.id] = None;
        }
    }

    /// The `AngularVelocity` of `e`, when `e` is live and carries one.
    pub fn angular_velocity(&self, e: Entity) -> (r: Option<AngularVelocity>)
        requires
            self.wf(),
        ensures
            r is Some <==> self@.has_angular_velocity(e.id as int),
            r is Some ==> r == self@.angular_velocities[e.id as int],
    {
        if e.id < self.alive.len() && self.alive[e.id] {
            self.angular_velocities[e.id]
        } else {
            None
        }
    }

    /// Attach an `AngularVelocity` to `e`, replacing any it already carries. A dead
    /// or unknown handle leaves the world unchanged.
    pub fn insert_angular_velocity(&mut self, e: Entity, v: AngularVelocity)
        requires
            old(self).wf(),
            v.wf(),
        ensures
            final(self).wf(),
            old(self)@.alive_at(e.id as int) ==> final(self)@ == (WorldView {
                angular_velocities: old(self)@.angular_velocities.update(e.id as int, Some(v)),
                ..old(self)@
            }),
            !old(self)@.alive_at(e.id as int) ==> final(self)@ == old(self)@,
    {
        if e.id < self.alive.len() && self.alive[e.id] {
            self.angular_velocities[e.id] = Some(v);
        }
    }

    /// Detach the `AngularVelocity` of `e`, if it carries one. A dead or unknown
    /// handle leaves the world unchanged.
    pub fn remove_angular_velocity(&mut self, e: Entity)
        requires
            old(self).wf(),
        ensures
            final(self).wf(),
            old(self)@.alive_at(e.id as int) ==> final(self)@ == (WorldView {
                angular_velocities: old(self)@.angular_velocities.update(e.id as int, None),
                ..old(self)@
            }),
            !old(self)@.alive_at(e.id as int) ==> final(self)@ == old(self)@,
    {
        if e.id < self.alive.len() && self.alive[e.id] {
            self.angular_velocities[e.id] = None;
        }
    }

    /// The `Scale` of `e`, when `e` is live and carries one.
    pub fn scale(&self, e: Entity) -> (r: Option<Scale>)
        requires
            self.wf(),
        ensures
            r is Some <==> self@.has_scale(e.id as int),
            r is Some ==> r == self@.scales[e.id as int],
    {
        if e.id < self.alive.len() && self.alive[e.id] {
            self.scales[e.id]
        } else {
            None
        }
    }

    /// Attach a `Scale` to `e`, replacing any it already carries. A dead
    /// or unknown handle leaves the world unchanged.
    pub fn insert_scale(&mut self, e: Entity, v: Scale)
        requires
            old(self).wf(),
        ensures
            final(self).wf(),
            old(self)@.alive_at(e.id as int) ==> final(self)@ == (WorldView {
                scales: old(self)@.scales.update(e.id as int, Some(v)),
                ..old(self)@
            }),
            !old(self)@.alive_at(e.id as int) ==> final(self)@ == old(self)@,
    {
        if e.id < self.alive.len() && self.alive[e.id] {
            self.scales[e.id] = Some(v);
        }
    }

    /// Detach the `Scale` of `e`, if it carries one. A dead or unknown
    /// handle leaves the world unchanged.
    pub fn remove_scale(&mut self, e: Entity)
        requires
            old(self).wf(),
        ensures
            final(self).wf(),
            old(self)@.alive_at(e.id as int) ==> final(self)@ == (WorldView {
                scales: old(self)@.scales.update(e.id as int, None),
                ..old(self)@
            }),
            !old(self)@.alive_at(e.id as int) ==> final(self)@ == old(self)@,
    {
        if e.id < self.alive.len() && self.alive[e.id] {
            self.scales[e.id] = None;
        }
    }

    /// The `KeyboardInput` of `e`, when `e` is live and carries one.
    pub fn keyboard_input(&self, e: Entity) -> (r: Option<KeyboardInput>)
        requires
            self.wf(),
        ensures
            r is Some <==> self@.has_keyboard_input(e.id as int),
            r is Some ==> r == self@.inputs[e.id as int],
    {
        if e.id < self.alive.len() && self.alive[e.id] {
            self.inputs[e.id]
        } else {
            None
        }
    }

    /// Attach a `KeyboardInput` to `e`, replacing any it already carries. A dead
    /// or unknown handle leaves the world unchanged.
    pub fn insert_keyboard_input(&mut self, e: Entity, v: KeyboardInput)
        requires
            old(self).wf(),
        ensures
            final(self).wf(),
            old(self)@.alive_at(e.id as int) ==> final(self)@ == (WorldView {
                inputs: old(self)@.inputs.update(e.id as int, Some(v)),
                ..old(self)@
            }),
            !old(self)@.alive_at(e.id as int) ==> final(self)@ == old(self)@,
    {
        if e.id < self.alive.len() && self.alive[e.id] {
            self.inputs[e.id] = Some(v);
        }
    }

    /// Detach the `KeyboardInput` of `e`, if it carries one. A dead or unknown
    /// handle leaves the world unchanged.
    pub fn remove_keyboard_input(&mut self, e: Entity)
        requires
            old(self).wf(),
        ensures
            final(self).wf(),
            old(self)@.alive_at(e.id as int) ==> final(self)@ == (WorldView {
                inputs: old(self)@.inputs.update(e.id as int, None),
                ..old(self)@
            }),
            !old(self)@.alive_at(e.id as int) ==> final(self)@ == old(self)@,
    {
        if e.id < self.alive.len() && self.alive[e.id] {
            self.inputs[e.id] = None;
        }
    }

    /// The `ParallaxCamera` of `e`, when `e` is live and carries one.
    pub fn camera(&self, e: Entity) -> (r: Option<ParallaxCamera>)
        requires
            self.wf(),
        ensures
            r is Some <==> self@.has_camera(e.id as int),
            r is Some ==> r == self@.cameras[e.id as int],
    {
        if e.id < self.alive.len() && self.alive[e.id] {
            self.cameras[e.id]
        } else {
            None
        }
    }

    /// Attach a `ParallaxCamera` to `e`, replacing any it already carries. A dead
    /// or unknown handle leaves the world unchanged.
    pub fn insert_camera(&mut self, e: Entity, v: ParallaxCamera)
        requires
            old(self).wf(),
            v.wf(),
        ensures
            final(self).wf(),
            old(self)@.alive_at(e.id as int) ==> final(self)@ == (WorldView {
                cameras: old(self)@.cameras.update(e.id as int, Some(v)),
                ..old(self)@
            }),
            !old(self)@.alive_at(e.id as int) ==> final(self)@ == old(self)@,
    {
        if e.id < self.alive.len() && self.alive[e.id] {
            self.cameras[e.id] = Some(v);
        }
    }

    /// Detach the `ParallaxCamera` of `e`, if it carries one. A dead or unknown
    /// handle leaves the world unchanged.
    pub fn remove_camera(&mut self, e: Entity)
        requires
            old(self).wf(),
        ensures
            final(self).wf(),
            old(self)@.alive_at(e.id as int) ==> final(self)@ == (WorldView {
                cameras: old(self)@.cameras.update(e.id as int, None),
                ..old(self)@
            }),
            !old(self)@.alive_at(e.id as int) ==> final(self)@ == old(self)@,
    {
        if e.id < self.alive.len() && self.alive[e.id] {
            self.cameras[e.id] = None;
        }
    }

    /// The `MoveSpeed` of `e`, when `e` is live and carries one.
    pub fn move_speed(&self, e: Entity) -> (r: Option<MoveSpeed>)
        requires
            self.wf(),
        ensures
            r is Some <==> self@.has_move_speed(e.id as int),
            r is Some ==> r == self@.move_speeds[e.id as int],
    {
        if e.id < self.alive.len() && self.alive[e.id] {
            self.move_speeds[e.id]
        } else {
            None
        }
    }

    /// Attach a `MoveSpeed` to `e`, replacing any it already carries. A dead
    /// or unknown handle leaves the world unchanged.
    pub fn insert_move_speed(&mut self, e: Entity, v: MoveSpeed)
        requires
            old(self).wf(),
            v.wf(),
        ensures
            final(self).wf(),
            old(self)@.alive_at(e.id as int) ==> final(self)@ == (WorldView {
                move_speeds: old(self)@.move_speeds.update(e.id as int, Some(v)),
                ..old(self)@
            }),
            !old(self)@.alive_at(e.id as int) ==> final(self)@ == old(self)@,
    {
        if e.id < self.alive.len() && self.alive[e.id] {
            self.move_speeds[e.id] = Some(v);
        }
    }

    /// Detach the `MoveSpeed` of `e`, if it carries one. A dead or unknown
    /// handle leaves the world unchanged.
    pub fn remove_move_speed(&mut self, e: Entity)
        requires
            old(self).wf(),
        ensures
            final(self).wf(),
            old(self)@.alive_at(e.id as int) ==> final(self)@ == (WorldView {
                move_speeds: old(self)@.move_speeds.update(e.id as int, None),
                ..old(self)@
            }),
            !old(self)@.alive_at(e.id as int) ==> final(self)@ == old(self)@,
    {
        if e.id < self.alive.len() && self.alive[e.id] {
            self.move_speeds[e.id] = None;
        }
    }

    /// The `PlayerState` of `e`, when `e` is live and carries one.
    pub fn player_state(&self, e: Entity) -> (r: Option<PlayerState>)
        requires
            self.wf(),
        ensures
            r is Some <==> self@.has_player_state(e.id as int),
            r is Some ==> r == self@.player_states[e.id as int],
    {
        if e.id < self.alive.len() && self.alive[e.id] {
            self.player_states[e.id]
        } else {
            None
        }
    }

    /// Attach a `PlayerState` to `e`, replacing any it already carries. A dead
    /// or unknown handle leaves the world unchanged.
    pub fn insert_player_state(&mut self, e: Entity, v: PlayerState)
        requires
            old(self).wf(),
        ensures
            final(self).wf(),
            old(self)@.alive_at(e.id as int) ==> final(self)@ == (WorldView {
                player_states: old(self)@.player_states.update(e.id as int, Some(v)),
                ..old(self)@
            }),
            !old(self)@.alive_at(e.id as int) ==> final(self)@ == old(self)@,
    {
        if e.id < self.alive.len() && self.alive[e.id] {
            self.player_states[e.id] = Some(v);
        }
    }

    /// Detach the `PlayerState` of `e`, if it carries one. A dead or unknown
    /// handle leaves the world unchanged.
    pub fn remove_player_state(&mut self, e: Entity)
        requires
            old(self).wf(),
        ensures
            final(self).wf(),
            old(self)@.alive_at(e.id as int) ==> final(self)@ == (WorldView {
                player_states: old(self)@.player_states.update(e.id as int, None),
                ..old(self)@
            }),
            !old(self)@.alive_at(e.id as int) ==> final(self)@ == old(self)@,
    {
        if e.id < self.alive.len() && self.alive[e.id] {
            self.player_states[e.id] = None;
        }
    }

    /// The `StaticMesh` of `e`, when `e` is live and carries one.
    pub fn static_mesh(&self, e: Entity) -> (r: Option<StaticMesh>)
        requires
            self.wf(),
        ensures
            r is Some <==> self@.has_static_mesh(e.id as int),
            r is Some ==> r == self@.static_meshes[e.id as int],
    {
        if e.id < self.alive.len() && self.alive[e.id] {
            self.static_meshes[e.id]
        } else {
            None
        }
    }

    /// Attach a `StaticMesh` to `e`, replacing any it already carries. A dead
    /// or unknown handle leaves the world unchanged.
    pub fn insert_static_mesh(&mut self, e: Entity, v: StaticMesh)
        requires
            old(self).wf(),
        ensures
            final(self).wf(),
            old(self)@.alive_at(e.id as int) ==> final(self)@ == (WorldView {
                static_meshes: old(self)@.static_meshes.update(e.id as int, Some(v)),
                ..old(self)@
            }),
            !old(self)@.alive_at(e.id as int) ==> final(self)@ == old(self)@,
    {
        if e.id < self.alive.len() && self.alive[e.id] {
            self.static_meshes[e.id] = Some(v);
        }
    }

    /// Detach the `StaticMesh` of `e`, if it carries one. A dead or unknown
    /// handle leaves the world unchanged.
    pub fn remove_static_mesh(&mut self, e: Entity)
        requires
            old(self).wf(),
        ensures
            final(self).wf(),
            old(self)@.alive_at(e.id as int) ==> final(self)@ == (WorldView {
                static_meshes: old(self)@.static_meshes.update(e.id as int, None),
                ..old(self)@
            }),
            !old(self)@.alive_at(e.id as int) ==> final(self)@ == old(self)@,
    {
        if e.id < self.alive.len() && self.alive[e.id] {
            self.static_meshes[e.id] = None;
        }
    }

    /// The sprite of `e`, when `e` is live and carries one.
    pub fn sprite(&self, e: Entity) -> (r: Option<&Sprite>)
        requires
            self.wf(),
        ensures
            r is Some <==> self@.has_sprite(e.id as int),
            r matches Some(s) ==> Some(s@) == self@.sprites[e.id as int],
    {
        if e.id < self.alive.len() && self.alive[e.id] {
            self.sprites[e.id].as_ref()
        } else {
            None
        }
    }

    /// Attach a `Sprite` to `e`, replacing any it already carries. A dead
    /// or unknown handle leaves the world unchanged.
    pub fn insert_sprite(&mut self, e: Entity, s: Sprite)
        requires
            old(self).wf(),
        ensures
            final(self).wf(),
            old(self)@.alive_at(e.id as int) ==> final(self)@ == (WorldView {
                sprites: old(self)@.sprites.update(e.id as int, Some(s@)),
                ..old(self)@
            }),
            !old(self)@.alive_at(e.id as int) ==> final(self)@ == old(self)@,
    {
        if e.id < self.alive.len() && self.alive[e.id] {
            let ghost prev = sprites_view(self.sprites@);
            self.sprites[e.id] = Some(s);
            proof {
                assert(sprites_view(self.sprites@) =~= prev.update(e.id as int, Some(s@)));
            }
        }
    }

    /// Detach the `Sprite` of `e`, if it carries one. A dead or unknown
    /// handle leaves the world unchanged.
    pub fn remove_sprite(&mut self, e: Entity)
        requires
            old(self).wf(),
        ensures
            final(self).wf(),
            old(self)@.alive_at(e.id as int) ==> final(self)@ == (WorldView {
                sprites: old(self)@.sprites.update(e.id as int, None),
                ..old(self)@
            }),
            !old(self)@.alive_at(e.id as int) ==> final(self)@ == old(self)@,
    {
        if e.id < self.alive.len() && self.alive[e.id] {
            let ghost prev = sprites_view(self.sprites@);
            self.sprites[e.id] = None;
            proof {
                assert(sprites_view(self.sprites@) =~= prev.update(e.id as int, None));
            }
        }
    }

    /// Select the animation frame of the sprite `e` carries; without a
    /// sprite the world is unchanged.
    pub fn set_sprite_frame(&mut self, e: Entity, frame: u32)
        requires
            old(self).wf(),
        ensures
            final(self).wf(),
            old(self)@.has_sprite(e.id as int) ==> final(self)@ == (WorldView {
                sprites: old(self)@.sprites.update(
                    e.id as int,
                    Some(SpriteView { frame_id: frame, ..old(self)@.sprites[e.id as int]->Some_0 }),
                ),
                ..old(self)@
            }),
            !old(self)@.has_sprite(e.id as int) ==> final(self)@ == old(self)@,
    {
        if e.id < self.alive.len() && self.alive[e.id] {
            let renumbered: Option<Sprite> = match self.sprites[e.id].as_ref() {
                Some(sp) => Some(sp.with_frame(frame)),
                None => None,
            };
            if renumbered.is_some() {
                let ghost prev = sprites_view(self.sprites@);
                self.sprites[e.id] = renumbered;
                proof {
                    assert(sprites_view(self.sprites@) =~= prev.update(
                        e.id as int,
                        Some(SpriteView { frame_id: frame, ..prev[e.id as int]->Some_0 }),
                    ));
                }
            }
        }
    }

    /// Mark `e` as the active camera entity. A dead or unknown handle
    /// leaves the world unchanged.
    pub fn insert_active_camera(&mut self, e: Entity)
        requires
            old(self).wf(),
        ensures
            final(self).wf(),
            old(self)@.alive_at(e.id as int) ==> final(self)@ == (WorldView {
                active_cameras: old(self)@.active_cameras.update(e.id as int, true),
                ..old(self)@
            }),
            !old(self)@.alive_at(e.id as int) ==> final(self)@ == old(self)@,
    {
        if e.id < self.alive.len() && self.alive[e.id] {
            self.active_cameras[e.id] = true;
        }
    }

    /// Clear the active-camera marker of `e`. A dead or unknown handle
    /// leaves the world unchanged.
    pub fn remove_active_camera(&mut self, e: Entity)
        requires
            old(self).wf(),
        ensures
            final(self).wf(),
            old(self)@.alive_at(e.id as int) ==> final(self)@ == (WorldView {
                active_cameras: old(self)@.active_cameras.update(e.id as int, false),
                ..old(self)@
            }),
            !old(self)@.alive_at(e.id as int) ==> final(self)@ == old(self)@,
    {
        if e.id < self.alive.len() && self.alive[e.id] {
            self.active_cameras[e.id] = false;
        }
    }

    /// Whether `e` is live and carries the active-camera marker.
    pub fn has_active_camera(&self, e: Entity) -> (r: bool)
        requires
            self.wf(),
        ensures
            r == self@.has_active_camera(e.id as int),
    {
        e.id < self.alive.len() && self.alive[e.id] && self.active_cameras[e.id]
    }

    /// Whether slot `i` matches the mask.
    fn mask_match_at(&self, i: usize, mask: ComponentMask) -> (b: bool)
        requires
            self.wf(),
            (i as int) < self@.len(),
        ensures
            b == matches_mask(self@, mask, i as int),
    {
        self.alive[i]
        && (!mask.position || self.positions[i].is_some())
        && (!mask.rotation || self.rotations[i].is_some())
        && (!mask.angular_velocity || self.angular_velocities[i].is_some())
        && (!mask.scale || self.scales[i].is_some())
        && (!mask.keyboard_input || self.inputs[i].is_some())
        && (!mask.camera || self.cameras[i].is_some())
        && (!mask.move_speed || self.move_speeds[i].is_some())
        && (!mask.player_state || self.player_states[i].is_some())
        && (!mask.static_mesh || self.static_meshes[i].is_some())
        && (!mask.sprite || self.sprites[i].is_some())
        && (!mask.active_camera || self.active_cameras[i])
    }

    /// The entities carrying every component kind the mask requests, in
    /// ascending handle order. No match is not an error: the answer is
    /// empty.
    pub fn query(&self, mask: ComponentMask) -> (r: Vec<Entity>)
        requires
            self.wf(),
        ensures
            r@ == query_ids_upto(self@, mask, self@.len()),
    {
        let mut r: Vec<Entity> = Vec::new();
        let n: usize = self.alive.len();
        let mut i: usize = 0;
        while i < n
            invariant
                self.wf(),
                n as int == self@.len(),
                i <= n,
                r@ == query_ids_upto(self@, mask, i as int),
            decreases n - i,
        {
            if self.mask_match_at(i, mask) {
                r.push(Entity { id: i });
            }
            i = i + 1;
        }
        r
    }
}

/// The first `n` query answers contain an entity exactly when its slot is
/// below `n` and matches the mask.
proof fn lemma_query_upto_contains(w: WorldView, m: ComponentMask, e: Entity, n: int)
    requires
        0 <= n <= usize::MAX,
    ensures
        query_ids_upto(w, m, n).contains(e) <==> ((e.id as int) < n && matches_mask(
            w,
            m,
            e.id as int,
        )),
    decreases n,
{
    if n > 0 {
        lemma_query_upto_contains(w, m, e, n - 1);
        let prev = query_ids_upto(w, m, n - 1);
        if matches_mask(w, m, n - 1) {
            let en = Entity { id: (n - 1) as usize };
            assert(prev.push(en)[prev.len() as int] == en);
            assert(forall|k: int| 0 <= k < prev.len() ==> prev.push(en)[k] == prev[k]);
            if query_ids_upto(w, m, n).contains(e) {
                let k = choose|k: int|
                    0 <= k < prev.push(en).len() && prev.push(en)[k] == e;
                if k < prev.len() {
                    assert(prev.contains(e));
                }
            }
            if (e.id as int) < n && matches_mask(w, m, e.id as int) {
                if e.id as int == n - 1 {
                    assert(prev.push(en)[prev.len() as int] == e);
                }
            }
        }
    }
}

/// Query conjunction: the query yields an entity exactly when the entity
/// is live and possesses every component kind the mask requests.
pub proof fn lemma_query_conjunction(w: WorldView, m: ComponentMask, e: Entity)
    requires
        w.len() <= usize::MAX,
    ensures
        query_ids_upto(w, m, w.len()).contains(e) <==> matches_mask(w, m, e.id as int),
{
    lemma_query_upto_contains(w, m, e, w.len());
}

} // verus!
