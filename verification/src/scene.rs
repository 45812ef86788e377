//! The scene builder: a pure projection of current `World` state into a
//! render-ready value, instance transforms batched by sprite key plus the
//! active camera's parameters.
use crate::components::ParallaxCamera;
use crate::math::{model_matrix, model_matrix_v, Mat4Fx, Mat4V};
use crate::world::{Entity, World, WorldView};
use vstd::prelude::*;

verus! {

/// One draw-ready instance: a world transform and the animation frame to
/// show.
#[derive(Clone, Copy, PartialEq, Eq, Structural, Debug)]
pub struct InstanceRaw {
    pub model: Mat4Fx,
    pub frame_id: u32,
}

/// The mathematical value of an `InstanceRaw`.
pub ghost struct InstanceV {
    pub model: Mat4V,
    pub frame_id: u32,
}

impl View for InstanceRaw {
    type V = InstanceV;

    open spec fn view(&self) -> InstanceV {
        InstanceV { model: self.model@, frame_id: self.frame_id }
    }
}

/// All instances sharing one sprite key, in world iteration order, so the
/// render layer can draw them in a single call.
pub struct SpriteBatch {
    pub id: String,
    pub instances: Vec<InstanceRaw>,
}

/// The mathematical value of a `SpriteBatch`.
pub ghost struct BatchV {
    pub id: Seq<char>,
    pub instances: Seq<InstanceV>,
}

/// The views of a sequence of instances.
pub open spec fn insts_view(s: Seq<InstanceRaw>) -> Seq<InstanceV> {
    Seq::new(s.len(), |i: int| s[i]@)
}

impl View for SpriteBatch {
    type V = BatchV;

    open spec fn view(&self) -> BatchV {
        BatchV { id: self.id@, instances: insts_view(self.instances@) }
    }
}

/// The views of a sequence of batches.
pub open spec fn seq_batch_view(s: Seq<SpriteBatch>) -> Seq<BatchV> {
    Seq::new(s.len(), |i: int| s[i]@)
}

/// Why a scene could not be built.
#[derive(Clone, Copy, PartialEq, Eq, Structural, Debug)]
pub enum SceneError {
    /// No live entity carries both the active-camera marker and camera
    /// parameters; there is no sensible default camera to synthesize.
    NoActiveCamera,
}

impl SceneError {
    /// A diagnostic description of the failure.
    pub fn message(&self) -> (m: &'static str)
        ensures
            m@ == "no active camera entity"@,
    {
        "no active camera entity"
    }
}

/// The render-ready projection of one frame: instance batches keyed by
/// sprite, and the camera parameters the view transform derives from.
pub struct Scene {
    pub sprite_instances: Vec<SpriteBatch>,
    pub camera: ParallaxCamera,
}

/// The mathematical value of a `Scene`.
pub ghost struct SceneV {
    pub batches: Seq<BatchV>,
    pub camera: ParallaxCamera,
}

impl View for Scene {
    type V = SceneV;

    open spec fn view(&self) -> SceneV {
        SceneV { batches: seq_batch_view(self.sprite_instances@), camera: self.camera }
    }
}

/// Entity `i` is live and carries everything a drawn instance needs:
/// position, rotation, scale and a sprite.
pub open spec fn renderable(w: WorldView, i: int) -> bool {
    &&& w.has_position(i)
    &&& w.has_rotation(i)
    &&& w.has_scale(i)
    &&& w.has_sprite(i)
}

/// The instance entity `i` contributes: its composed world transform and
/// its current animation frame.
pub open spec fn instance_at(w: WorldView, i: int) -> InstanceV {
    InstanceV {
        model: model_matrix_v(
            w.positions[i]->Some_0.0,
            w.rotations[i]->Some_0.0,
            w.scales[i]->Some_0.0,
        ),
        frame_id: w.sprites[i]->Some_0.frame_id,
    }
}

/// The sprite key of entity `i`.
pub open spec fn sprite_key(w: WorldView, i: int) -> Seq<char> {
    w.sprites[i]->Some_0.id
}

/// The index of the first batch keyed `k`, or -1 when none is.
pub open spec fn batch_index_of(bs: Seq<BatchV>, k: Seq<char>) -> int
    decreases bs.len(),
{
    if bs.len() == 0 {
        -1
    } else if bs[0].id == k {
        0
    } else {
        let r = batch_index_of(bs.drop_first(), k);
        if r == -1 {
            -1
        } else {
            r + 1
        }
    }
}

/// One instance appended to the batch of its key: onto the existing batch
/// when the key is present, else as a fresh batch at the end.
pub open spec fn add_instance(bs: Seq<BatchV>, k: Seq<char>, inst: InstanceV) -> Seq<BatchV> {
    let i = batch_index_of(bs, k);
    if i == -1 {
        bs.push(BatchV { id: k, instances: seq![inst] })
    } else {
        bs.update(i, BatchV { id: k, instances: bs[i].instances.push(inst) })
    }
}

/// The batches the first `n` entities produce, in world iteration order.
pub open spec fn batches_upto(w: WorldView, n: int) -> Seq<BatchV>
    decreases n,
{
    if n <= 0 {
        Seq::empty()
    } else if renderable(w, n - 1) {
        add_instance(batches_upto(w, n - 1), sprite_key(w, n - 1), instance_at(w, n - 1))
    } else {
        batches_upto(w, n - 1)
    }
}

/// All instance batches of the world, grouped by sprite key.
pub open spec fn scene_batches(w: WorldView) -> Seq<BatchV> {
    batches_upto(w, w.len())
}

/// The instances of the renderable entities among the first `n` whose
/// sprite key is `k`, in world iteration order.
pub open spec fn group_upto(w: WorldView, k: Seq<char>, n: int) -> Seq<InstanceV>
    decreases n,
{
    if n <= 0 {
        Seq::empty()
    } else if renderable(w, n - 1) && sprite_key(w, n - 1) == k {
        group_upto(w, k, n - 1).push(instance_at(w, n - 1))
    } else {
        group_upto(w, k, n - 1)
    }
}

/// The first slot at or past `i` holding a live entity with both the
/// active-camera marker and camera parameters, or -1 when none is.
pub open spec fn camera_index_from(w: WorldView, i: int) -> int
    decreases w.len() - i,
{
    if i < 0 || i >= w.len() {
        -1
    } else if w.has_active_camera(i) && w.has_camera(i) {
        i
    } else {
        camera_index_from(w, i + 1)
    }
}

/// The slot of the entity whose camera drives the scene: the first live
/// entity carrying both the marker and camera parameters, or -1.
pub open spec fn active_camera_index(w: WorldView) -> int {
    camera_index_from(w, 0)
}

/// What `batch_index_of` finds is the first batch keyed `k`; -1 means no
/// batch is.
pub proof fn lemma_batch_index_of_props(bs: Seq<BatchV>, k: Seq<char>)
    ensures
        batch_index_of(bs, k) >= -1,
        batch_index_of(bs, k) == -1 ==> forall|i: int| 0 <= i < bs.len() ==> (#[trigger] bs[i].id)
            != k,
        batch_index_of(bs, k) >= 0 ==> 0 <= batch_index_of(bs, k) < bs.len() && bs[batch_index_of(
            bs,
            k,
        )].id == k,
        batch_index_of(bs, k) >= 0 ==> forall|i: int| 0 <= i < batch_index_of(bs, k) ==> (
        #[trigger] bs[i].id) != k,
    decreases bs.len(),
{
    if bs.len() > 0 && bs[0].id != k {
        let rest = bs.drop_first();
        lemma_batch_index_of_props(rest, k);
        if batch_index_of(bs, k) == -1 {
            assert forall|i: int| 0 <= i < bs.len() implies (#[trigger] bs[i].id) != k by {
                if i > 0 {
                    assert(rest[i - 1] == bs[i]);
                }
            }
        } else {
            let g = batch_index_of(bs, k);
            assert(rest[g - 1] == bs[g]);
            assert forall|i: int| 0 <= i < g implies (#[trigger] bs[i].id) != k by {
                if i > 0 {
                    assert(rest[i - 1] == bs[i]);
                }
            }
        }
    }
}

/// Appending a batch leaves the index of every present key unchanged; an
/// absent key is found only when the new batch carries it.
pub proof fn lemma_batch_index_of_push(bs: Seq<BatchV>, b: BatchV, k: Seq<char>)
    ensures
        batch_index_of(bs, k) >= 0 ==> batch_index_of(bs.push(b), k) == batch_index_of(bs, k),
        batch_index_of(bs, k) == -1 && b.id == k ==> batch_index_of(bs.push(b), k) == bs.len(),
        batch_index_of(bs, k) == -1 && b.id != k ==> batch_index_of(bs.push(b), k) == -1,
    decreases bs.len(),
{
    let p = bs.push(b);
    if bs.len() == 0 {
        assert(p[0] == b);
        if b.id == k {
            assert(batch_index_of(p, k) == 0);
        } else {
            assert(p.drop_first() =~= Seq::<BatchV>::empty());
            assert(batch_index_of(p.drop_first(), k) == -1);
            assert(batch_index_of(p, k) == -1);
        }
    } else {
        assert(p[0] == bs[0]);
        if bs[0].id != k {
            assert(p.drop_first() =~= bs.drop_first().push(b));
            lemma_batch_index_of_push(bs.drop_first(), b, k);
            lemma_batch_index_of_props(bs.drop_first(), k);
        }
    }
}

/// The index of a key depends only on the batch keys: replacing a batch
/// with one of the same key moves no index.
pub proof fn lemma_batch_index_of_same_ids(bs1: Seq<BatchV>, bs2: Seq<BatchV>, k: Seq<char>)
    requires
        bs1.len() == bs2.len(),
        forall|i: int| 0 <= i < bs1.len() ==> (#[trigger] bs1[i].id) == bs2[i].id,
    ensures
        batch_index_of(bs1, k) == batch_index_of(bs2, k),
    decreases bs1.len(),
{
    if bs1.len() > 0 {
        assert(bs1[0].id == bs2[0].id);
        if bs1[0].id != k {
            let r1 = bs1.drop_first();
            let r2 = bs2.drop_first();
            assert(forall|i: int| 0 <= i < r1.len() ==> (#[trigger] r1[i].id) == r2[i].id) by {
                assert(forall|i: int| 0 <= i < r1.len() ==> r1[i] == bs1[i + 1] && r2[i] == bs2[i
                    + 1]);
            }
            lemma_batch_index_of_same_ids(r1, r2, k);
        }
    }
}

/// Grouping: among the first `n` entities, a batch for key `k` exists
/// exactly when some renderable entity carries `k`, and that batch holds
/// precisely the instances of those entities, in world order. Entities
/// sharing a key share a batch; entities with different keys never do.
pub proof fn lemma_grouping_upto(w: WorldView, k: Seq<char>, n: int)
    ensures
        batch_index_of(batches_upto(w, n), k) >= 0 <==> group_upto(w, k, n).len() > 0,
        batch_index_of(batches_upto(w, n), k) >= 0 ==> batches_upto(w, n)[batch_index_of(
            batches_upto(w, n),
            k,
        )].instances == group_upto(w, k, n),
    decreases n,
{
    if n > 0 {
        lemma_grouping_upto(w, k, n - 1);
        let bs = batches_upto(w, n - 1);
        lemma_batch_index_of_props(bs, k);
        if renderable(w, n - 1) {
            let kk = sprite_key(w, n - 1);
            let inst = instance_at(w, n - 1);
            let j = batch_index_of(bs, kk);
            lemma_batch_index_of_props(bs, kk);
            if kk == k {
                if j == -1 {
                    lemma_batch_index_of_push(bs, BatchV { id: k, instances: seq![inst] }, k);
                    assert(group_upto(w, k, n - 1) =~= Seq::empty());
                    assert(batches_upto(w, n)[bs.len() as int].instances =~= seq![inst]);
                    assert(group_upto(w, k, n) =~= seq![inst]);
                } else {
                    let nb = BatchV { id: k, instances: bs[j].instances.push(inst) };
                    let bs2 = bs.update(j, nb);
                    assert(forall|i: int| 0 <= i < bs.len() ==> (#[trigger] bs[i].id) == bs2[i].id);
                    lemma_batch_index_of_same_ids(bs, bs2, k);
                }
            } else {
                if j == -1 {
                    lemma_batch_index_of_push(bs, BatchV { id: kk, instances: seq![inst] }, k);
                } else {
                    let nb = BatchV { id: kk, instances: bs[j].instances.push(inst) };
                    let bs2 = bs.update(j, nb);
                    assert(forall|i: int| 0 <= i < bs.len() ==> (#[trigger] bs[i].id) == bs2[i].id);
                    lemma_batch_index_of_same_ids(bs, bs2, k);
                    if batch_index_of(bs, k) >= 0 {
                        assert(bs[batch_index_of(bs, k)].id == k);
                        assert(bs[j].id == kk);
                        assert(batch_index_of(bs, k) != j);
                    }
                }
            }
        }
    }
}

/// Grouping over the whole world: each sprite key names at most one batch,
/// holding exactly the instances of the renderable entities with that key.
pub proof fn lemma_grouping(w: WorldView, k: Seq<char>)
    ensures
        batch_index_of(scene_batches(w), k) >= 0 <==> group_upto(w, k, w.len()).len() > 0,
        batch_index_of(scene_batches(w), k) >= 0 ==> scene_batches(w)[batch_index_of(
            scene_batches(w),
            k,
        )].instances == group_upto(w, k, w.len()),
{
    lemma_grouping_upto(w, k, w.len());
}


/// The batch keys of any prefix are pairwise distinct: a fresh batch is
/// only ever opened for a key no existing batch carries.
proof fn lemma_batch_keys_distinct_upto(w: WorldView, n: int)
    ensures
        forall|j1: int, j2: int|
            0 <= j1 < j2 < batches_upto(w, n).len() ==> (#[trigger] batches_upto(w, n)[j1].id)
                != (#[trigger] batches_upto(w, n)[j2].id),
    decreases n,
{
    if n > 0 {
        lemma_batch_keys_distinct_upto(w, n - 1);
        let bs = batches_upto(w, n - 1);
        let nb = batches_upto(w, n);
        if renderable(w, n - 1) {
            let kk = sprite_key(w, n - 1);
            lemma_batch_index_of_props(bs, kk);
            let j = batch_index_of(bs, kk);
            if j == -1 {
                assert forall|j1: int, j2: int| 0 <= j1 < j2 < nb.len() implies nb[j1].id
                    != nb[j2].id by {
                    if j2 == nb.len() - 1 {
                        assert(nb[j1] == bs[j1]);
                        assert(nb[j2].id == kk);
                    } else {
                        assert(nb[j1] == bs[j1]);
                        assert(nb[j2] == bs[j2]);
                    }
                }
            } else {
                assert forall|j1: int, j2: int| 0 <= j1 < j2 < nb.len() implies nb[j1].id
                    != nb[j2].id by {
                    assert(nb[j1].id == bs[j1].id);
                    assert(nb[j2].id == bs[j2].id);
                }
            }
        }
    }
}

/// Each sprite key owns at most one batch of the scene: the batch keys are
/// pairwise distinct, so entities with different keys never share a list.
pub proof fn lemma_scene_keys_distinct(w: WorldView)
    ensures
        forall|j1: int, j2: int|
            0 <= j1 < j2 < scene_batches(w).len() ==> (#[trigger] scene_batches(w)[j1].id) != (
            #[trigger] scene_batches(w)[j2].id),
{
    lemma_batch_keys_distinct_upto(w, w.len());
}

/// What `camera_index_from` finds is the first live slot at or past `i`
/// with both the marker and camera parameters; -1 means none exists.
pub proof fn lemma_camera_index_from_props(w: WorldView, i: int)
    requires
        0 <= i,
    ensures
        camera_index_from(w, i) == -1 || (i <= camera_index_from(w, i) < w.len()),
        camera_index_from(w, i) >= 0 ==> w.has_active_camera(camera_index_from(w, i))
            && w.has_camera(camera_index_from(w, i)),
        camera_index_from(w, i) >= 0 ==> forall|j: int|
            i <= j < camera_index_from(w, i) ==> !(#[trigger] w.has_active_camera(j))
                || !w.has_camera(j),
        camera_index_from(w, i) == -1 ==> forall|j: int|
            i <= j < w.len() ==> !(#[trigger] w.has_active_camera(j)) || !w.has_camera(j),
    decreases w.len() - i,
{
    if 0 <= i < w.len() && !(w.has_active_camera(i) && w.has_camera(i)) {
        lemma_camera_index_from_props(w, i + 1);
    }
}

/// Active-camera singleton, the failing half: when no live entity carries
/// the active-camera marker, no camera index exists and the scene build
/// fails.
pub proof fn lemma_no_active_camera(w: WorldView)
    requires
        forall|i: int| 0 <= i < w.len() ==> !(#[trigger] w.has_active_camera(i)),
    ensures
        active_camera_index(w) == -1,
{
    lemma_camera_index_from_props(w, 0);
    if active_camera_index(w) >= 0 {
        assert(w.has_active_camera(active_camera_index(w)));
    }
}

/// Active-camera singleton, the unique half: when exactly one live entity
/// carries both the marker and camera parameters, that entity's slot is
/// the active camera index, so its parameters populate the scene.
pub proof fn lemma_active_camera_singleton(w: WorldView, i: int)
    requires
        0 <= i < w.len(),
        w.has_active_camera(i),
        w.has_camera(i),
        forall|j: int|
            0 <= j < w.len() && j != i ==> !(#[trigger] w.has_active_camera(j)) || !w.has_camera(
                j,
            ),
    ensures
        active_camera_index(w) == i,
{
    lemma_camera_index_from_props(w, 0);
    let g = active_camera_index(w);
    if g == -1 {
        assert(!w.has_active_camera(i) || !w.has_camera(i));
    } else if g != i {
        assert(!(w.has_active_camera(g) && w.has_camera(g)) || !(w.has_active_camera(i)
            && w.has_camera(i)));
    }
}

/// The index of the first batch keyed like `key`, if any batch is.
fn find_batch(batches: &Vec<SpriteBatch>, key: &String) -> (r: Option<usize>)
    ensures
        r matches Some(j) ==> j as int == batch_index_of(seq_batch_view(batches@), key@),
        r is None ==> batch_index_of(seq_batch_view(batches@), key@) == -1,
{
    let n: usize = batches.len();
    let mut j: usize = 0;
    while j < n
        invariant
            n == batches@.len(),
            j <= n,
            forall|jj: int| 0 <= jj < j ==> seq_batch_view(batches@)[jj].id != key@,
        decreases n - j,
    {
        if batches[j].id == *key {
            proof {
                assert(seq_batch_view(batches@)[j as int].id == key@);
                lemma_batch_index_of_props(seq_batch_view(batches@), key@);
            }
            return Some(j);
        }
        j = j + 1;
    }
    proof {
        lemma_batch_index_of_props(seq_batch_view(batches@), key@);
    }
    None
}

/// Project the world into a render-ready scene: one instance per entity
/// carrying position, rotation, scale and a sprite, batched by sprite key
/// in world iteration order, plus the parameters of the active camera.
/// With no active camera the frame fails with a diagnostic error rather
/// than synthesizing a default camera.
pub fn build_scene(world: &World) -> (r: Result<Scene, SceneError>)
    requires
        world.wf(),
    ensures
        r is Ok <==> active_camera_index(world@) >= 0,
        r matches Err(e) ==> e == SceneError::NoActiveCamera && active_camera_index(world@) == -1,
        r matches Ok(s) ==> s@.batches == scene_batches(world@) && s@.camera
            == world@.cameras[active_camera_index(world@)]->Some_0,
{
    let n: usize = world.num_entities();
    let mut batches: Vec<SpriteBatch> = Vec::new();
    let mut i: usize = 0;
    proof {
        assert(seq_batch_view(batches@) =~= batches_upto(world@, 0));
    }
    while i < n
        invariant
            world.wf(),
            n as int == world@.len(),
            i <= n,
            seq_batch_view(batches@) == batches_upto(world@, i as int),
        decreases n - i,
    {
        let e = Entity { id: i };
        let pos = world.position(e);
        let rot = world.rotation(e);
        let sc = world.scale(e);
        let ghost prev = seq_batch_view(batches@);
        match (pos, rot, sc, world.sprite(e)) {
            (Some(p), Some(q), Some(s), Some(sp)) => {
                let m = model_matrix(p.0, q.0, s.0);
                let inst = InstanceRaw { model: m, frame_id: sp.frame() };
                let key: String = sp.id().to_owned();
                proof {
                    assert(renderable(world@, i as int));
                    assert(inst@ == instance_at(world@, i as int));
                    assert(key@ == sprite_key(world@, i as int));
                }
                match find_batch(&batches, &key) {
                    Some(j) => {
                        proof {
                            lemma_batch_index_of_props(prev, key@);
                        }
                        let mut sb = batches.remove(j);
                        sb.instances.push(inst);
                        batches.insert(j, sb);
                        proof {
                            assert(insts_view(batches@[j as int].instances@) =~= prev[
                                j as int
                            ].instances.push(inst@));
                            assert(seq_batch_view(batches@) =~= prev.update(
                                j as int,
                                (BatchV {
                                    id: key@,
                                    instances: prev[j as int].instances.push(inst@),
                                }),
                            ));
                        }
                    },
                    None => {
                        let mut iv: Vec<InstanceRaw> = Vec::new();
                        iv.push(inst);
                        proof {
                            assert(insts_view(iv@) =~= seq![inst@]);
                        }
                        batches.push(SpriteBatch { id: key, instances: iv });
                        proof {
                            assert(seq_batch_view(batches@) =~= prev.push(
                                (BatchV { id: key@, instances: seq![inst@] }),
                            ));
                        }
                    },
                }
            },
            _ => {
                proof {
                    assert(!renderable(world@, i as int));
                }
            },
        }
        i = i + 1;
    }
    let mut cam: Option<ParallaxCamera> = None;
    let mut j: usize = 0;
    while j < n
        invariant
            world.wf(),
            n as int == world@.len(),
            j <= n,
            cam is None ==> active_camera_index(world@) == camera_index_from(world@, j as int),
            cam matches Some(c) ==> active_camera_index(world@) >= 0 && world@.cameras[
                active_camera_index(world@)
            ] == Some(c),
        decreases n - j,
    {
        if cam.is_none() {
            let e = Entity { id: j };
            if world.has_active_camera(e) {
                match world.camera(e) {
                    Some(c) => {
                        cam = Some(c);
                    },
                    None => {
                    },
                }
            }
        }
        j = j + 1;
    }
    match cam {
        Some(c) => Ok(Scene { sprite_instances: batches, camera: c }),
        None => Err(SceneError::NoActiveCamera),
    }
}

} // verus!
