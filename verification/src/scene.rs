//! A scene: two independent object sets, one per screen, and per screen
//! an optional reference to the object carrying the active camera.
//! Rendering a screen resolves that screen's active camera; a missing or
//! camera-less reference skips that screen only and reports it, leaving
//! the other screen untouched.

use vstd::prelude::*;

use crate::camera::Camera;
use crate::error::EngineError;
use crate::mesh::Texture;
use crate::objects::{fresh_uuid, uniform_block, uniform_block_at, Object};
use crate::renderer::{draw_t, ContextBinding, DrawCommand, PrismRenderer, ScreenId};
use crate::shader::{Shader, UniformWrite};

verus! {

/// Every object in the set is well-formed.
pub open spec fn objects_wf(s: Seq<Object>) -> bool {
    forall|i: int| 0 <= i < s.len() ==> (#[trigger] s[i]).wf()
}

/// No two objects in the set share an identity.
pub open spec fn ids_unique(s: Seq<Object>) -> bool {
    forall|i: int, j: int|
        0 <= i < j < s.len() ==> (#[trigger] s[i]).id != (#[trigger] s[j]).id
}

/// The screen's active-camera reference points at an object of the set
/// that carries a camera component.
pub open spec fn resolves_camera(objs: Seq<Object>, cam: Option<u128>) -> bool {
    cam matches Some(id) && exists|i: int|
        0 <= i < objs.len() && (#[trigger] objs[i]).id == id && objs[i].camera is Some
}

/// The number of mesh-carrying objects among the first `k` of the set.
pub open spec fn meshes_before(objs: Seq<Object>, k: int) -> int
    decreases k,
{
    if k <= 0 {
        0
    } else {
        meshes_before(objs, k - 1) + if objs[k - 1].mesh_instance is Some {
            1int
        } else {
            0int
        }
    }
}

/// The number of mesh-carrying objects in the whole set.
pub open spec fn mesh_object_count(objs: Seq<Object>) -> int {
    meshes_before(objs, objs.len() as int)
}

/// The mesh count over a prefix never decreases as the prefix grows.
pub proof fn lemma_meshes_before_mono(objs: Seq<Object>, j: int, k: int)
    requires
        0 <= j <= k,
    ensures
        meshes_before(objs, j) <= meshes_before(objs, k),
    decreases k - j,
{
    if j < k {
        lemma_meshes_before_mono(objs, j, k - 1);
    }
}

/// The camera component of the object the screen's active-camera
/// reference resolves to (meaningful when `resolves_camera` holds).
pub open spec fn resolved_camera(objs: Seq<Object>, cam: Option<u128>) -> Camera {
    let i = choose|i: int|
        0 <= i < objs.len() && (#[trigger] objs[i]).id == cam->0 && objs[i].camera is Some;
    objs[i].camera->0.prism_camera
}

/// What object `k` of a pass contributes, at its computed positions: a
/// mesh-carrying object owns the submission at `c_base` plus the number
/// of mesh objects before it, and the eleven uniform writes starting at
/// `w_base` plus eleven per mesh object before it; other objects
/// contribute nothing.
pub open spec fn obj_submission_at(
    objs: Seq<Object>,
    k: int,
    cam: Camera,
    target: ScreenId,
    shader_id: u32,
    c_base: int,
    w_base: int,
    cmds: Seq<DrawCommand>,
    ws: Seq<UniformWrite>,
) -> bool {
    objs[k].mesh_instance matches Some(mc) ==> ({
        let ci = c_base + meshes_before(objs, k);
        let wi = w_base + 11 * meshes_before(objs, k);
        &&& (cmds[ci] matches DrawCommand::DrawMesh {
            target: t, vao, index_count, texture_ids, shader_id: sid, model }
            && t == target
            && vao == mc.mesh.vao
            && index_count == mc.mesh.indices@.len()
            && texture_ids@ == mc.mesh.textures@.map_values(|tx: Texture| tx.id)
            && sid == shader_id
            && model@ == mc.mesh.model@)
        &&& uniform_block_at(ws, wi, cam)
    })
}

/// Everything one screen's render pass does once its camera resolved and
/// a display is bound: exactly one submission per mesh-carrying object,
/// in set order, each with that object's vertex array, index count,
/// texture references and model matrix, preceded by its eleven uniform
/// writes -- and nothing else.
pub open spec fn render_pass_full(
    objs: Seq<Object>,
    cam: Camera,
    target: ScreenId,
    r0: PrismRenderer,
    r1: PrismRenderer,
    s0: Shader,
    s1: Shader,
) -> bool {
    &&& r1 == (PrismRenderer { commands: r1.commands, ..r0 })
    &&& r1.commands@.len() == r0.commands@.len() + mesh_object_count(objs)
    &&& r1.commands@.subrange(0, r0.commands@.len() as int) == r0.commands@
    &&& s1.id == s0.id
    &&& s1.writes@.len() == s0.writes@.len() + 11 * mesh_object_count(objs)
    &&& s1.writes@.subrange(0, s0.writes@.len() as int) == s0.writes@
    &&& forall|k: int|
        0 <= k < objs.len() ==> obj_submission_at(objs, k, cam, target, s0.id,
            r0.commands@.len() as int, s0.writes@.len() as int, r1.commands@,
            s1.writes@)
}

/// Per-object submission facts survive any extension of the command and
/// write logs that preserves their prefixes.
pub proof fn lemma_submissions_persist(
    objs: Seq<Object>,
    cam: Camera,
    target: ScreenId,
    shader_id: u32,
    c_base: int,
    w_base: int,
    cmds1: Seq<DrawCommand>,
    ws1: Seq<UniformWrite>,
    cmds2: Seq<DrawCommand>,
    ws2: Seq<UniformWrite>,
    hi: int,
)
    requires
        0 <= hi <= objs.len(),
        0 <= c_base,
        0 <= w_base,
        c_base + meshes_before(objs, hi) <= cmds1.len(),
        w_base + 11 * meshes_before(objs, hi) <= ws1.len(),
        cmds1.len() <= cmds2.len(),
        cmds2.subrange(0, cmds1.len() as int) == cmds1,
        ws1.len() <= ws2.len(),
        ws2.subrange(0, ws1.len() as int) == ws1,
        forall|j: int|
            0 <= j < hi ==> obj_submission_at(objs, j, cam, target, shader_id, c_base,
                w_base, cmds1, ws1),
    ensures
        forall|j: int|
            0 <= j < hi ==> obj_submission_at(objs, j, cam, target, shader_id, c_base,
                w_base, cmds2, ws2),
{
    assert forall|j: int|
        0 <= j < hi implies obj_submission_at(objs, j, cam, target, shader_id, c_base,
            w_base, cmds2, ws2) by {
        assert(obj_submission_at(objs, j, cam, target, shader_id, c_base, w_base,
            cmds1, ws1));
        if objs[j].mesh_instance is Some {
            lemma_meshes_before_mono(objs, 0, j);
            lemma_meshes_before_mono(objs, j + 1, hi);
            assert(meshes_before(objs, j + 1) == meshes_before(objs, j) + 1);
            let ci = c_base + meshes_before(objs, j);
            let wi = w_base + 11 * meshes_before(objs, j);
            assert(cmds2[ci] == cmds2.subrange(0, cmds1.len() as int)[ci]);
            assert(cmds2[ci] == cmds1[ci]);
            assert(ws2[wi] == ws1[wi]);
            assert(ws2[wi + 1] == ws1[wi + 1]);
            assert(ws2[wi + 2] == ws1[wi + 2]);
            assert(ws2[wi + 3] == ws1[wi + 3]);
            assert(ws2[wi + 4] == ws1[wi + 4]);
            assert(ws2[wi + 5] == ws1[wi + 5]);
            assert(ws2[wi + 6] == ws1[wi + 6]);
            assert(ws2[wi + 7] == ws1[wi + 7]);
            assert(ws2[wi + 8] == ws1[wi + 8]);
            assert(ws2[wi + 9] == ws1[wi + 9]);
            assert(ws2[wi + 10] == ws1[wi + 10]);
        }
    }
}

/// A scene: per-screen object sets and active-camera references.
#[derive(Debug)]
pub struct Scene {
    pub id: u128,
    pub upper_screen_camera_id: Option<u128>,
    pub lower_screen_camera_id: Option<u128>,
    pub upper_screen_objects: Vec<Object>,
    pub lower_screen_objects: Vec<Object>,
}

impl Scene {
    /// Both object sets hold well-formed objects with pairwise distinct
    /// identities.
    pub open spec fn wf(self) -> bool {
        &&& objects_wf(self.upper_screen_objects@)
        &&& objects_wf(self.lower_screen_objects@)
        &&& ids_unique(self.upper_screen_objects@)
        &&& ids_unique(self.lower_screen_objects@)
    }

    /// A fresh scene with a generated identity, empty object sets and no
    /// active camera on either screen.
    pub fn new() -> (r: Scene)
        ensures
            r.wf(),
            r.upper_screen_camera_id is None,
            r.lower_screen_camera_id is None,
            r.upper_screen_objects@.len() == 0,
            r.lower_screen_objects@.len() == 0,
    {
        Scene {
            id: fresh_uuid(),
            upper_screen_camera_id: None,
            lower_screen_camera_id: None,
            upper_screen_objects: Vec::new(),
            lower_screen_objects: Vec::new(),
        }
    }

    /// The scene's identity.
    pub fn get_id(&self) -> (r: u128)
        ensures
            r == self.id,
    {
        self.id
    }

    /// Insert an object into the upper screen's set, replacing any
    /// object that already carries the same identity.
    pub fn add_object_upper(&mut self, object: Object)
        requires
            old(self).wf(),
            object.wf(),
        ensures
            final(self).wf(),
            *final(self) == (Scene {
                upper_screen_objects: final(self).upper_screen_objects,
                ..*old(self)
            }),
            (forall|i: int| 0 <= i < old(self).upper_screen_objects@.len()
                ==> (#[trigger] old(self).upper_screen_objects@[i]).id != object.id)
                ==> final(self).upper_screen_objects@
                    == old(self).upper_screen_objects@.push(object),
            (exists|i: int| 0 <= i < old(self).upper_screen_objects@.len()
                && (#[trigger] old(self).upper_screen_objects@[i]).id == object.id)
                ==> exists|i: int| 0 <= i < old(self).upper_screen_objects@.len()
                    && (#[trigger] old(self).upper_screen_objects@[i]).id == object.id
                    && final(self).upper_screen_objects@
                        == old(self).upper_screen_objects@.update(i, object),
    {
        insert_by_id(&mut self.upper_screen_objects, object);
    }

    /// Insert an object into the lower screen's set, replacing any
    /// object that already carries the same identity.
    pub fn add_object_lower(&mut self, object: Object)
        requires
            old(self).wf(),
            object.wf(),
        ensures
            final(self).wf(),
            *final(self) == (Scene {
                lower_screen_objects: final(self).lower_screen_objects,
                ..*old(self)
            }),
            (forall|i: int| 0 <= i < old(self).lower_screen_objects@.len()
                ==> (#[trigger] old(self).lower_screen_objects@[i]).id != object.id)
                ==> final(self).lower_screen_objects@
                    == old(self).lower_screen_objects@.push(object),
            (exists|i: int| 0 <= i < old(self).lower_screen_objects@.len()
                && (#[trigger] old(self).lower_screen_objects@[i]).id == object.id)
                ==> exists|i: int| 0 <= i < old(self).lower_screen_objects@.len()
                    && (#[trigger] old(self).lower_screen_objects@[i]).id == object.id
                    && final(self).lower_screen_objects@
                        == old(self).lower_screen_objects@.update(i, object),
    {
        insert_by_id(&mut self.lower_screen_objects, object);
    }

    /// Point the upper screen's active camera at the given object
    /// identity.
    pub fn set_upper_camera(&mut self, id: u128)
        ensures
            *final(self) == (Scene {
                upper_screen_camera_id: Some(id),
                ..*old(self)
            }),
    {
        self.upper_screen_camera_id = Some(id);
    }

    /// Point the lower screen's active camera at the given object
    /// identity.
    pub fn set_lower_camera(&mut self, id: u128)
        ensures
            *final(self) == (Scene {
                lower_screen_camera_id: Some(id),
                ..*old(self)
            }),
    {
        self.lower_screen_camera_id = Some(id);
    }

    /// Render the upper screen's object set with its active camera.
    pub fn render_upper(
        &self,
        delta_time: i64,
        renderer: &mut PrismRenderer,
        shader: &mut Shader,
    ) -> (r: Result<(), EngineError>)
        requires
            self.wf(),
            old(renderer).wf(),
        ensures
            final(renderer).wf(),
            !resolves_camera(self.upper_screen_objects@, self.upper_screen_camera_id)
                ==> r == Err::<(), EngineError>(EngineError::NoActiveCamera)
                    && *final(renderer) == *old(renderer)
                    && *final(shader) == *old(shader),
            resolves_camera(self.upper_screen_objects@, self.upper_screen_camera_id)
                ==> render_pass_post(*old(renderer), *final(renderer), *old(shader),
                    *final(shader), r)
                    && (old(renderer).initialized
                        && old(renderer).binding != ContextBinding::Unbound
                        ==> render_pass_full(self.upper_screen_objects@,
                            resolved_camera(self.upper_screen_objects@, self.upper_screen_camera_id),
                            if old(renderer).binding == ContextBinding::Upper {
                                ScreenId::Upper
                            } else {
                                ScreenId::Lower
                            }, *old(renderer), *final(renderer), *old(shader),
                            *final(shader))),
    {
        render_objects(
            &self.upper_screen_objects,
            self.upper_screen_camera_id,
            delta_time,
            renderer,
            shader,
        )
    }

    /// Render the lower screen's object set with its active camera.
    pub fn render_lower(
        &self,
        delta_time: i64,
        renderer: &mut PrismRenderer,
        shader: &mut Shader,
    ) -> (r: Result<(), EngineError>)
        requires
            self.wf(),
            old(renderer).wf(),
        ensures
            final(renderer).wf(),
            !resolves_camera(self.lower_screen_objects@, self.lower_screen_camera_id)
                ==> r == Err::<(), EngineError>(EngineError::NoActiveCamera)
                    && *final(renderer) == *old(renderer)
                    && *final(shader) == *old(shader),
            resolves_camera(self.lower_screen_objects@, self.lower_screen_camera_id)
                ==> render_pass_post(*old(renderer), *final(renderer), *old(shader),
                    *final(shader), r)
                    && (old(renderer).initialized
                        && old(renderer).binding != ContextBinding::Unbound
                        ==> render_pass_full(self.lower_screen_objects@,
                            resolved_camera(self.lower_screen_objects@, self.lower_screen_camera_id),
                            if old(renderer).binding == ContextBinding::Upper {
                                ScreenId::Upper
                            } else {
                                ScreenId::Lower
                            }, *old(renderer), *final(renderer), *old(shader),
                            *final(shader))),
    {
        render_objects(
            &self.lower_screen_objects,
            self.lower_screen_camera_id,
            delta_time,
            renderer,
            shader,
        )
    }
}

/// What one screen's render pass guarantees once its camera resolved:
/// the renderer changes only by appending drawing commands, every
/// appended command is a mesh draw targeting the display that was bound
/// at entry, the shader only accumulates uniform writes, and with the
/// engine initialized and a display bound the pass succeeds.
pub open spec fn render_pass_post(
    r0: PrismRenderer,
    r1: PrismRenderer,
    s0: Shader,
    s1: Shader,
    r: Result<(), EngineError>,
) -> bool {
    &&& r1 == (PrismRenderer { commands: r1.commands, ..r0 })
    &&& r1.commands@.len() >= r0.commands@.len()
    &&& r1.commands@.subrange(0, r0.commands@.len() as int) == r0.commands@
    &&& forall|k: int|
        r0.commands@.len() <= k < r1.commands@.len()
            ==> ((#[trigger] r1.commands@[k]) matches DrawCommand::DrawMesh { target, .. }
                && target == (if r0.binding == ContextBinding::Upper {
                    ScreenId::Upper
                } else {
                    ScreenId::Lower
                }))
    &&& s1.id == s0.id
    &&& s1.writes@.len() >= s0.writes@.len()
    &&& s1.writes@.subrange(0, s0.writes@.len() as int) == s0.writes@
    &&& (r0.initialized && r0.binding != ContextBinding::Unbound ==> r is Ok)
}

/// Insert into an object set keyed by identity: replace the object with
/// the same identity, or append when none carries it.
fn insert_by_id(objects: &mut Vec<Object>, object: Object)
    requires
        objects_wf(old(objects)@),
        ids_unique(old(objects)@),
        object.wf(),
    ensures
        objects_wf(final(objects)@),
        ids_unique(final(objects)@),
        (forall|i: int| 0 <= i < old(objects)@.len()
            ==> (#[trigger] old(objects)@[i]).id != object.id)
            ==> final(objects)@ == old(objects)@.push(object),
        (exists|i: int| 0 <= i < old(objects)@.len()
            && (#[trigger] old(objects)@[i]).id == object.id)
            ==> exists|i: int| 0 <= i < old(objects)@.len()
                && (#[trigger] old(objects)@[i]).id == object.id
                && final(objects)@ == old(objects)@.update(i, object),
{
    let mut i: usize = 0;
    while i < objects.len()
        invariant
            i <= objects@.len(),
            objects@ == old(objects)@,
            objects_wf(objects@),
            ids_unique(objects@),
            object.wf(),
            forall|j: int| 0 <= j < i ==> (#[trigger] objects@[j]).id != object.id,
        decreases objects@.len() - i,
    {
        if objects[i].get_id() == object.id {
            *vstd::std_specs::vec::vec_index_mut(objects, i) = object;
            proof {
                assert(objects@ == old(objects)@.update(i as int, object));
                assert forall|a: int| 0 <= a < objects@.len()
                    implies (#[trigger] objects@[a]).wf() by {
                    if a != i {
                        assert(objects@[a] == old(objects)@[a]);
                    }
                }
                assert forall|a: int, b: int| 0 <= a < b < objects@.len()
                    implies (#[trigger] objects@[a]).id != (#[trigger] objects@[b]).id by {
                    assert(old(objects)@[a].id != old(objects)@[b].id);
                    if a != i && b != i {
                    } else if a == i {
                        assert(objects@[b] == old(objects)@[b]);
                        assert(old(objects)@[b].id != old(objects)@[i as int].id);
                    } else {
                        assert(objects@[a] == old(objects)@[a]);
                        if old(objects)@[a].id == object.id {
                            assert(old(objects)@[a].id != old(objects)@[i as int].id);
                        }
                    }
                }
            }
            return;
        }
        i = i + 1;
    }
    objects.push(object);
    proof {
        assert forall|a: int| 0 <= a < objects@.len()
            implies (#[trigger] objects@[a]).wf() by {
            if a < old(objects)@.len() {
                assert(objects@[a] == old(objects)@[a]);
            }
        }
        assert forall|a: int, b: int| 0 <= a < b < objects@.len()
            implies (#[trigger] objects@[a]).id != (#[trigger] objects@[b]).id by {
            if b < old(objects)@.len() {
                assert(old(objects)@[a].id != old(objects)@[b].id);
            } else {
                assert(objects@[a] == old(objects)@[a]);
            }
        }
    }
}

/// The index of the object carrying the given identity, if any.
fn find_by_id(objects: &Vec<Object>, id: u128) -> (r: Option<usize>)
    ensures
        match r {
            Some(i) => i < objects@.len() && objects@[i as int].id == id,
            None => forall|j: int| 0 <= j < objects@.len()
                ==> (#[trigger] objects@[j]).id != id,
        },
{
    let mut i: usize = 0;
    while i < objects.len()
        invariant
            i <= objects@.len(),
            forall|j: int| 0 <= j < i ==> (#[trigger] objects@[j]).id != id,
        decreases objects@.len() - i,
    {
        if objects[i].get_id() == id {
            return Some(i);
        }
        i = i + 1;
    }
    None
}

/// Render one screen's object set: resolve the active camera, then draw
/// every object that carries a mesh.
#[verifier::rlimit(100)]
fn render_objects(
    objects: &Vec<Object>,
    camera_id: Option<u128>,
    delta_time: i64,
    renderer: &mut PrismRenderer,
    shader: &mut Shader,
) -> (r: Result<(), EngineError>)
    requires
        objects_wf(objects@),
        ids_unique(objects@),
        old(renderer).wf(),
    ensures
        final(renderer).wf(),
        !resolves_camera(objects@, camera_id) ==> r == Err::<(), EngineError>(
            EngineError::NoActiveCamera) && *final(renderer) == *old(renderer)
            && *final(shader) == *old(shader),
        resolves_camera(objects@, camera_id) ==> render_pass_post(
            *old(renderer), *final(renderer), *old(shader), *final(shader), r)
            && (old(renderer).initialized
                && old(renderer).binding != ContextBinding::Unbound
                ==> render_pass_full(objects@, resolved_camera(objects@, camera_id),
                    if old(renderer).binding == ContextBinding::Upper {
                        ScreenId::Upper
                    } else {
                        ScreenId::Lower
                    }, *old(renderer), *final(renderer), *old(shader),
                    *final(shader))),
{
    let id = match camera_id {
        None => {
            return Err(EngineError::NoActiveCamera);
        }
        Some(id) => id,
    };
    let found = find_by_id(objects, id);
    let idx = match found {
        None => {
            proof {
                assert(!resolves_camera(objects@, camera_id));
            }
            return Err(EngineError::NoActiveCamera);
        }
        Some(idx) => idx,
    };
    let cam = match objects[idx].try_get_camera() {
        None => {
            proof {
                assert forall|k: int|
                    0 <= k < objects@.len() && (#[trigger] objects@[k]).id == id
                        implies !(objects@[k].camera is Some) by {
                    if k != idx {
                        assert(objects@[k].id != objects@[idx as int].id);
                    }
                }
            }
            return Err(EngineError::NoActiveCamera);
        }
        Some(cc) => cc.get_prism_camera(),
    };
    proof {
        assert(resolves_camera(objects@, camera_id));
        assert(objects@[idx as int].wf());
        let ci = choose|i: int|
            0 <= i < objects@.len() && (#[trigger] objects@[i]).id == camera_id->0
                && objects@[i].camera is Some;
        assert(0 <= ci < objects@.len() && objects@[ci].id == camera_id->0
            && objects@[ci].camera is Some);
        if ci < idx as int {
            assert(objects@[ci].id != objects@[idx as int].id);
        } else if ci > idx as int {
            assert(objects@[idx as int].id != objects@[ci].id);
        }
        assert(ci == idx as int);
        assert(cam == resolved_camera(objects@, camera_id));
    }
    let ghost r0 = *renderer;
    let ghost s0 = *shader;
    let ghost ts = if r0.binding == ContextBinding::Upper {
        ScreenId::Upper
    } else {
        ScreenId::Lower
    };
    proof {
        assert(r0.commands@.subrange(0, r0.commands@.len() as int) =~= r0.commands@);
        assert(s0.writes@.subrange(0, s0.writes@.len() as int) =~= s0.writes@);
        assert(r0 == (PrismRenderer { commands: r0.commands, ..r0 }));
    }
    let mut k: usize = 0;
    while k < objects.len()
        invariant
            objects_wf(objects@),
            cam.wf(),
            cam == resolved_camera(objects@, camera_id),
            k <= objects@.len(),
            renderer.wf(),
            r0 == *old(renderer),
            s0 == *old(shader),
            ts == (if r0.binding == ContextBinding::Upper {
                ScreenId::Upper
            } else {
                ScreenId::Lower
            }),
            resolves_camera(objects@, camera_id),
            render_pass_mid(r0, *renderer, s0, *shader),
            renderer.commands@.len() == r0.commands@.len()
                + meshes_before(objects@, k as int),
            shader.writes@.len() == s0.writes@.len()
                + 11 * meshes_before(objects@, k as int),
            forall|j: int|
                0 <= j < k ==> obj_submission_at(objects@, j, cam, ts, s0.id,
                    r0.commands@.len() as int, s0.writes@.len() as int,
                    renderer.commands@, shader.writes@),
        decreases objects@.len() - k,
    {
        let ghost rp = *renderer;
        let ghost sp = *shader;
        let res = render_step(&objects[k], delta_time, renderer, &cam, shader,
            Ghost(r0), Ghost(s0));
        match res {
            Ok(()) => {}
            Err(e) => {
                return Err(e);
            }
        }
        proof {
            assert(meshes_before(objects@, k + 1) == meshes_before(objects@, k as int)
                + if objects@[k as int].mesh_instance is Some { 1int } else { 0int });
            lemma_meshes_before_mono(objects@, 0, k as int);
            if objects@[k as int].mesh_instance is Some {
                lemma_submissions_persist(objects@, cam, ts, s0.id,
                    r0.commands@.len() as int, s0.writes@.len() as int,
                    rp.commands@, sp.writes@, renderer.commands@, shader.writes@,
                    k as int);
                assert(renderer.commands@[rp.commands@.len() as int]
                    == renderer.commands@.last());
                assert(obj_submission_at(objects@, k as int, cam, ts, s0.id,
                    r0.commands@.len() as int, s0.writes@.len() as int,
                    renderer.commands@, shader.writes@));
            }
        }
        k = k + 1;
    }
    proof {
        assert(meshes_before(objects@, objects@.len() as int)
            == mesh_object_count(objects@));
    }
    Ok(())
}

/// The running guarantee of a render pass: the renderer has changed only
/// by appending mesh draws for the display bound at entry, and the
/// shader only by appending uniform writes.
pub open spec fn render_pass_mid(
    r0: PrismRenderer,
    r1: PrismRenderer,
    s0: Shader,
    s1: Shader,
) -> bool {
    &&& r1 == (PrismRenderer { commands: r1.commands, ..r0 })
    &&& r1.commands@.len() >= r0.commands@.len()
    &&& r1.commands@.subrange(0, r0.commands@.len() as int) == r0.commands@
    &&& forall|k: int|
        r0.commands@.len() <= k < r1.commands@.len()
            ==> ((#[trigger] r1.commands@[k]) matches DrawCommand::DrawMesh { target, .. }
                && target == (if r0.binding == ContextBinding::Upper {
                    ScreenId::Upper
                } else {
                    ScreenId::Lower
                }))
    &&& s1.id == s0.id
    &&& s1.writes@.len() >= s0.writes@.len()
    &&& s1.writes@.subrange(0, s0.writes@.len() as int) == s0.writes@
}

/// Draw one object, carrying the pass's running guarantee forward.
#[verifier::rlimit(100)]
fn render_step(
    object: &Object,
    delta_time: i64,
    renderer: &mut PrismRenderer,
    cam: &Camera,
    shader: &mut Shader,
    Ghost(r0): Ghost<PrismRenderer>,
    Ghost(s0): Ghost<Shader>,
) -> (r: Result<(), EngineError>)
    requires
        object.wf(),
        cam.wf(),
        old(renderer).wf(),
        render_pass_mid(r0, *old(renderer), s0, *old(shader)),
    ensures
        final(renderer).wf(),
        render_pass_mid(r0, *final(renderer), s0, *final(shader)),
        r0.initialized && r0.binding != ContextBinding::Unbound ==> r is Ok,
        object.mesh_instance is None ==> r is Ok && *final(renderer) == *old(renderer)
            && *final(shader) == *old(shader),
        object.mesh_instance matches Some(mc) ==> {
            &&& final(shader).id == old(shader).id
            &&& uniform_block(*cam, old(shader).writes@, final(shader).writes@)
            &&& (r is Ok ==> draw_t(*old(renderer), *final(renderer), mc.mesh,
                *final(shader)))
            &&& (r is Err ==> *final(renderer) == *old(renderer))
        },
{
    let r = object.render(delta_time, renderer, cam, shader);
    proof {
        assert(renderer.commands@.subrange(0, r0.commands@.len() as int)
            =~= r0.commands@);
        assert(shader.writes@.subrange(0, s0.writes@.len() as int) =~= s0.writes@);
        let ts = if r0.binding == ContextBinding::Upper {
            ScreenId::Upper
        } else {
            ScreenId::Lower
        };
        assert forall|t: int|
            r0.commands@.len() <= t < renderer.commands@.len()
                implies ((#[trigger] renderer.commands@[t])
                    matches DrawCommand::DrawMesh { target, .. } && target == ts) by {
            if t < old(renderer).commands@.len() {
                assert(renderer.commands@[t]
                    == renderer.commands@.subrange(
                        0, old(renderer).commands@.len() as int)[t]);
                assert(renderer.commands@[t] == old(renderer).commands@[t]);
            } else {
                assert(t == renderer.commands@.len() - 1);
                assert(renderer.commands@[t] == renderer.commands@.last());
            }
        }
    }
    r
}

} // verus!
