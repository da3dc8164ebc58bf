//! Scene entities. An object is an identity, a display name, and a
//! capability set: at most one component of each kind. Rendering an
//! object submits its mesh (when it carries one) with the frame's
//! camera, projection, material and light uniforms.

use vstd::prelude::*;

use crate::camera::{view_m, Camera};
use crate::components::{CameraComponent, Component, MeshComponent};
use crate::error::EngineError;
use crate::math::{perspective_m, Matrix4, Vector3};
use crate::renderer::{draw_t, ContextBinding, PrismRenderer};
use crate::shader::{Shader, UniformValue, UniformWrite};

verus! {

/// Relies on uuid::Uuid::new_v4 (via Uuid::as_u128): a freshly generated
/// random identifier; nothing is promised of its value.
#[verifier::external_body]
pub(crate) fn fresh_uuid() -> u128 {
    uuid::Uuid::new_v4().as_u128()
}

/// The eleven uniform writes one object render issues, starting at
/// index `wi` of the write log: the camera's view matrix, the default
/// projection, the camera position, and the fixed material and light
/// values.
pub open spec fn uniform_block_at(ws: Seq<UniformWrite>, wi: int, cam: Camera) -> bool {
    &&& ws[wi].name@ == "view"@
    &&& (ws[wi].value matches UniformValue::Mat4(m) && m@ == view_m(cam))
    &&& ws[wi + 1].name@ == "projection"@
    &&& (ws[wi + 1].value matches UniformValue::Mat4(m)
        && m@ == perspective_m(51472, 109227, 6554, 6553600))
    &&& ws[wi + 2].name@ == "viewPos"@
    &&& ws[wi + 2].value == UniformValue::Vec3(cam.position)
    &&& ws[wi + 3].name@ == "material.ambient"@
    &&& ws[wi + 3].value == UniformValue::Vec3(Vector3 { x: 47514, y: 62194, z: 65536 })
    &&& ws[wi + 4].name@ == "material.diffuse"@
    &&& ws[wi + 4].value == UniformValue::Vec3(Vector3 { x: 48824, y: 62194, z: 65536 })
    &&& ws[wi + 5].name@ == "material.specular"@
    &&& ws[wi + 5].value == UniformValue::Vec3(Vector3 { x: 32768, y: 32768, z: 32768 })
    &&& ws[wi + 6].name@ == "material.shininess"@
    &&& ws[wi + 6].value == UniformValue::Float(2097152)
    &&& ws[wi + 7].name@ == "light.position"@
    &&& ws[wi + 7].value == UniformValue::Vec3(Vector3 { x: 78643, y: 65536, z: 524288 })
    &&& ws[wi + 8].name@ == "light.ambient"@
    &&& ws[wi + 8].value == UniformValue::Vec3(Vector3 { x: 13107, y: 13107, z: 13107 })
    &&& ws[wi + 9].name@ == "light.diffuse"@
    &&& ws[wi + 9].value == UniformValue::Vec3(Vector3 { x: 32768, y: 32768, z: 32768 })
    &&& ws[wi + 10].name@ == "light.specular"@
    &&& ws[wi + 10].value == UniformValue::Vec3(Vector3 { x: 65536, y: 65536, z: 65536 })
}

/// One object render appends exactly this block to the write log.
pub open spec fn uniform_block(cam: Camera, pre: Seq<UniformWrite>, post: Seq<UniformWrite>) -> bool {
    &&& post.len() == pre.len() + 11
    &&& post.subrange(0, pre.len() as int) == pre
    &&& uniform_block_at(post, pre.len() as int, cam)
}

/// An entity: an identity, a name, and its capability set.
#[derive(Debug)]
pub struct Object {
    pub id: u128,
    pub name: String,
    pub camera: Option<CameraComponent>,
    pub mesh_instance: Option<MeshComponent>,
}

impl Object {
    /// Every attached component is itself well-formed.
    pub open spec fn wf(self) -> bool {
        &&& (self.camera matches Some(c) ==> c.wf())
        &&& (self.mesh_instance matches Some(m) ==> m.wf())
    }

    /// A fresh entity with a generated identity, a default name, and no
    /// components.
    pub fn new() -> (r: Object)
        ensures
            r.wf(),
            r.name@ == "New Object"@,
            r.camera is None,
            r.mesh_instance is None,
    {
        Object {
            id: fresh_uuid(),
            name: "New Object".to_owned(),
            camera: None,
            mesh_instance: None,
        }
    }

    /// The entity's identity.
    pub fn get_id(&self) -> (r: u128)
        ensures
            r == self.id,
    {
        self.id
    }

    /// The display name.
    pub fn get_name(&self) -> (r: &str)
        ensures
            r@ == self.name@,
    {
        self.name.as_str()
    }

    /// Replace the display name.
    pub fn set_name(&mut self, name: &str)
        ensures
            final(self).name@ == name@,
            *final(self) == (Object { name: final(self).name, ..*old(self) }),
    {
        self.name = name.to_owned();
    }

    /// Insert or replace the component of the instance's kind: adding a
    /// second component of one kind overwrites, never stacks.
    pub fn add_component(&mut self, component: Component)
        requires
            component.wf(),
        ensures
            component matches Component::Camera(c) ==> *final(self) == (Object {
                camera: Some(c),
                ..*old(self)
            }),
            component matches Component::MeshInstance(m) ==> *final(self) == (Object {
                mesh_instance: Some(m),
                ..*old(self)
            }),
            old(self).wf() ==> final(self).wf(),
    {
        match component {
            Component::Camera(c) => {
                self.camera = Some(c);
            }
            Component::MeshInstance(m) => {
                self.mesh_instance = Some(m);
            }
        }
    }

    /// The camera component, if the object carries one; absence is a
    /// normal outcome, not an error.
    pub fn try_get_camera(&self) -> (r: Option<&CameraComponent>)
        ensures
            match r {
                Some(c) => self.camera == Some(*c),
                None => self.camera is None,
            },
    {
        match &self.camera {
            Some(c) => Some(c),
            None => None,
        }
    }

    /// The mesh component, if the object carries one.
    pub fn try_get_mesh_instance(&self) -> (r: Option<&MeshComponent>)
        ensures
            match r {
                Some(m) => self.mesh_instance matches Some(mm) && mm == *m,
                None => self.mesh_instance is None,
            },
    {
        match &self.mesh_instance {
            Some(m) => Some(m),
            None => None,
        }
    }

    /// Draw this object for the given camera: when it carries a mesh,
    /// write the camera, projection, material and light uniforms, then
    /// submit the mesh on the currently bound display; objects without a
    /// mesh are skipped with no effect.
    pub fn render(
        &self,
        delta_time: i64,
        renderer: &mut PrismRenderer,
        camera: &Camera,
        shader: &mut Shader,
    ) -> (r: Result<(), EngineError>)
        requires
            old(renderer).wf(),
            camera.wf(),
        ensures
            final(renderer).wf(),
            self.mesh_instance is None ==> r is Ok && *final(renderer) == *old(renderer)
                && *final(shader) == *old(shader),
            self.mesh_instance matches Some(mc) ==> {
                &&& final(shader).id == old(shader).id
                &&& uniform_block(*camera, old(shader).writes@, final(shader).writes@)
                &&& (!old(renderer).initialized ==> r == Err::<(), EngineError>(
                    EngineError::NotInitialized) && *final(renderer) == *old(renderer))
                &&& (old(renderer).initialized
                    && old(renderer).binding == ContextBinding::Unbound
                    ==> r == Err::<(), EngineError>(EngineError::ContextNotBound)
                        && *final(renderer) == *old(renderer))
                &&& (old(renderer).initialized
                    && old(renderer).binding != ContextBinding::Unbound
                    ==> r is Ok && draw_t(*old(renderer), *final(renderer), mc.mesh,
                        *final(shader)))
            },
    {
        let mc = match &self.mesh_instance {
            None => {
                return Ok(());
            }
            Some(mc) => mc,
        };
        let ghost w0 = shader.writes@;
        let ghost l0 = shader.writes@.len() as int;
        let view = camera.get_view_matrix();
        shader.set_uniform_mat4("view", view);
        proof {
            assert(shader.writes@.subrange(0, l0) =~= w0);
        }
        proof {
            lemma_default_projection_angle();
        }
        let projection = Matrix4::perspective_rh(51472, 109227, 6554, 6553600);
        shader.set_uniform_mat4("projection", projection);
        proof {
            assert(shader.writes@.subrange(0, l0) =~= w0);
        }
        shader.set_uniform_vec3("viewPos", camera.get_position());
        proof {
            assert(shader.writes@.subrange(0, l0) =~= w0);
        }
        shader.set_uniform_vec3("material.ambient", Vector3 { x: 47514, y: 62194, z: 65536 });
        proof {
            assert(shader.writes@.subrange(0, l0) =~= w0);
        }
        shader.set_uniform_vec3("material.diffuse", Vector3 { x: 48824, y: 62194, z: 65536 });
        proof {
            assert(shader.writes@.subrange(0, l0) =~= w0);
        }
        shader.set_uniform_vec3("material.specular", Vector3 { x: 32768, y: 32768, z: 32768 });
        proof {
            assert(shader.writes@.subrange(0, l0) =~= w0);
        }
        shader.set_uniform_float("material.shininess", 2097152);
        proof {
            assert(shader.writes@.subrange(0, l0) =~= w0);
        }
        shader.set_uniform_vec3("light.position", Vector3 { x: 78643, y: 65536, z: 524288 });
        proof {
            assert(shader.writes@.subrange(0, l0) =~= w0);
        }
        shader.set_uniform_vec3("light.ambient", Vector3 { x: 13107, y: 13107, z: 13107 });
        proof {
            assert(shader.writes@.subrange(0, l0) =~= w0);
        }
        shader.set_uniform_vec3("light.diffuse", Vector3 { x: 32768, y: 32768, z: 32768 });
        proof {
            assert(shader.writes@.subrange(0, l0) =~= w0);
        }
        shader.set_uniform_vec3("light.specular", Vector3 { x: 65536, y: 65536, z: 65536 });
        proof {
            assert(shader.writes@.subrange(0, l0) =~= w0);
        }
        renderer.draw_mesh(&mc.mesh, shader)
    }
}


/// The default projection's half field of view has a nonzero sine, so
/// its cotangent is well defined.
proof fn lemma_default_projection_angle()
    ensures
        crate::fx::sin_fx_spec(crate::fx::tdiv(51472, 2)) != 0,
{
    assert(crate::fx::tdiv(51472, 2) == 25736);
    vstd::arithmetic::div_mod::lemma_small_mod(25736, crate::fx::TAU_FX as nat);
    assert(crate::fx::fx_mul_spec(25736, 25736) == 10106);
    assert(crate::fx::fx_mul_spec(10106, 25736) == 3968);
    assert(crate::fx::fx_mul_spec(10106, 3968) == 611);
    assert(crate::fx::fx_mul_spec(10106, 611) == 94);
    assert(crate::fx::sin_poly_spec(25736) == 25080);
    assert(crate::fx::sin_fx_spec(25736) == 25080);
}

} // verus!
