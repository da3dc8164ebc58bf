//! Vertices, texture handles and meshes. A mesh owns its GPU buffer names,
//! references to the textures it samples, and a local transform whose model
//! matrix is recomputed on every mutation as
//! `translation * rotationZ * rotationY * rotationX * scale`,
//! in that fixed composition order.

use vstd::prelude::*;

use crate::fx::FX_ONE;
use crate::math::{
    identity_m, lemma_rotation_bounded, lemma_scale_bounded, lemma_smm_bounded,
    lemma_smm_identity_left, lemma_translation_bounded, model_m, rot_x_m, rot_y_m,
    rot_z_m, scale_m, translation_m, v3_bounded, Matrix4, Vector2, Vector3,
};

verus! {

/// Largest magnitude a translation or scale component of a mesh transform
/// may have; keeps the whole model-matrix product within an `i64`.
pub const TRANSFORM_LIMIT: i64 = 0x1_0000_0000;

/// A handle to a GPU texture object in the shared resource namespace.
#[derive(Clone, Copy, Debug, PartialEq, Eq, Structural)]
pub struct Texture {
    pub id: u32,
}

impl Texture {
    /// The null texture handle.
    pub fn new() -> (r: Texture)
        ensures
            r.id == 0,
    {
        Texture { id: 0 }
    }
}

/// One interleaved vertex: position, normal, and texture coordinates.
#[derive(Clone, Copy, Debug, PartialEq, Eq, Structural)]
pub struct Vertex {
    pub position: Vector3,
    pub normal: Vector3,
    pub tex_coords: Vector2,
}

impl Vertex {
    pub fn new(position: Vector3, normal: Vector3, tex_coords: Vector2) -> (r: Vertex)
        ensures
            r == (Vertex { position, normal, tex_coords }),
    {
        Vertex { position, normal, tex_coords }
    }
}

/// A mesh: geometry uploaded to GPU buffers, borrowed texture references,
/// and a local transform collapsed into a model matrix.
#[derive(Debug)]
pub struct Mesh {
    pub vertices: Vec<Vertex>,
    pub indices: Vec<u32>,
    pub textures: Vec<Texture>,
    pub vao: u32,
    pub vbo: u32,
    pub ebo: u32,
    pub position: Vector3,
    pub rotation: Vector3,
    pub scale: Vector3,
    pub model: Matrix4,
}

impl Mesh {
    /// The transform is in range and the model matrix is exactly the
    /// composition `translation * rotZ * rotY * rotX * scale` of it.
    pub open spec fn wf(self) -> bool {
        &&& v3_bounded(self.position, TRANSFORM_LIMIT as int)
        &&& v3_bounded(self.scale, TRANSFORM_LIMIT as int)
        &&& self.rotation.x != i64::MIN
        &&& self.rotation.y != i64::MIN
        &&& self.rotation.z != i64::MIN
        &&& self.model@ == model_m(self.position, self.rotation, self.scale)
    }

    /// A mesh over the given geometry and buffer names, with the identity
    /// transform.
    pub fn new(
        vertices: Vec<Vertex>,
        indices: Vec<u32>,
        textures: Vec<Texture>,
        vao: u32,
        vbo: u32,
        ebo: u32,
    ) -> (r: Mesh)
        ensures
            r.wf(),
            r.vertices == vertices,
            r.indices == indices,
            r.textures == textures,
            r.vao == vao,
            r.vbo == vbo,
            r.ebo == ebo,
            r.position == (Vector3 { x: 0i64, y: 0i64, z: 0i64 }),
            r.rotation == (Vector3 { x: 0i64, y: 0i64, z: 0i64 }),
            r.scale == (Vector3 { x: FX_ONE, y: FX_ONE, z: FX_ONE }),
            r.model@ == identity_m(),
    {
        let r = Mesh {
            vertices,
            indices,
            textures,
            vao,
            vbo,
            ebo,
            position: Vector3::zero(),
            rotation: Vector3::zero(),
            scale: Vector3::one(),
            model: Matrix4::identity(),
        };
        proof {
            lemma_model_identity(r.position, r.rotation, r.scale);
        }
        r
    }

    /// The current model matrix.
    pub fn get_model(&self) -> (r: Matrix4)
        ensures
            r@ == self.model@,
    {
        self.model
    }

    /// Recompute the model matrix from the stored transform, in the fixed
    /// order `translation * rotZ * rotY * rotX * scale`.
    #[verifier::rlimit(100)]
    fn update_model_matrix(&mut self)
        requires
            v3_bounded(old(self).position, TRANSFORM_LIMIT as int),
            v3_bounded(old(self).scale, TRANSFORM_LIMIT as int),
            old(self).rotation.x != i64::MIN,
            old(self).rotation.y != i64::MIN,
            old(self).rotation.z != i64::MIN,
        ensures
            final(self).model@ == model_m(
                old(self).position, old(self).rotation, old(self).scale),
            *final(self) == (Mesh { model: final(self).model, ..*old(self) }),
    {
        let t = Matrix4::from_translation(self.position);
        let rz = Matrix4::from_rotation_z(self.rotation.z);
        let ry = Matrix4::from_rotation_y(self.rotation.y);
        let rx = Matrix4::from_rotation_x(self.rotation.x);
        let sc = Matrix4::from_scale(self.scale);
        proof {
            lemma_translation_bounded(self.position, TRANSFORM_LIMIT as int);
            lemma_rotation_bounded(self.rotation.z as int);
            lemma_rotation_bounded(self.rotation.y as int);
            lemma_rotation_bounded(self.rotation.x as int);
            lemma_scale_bounded(self.scale, TRANSFORM_LIMIT as int);
            lemma_smm_bounded(t@, rz@, TRANSFORM_LIMIT as int, FX_ONE as int);
        }
        let m1 = t.multiply(&rz);
        proof {
            lemma_smm_bounded(m1@, ry@, 0x4_0000_0000, FX_ONE as int);
        }
        let m2 = m1.multiply(&ry);
        proof {
            lemma_smm_bounded(m2@, rx@, 0x10_0000_0000, FX_ONE as int);
        }
        let m3 = m2.multiply(&rx);
        proof {
            lemma_smm_bounded(m3@, sc@, 0x40_0000_0000, TRANSFORM_LIMIT as int);
        }
        let m4 = m3.multiply(&sc);
        self.model = m4;
    }

    /// Set the rotation about the x axis (fixed-point radians) and
    /// recompute the model matrix.
    pub fn set_rotation_x(&mut self, angle_rad: i64)
        requires
            old(self).wf(),
            angle_rad != i64::MIN,
        ensures
            final(self).wf(),
            final(self).rotation == (Vector3 { x: angle_rad, ..old(self).rotation }),
            final(self).model@ == model_m(
                old(self).position, final(self).rotation, old(self).scale),
            *final(self) == (Mesh {
                rotation: final(self).rotation,
                model: final(self).model,
                ..*old(self)
            }),
    {
        self.rotation.x = angle_rad;
        self.update_model_matrix();
    }

    /// Set the rotation about the y axis (fixed-point radians) and
    /// recompute the model matrix.
    pub fn set_rotation_y(&mut self, angle_rad: i64)
        requires
            old(self).wf(),
            angle_rad != i64::MIN,
        ensures
            final(self).wf(),
            final(self).rotation == (Vector3 { y: angle_rad, ..old(self).rotation }),
            final(self).model@ == model_m(
                old(self).position, final(self).rotation, old(self).scale),
            *final(self) == (Mesh {
                rotation: final(self).rotation,
                model: final(self).model,
                ..*old(self)
            }),
    {
        self.rotation.y = angle_rad;
        self.update_model_matrix();
    }

    /// Set the rotation about the z axis (fixed-point radians) and
    /// recompute the model matrix.
    pub fn set_rotation_z(&mut self, angle_rad: i64)
        requires
            old(self).wf(),
            angle_rad != i64::MIN,
        ensures
            final(self).wf(),
            final(self).rotation == (Vector3 { z: angle_rad, ..old(self).rotation }),
            final(self).model@ == model_m(
                old(self).position, final(self).rotation, old(self).scale),
            *final(self) == (Mesh {
                rotation: final(self).rotation,
                model: final(self).model,
                ..*old(self)
            }),
    {
        self.rotation.z = angle_rad;
        self.update_model_matrix();
    }

    /// Set the translation and recompute the model matrix.
    pub fn set_translation(&mut self, position: Vector3)
        requires
            old(self).wf(),
            v3_bounded(position, TRANSFORM_LIMIT as int),
        ensures
            final(self).wf(),
            final(self).position == position,
            final(self).model@ == model_m(
                position, old(self).rotation, old(self).scale),
            *final(self) == (Mesh {
                position,
                model: final(self).model,
                ..*old(self)
            }),
    {
        self.position = position;
        self.update_model_matrix();
    }

    /// Set the scale and recompute the model matrix.
    pub fn set_scale(&mut self, scale: Vector3)
        requires
            old(self).wf(),
            v3_bounded(scale, TRANSFORM_LIMIT as int),
        ensures
            final(self).wf(),
            final(self).scale == scale,
            final(self).model@ == model_m(
                old(self).position, old(self).rotation, scale),
            *final(self) == (Mesh {
                scale,
                model: final(self).model,
                ..*old(self)
            }),
    {
        self.scale = scale;
        self.update_model_matrix();
    }
}

/// The model matrix of the identity transform (no translation, no
/// rotation, unit scale) is exactly the identity matrix.
pub proof fn lemma_model_identity(pos: Vector3, rot: Vector3, scale: Vector3)
    requires
        pos.x == 0 && pos.y == 0 && pos.z == 0,
        rot.x == 0 && rot.y == 0 && rot.z == 0,
        scale.x == FX_ONE && scale.y == FX_ONE && scale.z == FX_ONE,
    ensures
        model_m(pos, rot, scale) == identity_m(),
{
    crate::fx::lemma_sin_zero();
    crate::fx::lemma_cos_zero();
    assert(translation_m(pos) =~= identity_m());
    assert(rot_z_m(rot.z as int) =~= identity_m());
    assert(rot_y_m(rot.y as int) =~= identity_m());
    assert(rot_x_m(rot.x as int) =~= identity_m());
    assert(scale_m(scale) =~= identity_m());
    lemma_smm_identity_left(identity_m());
}

} // verus!
