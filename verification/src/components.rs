//! The closed set of capabilities an object can carry: a camera or a
//! renderable mesh reference. Component kinds are fixed at design time,
//! so attachment is a tagged union rather than a run-time type lookup.

use vstd::prelude::*;

use crate::camera::{Camera, CAM_LIMIT};
use crate::fx::{FX_ONE, HALF_PI_FX};
use crate::math::{v3_bounded, Vector3};
use crate::mesh::Mesh;

verus! {

/// The kinds of component an object can carry, at most one of each.
#[derive(Clone, Copy, Debug, PartialEq, Eq, Structural)]
pub enum ComponentKind {
    Camera,
    MeshInstance,
}

/// A camera capability: a first-person camera looking down the negative
/// z axis until adjusted.
#[derive(Clone, Copy, Debug)]
pub struct CameraComponent {
    pub prism_camera: Camera,
}

impl CameraComponent {
    pub open spec fn wf(self) -> bool {
        self.prism_camera.wf()
    }

    /// A camera at the origin, with the world up axis, yaw a quarter
    /// turn to negative z, and level pitch.
    pub fn new() -> (r: CameraComponent)
        ensures
            r.wf(),
            r.prism_camera.position == (Vector3 { x: 0i64, y: 0i64, z: 0i64 }),
            r.prism_camera.world_up == (Vector3 { x: 0i64, y: FX_ONE, z: 0i64 }),
            r.prism_camera.yaw == -HALF_PI_FX,
            r.prism_camera.pitch == 0,
    {
        CameraComponent {
            prism_camera: Camera::new(
                Vector3::zero(),
                Vector3 { x: 0, y: FX_ONE, z: 0 },
                -HALF_PI_FX,
                0,
            ),
        }
    }

    /// Move the camera by a whole vector.
    pub fn translate(&mut self, vector: Vector3)
        requires
            old(self).wf(),
            -CAM_LIMIT <= old(self).prism_camera.position.x + vector.x <= CAM_LIMIT,
            -CAM_LIMIT <= old(self).prism_camera.position.y + vector.y <= CAM_LIMIT,
            -CAM_LIMIT <= old(self).prism_camera.position.z + vector.z <= CAM_LIMIT,
        ensures
            final(self).wf(),
            final(self).prism_camera.position == (Vector3 {
                x: (old(self).prism_camera.position.x + vector.x) as i64,
                y: (old(self).prism_camera.position.y + vector.y) as i64,
                z: (old(self).prism_camera.position.z + vector.z) as i64,
            }),
            final(self).prism_camera == (Camera {
                position: final(self).prism_camera.position,
                ..old(self).prism_camera
            }),
    {
        self.prism_camera.adjust_position(vector);
    }

    /// The underlying camera, by value.
    pub fn get_prism_camera(&self) -> (r: Camera)
        ensures
            r == self.prism_camera,
    {
        self.prism_camera
    }
}

/// A renderable-mesh capability: a reference into the resource namespace
/// together with the mesh's local transform.
#[derive(Debug)]
pub struct MeshComponent {
    pub mesh: Mesh,
}

impl MeshComponent {
    pub open spec fn wf(self) -> bool {
        self.mesh.wf()
    }

    pub fn new(mesh: Mesh) -> (r: MeshComponent)
        ensures
            r.mesh == mesh,
    {
        MeshComponent { mesh }
    }
}

/// One component instance, tagged by its kind.
#[derive(Debug)]
pub enum Component {
    Camera(CameraComponent),
    MeshInstance(MeshComponent),
}

impl Component {
    /// The kind this instance belongs to.
    pub open spec fn kind(self) -> ComponentKind {
        match self {
            Component::Camera(_) => ComponentKind::Camera,
            Component::MeshInstance(_) => ComponentKind::MeshInstance,
        }
    }

    pub open spec fn wf(self) -> bool {
        match self {
            Component::Camera(c) => c.wf(),
            Component::MeshInstance(m) => m.wf(),
        }
    }
}

} // verus!
