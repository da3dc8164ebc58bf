//! A first-person camera: position, yaw and pitch, with the orthonormal
//! basis (front, right, up) derived from them and never stored stale.
//! Every mutation of position or orientation recomputes the basis, and
//! the view matrix is the right-handed look-at construction over it.

use vstd::prelude::*;

use crate::fx::FX_ONE;
use crate::math::{
    cross_s, dot_s, lemma_cross_bounded, lemma_normalize_bounded, normalize_s, v3i,
    v3_bounded, v3_cross, v3_dot, v3_normalize, Matrix4, Vector3, V3i,
};

verus! {

/// Largest magnitude a camera position component may have.
pub const CAM_LIMIT: i64 = 0x4000_0000;

/// Largest magnitude a world-up component may have.
pub const UP_LIMIT: i64 = 0x10_0000;

/// The unnormalized front direction for a yaw and pitch:
/// `(cos yaw * cos pitch, sin pitch, sin yaw * cos pitch)`.
pub open spec fn cam_front_raw(yaw: int, pitch: int) -> V3i {
    V3i {
        x: crate::fx::fx_mul_spec(crate::fx::cos_fx_spec(yaw), crate::fx::cos_fx_spec(pitch)),
        y: crate::fx::sin_fx_spec(pitch),
        z: crate::fx::fx_mul_spec(crate::fx::sin_fx_spec(yaw), crate::fx::cos_fx_spec(pitch)),
    }
}

/// The camera's front basis vector.
pub open spec fn cam_front(yaw: int, pitch: int) -> V3i {
    normalize_s(cam_front_raw(yaw, pitch))
}

/// The camera's right basis vector.
pub open spec fn cam_right(yaw: int, pitch: int, world_up: V3i) -> V3i {
    normalize_s(cross_s(cam_front(yaw, pitch), world_up))
}

/// The camera's up basis vector.
pub open spec fn cam_up(yaw: int, pitch: int, world_up: V3i) -> V3i {
    normalize_s(cross_s(cam_right(yaw, pitch, world_up), cam_front(yaw, pitch)))
}

/// The right-handed look-at view matrix of a camera, column-major.
pub open spec fn view_m(c: Camera) -> Seq<int> {
    let f = normalize_s(v3i(c.front));
    let s = normalize_s(cross_s(f, v3i(c.up)));
    let u = cross_s(s, f);
    let eye = v3i(c.position);
    seq![
        s.x, u.x, -f.x, 0,
        s.y, u.y, -f.y, 0,
        s.z, u.z, -f.z, 0,
        -dot_s(s, eye), -dot_s(u, eye), dot_s(f, eye), FX_ONE as int,
    ]
}

/// A first-person camera.
#[derive(Clone, Copy, Debug)]
pub struct Camera {
    pub position: Vector3,
    pub front: Vector3,
    pub up: Vector3,
    pub right: Vector3,
    pub world_up: Vector3,
    /// in fixed-point radians
    pub yaw: i64,
    /// in fixed-point radians
    pub pitch: i64,
    pub zoom: i64,
}

impl Camera {
    /// Position and world-up are in range, and the basis vectors are
    /// exactly the ones derived from yaw and pitch: never stale.
    pub open spec fn wf(self) -> bool {
        &&& v3_bounded(self.position, CAM_LIMIT as int)
        &&& v3_bounded(self.world_up, UP_LIMIT as int)
        &&& self.yaw != i64::MIN
        &&& self.pitch != i64::MIN
        &&& v3i(self.front) == cam_front(self.yaw as int, self.pitch as int)
        &&& v3i(self.right) == cam_right(
            self.yaw as int, self.pitch as int, v3i(self.world_up))
        &&& v3i(self.up) == cam_up(self.yaw as int, self.pitch as int, v3i(self.world_up))
    }

    /// A camera at `position` with the given world-up direction, yaw and
    /// pitch (fixed-point radians), its basis computed on construction.
    pub fn new(position: Vector3, up: Vector3, yaw_rad: i64, pitch_rad: i64) -> (r: Camera)
        requires
            v3_bounded(position, CAM_LIMIT as int),
            v3_bounded(up, UP_LIMIT as int),
            yaw_rad != i64::MIN,
            pitch_rad != i64::MIN,
        ensures
            r.wf(),
            r.position == position,
            r.world_up == up,
            r.yaw == yaw_rad,
            r.pitch == pitch_rad,
            r.zoom == 45 * FX_ONE,
    {
        let mut c = Camera {
            position,
            world_up: up,
            yaw: yaw_rad,
            pitch: pitch_rad,
            front: Vector3::zero(),
            right: Vector3::zero(),
            up: Vector3::zero(),
            zoom: 45 * FX_ONE,
        };
        c.update_camera_vectors();
        c
    }

    /// Recompute the basis vectors from yaw, pitch and world-up.
    fn update_camera_vectors(&mut self)
        requires
            v3_bounded(old(self).world_up, UP_LIMIT as int),
            old(self).yaw != i64::MIN,
            old(self).pitch != i64::MIN,
        ensures
            v3i(final(self).front) == cam_front(
                old(self).yaw as int, old(self).pitch as int),
            v3i(final(self).right) == cam_right(
                old(self).yaw as int, old(self).pitch as int, v3i(old(self).world_up)),
            v3i(final(self).up) == cam_up(
                old(self).yaw as int, old(self).pitch as int, v3i(old(self).world_up)),
            v3_bounded(final(self).front, FX_ONE as int),
            v3_bounded(final(self).right, FX_ONE as int),
            v3_bounded(final(self).up, FX_ONE as int),
            *final(self) == (Camera {
                front: final(self).front,
                right: final(self).right,
                up: final(self).up,
                ..*old(self)
            }),
    {
        let cy = crate::fx::cos_fx(self.yaw);
        let sy = crate::fx::sin_fx(self.yaw);
        let cp = crate::fx::cos_fx(self.pitch);
        let sp = crate::fx::sin_fx(self.pitch);
        proof {
            assert(-0x1_0000_0000 <= cy * cp <= 0x1_0000_0000
                && -0x1_0000_0000 <= sy * cp <= 0x1_0000_0000) by (nonlinear_arith)
                requires
                    -0x1_0000 <= cy <= 0x1_0000,
                    -0x1_0000 <= sy <= 0x1_0000,
                    -0x1_0000 <= cp <= 0x1_0000;
            crate::fx::lemma_tdiv_bound((cy * cp) as int, FX_ONE as int, 0x1_0000_0000);
            crate::fx::lemma_tdiv_bound((sy * cp) as int, FX_ONE as int, 0x1_0000_0000);
        }
        let raw = Vector3 {
            x: crate::fx::fx_mul(cy, cp),
            y: sp,
            z: crate::fx::fx_mul(sy, cp),
        };
        let front = v3_normalize(&raw);
        proof {
            lemma_cross_bounded(v3i(front), v3i(self.world_up),
                FX_ONE as int, UP_LIMIT as int);
        }
        let rc = v3_cross(&front, &self.world_up);
        let right = v3_normalize(&rc);
        proof {
            lemma_cross_bounded(v3i(right), v3i(front), FX_ONE as int, FX_ONE as int);
        }
        let uc = v3_cross(&right, &front);
        let up = v3_normalize(&uc);
        self.front = front;
        self.right = right;
        self.up = up;
    }

    /// The right-handed look-at view matrix for the camera's position
    /// and basis.
    pub fn get_view_matrix(&self) -> (r: Matrix4)
        requires
            self.wf(),
        ensures
            r@ == view_m(*self),
    {
        proof {
            lemma_normalize_bounded(cam_front_raw(self.yaw as int, self.pitch as int));
            lemma_normalize_bounded(cross_s(
                cam_right(self.yaw as int, self.pitch as int, v3i(self.world_up)),
                cam_front(self.yaw as int, self.pitch as int)));
        }
        let f = v3_normalize(&self.front);
        proof {
            lemma_cross_bounded(v3i(f), v3i(self.up), FX_ONE as int, FX_ONE as int);
        }
        let sc = v3_cross(&f, &self.up);
        let sv = v3_normalize(&sc);
        proof {
            lemma_cross_bounded(v3i(sv), v3i(f), FX_ONE as int, FX_ONE as int);
        }
        let u = v3_cross(&sv, &f);
        let tx = v3_dot(&sv, &self.position);
        let ty = v3_dot(&u, &self.position);
        let tz = v3_dot(&f, &self.position);
        let r = Matrix4 {
            data: [
                sv.x, u.x, -f.x, 0,
                sv.y, u.y, -f.y, 0,
                sv.z, u.z, -f.z, 0,
                -tx, -ty, tz, FX_ONE,
            ],
        };
        proof {
            assert(r@ =~= view_m(*self));
        }
        r
    }

    /// The camera's position.
    pub fn get_position(&self) -> (r: Vector3)
        ensures
            r == self.position,
    {
        self.position
    }

    /// Move the camera along the world x axis.
    pub fn adjust_x(&mut self, amount: i64)
        requires
            old(self).wf(),
            -CAM_LIMIT <= old(self).position.x + amount <= CAM_LIMIT,
        ensures
            final(self).wf(),
            final(self).position == (Vector3 {
                x: (old(self).position.x + amount) as i64,
                ..old(self).position
            }),
            *final(self) == (Camera { position: final(self).position, ..*old(self) }),
    {
        self.position.x = self.position.x + amount;
        self.update_camera_vectors();
    }

    /// Move the camera along the world z axis.
    pub fn adjust_z(&mut self, amount: i64)
        requires
            old(self).wf(),
            -CAM_LIMIT <= old(self).position.z + amount <= CAM_LIMIT,
        ensures
            final(self).wf(),
            final(self).position == (Vector3 {
                z: (old(self).position.z + amount) as i64,
                ..old(self).position
            }),
            *final(self) == (Camera { position: final(self).position, ..*old(self) }),
    {
        self.position.z = self.position.z + amount;
        self.update_camera_vectors();
    }

    /// Move the camera by a whole vector.
    pub fn adjust_position(&mut self, vector: Vector3)
        requires
            old(self).wf(),
            -CAM_LIMIT <= old(self).position.x + vector.x <= CAM_LIMIT,
            -CAM_LIMIT <= old(self).position.y + vector.y <= CAM_LIMIT,
            -CAM_LIMIT <= old(self).position.z + vector.z <= CAM_LIMIT,
        ensures
            final(self).wf(),
            final(self).position == (Vector3 {
                x: (old(self).position.x + vector.x) as i64,
                y: (old(self).position.y + vector.y) as i64,
                z: (old(self).position.z + vector.z) as i64,
            }),
            *final(self) == (Camera { position: final(self).position, ..*old(self) }),
    {
        self.position.x = self.position.x + vector.x;
        self.position.y = self.position.y + vector.y;
        self.position.z = self.position.z + vector.z;
        self.update_camera_vectors();
    }
}

} // verus!
