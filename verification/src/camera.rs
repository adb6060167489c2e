use vstd::prelude::*;

use crate::fixed::{Fx, Vec3Fx};
use crate::mat::{spec_remap, apply_depth_remap, Mat4, MAT_BOUND};

verus! {

/// A viewport aspect ratio, kept as the exact pair it is derived from
/// rather than as a rounded quotient.
#[derive(Clone, Copy, Debug, PartialEq, Eq, Structural)]
pub struct AspectRatio {
    pub width: u32,
    pub height: u32,
}

/// The camera's projection strategy: a perspective frustum (whose aspect
/// follows the viewport) or an orthographic box (whose extents are fixed
/// world-space lengths, indifferent to the viewport).
#[derive(Clone, Copy, Debug, PartialEq, Eq, Structural)]
pub enum Projector {
    Perspective { aspect: AspectRatio, fovy_degrees: Fx, znear: Fx, zfar: Fx },
    Orthogonal { left: Fx, right: Fx, bottom: Fx, top: Fx, near: Fx, far: Fx },
}

/// The GPU-visible uniform contents: one view-projection matrix, already
/// carrying the clip-space depth remap.
#[derive(Clone, Copy, Debug, PartialEq, Eq, Structural)]
pub struct CameraUniform {
    pub view_proj: Mat4,
}

/// A camera: a pose (eye, target, up), a projector, and the model of its
/// GPU uniform buffer once created.
///
/// The buffer never recomputes itself: it holds exactly what the last
/// explicit `create_buffer` or `update` call derived, namely the depth
/// remap applied to the projection-times-view matrix supplied then. That
/// matrix is the one floating-point input here — a look-at and a frustum
/// are irrational in the camera's parameters — and the caller evaluates it
/// from this camera's current pose and projector.
#[derive(Clone, Copy, Debug, PartialEq, Eq, Structural)]
pub struct Camera {
    pub eye: Vec3Fx,
    pub target: Vec3Fx,
    pub up: Vec3Fx,
    pub projector: Projector,
    pub buffer: Option<CameraUniform>,
}

/// The camera after a viewport resize: a perspective projector takes the
/// newly supplied aspect and nothing else moves; an orthogonal projector
/// ignores the resize entirely, leaving the camera untouched.
pub open spec fn spec_resize(c: Camera, width: u32, height: u32) -> Camera {
    match c.projector {
        Projector::Perspective { aspect, fovy_degrees, znear, zfar } => Camera {
            projector: Projector::Perspective {
                aspect: AspectRatio { width, height },
                fovy_degrees,
                znear,
                zfar,
            },
            ..c
        },
        Projector::Orthogonal { .. } => c,
    }
}

impl Camera {
    /// Constructs a perspective camera with no GPU buffer yet bound.
    pub fn make_perspective(
        eye: Vec3Fx,
        target: Vec3Fx,
        up: Vec3Fx,
        aspect: AspectRatio,
        fovy_degrees: Fx,
        znear: Fx,
        zfar: Fx,
    ) -> (r: Camera)
        ensures
            r == (Camera {
                eye,
                target,
                up,
                projector: Projector::Perspective { aspect, fovy_degrees, znear, zfar },
                buffer: None,
            }),
    {
        Camera {
            eye,
            target,
            up,
            projector: Projector::Perspective { aspect, fovy_degrees, znear, zfar },
            buffer: None,
        }
    }

    /// Constructs an orthogonal camera with no GPU buffer yet bound.
    pub fn make_orthogonal(
        eye: Vec3Fx,
        target: Vec3Fx,
        up: Vec3Fx,
        left: Fx,
        right: Fx,
        bottom: Fx,
        top: Fx,
        near: Fx,
        far: Fx,
    ) -> (r: Camera)
        ensures
            r == (Camera {
                eye,
                target,
                up,
                projector: Projector::Orthogonal { left, right, bottom, top, near, far },
                buffer: None,
            }),
    {
        Camera {
            eye,
            target,
            up,
            projector: Projector::Orthogonal { left, right, bottom, top, near, far },
            buffer: None,
        }
    }

    /// The uniform derived from the supplied projection-times-view matrix:
    /// that matrix with the clip-space depth remap applied.
    pub fn get_view_projection_matrix(&self, proj_view: &Mat4) -> (r: CameraUniform)
        requires
            proj_view.bounded(MAT_BOUND as int),
        ensures
            r.view_proj == spec_remap(*proj_view),
    {
        CameraUniform { view_proj: apply_depth_remap(proj_view) }
    }

    /// The model of the camera's uniform buffer, if it was created.
    pub fn get_view_projection_buffer(&self) -> (r: Option<&CameraUniform>)
        ensures
            r is Some <==> self.buffer is Some,
            r is Some ==> *r->0 == self.buffer->0,
    {
        self.buffer.as_ref()
    }

    /// Creates the camera's uniform buffer, initialized with the remapped
    /// view-projection matrix. Called exactly once, before the camera's
    /// first use in a bind group.
    pub fn create_buffer(&mut self, proj_view: &Mat4)
        requires
            old(self).buffer is None,
            proj_view.bounded(MAT_BOUND as int),
        ensures
            *final(self) == (Camera {
                buffer: Some(CameraUniform { view_proj: spec_remap(*proj_view) }),
                ..*old(self)
            }),
    {
        let uniform = self.get_view_projection_matrix(proj_view);
        self.buffer = Some(uniform);
    }

    /// Overwrites the buffer contents with the remapped view-projection
    /// matrix derived from the camera's current pose and projector (whose
    /// evaluation the caller supplies). The buffer must exist: updating a
    /// camera whose buffer was never created is a programming error.
    pub fn update(&mut self, proj_view: &Mat4)
        requires
            old(self).buffer is Some,
            proj_view.bounded(MAT_BOUND as int),
        ensures
            *final(self) == (Camera {
                buffer: Some(CameraUniform { view_proj: spec_remap(*proj_view) }),
                ..*old(self)
            }),
    {
        let uniform = self.get_view_projection_matrix(proj_view);
        self.buffer = Some(uniform);
    }

    /// Updates the projector's aspect ratio to the new viewport dimensions;
    /// an orthogonal projector ignores this by design.
    pub fn resize(&mut self, width: u32, height: u32)
        ensures
            *final(self) == spec_resize(*old(self), width, height),
    {
        match &mut self.projector {
            Projector::Perspective { aspect, .. } => {
                *aspect = AspectRatio { width, height };
            },
            Projector::Orthogonal { .. } => {},
        }
    }
}

/// A resize hands a perspective camera exactly the newly supplied aspect
/// ratio, and touches nothing else: not the pose, not the frustum's field
/// of view or depth range, and not the buffer.
pub proof fn lemma_resize_perspective_takes_new_aspect(c: Camera, width: u32, height: u32)
    requires
        c.projector is Perspective,
    ensures
        spec_resize(c, width, height).projector == (Projector::Perspective {
            aspect: AspectRatio { width, height },
            fovy_degrees: c.projector->Perspective_fovy_degrees,
            znear: c.projector->Perspective_znear,
            zfar: c.projector->Perspective_zfar,
        }),
        spec_resize(c, width, height) == (Camera {
            projector: spec_resize(c, width, height).projector,
            ..c
        }),
{
}

/// A resize leaves an orthogonal camera identical, so everything derived
/// from it — its projection matrix and its buffer — is unchanged by it.
pub proof fn lemma_resize_orthogonal_unchanged(c: Camera, width: u32, height: u32)
    requires
        c.projector is Orthogonal,
    ensures
        spec_resize(c, width, height) == c,
{
}

} // verus!
