//! The camera: where the viewer is, how it is turned, and the projection and
//! view matrix that was last worked out for it.

use glam::{Mat4, Vec3A};
use vstd::prelude::*;

verus! {

/// What a [`Camera`] holds.
pub struct CameraView {
    pub position: Vec3A,
    pub rotation: Vec3A,
    pub matrix: Mat4,
}

/// The camera. Position and rotation are set as given: nothing is checked or
/// wrapped.
pub struct Camera {
    position: Vec3A,
    rotation: Vec3A,
    matrix: Mat4,
}

impl View for Camera {
    type V = CameraView;

    closed spec fn view(&self) -> CameraView {
        CameraView { position: self.position, rotation: self.rotation, matrix: self.matrix }
    }
}

impl Camera {
    pub fn new(position: Vec3A, rotation: Vec3A, matrix: Mat4) -> (camera: Camera)
        ensures
            camera@ == (CameraView { position, rotation, matrix }),
    {
        Camera { position, rotation, matrix }
    }

    pub fn get_position(&self) -> (position: &Vec3A)
        ensures
            *position == self@.position,
    {
        &self.position
    }

    pub fn set_position(&mut self, position: &Vec3A)
        ensures
            final(self)@ == (CameraView { position: *position, ..old(self)@ }),
    {
        self.position = *position;
    }

    pub fn get_rotation(&self) -> (rotation: &Vec3A)
        ensures
            *rotation == self@.rotation,
    {
        &self.rotation
    }

    pub fn set_rotation(&mut self, rotation: &Vec3A)
        ensures
            final(self)@ == (CameraView { rotation: *rotation, ..old(self)@ }),
    {
        self.rotation = *rotation;
    }

    /// The projection and view matrix that was stored last.
    pub fn get_matrix(&self) -> (matrix: &Mat4)
        ensures
            *matrix == self@.matrix,
    {
        &self.matrix
    }

    /// Stores the projection and view matrix that the caller worked out from
    /// the position, the rotation and the window's aspect ratio.
    pub fn set_matrix(&mut self, matrix: Mat4)
        ensures
            final(self)@ == (CameraView { matrix, ..old(self)@ }),
    {
        self.matrix = matrix;
    }
}

} // verus!
