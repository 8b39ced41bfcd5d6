//! Transform records. Vectors and matrices are `glam` values that the library
//! carries from the caller to the draw commands without looking inside.

use glam::Vec3A;
use vstd::prelude::*;

verus! {

/// `glam::Vec3A`: three single-precision components. Nothing is claimed of its
/// contents; two values are told apart only by equality.
#[verifier::external_type_specification]
#[verifier::external_body]
pub struct ExVec3A(glam::Vec3A);

/// `glam::Mat4`: a four by four matrix. Nothing is claimed of its contents.
#[verifier::external_type_specification]
#[verifier::external_body]
pub struct ExMat4(glam::Mat4);

/// The transform of one instance of a mesh: many instances share one mesh.
#[derive(Clone, Copy)]
pub struct InstancedRenderData {
    pub translation: Vec3A,
    pub rotation: Vec3A,
    pub scale: Vec3A,
}

impl InstancedRenderData {
    pub fn new(translation: Vec3A, rotation: Vec3A, scale: Vec3A) -> (data: Self)
        ensures
            data.translation == translation,
            data.rotation == rotation,
            data.scale == scale,
    {
        InstancedRenderData { translation, rotation, scale }
    }

    pub fn get_translation(&self) -> (translation: &Vec3A)
        ensures
            *translation == self.translation,
    {
        &self.translation
    }

    pub fn get_rotation(&self) -> (rotation: &Vec3A)
        ensures
            *rotation == self.rotation,
    {
        &self.rotation
    }

    pub fn get_scale(&self) -> (scale: &Vec3A)
        ensures
            *scale == self.scale,
    {
        &self.scale
    }
}

} // verus!
