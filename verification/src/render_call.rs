//! Draw requests that are not batched: one mesh, or one model with a texture
//! for each of its submeshes.

use glam::Vec3A;
use vstd::prelude::*;

verus! {

/// What a [`RenderCall`] holds.
pub struct RenderCallView {
    pub mesh_name: Seq<char>,
    pub texture_name: Seq<char>,
    pub translation: Vec3A,
    pub rotation: Vec3A,
    pub scale: Vec3A,
}

/// A request to draw one mesh once.
pub struct RenderCall {
    mesh_name: String,
    texture_name: String,
    translation: Vec3A,
    rotation: Vec3A,
    scale: Vec3A,
}

impl View for RenderCall {
    type V = RenderCallView;

    closed spec fn view(&self) -> RenderCallView {
        RenderCallView {
            mesh_name: self.mesh_name@,
            texture_name: self.texture_name@,
            translation: self.translation,
            rotation: self.rotation,
            scale: self.scale,
        }
    }
}

impl RenderCall {
    pub fn new(
        mesh_name: &str,
        texture_name: &str,
        translation: Vec3A,
        rotation: Vec3A,
        scale: Vec3A,
    ) -> (call: Self)
        ensures
            call@ == (RenderCallView {
                mesh_name: mesh_name@,
                texture_name: texture_name@,
                translation,
                rotation,
                scale,
            }),
    {
        RenderCall {
            mesh_name: mesh_name.to_owned(),
            texture_name: texture_name.to_owned(),
            translation,
            rotation,
            scale,
        }
    }

    pub fn get_mesh_name(&self) -> (name: &String)
        ensures
            name@ == self@.mesh_name,
    {
        &self.mesh_name
    }

    pub fn get_texture_name(&self) -> (name: &String)
        ensures
            name@ == self@.texture_name,
    {
        &self.texture_name
    }

    pub fn get_translation(&self) -> (translation: &Vec3A)
        ensures
            *translation == self@.translation,
    {
        &self.translation
    }

    pub fn get_rotation(&self) -> (rotation: &Vec3A)
        ensures
            *rotation == self@.rotation,
    {
        &self.rotation
    }

    pub fn get_scale(&self) -> (scale: &Vec3A)
        ensures
            *scale == self@.scale,
    {
        &self.scale
    }
}

/// What a [`ModelRenderCall`] holds.
pub struct ModelRenderCallView {
    pub model_name: Seq<char>,
    pub texture_names: Seq<String>,
    pub translation: Vec3A,
    pub rotation: Vec3A,
    pub scale: Vec3A,
}

/// A request to draw one model once, with one texture name for each submesh,
/// in the order of the submeshes.
pub struct ModelRenderCall {
    model_name: String,
    texture_names: Vec<String>,
    translation: Vec3A,
    rotation: Vec3A,
    scale: Vec3A,
}

impl View for ModelRenderCall {
    type V = ModelRenderCallView;

    closed spec fn view(&self) -> ModelRenderCallView {
        ModelRenderCallView {
            model_name: self.model_name@,
            texture_names: self.texture_names@,
            translation: self.translation,
            rotation: self.rotation,
            scale: self.scale,
        }
    }
}

impl ModelRenderCall {
    pub fn new(
        mesh_name: &str,
        texture_names: Vec<String>,
        translation: Vec3A,
        rotation: Vec3A,
        scale: Vec3A,
    ) -> (call: Self)
        ensures
            call@ == (ModelRenderCallView {
                model_name: mesh_name@,
                texture_names: texture_names@,
                translation,
                rotation,
                scale,
            }),
    {
        ModelRenderCall {
            model_name: mesh_name.to_owned(),
            texture_names,
            translation,
            rotation,
            scale,
        }
    }

    pub fn get_model_name(&self) -> (name: &String)
        ensures
            name@ == self@.model_name,
    {
        &self.model_name
    }

    pub fn get_texture_names(&self) -> (names: &Vec<String>)
        ensures
            names@ == self@.texture_names,
    {
        &self.texture_names
    }

    pub fn get_translation(&self) -> (translation: &Vec3A)
        ensures
            *translation == self@.translation,
    {
        &self.translation
    }

    pub fn get_rotation(&self) -> (rotation: &Vec3A)
        ensures
            *rotation == self@.rotation,
    {
        &self.rotation
    }

    pub fn get_scale(&self) -> (scale: &Vec3A)
        ensures
            *scale == self@.scale,
    {
        &self.scale
    }
}

} // verus!
