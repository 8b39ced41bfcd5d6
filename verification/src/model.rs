//! A model: the meshes of one geometry source, in the order of their texture
//! slots.

use crate::error::{load_failed, AssetLoadError};
use crate::mesh::{Mesh, MeshView};
use vstd::prelude::*;

verus! {

/// What a [`Model`] holds.
pub struct ModelView {
    pub name: Seq<char>,
    pub meshes: Seq<MeshView>,
    pub number_of_texture_buffers: u32,
    pub lock: bool,
}

impl ModelView {
    /// Every mesh is well-formed and uses the texture slot of its own place,
    /// and the model expects one texture for each mesh.
    pub open spec fn wf(self) -> bool {
        &&& self.number_of_texture_buffers == self.meshes.len()
        &&& slots_in_order(self.meshes)
        &&& forall|i: int| 0 <= i < self.meshes.len() ==> (#[trigger] self.meshes[i]).wf()
    }
}

/// The views of `meshes`, in order.
pub open spec fn mesh_views(meshes: Seq<Mesh>) -> Seq<MeshView> {
    Seq::new(meshes.len(), |i: int| meshes[i]@)
}

/// Each mesh uses the texture slot that its place in the sequence gives.
pub open spec fn slots_in_order(meshes: Seq<MeshView>) -> bool {
    forall|i: int| 0 <= i < meshes.len() ==> (#[trigger] meshes[i]).texture_index == i
}

/// Whether `meshes` can be the meshes of a model.
pub open spec fn meshes_ok(meshes: Seq<MeshView>) -> bool {
    meshes.len() <= u32::MAX && slots_in_order(meshes)
}

/// A named sequence of meshes.
pub struct Model {
    name: String,
    meshes: Vec<Mesh>,
    number_of_texture_buffers: u32,
    lock: bool,
}

impl View for Model {
    type V = ModelView;

    closed spec fn view(&self) -> ModelView {
        ModelView {
            name: self.name@,
            meshes: mesh_views(self.meshes@),
            number_of_texture_buffers: self.number_of_texture_buffers,
            lock: self.lock,
        }
    }
}

impl Model {
    /// The invariant of every model that this library hands out.
    pub open spec fn wf(&self) -> bool {
        self@.wf()
    }

    /// Makes an unlocked model of `meshes`, or refuses them where a mesh does
    /// not use the texture slot of its place or the meshes cannot be counted
    /// in 32 bits.
    pub fn new(name: &str, meshes: Vec<Mesh>) -> (made: Result<Model, AssetLoadError>)
        requires
            forall|i: int| 0 <= i < meshes@.len() ==> (#[trigger] meshes@[i]).wf(),
        ensures
            meshes_ok(mesh_views(meshes@)) ==> made is Ok,
            !meshes_ok(mesh_views(meshes@)) ==> load_failed(made, AssetLoadError::InvalidGeometry),
            made matches Ok(model) ==> model.wf() && model@ == (ModelView {
                name: name@,
                meshes: mesh_views(meshes@),
                number_of_texture_buffers: meshes@.len() as u32,
                lock: false,
            }),
    {
        let count: usize = meshes.len();
        if count > 0xffff_ffff {
            return Err(AssetLoadError::InvalidGeometry);
        }
        let mut i: usize = 0;
        while i < count
            invariant
                i <= count,
                count == meshes@.len(),
                count <= u32::MAX,
                forall|k: int| 0 <= k < i ==> (#[trigger] mesh_views(meshes@)[k]).texture_index == k,
            decreases count - i,
        {
            if meshes[i].get_texture_index() != i as u32 {
                assert(mesh_views(meshes@)[i as int].texture_index != i);
                return Err(AssetLoadError::InvalidGeometry);
            }
            i += 1;
        }
        assert forall|k: int| 0 <= k < meshes@.len() implies (#[trigger] mesh_views(
            meshes@,
        )[k]).wf() by {
            assert(meshes@[k].wf());
        }
        Ok(
            Model {
                name: name.to_owned(),
                meshes,
                number_of_texture_buffers: count as u32,
                lock: false,
            },
        )
    }

    pub fn get_name(&self) -> (name: &String)
        ensures
            name@ == self@.name,
    {
        &self.name
    }

    /// The meshes, in the order of their texture slots.
    pub fn get_meshes(&self) -> (meshes: &Vec<Mesh>)
        requires
            self.wf(),
        ensures
            mesh_views(meshes@) == self@.meshes,
            forall|i: int| 0 <= i < meshes@.len() ==> (#[trigger] meshes@[i]).wf(),
    {
        assert forall|i: int| 0 <= i < self.meshes@.len() implies (#[trigger] self.meshes@[i]).wf() by {
            assert(self@.meshes[i].wf());
        }
        &self.meshes
    }

    /// How many textures a draw of this model must name: one for each mesh.
    pub fn get_number_of_texture_buffers(&self) -> (count: u32)
        requires
            self.wf(),
        ensures
            count == self@.number_of_texture_buffers,
            count == self@.meshes.len(),
    {
        self.number_of_texture_buffers
    }

    pub fn is_locked(&self) -> (locked: bool)
        ensures
            locked == self@.lock,
    {
        self.lock
    }

    /// Marks the model as in use by the renderer. Nothing else changes.
    pub fn lock(&mut self)
        ensures
            final(self)@ == (ModelView { lock: true, ..old(self)@ }),
    {
        self.lock = true;
    }
}

} // verus!
