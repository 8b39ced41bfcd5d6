//! The geometry store: meshes and models by name. An entry is made on the
//! first request for its name and stays; its geometry never changes, only the
//! mark that the renderer has used a model is set. A handle is the entry's
//! place, so equal handles mean the same entry.

use crate::error::AssetLoadError;
use crate::mesh::{Mesh, MeshView};
use crate::model::{Model, ModelView};
use crate::names::{
    distinct, find_name, lemma_lookup_push, lemma_lookup_sound, lookup, name_views,
};
use crate::obj_loader::{result_view, spec_load, ObjLoader};
use vstd::prelude::*;

verus! {

/// The names of `meshes`, in order.
pub open spec fn mesh_names(meshes: Seq<MeshView>) -> Seq<Seq<char>> {
    Seq::new(meshes.len(), |i: int| meshes[i].name)
}

/// The names of `models`, in order.
pub open spec fn model_names(models: Seq<ModelView>) -> Seq<Seq<char>> {
    Seq::new(models.len(), |i: int| models[i].name)
}

/// The views of `meshes`, in order.
pub open spec fn stored_mesh_views(meshes: Seq<Mesh>) -> Seq<MeshView> {
    Seq::new(meshes.len(), |i: int| meshes[i]@)
}

/// The views of `models`, in order.
pub open spec fn stored_model_views(models: Seq<Model>) -> Seq<ModelView> {
    Seq::new(models.len(), |i: int| models[i]@)
}

/// What a [`Store`] holds: its entries in the order in which they were made.
pub struct StoreView {
    pub meshes: Seq<MeshView>,
    pub models: Seq<ModelView>,
}

impl StoreView {
    /// No two meshes and no two models share a name, every entry is
    /// well-formed, and a machine word can count the entries.
    pub open spec fn wf(self) -> bool {
        &&& self.meshes.len() <= usize::MAX
        &&& self.models.len() <= usize::MAX
        &&& distinct(mesh_names(self.meshes))
        &&& distinct(model_names(self.models))
        &&& forall|i: int| 0 <= i < self.meshes.len() ==> (#[trigger] self.meshes[i]).wf()
        &&& forall|i: int| 0 <= i < self.models.len() ==> (#[trigger] self.models[i]).wf()
    }

    /// The handle of the mesh `name`, if the store holds it.
    pub open spec fn find_mesh(self, name: Seq<char>) -> Option<int> {
        lookup(mesh_names(self.meshes), name)
    }

    /// The handle of the model `name`, if the store holds it.
    pub open spec fn find_model(self, name: Seq<char>) -> Option<int> {
        lookup(model_names(self.models), name)
    }

    /// The store after a request to hold `mesh`, and the handle given.
    pub open spec fn with_mesh(self, mesh: MeshView) -> (StoreView, int) {
        match self.find_mesh(mesh.name) {
            Some(i) => (self, i),
            None => (StoreView { meshes: self.meshes.push(mesh), ..self }, self.meshes.len() as int),
        }
    }

    /// The store after a request to hold `model`, and the handle given.
    pub open spec fn with_model(self, model: ModelView) -> (StoreView, int) {
        match self.find_model(model.name) {
            Some(i) => (self, i),
            None => (StoreView { models: self.models.push(model), ..self }, self.models.len() as int),
        }
    }

    /// The store after a request for the model `name` whose source is `data`,
    /// and the handle or error given. A name that the store holds is answered
    /// from the store, whatever `data` is.
    pub open spec fn get_or_load(self, name: Seq<char>, data: Seq<u8>) -> (
        StoreView,
        Result<int, AssetLoadError>,
    ) {
        match self.find_model(name) {
            Some(i) => (self, Ok(i)),
            None => match spec_load(name, data) {
                Ok(model) => self.with_loaded(model),
                Err(e) => (self, Err(e)),
            },
        }
    }

    /// The store with the model at `handle` marked as in use by the renderer.
    pub open spec fn with_locked_model(self, handle: int) -> StoreView {
        StoreView {
            models: self.models.update(handle, ModelView { lock: true, ..self.models[handle] }),
            ..self
        }
    }

    /// The store with `model` as its newest model, and the handle of that
    /// model.
    pub open spec fn with_loaded(self, model: ModelView) -> (StoreView, Result<int, AssetLoadError>) {
        (StoreView { models: self.models.push(model), ..self }, Ok(self.models.len() as int))
    }
}

/// A handle or error with the handle as a mathematical integer.
pub open spec fn handle_view(outcome: Result<usize, AssetLoadError>) -> Result<
    int,
    AssetLoadError,
> {
    match outcome {
        Ok(handle) => Ok(handle as int),
        Err(e) => Err(e),
    }
}

/// A found place with the place as a mathematical integer.
pub open spec fn place_view(found: Option<usize>) -> Option<int> {
    match found {
        Some(i) => Some(i as int),
        None => None,
    }
}

/// The geometry store.
pub struct Store {
    mesh_names: Vec<String>,
    meshes: Vec<Mesh>,
    model_names: Vec<String>,
    models: Vec<Model>,
}

impl View for Store {
    type V = StoreView;

    closed spec fn view(&self) -> StoreView {
        StoreView {
            meshes: stored_mesh_views(self.meshes@),
            models: stored_model_views(self.models@),
        }
    }
}

impl Store {
    /// The invariant of the store: its view is well-formed, and its index of
    /// names agrees with its entries.
    pub closed spec fn wf(&self) -> bool {
        &&& self@.wf()
        &&& name_views(self.mesh_names@) =~= mesh_names(self@.meshes)
        &&& name_views(self.model_names@) =~= model_names(self@.models)
    }

    /// What `wf` says of the view.
    pub proof fn lemma_view_wf(&self)
        requires
            self.wf(),
        ensures
            self@.wf(),
    {
    }

    /// An empty store.
    pub fn new() -> (store: Store)
        ensures
            store.wf(),
            store@.meshes.len() == 0,
            store@.models.len() == 0,
    {
        Store { mesh_names: Vec::new(), meshes: Vec::new(), model_names: Vec::new(), models: Vec::new() }
    }

    pub fn mesh_count(&self) -> (count: usize)
        ensures
            count == self@.meshes.len(),
    {
        self.meshes.len()
    }

    pub fn model_count(&self) -> (count: usize)
        ensures
            count == self@.models.len(),
    {
        self.models.len()
    }

    /// The handle of the mesh `name`, if the store holds it.
    pub fn find_mesh(&self, name: &str) -> (found: Option<usize>)
        requires
            self.wf(),
        ensures
            place_view(found) == self@.find_mesh(name@),
            found matches Some(i) ==> i < self@.meshes.len() && self@.meshes[i as int].name == name@,
    {
        proof {
            lemma_lookup_sound(mesh_names(self@.meshes), name@);
        }
        find_name(&self.mesh_names, name)
    }

    /// The handle of the model `name`, if the store holds it.
    pub fn find_model(&self, name: &str) -> (found: Option<usize>)
        requires
            self.wf(),
        ensures
            place_view(found) == self@.find_model(name@),
            found matches Some(i) ==> i < self@.models.len() && self@.models[i as int].name == name@,
    {
        proof {
            lemma_lookup_sound(model_names(self@.models), name@);
        }
        find_name(&self.model_names, name)
    }

    /// The mesh behind a handle.
    pub fn get_mesh(&self, handle: usize) -> (mesh: &Mesh)
        requires
            self.wf(),
            handle < self@.meshes.len(),
        ensures
            mesh@ == self@.meshes[handle as int],
            mesh.wf(),
    {
        &self.meshes[handle]
    }

    /// The model behind a handle.
    pub fn get_model(&self, handle: usize) -> (model: &Model)
        requires
            self.wf(),
            handle < self@.models.len(),
        ensures
            model@ == self@.models[handle as int],
            model.wf(),
    {
        &self.models[handle]
    }

    /// Marks the model behind a handle as in use by the renderer.
    pub fn lock_model(&mut self, handle: usize)
        requires
            old(self).wf(),
            handle < old(self)@.models.len(),
        ensures
            final(self).wf(),
            final(self)@ == old(self)@.with_locked_model(handle as int),
    {
        let ghost before = self@;
        self.models[handle].lock();
        proof {
            assert(self@.models =~= before.models.update(
                handle as int,
                ModelView { lock: true, ..before.models[handle as int] },
            ));
            assert(self@.meshes =~= before.meshes);
            assert(model_names(self@.models) =~= model_names(before.models));
        }
    }

    /// Holds `mesh` under its name unless a mesh of that name is held
    /// already: then the store keeps the one it has and `mesh` is dropped.
    /// Either way the handle of the mesh of that name is returned.
    pub fn add_mesh(&mut self, mesh: Mesh) -> (handle: usize)
        requires
            old(self).wf(),
            mesh.wf(),
        ensures
            final(self).wf(),
            (final(self)@, handle as int) == old(self)@.with_mesh(mesh@),
            handle < final(self)@.meshes.len(),
    {
        proof {
            lemma_lookup_sound(mesh_names(self@.meshes), mesh@.name);
        }
        match find_name(&self.mesh_names, mesh.get_name().as_str()) {
            Some(i) => i,
            None => {
                let handle = self.meshes.len();
                let name = mesh.get_name().clone();
                let ghost before = self@;
                self.mesh_names.push(name);
                self.meshes.push(mesh);
                proof {
                    assert(self@.meshes =~= before.meshes.push(mesh@));
                    assert(self.meshes@.len() == self.meshes.len());
                    assert(self@.models =~= before.models);
                    assert(mesh_names(self@.meshes) =~= mesh_names(before.meshes).push(mesh@.name));
                }
                handle
            },
        }
    }

    /// Holds `model` under its name unless a model of that name is held
    /// already: then the store keeps the one it has and `model` is dropped.
    /// Either way the handle of the model of that name is returned.
    pub fn add_model(&mut self, model: Model) -> (handle: usize)
        requires
            old(self).wf(),
            model.wf(),
        ensures
            final(self).wf(),
            (final(self)@, handle as int) == old(self)@.with_model(model@),
            handle < final(self)@.models.len(),
    {
        proof {
            lemma_lookup_sound(model_names(self@.models), model@.name);
        }
        match find_name(&self.model_names, model.get_name().as_str()) {
            Some(i) => i,
            None => {
                let handle = self.models.len();
                let name = model.get_name().clone();
                let ghost before = self@;
                self.model_names.push(name);
                self.models.push(model);
                proof {
                    assert(self@.models =~= before.models.push(model@));
                    assert(self.models@.len() == self.models.len());
                    assert(self@.meshes =~= before.meshes);
                    assert(model_names(self@.models) =~= model_names(before.models).push(
                        model@.name,
                    ));
                }
                handle
            },
        }
    }

    /// The handle of the model `name`. On the first request for a name the
    /// model is imported from `data` and held; every later request is
    /// answered from the store and `data` is not looked at. A source that
    /// cannot be imported leaves the store as it was.
    pub fn get_or_load(&mut self, name: &str, data: &[u8]) -> (outcome: Result<
        usize,
        AssetLoadError,
    >)
        requires
            old(self).wf(),
        ensures
            final(self).wf(),
            (final(self)@, handle_view(outcome)) == old(self)@.get_or_load(name@, data@),
            outcome matches Ok(handle) ==> handle < final(self)@.models.len(),
            outcome matches Ok(handle) ==> final(self)@.models[handle as int].name == name@,
    {
        proof {
            lemma_lookup_sound(model_names(self@.models), name@);
        }
        match find_name(&self.model_names, name) {
            Some(i) => Ok(i),
            None => match ObjLoader::load(name, data) {
                Ok(model) => {
                    assert(result_view(Ok::<Model, AssetLoadError>(model)) == spec_load(
                        name@,
                        data@,
                    ));
                    Ok(self.add_model(model))
                },
                Err(e) => Err(e),
            },
        }
    }
}

/// A second request for a name gives the handle that the first gave and
/// changes nothing, whatever source either request brings; and a request
/// never changes or removes an entry that was held, nor the handle under
/// which any name is found.
pub proof fn lemma_get_or_load_idempotent(
    store: StoreView,
    name: Seq<char>,
    first: Seq<u8>,
    second: Seq<u8>,
)
    requires
        store.wf(),
    ensures
        ({
            let (held, handle) = store.get_or_load(name, first);
            &&& handle is Ok ==> held.get_or_load(name, second) == (held, handle)
            &&& held.meshes == store.meshes
            &&& held.models.len() >= store.models.len()
            &&& held.models.subrange(0, store.models.len() as int) == store.models
            &&& forall|other: Seq<char>| #[trigger]
                store.find_model(other) is Some ==> held.find_model(other) == store.find_model(
                    other,
                )
        }),
{
    let (held, handle) = store.get_or_load(name, first);
    lemma_lookup_sound(model_names(store.models), name);
    assert(held.models.subrange(0, store.models.len() as int) =~= store.models);
    assert forall|other: Seq<char>| #[trigger]
        store.find_model(other) is Some implies held.find_model(other) == store.find_model(
        other,
    ) by {
        if held != store {
            lemma_model_name(name, first);
            assert(model_names(held.models) =~= model_names(store.models).push(name));
            lemma_lookup_push(model_names(store.models), name, other);
        }
    }
    if handle is Ok {
        match store.find_model(name) {
            Some(i) => {},
            None => {
                let model = spec_load(name, first)->Ok_0;
                lemma_model_name(name, first);
                assert(model_names(held.models) =~= model_names(store.models).push(name));
                lemma_lookup_push(model_names(store.models), name, name);
            },
        }
    }
}

/// A model that loads under a name bears that name.
pub proof fn lemma_model_name(name: Seq<char>, data: Seq<u8>)
    ensures
        spec_load(name, data) matches Ok(model) ==> model.name == name,
{
}

} // verus!
