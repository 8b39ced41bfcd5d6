//! The draw queue of one frame: single draws in the order in which they were
//! submitted, and instances gathered into one batch for each mesh name.

use crate::error::{refused, RenderError};
use crate::names::{
    distinct, find_name, lemma_lookup_push, lemma_lookup_sound, lookup,
    name_views,
};
use crate::render_call::{ModelRenderCall, ModelRenderCallView, RenderCall, RenderCallView};
use crate::store::{Store, StoreView};
use crate::transform::InstancedRenderData;
use glam::Vec3A;
use vstd::prelude::*;

verus! {

/// All instances that were submitted for one mesh name, in the order in which
/// they came.
pub struct InstanceBatchView {
    pub mesh_name: Seq<char>,
    pub instances: Seq<InstancedRenderData>,
}

/// The mesh names of `batches`, in order.
pub open spec fn batch_names(batches: Seq<InstanceBatchView>) -> Seq<Seq<char>> {
    Seq::new(batches.len(), |i: int| batches[i].mesh_name)
}

/// The batches after `instances` were submitted for the mesh `name`: they
/// join the batch of that name, or start one at the end.
pub open spec fn with_instances(
    batches: Seq<InstanceBatchView>,
    name: Seq<char>,
    instances: Seq<InstancedRenderData>,
) -> Seq<InstanceBatchView> {
    match lookup(batch_names(batches), name) {
        Some(i) => batches.update(
            i,
            InstanceBatchView { mesh_name: name, instances: batches[i].instances + instances },
        ),
        None => batches.push(InstanceBatchView { mesh_name: name, instances }),
    }
}

/// Whether a draw of the model `name` with `texture_count` textures is
/// accepted against `store`, and why not.
pub open spec fn model_submission(store: StoreView, name: Seq<char>, texture_count: nat) -> Result<
    (),
    RenderError,
> {
    match store.find_model(name) {
        None => Err(RenderError::ResourceNotFound),
        Some(i) => if store.models[i].meshes.len() == texture_count {
            Ok(())
        } else {
            Err(RenderError::TextureCountMismatch)
        },
    }
}

/// What a [`RenderQueue`] holds.
pub struct QueueView {
    pub mesh_calls: Seq<RenderCallView>,
    pub model_calls: Seq<ModelRenderCallView>,
    pub batches: Seq<InstanceBatchView>,
}

impl QueueView {
    /// No two batches are for the same mesh name.
    pub open spec fn wf(self) -> bool {
        distinct(batch_names(self.batches))
    }

    pub open spec fn is_empty(self) -> bool {
        self.mesh_calls.len() == 0 && self.model_calls.len() == 0 && self.batches.len() == 0
    }
}

/// The views of `calls`, in order.
pub open spec fn call_views(calls: Seq<RenderCall>) -> Seq<RenderCallView> {
    Seq::new(calls.len(), |i: int| calls[i]@)
}

/// The views of `calls`, in order.
pub open spec fn model_call_views(calls: Seq<ModelRenderCall>) -> Seq<ModelRenderCallView> {
    Seq::new(calls.len(), |i: int| calls[i]@)
}

/// The batches that a list of names and a list of instance lists stand for.
pub open spec fn batch_views(
    names: Seq<String>,
    instances: Seq<Vec<InstancedRenderData>>,
) -> Seq<InstanceBatchView> {
    Seq::new(
        names.len(),
        |i: int| InstanceBatchView { mesh_name: names[i]@, instances: instances[i]@ },
    )
}

/// The draw queue.
pub struct RenderQueue {
    mesh_calls: Vec<RenderCall>,
    model_calls: Vec<ModelRenderCall>,
    batch_names: Vec<String>,
    batch_instances: Vec<Vec<InstancedRenderData>>,
}

impl View for RenderQueue {
    type V = QueueView;

    closed spec fn view(&self) -> QueueView {
        QueueView {
            mesh_calls: call_views(self.mesh_calls@),
            model_calls: model_call_views(self.model_calls@),
            batches: batch_views(self.batch_names@, self.batch_instances@),
        }
    }
}

impl RenderQueue {
    /// The invariant of the queue.
    pub closed spec fn wf(&self) -> bool {
        &&& self@.wf()
        &&& self.batch_names@.len() == self.batch_instances@.len()
    }

    /// What `wf` says of the view.
    pub proof fn lemma_view_wf(&self)
        requires
            self.wf(),
        ensures
            self@.wf(),
    {
    }

    /// An empty queue.
    pub fn new() -> (queue: RenderQueue)
        ensures
            queue.wf(),
            queue@.is_empty(),
    {
        RenderQueue {
            mesh_calls: Vec::new(),
            model_calls: Vec::new(),
            batch_names: Vec::new(),
            batch_instances: Vec::new(),
        }
    }

    /// Queues one draw of the mesh `name`. Whether the store holds the mesh is
    /// found out when the frame is recorded.
    pub fn submit_mesh(
        &mut self,
        name: &str,
        texture: &str,
        translation: Vec3A,
        rotation: Vec3A,
        scale: Vec3A,
    )
        requires
            old(self).wf(),
        ensures
            final(self).wf(),
            final(self)@ == (QueueView {
                mesh_calls: old(self)@.mesh_calls.push(
                    RenderCallView {
                        mesh_name: name@,
                        texture_name: texture@,
                        translation,
                        rotation,
                        scale,
                    },
                ),
                ..old(self)@
            }),
    {
        let call = RenderCall::new(name, texture, translation, rotation, scale);
        let ghost before = self@;
        self.mesh_calls.push(call);
        proof {
            assert(self@.mesh_calls =~= before.mesh_calls.push(call@));
        }
    }

    /// Queues one draw of the model `name` with one texture for each of its
    /// submeshes. A model that `store` does not hold, or a number of textures
    /// other than the model's number of submeshes, is refused and nothing is
    /// queued.
    pub fn submit_model(
        &mut self,
        store: &Store,
        name: &str,
        textures: Vec<String>,
        translation: Vec3A,
        rotation: Vec3A,
        scale: Vec3A,
    ) -> (outcome: Result<(), RenderError>)
        requires
            old(self).wf(),
            store.wf(),
        ensures
            final(self).wf(),
            outcome == model_submission(store@, name@, textures@.len()),
            outcome is Err ==> final(self)@ == old(self)@,
            store@.find_model(name@) matches Some(i) && store@.models[i].meshes.len()
                != textures@.len() ==> refused(outcome, RenderError::TextureCountMismatch),
            outcome is Ok ==> final(self)@ == (QueueView {
                model_calls: old(self)@.model_calls.push(
                    ModelRenderCallView {
                        model_name: name@,
                        texture_names: textures@,
                        translation,
                        rotation,
                        scale,
                    },
                ),
                ..old(self)@
            }),
    {
        let handle = match store.find_model(name) {
            Some(handle) => handle,
            None => {
                return Err(RenderError::ResourceNotFound);
            },
        };
        let expected: u32 = store.get_model(handle).get_number_of_texture_buffers();
        if textures.len() != expected as usize {
            return Err(RenderError::TextureCountMismatch);
        }
        let call = ModelRenderCall::new(name, textures, translation, rotation, scale);
        let ghost before = self@;
        self.model_calls.push(call);
        proof {
            assert(self@.model_calls =~= before.model_calls.push(call@));
        }
        Ok(())
    }

    /// Adds `instances` to the batch of the mesh `name`, starting the batch
    /// if this is the first submission for that name in the frame.
    pub fn submit_instanced(&mut self, name: &str, instances: &Vec<InstancedRenderData>)
        requires
            old(self).wf(),
        ensures
            final(self).wf(),
            final(self)@ == (QueueView {
                batches: with_instances(old(self)@.batches, name@, instances@),
                ..old(self)@
            }),
    {
        let ghost before = self@;
        let ghost names_before = batch_names(before.batches);
        proof {
            assert(name_views(self.batch_names@) =~= names_before);
            lemma_lookup_sound(names_before, name@);
        }
        let place: usize = match find_name(&self.batch_names, name) {
            Some(i) => i,
            None => {
                self.batch_names.push(name.to_owned());
                self.batch_instances.push(Vec::new());
                self.batch_names.len() - 1
            },
        };
        let ghost started = self@.batches;
        let ghost held: Seq<InstancedRenderData> = self.batch_instances@[place as int]@;
        proof {
            assert(batch_names(started)[place as int] == name@);
            if lookup(names_before, name@) is None {
                assert(started =~= before.batches.push(
                    InstanceBatchView { mesh_name: name@, instances: Seq::empty() },
                ));
                assert(batch_names(started) =~= names_before.push(name@));
            } else {
                assert(started =~= before.batches);
            }
        }
        let mut k: usize = 0;
        while k < instances.len()
            invariant
                k <= instances@.len(),
                place < self.batch_names@.len(),
                self.batch_names@.len() == self.batch_instances@.len(),
                self.batch_names@.len() == started.len(),
                self.batch_names@[place as int]@ == name@,
                forall|j: int| 0 <= j < started.len() ==> self.batch_names@[j]@ == (
                #[trigger] started[j]).mesh_name,
                self.mesh_calls == old(self).mesh_calls,
                self.model_calls == old(self).model_calls,
                self@.batches =~= started.update(
                    place as int,
                    InstanceBatchView {
                        mesh_name: name@,
                        instances: held + instances@.subrange(0, k as int),
                    },
                ),
            decreases instances@.len() - k,
        {
            let ghost lists = self.batch_instances@;
            let ghost batches = self@.batches;
            proof {
                assert(batches[place as int].instances == held + instances@.subrange(0, k as int));
                assert(lists[place as int]@ == batches[place as int].instances);
            }
            self.batch_instances[place].push(instances[k]);
            k += 1;
            proof {
                assert(instances@.subrange(0, k as int) =~= instances@.subrange(0, k - 1).push(
                    instances@[k - 1],
                ));
                assert(self.batch_instances@[place as int]@ =~= held + instances@.subrange(
                    0,
                    k as int,
                ));
                let ghost target = started.update(
                    place as int,
                    InstanceBatchView {
                        mesh_name: name@,
                        instances: held + instances@.subrange(0, k as int),
                    },
                );
                assert(self@.batches.len() == target.len());
                assert forall|j: int| 0 <= j < target.len() implies self@.batches[j]
                    == target[j] by {
                    if j != place {
                        assert(self.batch_instances@[j] == lists[j]);
                        assert(batches[j] == started[j]);
                    }
                }
            }
        }
        proof {
            assert(instances@.subrange(0, k as int) =~= instances@);
            let after = self@.batches;
            assert(after =~= with_instances(before.batches, name@, instances@)) by {
                if lookup(names_before, name@) is None {
                    assert(held =~= Seq::empty());
                    assert(Seq::<InstancedRenderData>::empty() + instances@ =~= instances@);
                }
            }
            assert(batch_names(after) =~= batch_names(started));
        }
    }

    /// Empties the queue.
    pub fn clear(&mut self)
        ensures
            final(self).wf(),
            final(self)@.is_empty(),
    {
        self.mesh_calls = Vec::new();
        self.model_calls = Vec::new();
        self.batch_names = Vec::new();
        self.batch_instances = Vec::new();
    }

    pub fn mesh_call_count(&self) -> (count: usize)
        ensures
            count == self@.mesh_calls.len(),
    {
        self.mesh_calls.len()
    }

    pub fn model_call_count(&self) -> (count: usize)
        ensures
            count == self@.model_calls.len(),
    {
        self.model_calls.len()
    }

    pub fn batch_count(&self) -> (count: usize)
        requires
            self.wf(),
        ensures
            count == self@.batches.len(),
    {
        self.batch_names.len()
    }

    pub fn get_mesh_call(&self, i: usize) -> (call: &RenderCall)
        requires
            i < self@.mesh_calls.len(),
        ensures
            call@ == self@.mesh_calls[i as int],
    {
        &self.mesh_calls[i]
    }

    pub fn get_model_call(&self, i: usize) -> (call: &ModelRenderCall)
        requires
            i < self@.model_calls.len(),
        ensures
            call@ == self@.model_calls[i as int],
    {
        &self.model_calls[i]
    }

    /// The mesh name of batch `i`.
    pub fn get_batch_name(&self, i: usize) -> (name: &String)
        requires
            self.wf(),
            i < self@.batches.len(),
        ensures
            name@ == self@.batches[i as int].mesh_name,
    {
        &self.batch_names[i]
    }

    /// The instances of batch `i`.
    pub fn get_batch_instances(&self, i: usize) -> (instances: &Vec<InstancedRenderData>)
        requires
            self.wf(),
            i < self@.batches.len(),
        ensures
            instances@ == self@.batches[i as int].instances,
    {
        &self.batch_instances[i]
    }
}

/// However the instances for one mesh name are spread over submissions, they
/// end up in one batch: submitting `first` and then `second` gives what
/// submitting them at once gives, exactly one batch bears the name, and it
/// holds what was there before followed by everything submitted.
pub proof fn lemma_instances_gather(
    batches: Seq<InstanceBatchView>,
    name: Seq<char>,
    first: Seq<InstancedRenderData>,
    second: Seq<InstancedRenderData>,
)
    requires
        distinct(batch_names(batches)),
    ensures
        with_instances(with_instances(batches, name, first), name, second) == with_instances(
            batches,
            name,
            first + second,
        ),
        distinct(batch_names(with_instances(batches, name, first))),
        ({
            let after = with_instances(batches, name, first);
            &&& lookup(batch_names(after), name) matches Some(i)
            &&& forall|j: int| 0 <= j < after.len() && j != i ==> after[j].mesh_name != name
            &&& after[i].instances == match lookup(batch_names(batches), name) {
                Some(k) => batches[k].instances + first,
                None => first,
            }
        }),
{
    let names = batch_names(batches);
    let after = with_instances(batches, name, first);
    lemma_lookup_sound(names, name);
    lemma_lookup_push(names, name, name);
    match lookup(names, name) {
        Some(i) => {
            assert(batch_names(after) =~= names);
            assert((batches[i].instances + first) + second =~= batches[i].instances + (first
                + second));
            assert(after.update(
                i,
                InstanceBatchView { mesh_name: name, instances: after[i].instances + second },
            ) =~= batches.update(
                i,
                InstanceBatchView {
                    mesh_name: name,
                    instances: batches[i].instances + (first + second),
                },
            ));
            assert forall|j: int| 0 <= j < after.len() && j != i implies after[j].mesh_name
                != name by {
                assert(names[j] == after[j].mesh_name);
                assert(names[i] == name);
            }
        },
        None => {
            let i = batches.len() as int;
            assert(batch_names(after) =~= names.push(name));
            assert(after.update(
                i,
                InstanceBatchView { mesh_name: name, instances: after[i].instances + second },
            ) =~= batches.push(InstanceBatchView { mesh_name: name, instances: first + second }));
            assert forall|j: int| 0 <= j < after.len() && j != i implies after[j].mesh_name
                != name by {
                assert(names[j] == after[j].mesh_name);
            }
        },
    }
}

} // verus!
