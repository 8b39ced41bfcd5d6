//! Recording: from the draw queue and the store to the draw commands of a
//! frame. A request whose mesh or model cannot be resolved gives no command;
//! it is reported and the others are recorded all the same.

use crate::error::RenderError;
use crate::render_call::{ModelRenderCallView, RenderCallView};
use crate::names::{lemma_lookup_sound, lookup};
use crate::render_queue::{
    batch_names, model_submission, with_instances, InstanceBatchView, QueueView, RenderQueue,
};
use crate::model::ModelView;
use crate::store::{mesh_names, model_names, Store, StoreView};
use crate::transform::InstancedRenderData;
use glam::Vec3A;
use vstd::prelude::*;

verus! {

/// What a draw command draws: a mesh of the store by its handle, or the
/// submesh of a model by the model's handle and the submesh's place.
#[derive(Clone, Copy, Debug, PartialEq, Eq, Structural)]
pub enum DrawTarget {
    Mesh { mesh: usize },
    Submesh { model: usize, submesh: usize },
}

/// One draw of one mesh. The transform is to be composed as scale, then
/// rotation, then translation.
pub struct DrawCommand {
    pub target: DrawTarget,
    pub texture_name: String,
    pub translation: Vec3A,
    pub rotation: Vec3A,
    pub scale: Vec3A,
}

/// What a [`DrawCommand`] holds.
pub struct DrawCommandView {
    pub target: DrawTarget,
    pub texture_name: Seq<char>,
    pub translation: Vec3A,
    pub rotation: Vec3A,
    pub scale: Vec3A,
}

impl View for DrawCommand {
    type V = DrawCommandView;

    open spec fn view(&self) -> DrawCommandView {
        DrawCommandView {
            target: self.target,
            texture_name: self.texture_name@,
            translation: self.translation,
            rotation: self.rotation,
            scale: self.scale,
        }
    }
}

/// One draw of all the instances of one mesh.
pub struct InstancedDrawCommand {
    pub mesh: usize,
    pub instances: Vec<InstancedRenderData>,
}

/// What an [`InstancedDrawCommand`] holds.
pub struct InstancedDrawView {
    pub mesh: usize,
    pub instances: Seq<InstancedRenderData>,
}

impl View for InstancedDrawCommand {
    type V = InstancedDrawView;

    open spec fn view(&self) -> InstancedDrawView {
        InstancedDrawView { mesh: self.mesh, instances: self.instances@ }
    }
}

/// A request that was left out of the frame, and why.
pub struct SkippedCall {
    pub name: String,
    pub reason: RenderError,
}

/// What a [`SkippedCall`] holds.
pub struct SkippedCallView {
    pub name: Seq<char>,
    pub reason: RenderError,
}

impl View for SkippedCall {
    type V = SkippedCallView;

    open spec fn view(&self) -> SkippedCallView {
        SkippedCallView { name: self.name@, reason: self.reason }
    }
}

/// The views of `draws`, in order.
pub open spec fn draw_views(draws: Seq<DrawCommand>) -> Seq<DrawCommandView> {
    Seq::new(draws.len(), |i: int| draws[i]@)
}

/// The views of `draws`, in order.
pub open spec fn instanced_draw_views(draws: Seq<InstancedDrawCommand>) -> Seq<InstancedDrawView> {
    Seq::new(draws.len(), |i: int| draws[i]@)
}

/// The views of `skipped`, in order.
pub open spec fn skipped_views(skipped: Seq<SkippedCall>) -> Seq<SkippedCallView> {
    Seq::new(skipped.len(), |i: int| skipped[i]@)
}

/// The parts one after another.
pub open spec fn concat_all<T>(parts: Seq<Seq<T>>) -> Seq<T>
    decreases parts.len(),
{
    if parts.len() == 0 {
        Seq::empty()
    } else {
        concat_all(parts.drop_last()) + parts.last()
    }
}

/// The draw of a mesh request: one command where the store holds the mesh,
/// none where it does not.
pub open spec fn mesh_call_draws(store: StoreView, call: RenderCallView) -> Seq<DrawCommandView> {
    match store.find_mesh(call.mesh_name) {
        Some(i) => seq![
            DrawCommandView {
                target: DrawTarget::Mesh { mesh: i as usize },
                texture_name: call.texture_name,
                translation: call.translation,
                rotation: call.rotation,
                scale: call.scale,
            },
        ],
        None => Seq::empty(),
    }
}

/// The report of a mesh request: none where the store holds the mesh.
pub open spec fn mesh_call_skips(store: StoreView, call: RenderCallView) -> Seq<SkippedCallView> {
    match store.find_mesh(call.mesh_name) {
        Some(_) => Seq::empty(),
        None => seq![
            SkippedCallView { name: call.mesh_name, reason: RenderError::ResourceNotFound },
        ],
    }
}

/// The draws of a model request: one command for each submesh, in order,
/// each with the texture of its place; none where the store does not hold
/// the model or the textures do not match its submeshes.
pub open spec fn model_call_draws(store: StoreView, call: ModelRenderCallView) -> Seq<
    DrawCommandView,
> {
    match model_submission(store, call.model_name, call.texture_names.len()) {
        Ok(_) => Seq::new(
            call.texture_names.len(),
            |k: int|
                DrawCommandView {
                    target: DrawTarget::Submesh {
                        model: store.find_model(call.model_name).unwrap() as usize,
                        submesh: k as usize,
                    },
                    texture_name: call.texture_names[k]@,
                    translation: call.translation,
                    rotation: call.rotation,
                    scale: call.scale,
                },
        ),
        Err(_) => Seq::empty(),
    }
}

/// The report of a model request: none where it is drawn.
pub open spec fn model_call_skips(store: StoreView, call: ModelRenderCallView) -> Seq<
    SkippedCallView,
> {
    match model_submission(store, call.model_name, call.texture_names.len()) {
        Ok(_) => Seq::empty(),
        Err(reason) => seq![SkippedCallView { name: call.model_name, reason }],
    }
}

/// The draw of a batch: one command with all its instances where the store
/// holds the mesh, none where it does not.
pub open spec fn batch_draws(store: StoreView, batch: InstanceBatchView) -> Seq<InstancedDrawView> {
    match store.find_mesh(batch.mesh_name) {
        Some(i) => seq![InstancedDrawView { mesh: i as usize, instances: batch.instances }],
        None => Seq::empty(),
    }
}

/// The report of a batch: none where the store holds the mesh.
pub open spec fn batch_skips(store: StoreView, batch: InstanceBatchView) -> Seq<SkippedCallView> {
    match store.find_mesh(batch.mesh_name) {
        Some(_) => Seq::empty(),
        None => seq![
            SkippedCallView { name: batch.mesh_name, reason: RenderError::ResourceNotFound },
        ],
    }
}

/// The single draws of a frame: those of the mesh requests in the order of
/// submission, then those of the model requests in the order of submission.
pub open spec fn frame_draws(store: StoreView, queue: QueueView) -> Seq<DrawCommandView> {
    concat_all(Seq::new(queue.mesh_calls.len(), |i: int| mesh_call_draws(store, queue.mesh_calls[i])))
        + concat_all(
        Seq::new(queue.model_calls.len(), |i: int| model_call_draws(store, queue.model_calls[i])),
    )
}

/// The single requests that a frame leaves out, in the same order.
pub open spec fn frame_skips(store: StoreView, queue: QueueView) -> Seq<SkippedCallView> {
    concat_all(Seq::new(queue.mesh_calls.len(), |i: int| mesh_call_skips(store, queue.mesh_calls[i])))
        + concat_all(
        Seq::new(queue.model_calls.len(), |i: int| model_call_skips(store, queue.model_calls[i])),
    )
}

/// The instanced draws of a frame: that of each batch, in the order in which
/// the batches were started.
pub open spec fn frame_instanced_draws(store: StoreView, queue: QueueView) -> Seq<
    InstancedDrawView,
> {
    concat_all(Seq::new(queue.batches.len(), |i: int| batch_draws(store, queue.batches[i])))
}

/// The batches that a frame leaves out, in the same order.
pub open spec fn frame_instanced_skips(store: StoreView, queue: QueueView) -> Seq<SkippedCallView> {
    concat_all(Seq::new(queue.batches.len(), |i: int| batch_skips(store, queue.batches[i])))
}

/// The model that a model request draws, if it is drawn.
pub open spec fn used_model(store: StoreView, call: ModelRenderCallView) -> Option<int> {
    match model_submission(store, call.model_name, call.texture_names.len()) {
        Ok(_) => store.find_model(call.model_name),
        Err(_) => None,
    }
}

/// Whether one of `calls` draws the model at `handle`.
pub open spec fn is_used(store: StoreView, calls: Seq<ModelRenderCallView>, handle: int) -> bool {
    exists|j: int| 0 <= j < calls.len() && used_model(store, #[trigger] calls[j]) == Some(handle)
}

/// The store after `calls` were recorded: every model that one of them draws
/// is marked as in use by the renderer, and nothing else changes.
pub open spec fn locked_for(store: StoreView, calls: Seq<ModelRenderCallView>) -> StoreView {
    StoreView {
        models: Seq::new(
            store.models.len(),
            |i: int|
                ModelView {
                    lock: store.models[i].lock || is_used(store, calls, i),
                    ..store.models[i]
                },
        ),
        ..store
    }
}

/// Marking models as in use changes no answer of the store to a request: the
/// names, the meshes and the number of submeshes of each model stay.
pub proof fn lemma_locking_keeps_resolution(
    store: StoreView,
    calls: Seq<ModelRenderCallView>,
    name: Seq<char>,
    texture_count: nat,
)
    ensures
        locked_for(store, calls).find_model(name) == store.find_model(name),
        locked_for(store, calls).find_mesh(name) == store.find_mesh(name),
        model_submission(locked_for(store, calls), name, texture_count) == model_submission(
            store,
            name,
            texture_count,
        ),
{
    let locked = locked_for(store, calls);
    assert(model_names(locked.models) =~= model_names(store.models));
    lemma_lookup_sound(model_names(store.models), name);
}

/// Marking models as in use changes no instanced draw and no report of one.
pub proof fn lemma_locking_keeps_instanced(
    store: StoreView,
    calls: Seq<ModelRenderCallView>,
    queue: QueueView,
)
    ensures
        frame_instanced_draws(locked_for(store, calls), queue) == frame_instanced_draws(
            store,
            queue,
        ),
        frame_instanced_skips(locked_for(store, calls), queue) == frame_instanced_skips(
            store,
            queue,
        ),
{
    let locked = locked_for(store, calls);
    assert(Seq::new(queue.batches.len(), |i: int| batch_draws(locked, queue.batches[i]))
        =~= Seq::new(queue.batches.len(), |i: int| batch_draws(store, queue.batches[i])));
    assert(Seq::new(queue.batches.len(), |i: int| batch_skips(locked, queue.batches[i]))
        =~= Seq::new(queue.batches.len(), |i: int| batch_skips(store, queue.batches[i])));
}

/// Whether `store` holds what `target` names.
pub open spec fn target_held(store: StoreView, target: DrawTarget) -> bool {
    match target {
        DrawTarget::Mesh { mesh } => mesh < store.meshes.len(),
        DrawTarget::Submesh { model, submesh } => model < store.models.len() && submesh
            < store.models[model as int].meshes.len(),
    }
}

/// Whether `store` holds what each of `draws` names.
pub open spec fn targets_held(store: StoreView, draws: Seq<DrawCommand>) -> bool {
    forall|d: int| 0 <= d < draws.len() ==> target_held(store, (#[trigger] draws[d]).target)
}

/// Whether `store` holds the mesh of each of `draws`.
pub open spec fn meshes_held(store: StoreView, draws: Seq<InstancedDrawCommand>) -> bool {
    forall|d: int| 0 <= d < draws.len() ==> (#[trigger] draws[d]).mesh < store.meshes.len()
}

/// The single draws of a frame and the requests left out of it.
pub struct Recording {
    pub draws: Vec<DrawCommand>,
    pub skipped: Vec<SkippedCall>,
}

/// The instanced draws of a frame and the batches left out of it.
pub struct InstancedRecording {
    pub draws: Vec<InstancedDrawCommand>,
    pub skipped: Vec<SkippedCall>,
}

/// One more part at the end adds that part at the end.
pub proof fn lemma_concat_all_step<T>(n: int, part: spec_fn(int) -> Seq<T>)
    requires
        0 <= n,
    ensures
        concat_all(Seq::new((n + 1) as nat, part)) == concat_all(Seq::new(n as nat, part)) + part(
            n,
        ),
{
    let longer = Seq::new((n + 1) as nat, part);
    assert(longer.drop_last() =~= Seq::new(n as nat, part));
    assert(longer.last() == part(n));
}

/// The instanced draws of the first `n` batches.
pub open spec fn batch_draws_upto(store: StoreView, batches: Seq<InstanceBatchView>, n: int) -> Seq<
    InstancedDrawView,
> {
    concat_all(Seq::new(n as nat, |j: int| batch_draws(store, batches[j])))
}

/// Among the draws of the first `n` batches, only the batch at `i` draws the
/// mesh `mesh`, at the place that the draws of the batches before it leave.
proof fn lemma_batch_draws_upto(
    store: StoreView,
    batches: Seq<InstanceBatchView>,
    name: Seq<char>,
    i: int,
    mesh: int,
    n: int,
)
    requires
        store.wf(),
        crate::names::distinct(batch_names(batches)),
        lookup(batch_names(batches), name) == Some(i),
        store.find_mesh(name) == Some(mesh),
        0 <= n <= batches.len(),
    ensures
        ({
            let draws = batch_draws_upto(store, batches, n);
            let place = batch_draws_upto(store, batches, i).len() as int;
            &&& forall|e: int|
                0 <= e < draws.len() && (#[trigger] draws[e]).mesh == mesh as usize ==> n > i && e
                    == place
            &&& n > i ==> place < draws.len() && draws[place] == (InstancedDrawView {
                mesh: mesh as usize,
                instances: batches[i].instances,
            })
        }),
    decreases n,
{
    let part = |j: int| batch_draws(store, batches[j]);
    let names = batch_names(batches);
    lemma_lookup_sound(names, name);
    lemma_lookup_sound(mesh_names(store.meshes), name);
    if n == 0 {
        assert(batch_draws_upto(store, batches, n) =~= Seq::empty());
    } else {
        let m = n - 1;
        lemma_batch_draws_upto(store, batches, name, i, mesh, m);
        lemma_concat_all_step(m, part);
        let before = batch_draws_upto(store, batches, m);
        let draws = batch_draws_upto(store, batches, n);
        assert(draws == before + part(m));
        lemma_lookup_sound(mesh_names(store.meshes), batches[m].mesh_name);
        if m != i {
            assert(names[m] != names[i]);
            match store.find_mesh(batches[m].mesh_name) {
                Some(other) => {
                    assert(mesh_names(store.meshes)[other] == batches[m].mesh_name);
                    assert(mesh_names(store.meshes)[mesh] == name);
                    assert(other != mesh);
                },
                None => {},
            }
        }
    }
}

/// All instances that were submitted for a mesh are drawn by one command:
/// where a batch bears the name of a mesh that the store holds, exactly one
/// instanced draw of the frame is for that mesh, and it covers every instance
/// of the batch.
pub proof fn lemma_one_draw_per_mesh(store: StoreView, queue: QueueView, name: Seq<char>)
    requires
        store.wf(),
        queue.wf(),
        lookup(batch_names(queue.batches), name) is Some,
        store.find_mesh(name) is Some,
    ensures
        ({
            let batch = queue.batches[lookup(batch_names(queue.batches), name).unwrap()];
            let mesh = store.find_mesh(name).unwrap() as usize;
            let draws = frame_instanced_draws(store, queue);
            exists|d: int|
                {
                    &&& 0 <= d < draws.len()
                    &&& #[trigger] draws[d] == (InstancedDrawView {
                        mesh,
                        instances: batch.instances,
                    })
                    &&& forall|e: int|
                        0 <= e < draws.len() && e != d ==> (#[trigger] draws[e]).mesh != mesh
                }
        }),
{
    let i = lookup(batch_names(queue.batches), name).unwrap();
    let mesh = store.find_mesh(name).unwrap();
    lemma_lookup_sound(batch_names(queue.batches), name);
    lemma_batch_draws_upto(store, queue.batches, name, i, mesh, queue.batches.len() as int);
    let draws = frame_instanced_draws(store, queue);
    assert(draws == batch_draws_upto(store, queue.batches, queue.batches.len() as int));
    let place = batch_draws_upto(store, queue.batches, i).len() as int;
    assert(draws[place].mesh == mesh as usize);
}

/// However many instances are submitted for one mesh in a frame that had
/// none, the frame has exactly one instanced draw, and it covers them all.
pub proof fn lemma_instances_make_one_draw(
    store: StoreView,
    queue: QueueView,
    name: Seq<char>,
    instances: Seq<InstancedRenderData>,
)
    requires
        store.wf(),
        store.find_mesh(name) is Some,
        queue.batches.len() == 0,
    ensures
        frame_instanced_draws(
            store,
            QueueView { batches: with_instances(queue.batches, name, instances), ..queue },
        ) == seq![
            InstancedDrawView { mesh: store.find_mesh(name).unwrap() as usize, instances },
        ],
{
    let batches = with_instances(queue.batches, name, instances);
    lemma_lookup_sound(batch_names(queue.batches), name);
    assert(batches =~= seq![InstanceBatchView { mesh_name: name, instances }]);
    let part = |i: int| batch_draws(store, batches[i]);
    lemma_concat_all_step(0, part);
    assert(concat_all(Seq::new(0, part)) =~= Seq::empty());
    assert(Seq::<InstancedDrawView>::empty() + part(0) =~= part(0));
}

/// Records the single draws of `queue` against `store`.
pub fn record_draws(store: &Store, queue: &RenderQueue) -> (recording: Recording)
    requires
        store.wf(),
        queue.wf(),
    ensures
        draw_views(recording.draws@) == frame_draws(store@, queue@),
        skipped_views(recording.skipped@) == frame_skips(store@, queue@),
        targets_held(store@, recording.draws@),
{
    let mut draws: Vec<DrawCommand> = Vec::new();
    let mut skipped: Vec<SkippedCall> = Vec::new();
    let ghost mesh_part = |i: int| mesh_call_draws(store@, queue@.mesh_calls[i]);
    let ghost mesh_skip = |i: int| mesh_call_skips(store@, queue@.mesh_calls[i]);
    let ghost model_part = |i: int| model_call_draws(store@, queue@.model_calls[i]);
    let ghost model_skip = |i: int| model_call_skips(store@, queue@.model_calls[i]);
    let mesh_count: usize = queue.mesh_call_count();
    let mut i: usize = 0;
    assert(draw_views(draws@) =~= concat_all(Seq::new(0, mesh_part)));
    assert(skipped_views(skipped@) =~= concat_all(Seq::new(0, mesh_skip)));
    while i < mesh_count
        invariant
            store.wf(),
            queue.wf(),
            i <= mesh_count,
            mesh_count == queue@.mesh_calls.len(),
            mesh_part == |i: int| mesh_call_draws(store@, queue@.mesh_calls[i]),
            mesh_skip == |i: int| mesh_call_skips(store@, queue@.mesh_calls[i]),
            draw_views(draws@) == concat_all(Seq::new(i as nat, mesh_part)),
            skipped_views(skipped@) == concat_all(Seq::new(i as nat, mesh_skip)),
            targets_held(store@, draws@),
        decreases mesh_count - i,
    {
        let call = queue.get_mesh_call(i);
        let ghost draws_before = draw_views(draws@);
        let ghost skipped_before = skipped_views(skipped@);
        match store.find_mesh(call.get_mesh_name().as_str()) {
            Some(mesh) => {
                let draw = DrawCommand {
                    target: DrawTarget::Mesh { mesh },
                    texture_name: call.get_texture_name().clone(),
                    translation: *call.get_translation(),
                    rotation: *call.get_rotation(),
                    scale: *call.get_scale(),
                };
                draws.push(draw);
                assert(draw_views(draws@) =~= draws_before + mesh_part(i as int));
                assert(skipped_views(skipped@) =~= skipped_before + mesh_skip(i as int));
            },
            None => {
                skipped.push(
                    SkippedCall {
                        name: call.get_mesh_name().clone(),
                        reason: RenderError::ResourceNotFound,
                    },
                );
                assert(draw_views(draws@) =~= draws_before + mesh_part(i as int));
                assert(skipped_views(skipped@) =~= skipped_before + mesh_skip(i as int));
            },
        }
        proof {
            lemma_concat_all_step(i as int, mesh_part);
            lemma_concat_all_step(i as int, mesh_skip);
        }
        i += 1;
    }
    let ghost mesh_draws = draw_views(draws@);
    let ghost mesh_skips = skipped_views(skipped@);
    let model_count: usize = queue.model_call_count();
    let mut j: usize = 0;
    assert(draw_views(draws@) =~= mesh_draws + concat_all(Seq::new(0, model_part)));
    assert(skipped_views(skipped@) =~= mesh_skips + concat_all(Seq::new(0, model_skip)));
    while j < model_count
        invariant
            store.wf(),
            queue.wf(),
            j <= model_count,
            model_count == queue@.model_calls.len(),
            model_part == |i: int| model_call_draws(store@, queue@.model_calls[i]),
            model_skip == |i: int| model_call_skips(store@, queue@.model_calls[i]),
            draw_views(draws@) == mesh_draws + concat_all(Seq::new(j as nat, model_part)),
            skipped_views(skipped@) == mesh_skips + concat_all(Seq::new(j as nat, model_skip)),
            targets_held(store@, draws@),
        decreases model_count - j,
    {
        let call = queue.get_model_call(j);
        let textures = call.get_texture_names();
        let ghost draws_before = draw_views(draws@);
        let ghost skipped_before = skipped_views(skipped@);
        let resolved: Result<usize, RenderError> = match store.find_model(
            call.get_model_name().as_str(),
        ) {
            Some(model) => {
                let expected: u32 = store.get_model(model).get_number_of_texture_buffers();
                if textures.len() == expected as usize {
                    Ok(model)
                } else {
                    Err(RenderError::TextureCountMismatch)
                }
            },
            None => Err(RenderError::ResourceNotFound),
        };
        match resolved {
            Ok(model) => {
                let mut k: usize = 0;
                while k < textures.len()
                    invariant
                        k <= textures@.len(),
                        textures@ == call@.texture_names,
                        model_submission(store@, call@.model_name, textures@.len()) is Ok,
                        store@.find_model(call@.model_name) == Some(model as int),
                        model < store@.models.len(),
                        textures@.len() == store@.models[model as int].meshes.len(),
                        targets_held(store@, draws@),
                        skipped_views(skipped@) == skipped_before,
                        draw_views(draws@) =~= draws_before + model_call_draws(
                            store@,
                            call@,
                        ).subrange(0, k as int),
                    decreases textures@.len() - k,
                {
                    let draw = DrawCommand {
                        target: DrawTarget::Submesh { model, submesh: k },
                        texture_name: textures[k].clone(),
                        translation: *call.get_translation(),
                        rotation: *call.get_rotation(),
                        scale: *call.get_scale(),
                    };
                    let ghost whole = model_call_draws(store@, call@);
                    let ghost recorded = draw_views(draws@);
                    draws.push(draw);
                    proof {
                        assert(draw@ == whole[k as int]);
                        assert(draw_views(draws@) =~= recorded.push(draw@));
                        assert(whole.subrange(0, k + 1) =~= whole.subrange(0, k as int).push(
                            whole[k as int],
                        ));
                    }
                    k += 1;
                }
                assert(model_call_draws(store@, call@).subrange(0, k as int) =~= model_part(
                    j as int,
                ));
                assert(skipped_views(skipped@) =~= skipped_before + model_skip(j as int));
            },
            Err(reason) => {
                skipped.push(SkippedCall { name: call.get_model_name().clone(), reason });
                assert(draw_views(draws@) =~= draws_before + model_part(j as int));
                assert(skipped_views(skipped@) =~= skipped_before + model_skip(j as int));
            },
        }
        proof {
            lemma_concat_all_step(j as int, model_part);
            lemma_concat_all_step(j as int, model_skip);
        }
        j += 1;
    }
    Recording { draws, skipped }
}

/// Marks every model that a model request of `queue` draws as in use by the
/// renderer.
pub fn lock_drawn_models(store: &mut Store, queue: &RenderQueue)
    requires
        old(store).wf(),
        queue.wf(),
    ensures
        final(store).wf(),
        final(store)@ == locked_for(old(store)@, queue@.model_calls),
{
    let ghost start = store@;
    let ghost calls = queue@.model_calls;
    let count: usize = queue.model_call_count();
    let mut j: usize = 0;
    proof {
        store.lemma_view_wf();
        assert(store@.models =~= locked_for(start, calls.take(0)).models);
    }
    while j < count
        invariant
            store.wf(),
            queue.wf(),
            j <= count,
            count == calls.len(),
            calls == queue@.model_calls,
            start.models.len() <= usize::MAX,
            store@ == locked_for(start, calls.take(j as int)),
        decreases count - j,
    {
        let call = queue.get_model_call(j);
        let ghost taken = calls.take(j as int);
        let ghost next = calls.take(j + 1);
        let ghost before = store@;
        proof {
            lemma_locking_keeps_resolution(
                start,
                taken,
                call@.model_name,
                call@.texture_names.len(),
            );
            lemma_lookup_sound(model_names(start.models), call@.model_name);
        }
        match store.find_model(call.get_model_name().as_str()) {
            Some(model) => {
                let expected: u32 = store.get_model(model).get_number_of_texture_buffers();
                if call.get_texture_names().len() == expected as usize {
                    store.lock_model(model);
                }
            },
            None => {},
        }
        proof {
            assert(next[j as int] == call@);
            assert forall|i: int| 0 <= i < start.models.len() implies is_used(start, next, i) == (
            is_used(start, taken, i) || used_model(start, call@) == Some(i)) by {
                if is_used(start, taken, i) {
                    let k = choose|k: int|
                        0 <= k < taken.len() && used_model(start, #[trigger] taken[k]) == Some(i);
                    assert(next[k] == taken[k]);
                }
                if is_used(start, next, i) {
                    let k = choose|k: int|
                        0 <= k < next.len() && used_model(start, #[trigger] next[k]) == Some(i);
                    if k < j {
                        assert(taken[k] == next[k]);
                    }
                }
            }
            assert(store@.models =~= locked_for(start, next).models);
        }
        j += 1;
    }
    proof {
        assert(calls.take(j as int) =~= calls);
    }
}

/// Records the instanced draws of `queue` against `store`: one command for
/// each batch whose mesh the store holds, with every instance of the batch.
pub fn record_instanced_draws(store: &Store, queue: &RenderQueue) -> (recording: InstancedRecording)
    requires
        store.wf(),
        queue.wf(),
    ensures
        instanced_draw_views(recording.draws@) == frame_instanced_draws(store@, queue@),
        skipped_views(recording.skipped@) == frame_instanced_skips(store@, queue@),
        meshes_held(store@, recording.draws@),
{
    let mut draws: Vec<InstancedDrawCommand> = Vec::new();
    let mut skipped: Vec<SkippedCall> = Vec::new();
    let ghost part = |i: int| batch_draws(store@, queue@.batches[i]);
    let ghost skip = |i: int| batch_skips(store@, queue@.batches[i]);
    let count: usize = queue.batch_count();
    let mut i: usize = 0;
    assert(instanced_draw_views(draws@) =~= concat_all(Seq::new(0, part)));
    assert(skipped_views(skipped@) =~= concat_all(Seq::new(0, skip)));
    while i < count
        invariant
            store.wf(),
            queue.wf(),
            i <= count,
            count == queue@.batches.len(),
            part == |i: int| batch_draws(store@, queue@.batches[i]),
            skip == |i: int| batch_skips(store@, queue@.batches[i]),
            instanced_draw_views(draws@) == concat_all(Seq::new(i as nat, part)),
            skipped_views(skipped@) == concat_all(Seq::new(i as nat, skip)),
            meshes_held(store@, draws@),
        decreases count - i,
    {
        let name = queue.get_batch_name(i);
        let ghost draws_before = instanced_draw_views(draws@);
        let ghost skipped_before = skipped_views(skipped@);
        match store.find_mesh(name.as_str()) {
            Some(mesh) => {
                let instances = queue.get_batch_instances(i).clone();
                assert(instances@ =~= queue@.batches[i as int].instances);
                draws.push(InstancedDrawCommand { mesh, instances });
                assert(instanced_draw_views(draws@) =~= draws_before + part(i as int));
                assert(skipped_views(skipped@) =~= skipped_before + skip(i as int));
            },
            None => {
                skipped.push(
                    SkippedCall { name: name.clone(), reason: RenderError::ResourceNotFound },
                );
                assert(instanced_draw_views(draws@) =~= draws_before + part(i as int));
                assert(skipped_views(skipped@) =~= skipped_before + skip(i as int));
            },
        }
        proof {
            lemma_concat_all_step(i as int, part);
            lemma_concat_all_step(i as int, skip);
        }
        i += 1;
    }
    InstancedRecording { draws, skipped }
}

} // verus!
