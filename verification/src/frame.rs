//! The frame sequencer. A frame goes through its steps in one order only:
//! acquire the target, clear, record the single draws, record the instanced
//! draws, present, finish. The engine makes the decisions of each step and
//! hands back the commands; carrying them out on the GPU is the caller's part.

use crate::camera::{Camera, CameraView};
use crate::draw::{
    draw_views, frame_draws, frame_instanced_draws, frame_instanced_skips, frame_skips,
    instanced_draw_views, lemma_locking_keeps_instanced, lock_drawn_models, locked_for,
    meshes_held, record_draws, record_instanced_draws, skipped_views, targets_held, DrawCommand,
    InstancedDrawCommand, InstancedRecording, Recording, SkippedCall,
};
use crate::error::{refused, AssetLoadError, RenderError};
use crate::mesh::Mesh;
use crate::render_call::{ModelRenderCallView, RenderCallView};
use crate::render_queue::{model_submission, with_instances, QueueView, RenderQueue};
use crate::store::{handle_view, Store, StoreView};
use crate::transform::InstancedRenderData;
use glam::Vec3A;
use vstd::prelude::*;

verus! {

/// Where the engine is in a frame.
#[derive(Clone, Copy, Debug, PartialEq, Eq, Structural)]
pub enum FrameState {
    Idle,
    TargetAcquired,
    Cleared,
    RecordingNonInstanced,
    RecordingInstanced,
    Presented,
}

/// The steps of a frame.
#[derive(Clone, Copy, Debug, PartialEq, Eq, Structural)]
pub enum FrameStep {
    AcquireTarget,
    Clear,
    RecordNonInstanced,
    RecordInstanced,
    Present,
    Finish,
}

/// The one state in which `step` may be taken.
pub open spec fn state_before(step: FrameStep) -> FrameState {
    match step {
        FrameStep::AcquireTarget => FrameState::Idle,
        FrameStep::Clear => FrameState::TargetAcquired,
        FrameStep::RecordNonInstanced => FrameState::Cleared,
        FrameStep::RecordInstanced => FrameState::RecordingNonInstanced,
        FrameStep::Present => FrameState::RecordingInstanced,
        FrameStep::Finish => FrameState::Presented,
    }
}

/// The state that `step` leaves.
pub open spec fn state_after(step: FrameStep) -> FrameState {
    match step {
        FrameStep::AcquireTarget => FrameState::TargetAcquired,
        FrameStep::Clear => FrameState::Cleared,
        FrameStep::RecordNonInstanced => FrameState::RecordingNonInstanced,
        FrameStep::RecordInstanced => FrameState::RecordingInstanced,
        FrameStep::Present => FrameState::Presented,
        FrameStep::Finish => FrameState::Idle,
    }
}

/// The state after `step` is taken in `state`, or the refusal of a step taken
/// out of turn.
pub open spec fn spec_advance(state: FrameState, step: FrameStep) -> Result<
    FrameState,
    RenderError,
> {
    if state == state_before(step) {
        Ok(state_after(step))
    } else {
        Err(RenderError::StateSequence)
    }
}

/// The state after `steps` are taken one after another from `state`, or the
/// refusal of the first that is out of turn.
pub open spec fn run_steps(state: FrameState, steps: Seq<FrameStep>) -> Result<
    FrameState,
    RenderError,
>
    decreases steps.len(),
{
    if steps.len() == 0 {
        Ok(state)
    } else {
        match run_steps(state, steps.drop_last()) {
            Ok(reached) => spec_advance(reached, steps.last()),
            Err(e) => Err(e),
        }
    }
}

/// The steps of one frame in their order.
pub open spec fn whole_frame() -> Seq<FrameStep> {
    seq![
        FrameStep::AcquireTarget,
        FrameStep::Clear,
        FrameStep::RecordNonInstanced,
        FrameStep::RecordInstanced,
        FrameStep::Present,
        FrameStep::Finish,
    ]
}

/// Takes `step` in `state`.
pub fn advance(state: FrameState, step: FrameStep) -> (next: Result<FrameState, RenderError>)
    ensures
        next == spec_advance(state, step),
{
    match (state, step) {
        (FrameState::Idle, FrameStep::AcquireTarget) => Ok(FrameState::TargetAcquired),
        (FrameState::TargetAcquired, FrameStep::Clear) => Ok(FrameState::Cleared),
        (FrameState::Cleared, FrameStep::RecordNonInstanced) => Ok(
            FrameState::RecordingNonInstanced,
        ),
        (FrameState::RecordingNonInstanced, FrameStep::RecordInstanced) => Ok(
            FrameState::RecordingInstanced,
        ),
        (FrameState::RecordingInstanced, FrameStep::Present) => Ok(FrameState::Presented),
        (FrameState::Presented, FrameStep::Finish) => Ok(FrameState::Idle),
        _ => Err(RenderError::StateSequence),
    }
}

/// Recording is refused before the frame is cleared and after it is
/// presented: in the states `Idle`, `TargetAcquired` and `Presented` neither
/// record step is accepted.
pub proof fn lemma_record_needs_clear(state: FrameState)
    requires
        state == FrameState::Idle || state == FrameState::TargetAcquired || state
            == FrameState::Presented,
    ensures
        refused(spec_advance(state, FrameStep::RecordNonInstanced), RenderError::StateSequence),
        refused(spec_advance(state, FrameStep::RecordInstanced), RenderError::StateSequence),
{
}

/// In every state exactly one step is accepted, and the steps taken in their
/// order from `Idle` lead back to `Idle`.
pub proof fn lemma_strict_sequence(state: FrameState, first: FrameStep, second: FrameStep)
    ensures
        spec_advance(state, first) is Ok && spec_advance(state, second) is Ok ==> first == second,
        exists|step: FrameStep| spec_advance(state, step) is Ok,
        run_steps(FrameState::Idle, whole_frame()) matches Ok(reached) && reached
            == FrameState::Idle,
{
    let step = match state {
        FrameState::Idle => FrameStep::AcquireTarget,
        FrameState::TargetAcquired => FrameStep::Clear,
        FrameState::Cleared => FrameStep::RecordNonInstanced,
        FrameState::RecordingNonInstanced => FrameStep::RecordInstanced,
        FrameState::RecordingInstanced => FrameStep::Present,
        FrameState::Presented => FrameStep::Finish,
    };
    assert(spec_advance(state, step) is Ok);
    let steps = whole_frame();
    let s5 = steps.drop_last();
    let s4 = s5.drop_last();
    let s3 = s4.drop_last();
    let s2 = s3.drop_last();
    let s1 = s2.drop_last();
    let s0 = s1.drop_last();
    assert(run_steps(FrameState::Idle, s0) == Ok::<FrameState, RenderError>(FrameState::Idle));
    assert(run_steps(FrameState::Idle, s1) == Ok::<FrameState, RenderError>(
        FrameState::TargetAcquired,
    ));
    assert(run_steps(FrameState::Idle, s2) == Ok::<FrameState, RenderError>(FrameState::Cleared));
    assert(run_steps(FrameState::Idle, s3) == Ok::<FrameState, RenderError>(
        FrameState::RecordingNonInstanced,
    ));
    assert(run_steps(FrameState::Idle, s4) == Ok::<FrameState, RenderError>(
        FrameState::RecordingInstanced,
    ));
    assert(run_steps(FrameState::Idle, s5) == Ok::<FrameState, RenderError>(
        FrameState::Presented,
    ));
}

/// Which attachments of the target to clear.
#[derive(Clone, Copy, Debug, PartialEq, Eq, Structural)]
pub struct ClearCommand {
    pub color: bool,
    pub depth: bool,
}

/// The commands of one whole frame, in the order in which they are to be
/// carried out: the clear, the single draws, the instanced draws. `skipped`
/// lists the requests that were left out, single ones first.
pub struct Frame {
    pub clear: ClearCommand,
    pub draws: Vec<DrawCommand>,
    pub instanced: Vec<InstancedDrawCommand>,
    pub skipped: Vec<SkippedCall>,
}

/// What a [`RenderEngine`] holds.
pub struct EngineView {
    pub state: FrameState,
    pub store: StoreView,
    pub queue: QueueView,
    pub camera: CameraView,
}

/// The frame sequencer with the store, the draw queue and the camera that it
/// owns.
pub struct RenderEngine {
    state: FrameState,
    store: Store,
    queue: RenderQueue,
    camera: Camera,
}

impl View for RenderEngine {
    type V = EngineView;

    closed spec fn view(&self) -> EngineView {
        EngineView {
            state: self.state,
            store: self.store@,
            queue: self.queue@,
            camera: self.camera@,
        }
    }
}

impl RenderEngine {
    /// The invariant of the engine: that of its store and of its queue.
    pub closed spec fn wf(&self) -> bool {
        self.store.wf() && self.queue.wf()
    }

    /// What `wf` says of the view.
    pub proof fn lemma_view_wf(&self)
        requires
            self.wf(),
        ensures
            self@.store.wf(),
            self@.queue.wf(),
    {
        self.store.lemma_view_wf();
        self.queue.lemma_view_wf();
    }

    /// An idle engine with an empty store and an empty queue.
    pub fn new(camera: Camera) -> (engine: RenderEngine)
        ensures
            engine.wf(),
            engine@.state == FrameState::Idle,
            engine@.store.meshes.len() == 0,
            engine@.store.models.len() == 0,
            engine@.queue.is_empty(),
            engine@.camera == camera@,
    {
        RenderEngine {
            state: FrameState::Idle,
            store: Store::new(),
            queue: RenderQueue::new(),
            camera,
        }
    }

    pub fn get_state(&self) -> (state: FrameState)
        ensures
            state == self@.state,
    {
        self.state
    }

    pub fn get_store(&self) -> (store: &Store)
        requires
            self.wf(),
        ensures
            store.wf(),
            store@ == self@.store,
    {
        &self.store
    }

    pub fn get_queue(&self) -> (queue: &RenderQueue)
        requires
            self.wf(),
        ensures
            queue.wf(),
            queue@ == self@.queue,
    {
        &self.queue
    }

    pub fn get_camera(&self) -> (camera: &Camera)
        ensures
            camera@ == self@.camera,
    {
        &self.camera
    }

    /// Replaces the camera. Nothing else changes.
    pub fn set_camera(&mut self, camera: Camera)
        requires
            old(self).wf(),
        ensures
            final(self).wf(),
            final(self)@ == (EngineView { camera: camera@, ..old(self)@ }),
    {
        self.camera = camera;
    }

    /// The handle of the model `name`, imported from `data` on the first
    /// request for that name and answered from the store ever after.
    pub fn get_or_load(&mut self, name: &str, data: &[u8]) -> (outcome: Result<
        usize,
        AssetLoadError,
    >)
        requires
            old(self).wf(),
        ensures
            final(self).wf(),
            final(self)@ == (EngineView {
                store: old(self)@.store.get_or_load(name@, data@).0,
                ..old(self)@
            }),
            handle_view(outcome) == old(self)@.store.get_or_load(name@, data@).1,
            outcome matches Ok(handle) ==> handle < final(self)@.store.models.len(),
            outcome matches Ok(handle) ==> final(self)@.store.models[handle as int].name == name@,
    {
        self.store.get_or_load(name, data)
    }

    /// Holds `mesh` in the store under its name, unless a mesh of that name
    /// is held already, and gives the handle of the mesh of that name.
    pub fn add_mesh(&mut self, mesh: Mesh) -> (handle: usize)
        requires
            old(self).wf(),
            mesh.wf(),
        ensures
            final(self).wf(),
            final(self)@ == (EngineView {
                store: old(self)@.store.with_mesh(mesh@).0,
                ..old(self)@
            }),
            handle as int == old(self)@.store.with_mesh(mesh@).1,
            handle < final(self)@.store.meshes.len(),
    {
        self.store.add_mesh(mesh)
    }

    /// Queues one draw of the mesh `name`.
    pub fn submit_mesh(
        &mut self,
        name: &str,
        texture: &str,
        translation: Vec3A,
        rotation: Vec3A,
        scale: Vec3A,
    )
        requires
            old(self).wf(),
        ensures
            final(self).wf(),
            final(self)@ == (EngineView {
                queue: QueueView {
                    mesh_calls: old(self)@.queue.mesh_calls.push(
                        RenderCallView {
                            mesh_name: name@,
                            texture_name: texture@,
                            translation,
                            rotation,
                            scale,
                        },
                    ),
                    ..old(self)@.queue
                },
                ..old(self)@
            }),
    {
        self.queue.submit_mesh(name, texture, translation, rotation, scale);
    }

    /// Queues one draw of the model `name`, or refuses it where the store
    /// does not hold the model or `textures` does not have one name for each
    /// of its submeshes. A refused draw is not queued.
    pub fn submit_model(
        &mut self,
        name: &str,
        textures: Vec<String>,
        translation: Vec3A,
        rotation: Vec3A,
        scale: Vec3A,
    ) -> (outcome: Result<(), RenderError>)
        requires
            old(self).wf(),
        ensures
            final(self).wf(),
            outcome == model_submission(old(self)@.store, name@, textures@.len()),
            outcome is Err ==> final(self)@ == old(self)@,
            old(self)@.store.find_model(name@) matches Some(i) && old(self)@.store.models[i].meshes.len()
                != textures@.len() ==> refused(outcome, RenderError::TextureCountMismatch),
            outcome is Ok ==> final(self)@ == (EngineView {
                queue: QueueView {
                    model_calls: old(self)@.queue.model_calls.push(
                        ModelRenderCallView {
                            model_name: name@,
                            texture_names: textures@,
                            translation,
                            rotation,
                            scale,
                        },
                    ),
                    ..old(self)@.queue
                },
                ..old(self)@
            }),
    {
        self.queue.submit_model(&self.store, name, textures, translation, rotation, scale)
    }

    /// Adds `instances` to the one batch of the mesh `name`.
    pub fn submit_instanced(&mut self, name: &str, instances: &Vec<InstancedRenderData>)
        requires
            old(self).wf(),
        ensures
            final(self).wf(),
            final(self)@ == (EngineView {
                queue: QueueView {
                    batches: with_instances(old(self)@.queue.batches, name@, instances@),
                    ..old(self)@.queue
                },
                ..old(self)@
            }),
    {
        self.queue.submit_instanced(name, instances);
    }

    /// The first step of a frame. `target_available` says whether the next
    /// image of the surface could be had. Where it could not, the frame is
    /// skipped: the queue is emptied and the engine stays idle.
    pub fn acquire_target(&mut self, target_available: bool) -> (outcome: Result<(), RenderError>)
        requires
            old(self).wf(),
        ensures
            final(self).wf(),
            final(self)@.store == old(self)@.store,
            final(self)@.camera == old(self)@.camera,
            old(self)@.state != FrameState::Idle ==> refused(outcome, RenderError::StateSequence)
                && final(self)@ == old(self)@,
            old(self)@.state == FrameState::Idle && !target_available ==> refused(
                outcome,
                RenderError::SurfaceAcquisition,
            ) && final(self)@.state == FrameState::Idle && final(self)@.queue.is_empty(),
            old(self)@.state == FrameState::Idle && target_available ==> outcome is Ok,
            old(self)@.state == FrameState::Idle && target_available ==> final(self)@ == (
            EngineView { state: FrameState::TargetAcquired, ..old(self)@ }),
    {
        match advance(self.state, FrameStep::AcquireTarget) {
            Err(e) => Err(e),
            Ok(next) => {
                if target_available {
                    self.state = next;
                    Ok(())
                } else {
                    self.queue.clear();
                    Err(RenderError::SurfaceAcquisition)
                }
            },
        }
    }

    /// The second step: says which attachments to clear.
    pub fn clear(&mut self, clear_color: bool, clear_depth: bool) -> (outcome: Result<
        ClearCommand,
        RenderError,
    >)
        requires
            old(self).wf(),
        ensures
            final(self).wf(),
            old(self)@.state != FrameState::TargetAcquired ==> refused(
                outcome,
                RenderError::StateSequence,
            ) && final(self)@ == old(self)@,
            old(self)@.state == FrameState::TargetAcquired ==> (outcome matches Ok(command)
                && command == (ClearCommand { color: clear_color, depth: clear_depth })),
            old(self)@.state == FrameState::TargetAcquired ==> final(self)@ == (EngineView {
                state: FrameState::Cleared,
                ..old(self)@
            }),
    {
        match advance(self.state, FrameStep::Clear) {
            Err(e) => Err(e),
            Ok(next) => {
                self.state = next;
                Ok(ClearCommand { color: clear_color, depth: clear_depth })
            },
        }
    }

    /// The third step: the single draws of the frame, and the requests that
    /// are left out of it because the store cannot resolve them. Every model
    /// that is drawn is marked as in use by the renderer.
    pub fn record_non_instanced(&mut self) -> (outcome: Result<Recording, RenderError>)
        requires
            old(self).wf(),
        ensures
            final(self).wf(),
            old(self)@.state != FrameState::Cleared ==> final(self)@ == old(self)@ && refused(
                outcome,
                RenderError::StateSequence,
            ),
            old(self)@.state == FrameState::Cleared ==> final(self)@ == (EngineView {
                state: FrameState::RecordingNonInstanced,
                store: locked_for(old(self)@.store, old(self)@.queue.model_calls),
                ..old(self)@
            }) && (outcome matches Ok(recording) && draw_views(recording.draws@) == frame_draws(
                old(self)@.store,
                old(self)@.queue,
            ) && skipped_views(recording.skipped@) == frame_skips(
                old(self)@.store,
                old(self)@.queue,
            )),
            outcome matches Ok(recording) ==> targets_held(final(self)@.store, recording.draws@),
    {
        match advance(self.state, FrameStep::RecordNonInstanced) {
            Err(e) => Err(e),
            Ok(next) => {
                self.state = next;
                let recording = record_draws(&self.store, &self.queue);
                lock_drawn_models(&mut self.store, &self.queue);
                Ok(recording)
            },
        }
    }

    /// The fourth step: one draw for each mesh name that instances were
    /// submitted for, and the batches that are left out because the store
    /// does not hold their mesh.
    pub fn record_instanced(&mut self) -> (outcome: Result<InstancedRecording, RenderError>)
        requires
            old(self).wf(),
        ensures
            final(self).wf(),
            old(self)@.state != FrameState::RecordingNonInstanced ==> final(self)@ == old(self)@
                && refused(outcome, RenderError::StateSequence),
            old(self)@.state == FrameState::RecordingNonInstanced ==> final(self)@ == (EngineView {
                state: FrameState::RecordingInstanced,
                ..old(self)@
            }) && (outcome matches Ok(recording) && instanced_draw_views(recording.draws@)
                == frame_instanced_draws(old(self)@.store, old(self)@.queue) && skipped_views(
                recording.skipped@,
            ) == frame_instanced_skips(old(self)@.store, old(self)@.queue)),
            outcome matches Ok(recording) ==> meshes_held(final(self)@.store, recording.draws@),
    {
        match advance(self.state, FrameStep::RecordInstanced) {
            Err(e) => Err(e),
            Ok(next) => {
                self.state = next;
                Ok(record_instanced_draws(&self.store, &self.queue))
            },
        }
    }

    /// The fifth step: the frame is presented and the queue is emptied for
    /// the next one.
    pub fn present(&mut self) -> (outcome: Result<(), RenderError>)
        requires
            old(self).wf(),
        ensures
            final(self).wf(),
            final(self)@.store == old(self)@.store,
            final(self)@.camera == old(self)@.camera,
            old(self)@.state != FrameState::RecordingInstanced ==> refused(
                outcome,
                RenderError::StateSequence,
            ) && final(self)@ == old(self)@,
            old(self)@.state == FrameState::RecordingInstanced ==> outcome is Ok,
            old(self)@.state == FrameState::RecordingInstanced ==> final(self)@.state
                == FrameState::Presented && final(self)@.queue.is_empty(),
    {
        match advance(self.state, FrameStep::Present) {
            Err(e) => Err(e),
            Ok(next) => {
                self.state = next;
                self.queue.clear();
                Ok(())
            },
        }
    }

    /// The last step: the engine is idle again.
    pub fn finish(&mut self) -> (outcome: Result<(), RenderError>)
        requires
            old(self).wf(),
        ensures
            final(self).wf(),
            old(self)@.state != FrameState::Presented ==> refused(
                outcome,
                RenderError::StateSequence,
            ) && final(self)@ == old(self)@,
            old(self)@.state == FrameState::Presented ==> outcome is Ok && final(self)@ == (
            EngineView { state: FrameState::Idle, ..old(self)@ }),
    {
        match advance(self.state, FrameStep::Finish) {
            Err(e) => Err(e),
            Ok(next) => {
                self.state = next;
                Ok(())
            },
        }
    }

    /// One whole frame from an idle engine: every step in its order. Gives
    /// the commands of the frame, or `SurfaceAcquisition` where no target
    /// could be had; either way the engine is idle and the queue empty
    /// afterwards. An engine that is in the middle of a frame refuses and
    /// stays as it is.
    pub fn run_frame(
        &mut self,
        target_available: bool,
        clear_color: bool,
        clear_depth: bool,
    ) -> (outcome: Result<Frame, RenderError>)
        requires
            old(self).wf(),
        ensures
            final(self).wf(),
            final(self)@.camera == old(self)@.camera,
            old(self)@.state != FrameState::Idle ==> final(self)@ == old(self)@ && refused(
                outcome,
                RenderError::StateSequence,
            ),
            old(self)@.state == FrameState::Idle ==> final(self)@.state == FrameState::Idle
                && final(self)@.queue.is_empty(),
            old(self)@.state == FrameState::Idle && !target_available ==> refused(
                outcome,
                RenderError::SurfaceAcquisition,
            ) && final(self)@.store == old(self)@.store,
            old(self)@.state == FrameState::Idle && target_available ==> final(self)@.store
                == locked_for(old(self)@.store, old(self)@.queue.model_calls),
            old(self)@.state == FrameState::Idle && target_available ==> (outcome matches Ok(frame)
                && frame.clear == (ClearCommand { color: clear_color, depth: clear_depth })
                && draw_views(frame.draws@) == frame_draws(old(self)@.store, old(self)@.queue)
                && instanced_draw_views(frame.instanced@) == frame_instanced_draws(
                old(self)@.store,
                old(self)@.queue,
            ) && skipped_views(frame.skipped@) == frame_skips(old(self)@.store, old(self)@.queue)
                + frame_instanced_skips(old(self)@.store, old(self)@.queue)),
            outcome matches Ok(frame) ==> targets_held(final(self)@.store, frame.draws@)
                && meshes_held(final(self)@.store, frame.instanced@),
    {
        match self.acquire_target(target_available) {
            Err(e) => {
                return Err(e);
            },
            Ok(_) => {},
        }
        let clear = match self.clear(clear_color, clear_depth) {
            Ok(clear) => clear,
            Err(e) => {
                return Err(e);
            },
        };
        let single = match self.record_non_instanced() {
            Ok(recording) => recording,
            Err(e) => {
                return Err(e);
            },
        };
        proof {
            lemma_locking_keeps_instanced(
                old(self)@.store,
                old(self)@.queue.model_calls,
                old(self)@.queue,
            );
        }
        let batched = match self.record_instanced() {
            Ok(recording) => recording,
            Err(e) => {
                return Err(e);
            },
        };
        match self.present() {
            Err(e) => {
                return Err(e);
            },
            Ok(_) => {},
        }
        match self.finish() {
            Err(e) => {
                return Err(e);
            },
            Ok(_) => {},
        }
        let mut skipped = single.skipped;
        let mut more = batched.skipped;
        let ghost first = skipped@;
        let ghost second = more@;
        skipped.append(&mut more);
        proof {
            assert(skipped_views(skipped@) =~= skipped_views(first) + skipped_views(second));
        }
        Ok(Frame { clear, draws: single.draws, instanced: batched.draws, skipped })
    }
}

} // verus!
