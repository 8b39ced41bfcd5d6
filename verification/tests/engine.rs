use glam::{Mat4, Quat, Vec3, Vec3A};
use render_engine::camera::Camera;
use render_engine::draw::{record_draws, record_instanced_draws, DrawTarget};
use render_engine::error::{AssetLoadError, RenderError};
use render_engine::frame::{advance, ClearCommand, FrameState, FrameStep, RenderEngine};
use render_engine::mesh::Mesh;
use render_engine::names::find_name;
use render_engine::obj_loader::ObjLoader;
use render_engine::render_call::{ModelRenderCall, RenderCall};
use render_engine::render_queue::RenderQueue;
use render_engine::store::Store;
use render_engine::transform::InstancedRenderData;

const CHAIR: &str = "\
v 0 0 0
v 1 0 0
v 0 1 0
vt 0 0
vt 1 0
vt 0 1
f 1/1 2/2 3/3
";

const SNOWMAN: &str = "\
o bottom
v 0 0 0
v 1 0 0
v 0 1 0
vt 0 0
vt 1 0
vt 0 1
f 1/1 2/2 3/3
o top
v 0 0 1
v 1 0 1
v 0 1 1
f 4/1 5/2 6/3
";

fn origin() -> Vec3A {
    Vec3A::new(0.0, 0.0, 0.0)
}

fn ones() -> Vec3A {
    Vec3A::new(1.0, 1.0, 1.0)
}

fn camera() -> Camera {
    Camera::new(origin(), origin(), Mat4::IDENTITY)
}

fn debug_mesh() -> Mesh {
    Mesh::new("debug", Vec::new(), vec![0, 1, 2], 0).unwrap()
}

fn model_matrix(translation: &Vec3A, rotation: &Vec3A, scale: &Vec3A) -> Mat4 {
    let turn = Quat::from_euler(glam::EulerRot::XYZ, rotation.x, rotation.y, rotation.z);
    Mat4::from_scale_rotation_translation(Vec3::from(*scale), turn, Vec3::from(*translation))
}

#[test]
fn render_call_keeps_what_it_was_given() {
    let call = RenderCall::new("debug", "tf.webp", Vec3A::new(-1.0, 0.0, 0.0), Vec3A::new(0.0, 0.5, 0.0), ones());
    assert_eq!(call.get_mesh_name(), "debug");
    assert_eq!(call.get_texture_name(), "tf.webp");
    assert_eq!(*call.get_translation(), Vec3A::new(-1.0, 0.0, 0.0));
    assert_eq!(*call.get_rotation(), Vec3A::new(0.0, 0.5, 0.0));
    assert_eq!(*call.get_scale(), ones());
}

#[test]
fn model_render_call_keeps_what_it_was_given() {
    let textures = vec!["a.png".to_string(), "b.png".to_string()];
    let call = ModelRenderCall::new("snowman.obj", textures.clone(), Vec3A::new(-3.0, 0.0, 0.0), origin(), ones());
    assert_eq!(call.get_model_name(), "snowman.obj");
    assert_eq!(call.get_texture_names(), &textures);
    assert_eq!(*call.get_translation(), Vec3A::new(-3.0, 0.0, 0.0));
    assert_eq!(*call.get_rotation(), origin());
    assert_eq!(*call.get_scale(), ones());
}

#[test]
fn instanced_render_data_keeps_what_it_was_given() {
    let data = InstancedRenderData::new(Vec3A::new(1.0, 2.0, 3.0), Vec3A::new(0.1, 0.2, 0.3), ones());
    assert_eq!(*data.get_translation(), Vec3A::new(1.0, 2.0, 3.0));
    assert_eq!(*data.get_rotation(), Vec3A::new(0.1, 0.2, 0.3));
    assert_eq!(*data.get_scale(), ones());
}

#[test]
fn camera_holds_what_is_set() {
    let mut camera = camera();
    camera.set_position(&Vec3A::new(1.0, 2.0, 3.0));
    camera.set_rotation(&Vec3A::new(7.0, -9.0, 0.5));
    assert_eq!(*camera.get_position(), Vec3A::new(1.0, 2.0, 3.0));
    assert_eq!(*camera.get_rotation(), Vec3A::new(7.0, -9.0, 0.5));
    assert_eq!(*camera.get_matrix(), Mat4::IDENTITY);
    let matrix = Mat4::from_translation(Vec3::new(1.0, 0.0, 0.0));
    camera.set_matrix(matrix);
    assert_eq!(*camera.get_matrix(), matrix);
    assert_eq!(*camera.get_position(), Vec3A::new(1.0, 2.0, 3.0));
}

#[test]
fn find_name_gives_the_first_place() {
    let names = vec!["a".to_string(), "b".to_string(), "a".to_string()];
    assert_eq!(find_name(&names, "a"), Some(0));
    assert_eq!(find_name(&names, "b"), Some(1));
    assert_eq!(find_name(&names, "c"), None);
    assert_eq!(find_name(&Vec::new(), "a"), None);
}

#[test]
fn get_or_load_twice_gives_the_same_entry() {
    let mut store = Store::new();
    let first = store.get_or_load("X", CHAIR.as_bytes()).unwrap();
    let held = store.get_model(first).get_meshes()[0].get_indices().as_ptr() as usize;
    let second = store.get_or_load("X", CHAIR.as_bytes()).unwrap();
    assert_eq!(first, second);
    assert_eq!(store.model_count(), 1);
    let again = store.get_model(second).get_meshes()[0].get_indices().as_ptr() as usize;
    assert_eq!(held, again);
}

#[test]
fn get_or_load_of_a_held_name_does_not_look_at_the_source() {
    let mut store = Store::new();
    let first = store.get_or_load("X", CHAIR.as_bytes()).unwrap();
    let second = store.get_or_load("X", b"v 1\n").unwrap();
    assert_eq!(first, second);
    assert_eq!(store.get_model(second).get_meshes().len(), 1);
}

#[test]
fn get_or_load_gives_new_names_new_handles() {
    let mut store = Store::new();
    assert_eq!(store.get_or_load("chair.obj", CHAIR.as_bytes()), Ok(0));
    assert_eq!(store.get_or_load("snowman.obj", SNOWMAN.as_bytes()), Ok(1));
    assert_eq!(store.get_or_load("chair.obj", SNOWMAN.as_bytes()), Ok(0));
    assert_eq!(store.find_model("snowman.obj"), Some(1));
    assert_eq!(store.find_model("ghost"), None);
    assert_eq!(store.get_model(0).get_meshes().len(), 1);
    assert_eq!(store.get_model(1).get_meshes().len(), 2);
}

#[test]
fn failed_load_installs_nothing() {
    let mut store = Store::new();
    assert_eq!(store.get_or_load("bad", b"f 1 2 3\n"), Err(AssetLoadError::Parse));
    assert_eq!(store.get_or_load("bare", b"v 0 0 0\nv 1 0 0\nv 0 1 0\nf 1 2 3\n"), Err(AssetLoadError::InvalidGeometry));
    assert_eq!(store.model_count(), 0);
    assert_eq!(store.find_model("bad"), None);
}

#[test]
fn add_mesh_keeps_the_first_of_a_name() {
    let mut store = Store::new();
    assert_eq!(store.add_mesh(debug_mesh()), 0);
    assert_eq!(store.add_mesh(Mesh::new("other", Vec::new(), Vec::new(), 0).unwrap()), 1);
    assert_eq!(store.add_mesh(Mesh::new("debug", Vec::new(), Vec::new(), 0).unwrap()), 0);
    assert_eq!(store.mesh_count(), 2);
    assert_eq!(store.get_mesh(0).get_number_of_indices(), 3);
    assert_eq!(store.find_mesh("other"), Some(1));
}

#[test]
fn add_model_keeps_the_first_of_a_name() {
    let mut store = Store::new();
    let chair = ObjLoader::load("chair", CHAIR.as_bytes()).unwrap();
    let other = ObjLoader::load("chair", SNOWMAN.as_bytes()).unwrap();
    assert_eq!(store.add_model(chair), 0);
    assert_eq!(store.add_model(other), 0);
    assert_eq!(store.model_count(), 1);
    assert_eq!(store.get_model(0).get_meshes().len(), 1);
}

#[test]
fn submit_model_with_wrong_texture_count_is_refused() {
    let mut store = Store::new();
    store.get_or_load("snowman.obj", SNOWMAN.as_bytes()).unwrap();
    let mut queue = RenderQueue::new();
    let one = vec!["snowman.png".to_string()];
    let three = vec!["a".to_string(), "b".to_string(), "c".to_string()];
    assert_eq!(
        queue.submit_model(&store, "snowman.obj", one, origin(), origin(), ones()),
        Err(RenderError::TextureCountMismatch)
    );
    assert_eq!(
        queue.submit_model(&store, "snowman.obj", three, origin(), origin(), ones()),
        Err(RenderError::TextureCountMismatch)
    );
    assert_eq!(
        queue.submit_model(&store, "snowman.obj", Vec::new(), origin(), origin(), ones()),
        Err(RenderError::TextureCountMismatch)
    );
    assert_eq!(queue.model_call_count(), 0);
    assert_eq!(queue.mesh_call_count(), 0);
    assert_eq!(queue.batch_count(), 0);
}

#[test]
fn submit_model_of_unknown_model_is_refused() {
    let store = Store::new();
    let mut queue = RenderQueue::new();
    assert_eq!(
        queue.submit_model(&store, "ghost", vec!["g.png".to_string()], origin(), origin(), ones()),
        Err(RenderError::ResourceNotFound)
    );
    assert_eq!(queue.model_call_count(), 0);
}

#[test]
fn submit_model_with_matching_textures_is_queued() {
    let mut store = Store::new();
    store.get_or_load("snowman.obj", SNOWMAN.as_bytes()).unwrap();
    let mut queue = RenderQueue::new();
    let two = vec!["a.png".to_string(), "b.png".to_string()];
    assert_eq!(queue.submit_model(&store, "snowman.obj", two.clone(), origin(), origin(), ones()), Ok(()));
    assert_eq!(queue.model_call_count(), 1);
    assert_eq!(queue.get_model_call(0).get_model_name(), "snowman.obj");
    assert_eq!(queue.get_model_call(0).get_texture_names(), &two);
}

#[test]
fn submit_mesh_queues_in_order() {
    let mut queue = RenderQueue::new();
    queue.submit_mesh("a", "a.png", origin(), origin(), ones());
    queue.submit_mesh("b", "b.png", ones(), origin(), ones());
    assert_eq!(queue.mesh_call_count(), 2);
    assert_eq!(queue.get_mesh_call(0).get_mesh_name(), "a");
    assert_eq!(queue.get_mesh_call(1).get_mesh_name(), "b");
    assert_eq!(*queue.get_mesh_call(1).get_translation(), ones());
    queue.clear();
    assert_eq!(queue.mesh_call_count(), 0);
}

#[test]
fn instances_of_one_mesh_gather_in_one_batch() {
    let mut queue = RenderQueue::new();
    let a = InstancedRenderData::new(Vec3A::new(1.0, 0.0, 0.0), origin(), ones());
    let b = InstancedRenderData::new(Vec3A::new(2.0, 0.0, 0.0), origin(), ones());
    let c = InstancedRenderData::new(Vec3A::new(3.0, 0.0, 0.0), origin(), ones());
    queue.submit_instanced("M", &vec![a, b]);
    queue.submit_instanced("N", &vec![c]);
    queue.submit_instanced("M", &vec![c]);
    assert_eq!(queue.batch_count(), 2);
    assert_eq!(queue.get_batch_name(0), "M");
    assert_eq!(queue.get_batch_name(1), "N");
    let gathered: Vec<Vec3A> = queue.get_batch_instances(0).iter().map(|i| i.translation).collect();
    assert_eq!(gathered, vec![a.translation, b.translation, c.translation]);
    assert_eq!(queue.get_batch_instances(1).len(), 1);
}

#[test]
fn n_instances_give_one_draw_of_n() {
    let mut store = Store::new();
    store.add_mesh(debug_mesh());
    let mut queue = RenderQueue::new();
    for n in 0..7 {
        queue.submit_instanced("debug", &vec![InstancedRenderData::new(Vec3A::new(n as f32, 0.0, 0.0), origin(), ones())]);
    }
    let recording = record_instanced_draws(&store, &queue);
    assert_eq!(recording.draws.len(), 1);
    assert_eq!(recording.draws[0].mesh, 0);
    assert_eq!(recording.draws[0].instances.len(), 7);
    assert_eq!(recording.draws[0].instances[6].translation, Vec3A::new(6.0, 0.0, 0.0));
    assert!(recording.skipped.is_empty());
}

#[test]
fn advance_accepts_each_step_in_its_state_only() {
    assert_eq!(advance(FrameState::Idle, FrameStep::AcquireTarget), Ok(FrameState::TargetAcquired));
    assert_eq!(advance(FrameState::TargetAcquired, FrameStep::Clear), Ok(FrameState::Cleared));
    assert_eq!(advance(FrameState::Cleared, FrameStep::RecordNonInstanced), Ok(FrameState::RecordingNonInstanced));
    assert_eq!(advance(FrameState::RecordingNonInstanced, FrameStep::RecordInstanced), Ok(FrameState::RecordingInstanced));
    assert_eq!(advance(FrameState::RecordingInstanced, FrameStep::Present), Ok(FrameState::Presented));
    assert_eq!(advance(FrameState::Presented, FrameStep::Finish), Ok(FrameState::Idle));
    assert_eq!(advance(FrameState::Idle, FrameStep::Clear), Err(RenderError::StateSequence));
    assert_eq!(advance(FrameState::Cleared, FrameStep::Clear), Err(RenderError::StateSequence));
    assert_eq!(advance(FrameState::Presented, FrameStep::AcquireTarget), Err(RenderError::StateSequence));
}

#[test]
fn record_before_clear_is_a_sequence_error() {
    let mut engine = RenderEngine::new(camera());
    assert_eq!(engine.record_non_instanced().err(), Some(RenderError::StateSequence));
    assert_eq!(engine.record_instanced().err(), Some(RenderError::StateSequence));
    assert_eq!(engine.acquire_target(true), Ok(()));
    assert_eq!(engine.record_non_instanced().err(), Some(RenderError::StateSequence));
    assert_eq!(engine.record_instanced().err(), Some(RenderError::StateSequence));
    assert_eq!(engine.get_state(), FrameState::TargetAcquired);
}

#[test]
fn record_after_present_is_a_sequence_error() {
    let mut engine = RenderEngine::new(camera());
    engine.acquire_target(true).unwrap();
    engine.clear(true, true).unwrap();
    engine.record_non_instanced().unwrap();
    engine.record_instanced().unwrap();
    engine.present().unwrap();
    assert_eq!(engine.get_state(), FrameState::Presented);
    assert_eq!(engine.record_non_instanced().err(), Some(RenderError::StateSequence));
    assert_eq!(engine.record_instanced().err(), Some(RenderError::StateSequence));
    assert_eq!(engine.get_state(), FrameState::Presented);
    assert_eq!(engine.finish(), Ok(()));
    assert_eq!(engine.get_state(), FrameState::Idle);
}

#[test]
fn steps_out_of_turn_change_nothing() {
    let mut engine = RenderEngine::new(camera());
    engine.submit_mesh("debug", "tf.webp", origin(), origin(), ones());
    assert_eq!(engine.clear(true, true), Err(RenderError::StateSequence));
    assert_eq!(engine.present(), Err(RenderError::StateSequence));
    assert_eq!(engine.finish(), Err(RenderError::StateSequence));
    assert_eq!(engine.get_state(), FrameState::Idle);
    assert_eq!(engine.get_queue().mesh_call_count(), 1);
    engine.acquire_target(true).unwrap();
    assert_eq!(engine.acquire_target(true), Err(RenderError::StateSequence));
    assert_eq!(engine.run_frame(true, true, true).err(), Some(RenderError::StateSequence));
    assert_eq!(engine.get_state(), FrameState::TargetAcquired);
    assert_eq!(engine.get_queue().mesh_call_count(), 1);
}

#[test]
fn clear_hands_back_the_flags() {
    let mut engine = RenderEngine::new(camera());
    engine.acquire_target(true).unwrap();
    assert_eq!(engine.clear(true, false), Ok(ClearCommand { color: true, depth: false }));
    assert_eq!(engine.get_state(), FrameState::Cleared);
}

#[test]
fn lost_surface_skips_the_frame_and_drops_the_queue() {
    let mut engine = RenderEngine::new(camera());
    engine.add_mesh(debug_mesh());
    engine.submit_mesh("debug", "tf.webp", origin(), origin(), ones());
    engine.submit_instanced("debug", &vec![InstancedRenderData::new(origin(), origin(), ones())]);
    assert_eq!(engine.run_frame(false, true, true).err(), Some(RenderError::SurfaceAcquisition));
    assert_eq!(engine.get_state(), FrameState::Idle);
    assert_eq!(engine.get_queue().mesh_call_count(), 0);
    assert_eq!(engine.get_queue().batch_count(), 0);
    assert_eq!(engine.get_store().mesh_count(), 1);
    let frame = engine.run_frame(true, true, true).unwrap();
    assert!(frame.draws.is_empty());
    assert!(frame.instanced.is_empty());
}

#[test]
fn chair_frame_has_one_draw_with_its_translation() {
    let mut engine = RenderEngine::new(camera());
    let chair = engine.get_or_load("chair", CHAIR.as_bytes()).unwrap();
    assert_eq!(engine.get_store().get_model(chair).get_meshes().len(), 1);
    let outcome = engine.submit_model(
        "chair",
        vec!["chair.png".to_string()],
        Vec3A::new(-2.0, 0.0, 0.0),
        origin(),
        ones(),
    );
    assert_eq!(outcome, Ok(()));
    assert!(!engine.get_store().get_model(chair).is_locked());
    let frame = engine.run_frame(true, true, true).unwrap();
    assert!(engine.get_store().get_model(chair).is_locked());
    assert_eq!(frame.clear, ClearCommand { color: true, depth: true });
    assert_eq!(frame.draws.len(), 1);
    assert!(frame.instanced.is_empty());
    assert!(frame.skipped.is_empty());
    let draw = &frame.draws[0];
    assert_eq!(draw.target, DrawTarget::Submesh { model: chair, submesh: 0 });
    assert_eq!(draw.texture_name, "chair.png");
    assert_eq!(draw.translation, Vec3A::new(-2.0, 0.0, 0.0));
    assert_eq!(draw.rotation, origin());
    assert_eq!(draw.scale, ones());
    assert_eq!(
        model_matrix(&draw.translation, &draw.rotation, &draw.scale),
        Mat4::from_translation(Vec3::new(-2.0, 0.0, 0.0))
    );
    assert_eq!(engine.get_state(), FrameState::Idle);
    assert_eq!(engine.get_queue().model_call_count(), 0);
}

#[test]
fn ten_thousand_instances_give_one_draw() {
    let mut engine = RenderEngine::new(camera());
    engine.add_mesh(debug_mesh());
    let mut instances = Vec::with_capacity(100 * 100);
    for x in 0..100 {
        for z in 0..100 {
            instances.push(InstancedRenderData::new(Vec3A::new(x as f32, z as f32, 0.0), origin(), ones()));
        }
    }
    engine.submit_instanced("debug", &instances);
    let frame = engine.run_frame(true, true, true).unwrap();
    assert_eq!(frame.instanced.len(), 1);
    assert_eq!(frame.instanced[0].mesh, 0);
    assert_eq!(frame.instanced[0].instances.len(), 10000);
    assert_eq!(frame.instanced[0].instances[9999].translation, Vec3A::new(99.0, 99.0, 0.0));
    assert_eq!(frame.instanced[0].instances[100].translation, Vec3A::new(1.0, 0.0, 0.0));
    assert!(frame.draws.is_empty());
    assert!(frame.skipped.is_empty());
}

#[test]
fn unloaded_mesh_is_left_out_and_reported() {
    let mut engine = RenderEngine::new(camera());
    engine.add_mesh(debug_mesh());
    engine.submit_mesh("ghost", "ghost.png", origin(), origin(), ones());
    engine.submit_mesh("debug", "tf.webp", Vec3A::new(-1.0, 0.0, 0.0), origin(), ones());
    engine.submit_instanced("ghost", &vec![InstancedRenderData::new(origin(), origin(), ones())]);
    let frame = engine.run_frame(true, true, true).unwrap();
    assert_eq!(frame.draws.len(), 1);
    assert_eq!(frame.draws[0].target, DrawTarget::Mesh { mesh: 0 });
    assert_eq!(frame.draws[0].texture_name, "tf.webp");
    assert!(frame.instanced.is_empty());
    assert_eq!(frame.skipped.len(), 2);
    assert_eq!(frame.skipped[0].name, "ghost");
    assert_eq!(frame.skipped[0].reason, RenderError::ResourceNotFound);
    assert_eq!(frame.skipped[1].name, "ghost");
    assert_eq!(frame.skipped[1].reason, RenderError::ResourceNotFound);
    assert_eq!(engine.get_state(), FrameState::Idle);
}

#[test]
fn model_draws_come_one_for_each_submesh_after_the_mesh_draws() {
    let mut engine = RenderEngine::new(camera());
    engine.add_mesh(debug_mesh());
    let snowman = engine.get_or_load("snowman.obj", SNOWMAN.as_bytes()).unwrap();
    engine
        .submit_model("snowman.obj", vec!["a.png".to_string(), "b.png".to_string()], origin(), origin(), ones())
        .unwrap();
    engine.submit_mesh("debug", "tf.webp", origin(), origin(), ones());
    engine.acquire_target(true).unwrap();
    engine.clear(false, true).unwrap();
    let recording = engine.record_non_instanced().unwrap();
    assert_eq!(recording.draws.len(), 3);
    assert_eq!(recording.draws[0].target, DrawTarget::Mesh { mesh: 0 });
    assert_eq!(recording.draws[1].target, DrawTarget::Submesh { model: snowman, submesh: 0 });
    assert_eq!(recording.draws[1].texture_name, "a.png");
    assert_eq!(recording.draws[2].target, DrawTarget::Submesh { model: snowman, submesh: 1 });
    assert_eq!(recording.draws[2].texture_name, "b.png");
    assert_eq!(engine.get_state(), FrameState::RecordingNonInstanced);
    let batched = engine.record_instanced().unwrap();
    assert!(batched.draws.is_empty());
    engine.present().unwrap();
    assert_eq!(engine.get_queue().model_call_count(), 0);
}

#[test]
fn record_draws_reports_a_model_that_another_store_accepted() {
    let mut full = Store::new();
    full.get_or_load("chair", CHAIR.as_bytes()).unwrap();
    let mut queue = RenderQueue::new();
    queue.submit_model(&full, "chair", vec!["chair.png".to_string()], origin(), origin(), ones()).unwrap();
    let mut other = Store::new();
    let empty = record_draws(&other, &queue);
    assert!(empty.draws.is_empty());
    assert_eq!(empty.skipped[0].reason, RenderError::ResourceNotFound);
    other.get_or_load("chair", SNOWMAN.as_bytes()).unwrap();
    let mismatch = record_draws(&other, &queue);
    assert!(mismatch.draws.is_empty());
    assert_eq!(mismatch.skipped[0].name, "chair");
    assert_eq!(mismatch.skipped[0].reason, RenderError::TextureCountMismatch);
}

#[test]
fn engine_camera_can_be_replaced() {
    let mut engine = RenderEngine::new(camera());
    let mut moved = camera();
    moved.set_position(&Vec3A::new(0.0, 5.0, 0.0));
    engine.set_camera(moved);
    assert_eq!(*engine.get_camera().get_position(), Vec3A::new(0.0, 5.0, 0.0));
    assert_eq!(engine.get_state(), FrameState::Idle);
}

#[test]
fn only_drawn_models_are_locked() {
    let mut engine = RenderEngine::new(camera());
    let chair = engine.get_or_load("chair", CHAIR.as_bytes()).unwrap();
    let snowman = engine.get_or_load("snowman", SNOWMAN.as_bytes()).unwrap();
    let idle = engine.get_or_load("idle", CHAIR.as_bytes()).unwrap();
    engine.submit_model("snowman", vec!["a".to_string(), "b".to_string()], origin(), origin(), ones()).unwrap();
    assert_eq!(
        engine.submit_model("chair", Vec::new(), origin(), origin(), ones()),
        Err(RenderError::TextureCountMismatch)
    );
    engine.acquire_target(true).unwrap();
    engine.clear(true, true).unwrap();
    assert!(!engine.get_store().get_model(snowman).is_locked());
    engine.record_non_instanced().unwrap();
    assert!(engine.get_store().get_model(snowman).is_locked());
    assert!(!engine.get_store().get_model(chair).is_locked());
    assert!(!engine.get_store().get_model(idle).is_locked());
    assert_eq!(engine.get_store().get_model(snowman).get_meshes().len(), 2);
    assert_eq!(engine.get_store().find_model("snowman"), Some(snowman));
}

#[test]
fn lost_surface_locks_nothing() {
    let mut engine = RenderEngine::new(camera());
    let chair = engine.get_or_load("chair", CHAIR.as_bytes()).unwrap();
    engine.submit_model("chair", vec!["chair.png".to_string()], origin(), origin(), ones()).unwrap();
    assert_eq!(engine.run_frame(false, true, true).err(), Some(RenderError::SurfaceAcquisition));
    assert!(!engine.get_store().get_model(chair).is_locked());
}

#[test]
fn lock_model_marks_one_model() {
    let mut store = Store::new();
    store.get_or_load("a", CHAIR.as_bytes()).unwrap();
    store.get_or_load("b", CHAIR.as_bytes()).unwrap();
    store.lock_model(1);
    assert!(!store.get_model(0).is_locked());
    assert!(store.get_model(1).is_locked());
    assert_eq!(store.find_model("b"), Some(1));
}
