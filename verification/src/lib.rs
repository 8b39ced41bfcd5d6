//! The core of a 3D client's renderer: the geometry store, the model importer,
//! the per-frame draw queue and the frame sequencer, with the state machines of
//! the window and of the frame stated and proved.

pub mod error;
pub mod transform;
pub mod render_call;
pub mod names;
pub mod decimal;
pub mod mesh;
pub mod model;
pub mod obj_loader;
pub mod store;
pub mod render_queue;
pub mod draw;
pub mod camera;
pub mod frame;
pub mod window;
pub mod client_connection;
