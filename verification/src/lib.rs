//! Core state machines of a keyboard-driven task manager with a pomodoro
//! music panel: modal window management and input routing, text-field
//! editing, circular list navigation, the task store, and the playback
//! controller.  Rendering and device I/O live with the embedding
//! application; this crate owns the state and the rules.

pub mod app;
pub mod asciiart;
pub mod keys;
pub mod mode;
pub mod music;
pub mod navigator;
pub mod task;
pub mod textfield;
pub mod window;
