//! Input-dispatch and render-trigger core of an interactive terminal
//! application.
//!
//! The controller owns the model and the drawing surface, translates key
//! events into page-scoped actions, and triggers one full render per
//! accepted key press.  Reading raw terminal input and flushing frames to
//! the screen are left to the surrounding binary; this crate holds the
//! decision logic, with its behaviour stated in contracts.

pub mod canvas;
pub mod controller;
pub mod keys;
pub mod laws;
pub mod model;
pub mod view;
