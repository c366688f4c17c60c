//! Frame-buffer handoff between a simulation loop and a presentation loop.
//!
//! A fixed pool of reusable buffers circulates between two stages: the draw
//! stage of the simulation fills a buffer, the presentation stage submits it
//! and hands it back. Every rule of that circulation is stated here over
//! mathematical views and proved; blocking, threads and devices are left to
//! the caller.

pub mod buffer;
pub mod clock;
pub mod conduit;
pub mod draw;
pub mod event;
pub mod present;
pub mod ring;
pub mod sim;
pub mod steps;

pub use crate::draw::Painter;
pub use crate::event::EventHandler;
pub use crate::sim::Init;
pub use crate::steps::{Priority, DRAW_NAME, DRAW_PRIORITY};
