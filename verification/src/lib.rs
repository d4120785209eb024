//! The core of an application host: state that tasks share, a bus for
//! lifecycle events, and the control bridge between the application and its
//! user-interface loop.
//!
//! Everything here is sequential and works on plain values. Threads, locks,
//! channels, the scheduler of background tasks, the window and the renderer
//! belong to the program that uses the library: it owns the loops, and asks
//! the library what to do at each step.

pub mod brul;
pub mod builder;
pub mod control;
pub mod error;
pub mod event_bus;
pub mod events;
pub mod frame;
pub mod gui;
pub mod runtime;
pub mod state;

pub use crate::brul::Brul;
pub use crate::builder::{AppBuilder, AppParts};
pub use crate::control::{AppControlMessage, ControlTask, EVProxy, GuiControlMessage};
pub use crate::error::{BrulError, Error};
pub use crate::event_bus::EventBus;
pub use crate::events::EventContext;
pub use crate::state::{State, StateManager};
