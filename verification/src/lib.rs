//! Desktop runtime of a declarative UI framework.
//!
//! The library is the decision core of the window/render lifecycle: it owns
//! the state machine that tracks the native window, the GPU drawing surface
//! and the accessibility focus, translates raw platform input into an
//! abstract event vocabulary, and answers every incoming message with the
//! ordered list of [`events::Action`]s the platform embedding must perform.
//! The embedding (a thin binary around this crate) runs the real event loop:
//! it performs each action against the windowing and GPU layers and hands the
//! resulting platform events back in.

pub mod accessibility;
pub mod app;
pub mod config;
pub mod events;
pub mod gpu;
pub mod input;
pub mod runtime;
pub mod window;
