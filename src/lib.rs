//! Verified core of a binding to a native windowing and graphics library:
//! native code translation, the event model, the window registry and the
//! named-handler event dispatch protocol.

pub mod input;
pub mod event;
pub mod registry;
pub mod window;
pub mod utils;
pub mod texture;
pub mod logger;
pub mod noise;
