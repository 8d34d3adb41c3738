//! Engine of a dynamic-function-row daemon: a row of virtual buttons on a
//! touch strip. The library owns the button/layer model, the dirty-region
//! renderer (as a paint plan plus exact clip rectangles), touch-session
//! tracking with hit testing, the layer state machine, virtual-key event
//! framing, and configuration (re)building. Device I/O, the drawing backend
//! and polling live outside the library and drive it with plain values.

pub mod button;
pub mod clock;
pub mod config;
pub mod emitter;
pub mod engine;
pub mod fb;
pub mod geometry;
pub mod keys;
pub mod render;
