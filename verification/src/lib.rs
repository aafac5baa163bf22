//! A verified model of a minimal "hello triangle" renderer.
//!
//! The library holds the logic of the program: how the presentable surface is
//! configured and reconfigured on resize, the exact byte layout of the static
//! vertex buffer, the pipeline description, the command sequence recorded for
//! each frame, and the event-loop policy that dispatches window events. The
//! host binary owns the actual window and GPU handles and applies the actions
//! this library decides.

pub mod events;
pub mod frame;
pub mod renderer;
pub mod surface;
pub mod validation;
pub mod vertex;
