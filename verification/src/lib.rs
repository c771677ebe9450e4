//! A minimal forward-rendering layer, modelled as verified plain data.
//!
//! The library owns every decision the renderer makes: which GPU resources a
//! scene snapshot consists of, the exact byte images of the uniform buffers,
//! and the exact, ordered command sequence of one forward render pass. All
//! numeric GPU payloads are carried as raw IEEE-754 bit patterns, so the
//! renderer itself never performs floating-point arithmetic; an unverified
//! shell converts them to the GPU API's own types and replays the recorded
//! commands on a real device.

pub mod bytes;
pub mod laws;
pub mod math;
pub mod mesh;
pub mod pass;
pub mod renderer;
pub mod scene;
pub mod snapshot;
pub mod uniform;
