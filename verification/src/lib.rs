//! Orchestration core for real-time GPU rendering pipelines driving
//! generative visual effects: binding-layout management, ping-pong feedback
//! buffers, a per-frame accumulation buffer, pipeline building with hot
//! reload, off-screen frame capture with row-alignment handling, and a
//! timeline sequencer that switches the active shader program as wall time
//! advances.
//!
//! The render loop drives one frame at a time: it consumes any published
//! hot-reload replacement ([`hotreload`]), asks the sequencer for the active
//! segment ([`sequencer`]), applies the frame's input to the render-loop
//! context ([`context`]) — rebuilding the feedback pair ([`feedback`]) and
//! the accumulator ([`accum`]) on a resize or clear request — prepares each
//! pass (accumulator zeroed, feedback slots picked), and routes through the
//! capture path ([`capture`], [`export`]) when an export is running.
//! Pipelines themselves are built and replaced only through the registry
//! ([`pipeline`]), never partially. Device work, windowing and the control
//! panel stay outside; the library takes and returns plain values.

pub mod accum;
pub mod capture;
pub mod context;
pub mod export;
pub mod feedback;
pub mod hotreload;
pub mod layout;
pub mod media;
pub mod pipeline;
pub mod sequencer;
