//! Live-reload pipeline for a single fragment-shader source file.
//!
//! The library holds the verified core: change detection against a baseline
//! modification timestamp, assembly of the full shader program text, the
//! reload worker's state machine, the update channel, and the render loop's
//! compile-validity and frame-pacing decisions. Everything that touches the
//! filesystem, the clock, threads, or the graphics stack lives outside and
//! hands the library plain values.

pub mod background_worker;
pub mod channel;
pub mod render;
pub mod st_shader;
pub mod watched_file;
