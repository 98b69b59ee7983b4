//! The orchestration of a tiled, GPU-driven ray tracer, without the GPU.
//!
//! The library decides and the host performs. It compiles a scene into the
//! flat layout that the compute kernel reads (`compile`, `wscene`), plans
//! the resources of a render and the sets they are bound to (`buffers`,
//! `bindings`), cuts the image into tiles (`tiles`), and schedules the
//! dispatches and the readback as a machine that is fed with what the
//! device reports (`kernel`, `trace`). `renderer` puts these together into
//! the plan of one render. Single-precision numbers pass through the
//! library as bit patterns.

pub mod bindings;
pub mod buffers;
pub mod color;
pub mod compile;
pub mod config;
pub mod error;
pub mod kernel;
pub mod kernel_scene;
pub mod metrics;
pub mod renderer;
pub mod scene;
pub mod tiles;
pub mod trace;
pub mod vector;
pub mod wscene;
