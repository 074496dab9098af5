//! Verified core of a voxelizing deferred renderer.
//!
//! The crate decides *what* is created on the GPU and *what* is recorded each
//! frame; it never talks to a GPU itself. Resource creation goes into the
//! [`render_client::resource::Device`] log, per-frame work into a
//! [`render_client::command::CommandEncoder`] and the
//! [`render_client::command::Queue`] log. A thin device layer replays those
//! logs on the real graphics API.
//!
//! Floating-point values are carried as IEEE-754 bit patterns (`u32` for
//! single, `u64` for double precision); the device layer converts at the edge.

pub mod dvs;
pub mod error;
pub mod frame_loop;
pub mod pass;
pub mod point_cloud;
pub mod render_client;
pub mod scene;
pub mod shader_pipeline;
pub mod utils;
