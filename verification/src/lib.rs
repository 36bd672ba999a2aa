//! A fixed-cadence frame scheduler and a batched 2D sprite renderer.
//!
//! The library decides; the program around it acts. Every graphics call the
//! renderer wants made is recorded as a [`commands::Command`], and the frame
//! scheduler turns clock readings into pacing decisions, so that all of the
//! rules on timing, buffer lifecycle and batching are stated and proved here.

pub mod application;
pub mod types;
pub mod commands;
pub mod primitives;
pub mod api;
pub mod buffers;
pub mod texture;
pub mod sprite;
pub mod sprite_batch;
pub mod graphics;
pub mod shader;
pub mod program;
pub mod uniform;
pub mod std140;
pub mod run_flag;
