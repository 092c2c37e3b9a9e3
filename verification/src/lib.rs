//! A verified model of the GPU-facing core of a small rendering backend:
//! image layout transitions, staged uploads, render-target and swapchain
//! lifecycle, frame scheduling, and an asynchronous resource loader.
//!
//! Everything that touches a real graphics device is represented by a
//! command log (`gpu::GpuContext`); an unverified backend replays that log
//! against the device. The contracts here pin down ordering: barriers
//! before reads, submissions chained after the previous frame, and
//! destruction only once the device is idle.

pub mod buffer;
pub mod camera;
pub mod frame;
pub mod gpu;
pub mod gpu_image;
pub mod math;
pub mod model;
pub mod renderpass;
pub mod resources;
pub mod swapchain;
pub mod texture_shader;
