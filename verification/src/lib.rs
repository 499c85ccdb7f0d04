//! Frame pacing, device choice and swapchain policy for a compute-driven
//! fractal viewer, stated over plain values and proved.

pub mod backend;
pub mod device;
pub mod frame;
pub mod params;
pub mod pipeline;
pub mod swapchain;
