//! Decision logic of the OMFG post-process frame-generation Vulkan layer:
//! mode and debug-view parsing, swapchain mutation, present sequencing and
//! generated-frame accounting, compute-pass tables, and the small text
//! helpers the layer uses for its log lines.

pub mod text;
pub mod config;
pub mod vulkan;
pub mod planner;
pub mod passes;
pub mod memory;
pub mod layer;
pub mod heuristics;
