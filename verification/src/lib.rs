//! Core of a small game engine, centred on the renderer's GPU-resource
//! lifecycle: device and queue selection, swapchain creation and recreation,
//! the render-graph objects derived from the swapchain, and the per-frame
//! scheduler that acquires an image, records commands, submits and presents.
//!
//! The platform collaborators (window, event loop, GPU driver, shader
//! bytecode) are outside this crate: they hand in plain-value descriptions
//! and reports, and the core decides every transition and proves its
//! invariants, chiefly that framebuffers always match the swapchain they
//! were built against and that a stale swapchain halts frames until it has
//! been recreated.

pub mod actor;
pub mod assets;
pub mod config;
pub mod device;
pub mod engine;
pub mod entity;
pub mod frame;
pub mod options;
pub mod render_graph;
pub mod renderer;
pub mod scene;
pub mod stats;
pub mod swapchain;

use vstd::prelude::*;

verus! {

} // verus!
