//! Double-buffered presentation over a Linux framebuffer device.
//!
//! The device itself (control calls and memory mappings) is driven by the
//! caller; this library decides what to ask of the device and keeps the
//! roles of the mapped surfaces consistent with what the device shows.
mod error;
mod laws;
mod negotiate;
mod screeninfo;
mod swapchain;

pub use error::FbError;
pub use screeninfo::{FixScreeninfo, VarScreeninfo};
pub use negotiate::{
    fits_double, frame_bytes, negotiate, negotiated, regions_of, request_failure, GeometryRequest,
    Negotiation, Region, U32_LIMIT,
};
pub use swapchain::{toggled, ChainView, SwapChain};
pub use laws::{
    after_step, after_steps, lemma_double_iff_memory_suffices, lemma_failed_pan_changes_nothing,
    lemma_geometry_stable, lemma_single_swap_is_noop, lemma_swap_keeps_roles_apart,
    lemma_swap_twice_restores, ChainStep,
};
