//! A verified model of the per-frame GPU resource lifecycle that drives a
//! simple hardware-abstraction renderer: swapchain configuration, memory-type
//! selection, staged image upload, the bounded frames-in-flight scheduler with
//! its fence discipline, and the dependency-ordered teardown of GPU objects.
//!
//! The library holds every decision the renderer makes as plain, verified
//! functions over plain values. The unverified shell around it performs the
//! actual driver calls (instance, device, queue, swapchain, window events) and
//! feeds their results back in; the contracts here pin down which slot is used
//! for each frame, when a fence may be waited on, which memory type an
//! allocation picks, how a row-pitched staging buffer is laid out, and in what
//! order resources are destroyed.

pub mod device;
pub mod errors;
pub mod events;
pub mod frame;
pub mod memory;
pub mod pipeline;
pub mod render_targets;
pub mod swapchain;
pub mod teardown;
pub mod upload;
