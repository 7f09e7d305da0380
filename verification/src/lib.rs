//! A rendering hardware interface: the decisions that stand between an
//! application and a native graphics driver while a GPU context is brought up.
//!
//! The library selects a physical device, resolves queue families, describes
//! the logical device, negotiates a swapchain with its image views and render
//! pass, and keeps the order in which owned handles are released. Every
//! function takes and returns plain values; the caller performs the driver
//! calls and hands their results back.
//!
//! Two sessions lead the caller through the chains of driver calls:
//! [`init::InitSession`] brings the Vulkan backend up, and
//! [`recreate::RecreateSession`] creates the swapchain or replaces it after a
//! resize. Each takes the answer to the call before and names the next call,
//! and each ends at the first failure with the list of what to give back.

pub mod adapter;
pub mod backend;
pub mod cli;
pub mod debug;
pub mod device;
pub mod dx12;
pub mod error;
pub mod init;
pub mod instance;
pub mod metal;
pub mod recreate;
pub mod render_pass;
pub mod resource;
pub mod swapchain;
pub mod vendor;
