//! The handles that a backend owns, named by what they are.

use vstd::prelude::*;

verus! {

/// A handle that the driver gave out and that must be given back.
#[derive(Debug, Clone, Copy, PartialEq, Eq, Structural)]
pub enum Resource {
    Instance(u64),
    DebugMessenger(u64),
    Device(u64),
    Swapchain(u64),
    ImageView(u64),
    RenderPass(u64),
}

} // verus!
