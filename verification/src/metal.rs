//! The Metal backend: its name and its configuration.

use vstd::prelude::*;

verus! {

/// The configuration of the Metal backend.
#[derive(Debug, Clone, Copy, PartialEq, Eq)]
pub struct MetalRHIBuilder {}

/// The Metal backend.
#[derive(Debug, Clone, Copy, PartialEq, Eq)]
pub struct MetalRHI {
    pub rhi_name: &'static str,
}

impl Default for MetalRHI {
    fn default() -> (rhi: Self)
        ensures
            rhi.rhi_name@ == "Metal"@,
    {
        MetalRHI { rhi_name: "Metal" }
    }
}

} // verus!
