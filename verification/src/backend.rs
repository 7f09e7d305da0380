//! The backend contract and the Vulkan backend: the chain of steps that
//! brings it up, and the order in which it gives back what it owns.

use vstd::prelude::*;
use crate::device::LogicalDevice;
use crate::dx12::DX12RHI;
use crate::error::RHIError;
use crate::metal::MetalRHI;
use crate::resource::Resource;
use crate::swapchain::{Swapchain, SwapchainManager};

verus! {

/// The lifecycle that every backend offers: it is brought up from its
/// configuration, finished once it stands, and shut down.
pub trait RHI<B: Sized, T: Sized> {
    fn init(builder: &B) -> Result<T, RHIError>;

    fn post_init(&mut self);

    fn shutdown(&mut self);
}

/// A backend that can choose its physical device.
pub trait Adapter {
    fn pick_physical_device(&mut self) -> Result<(), RHIError>;
}

/// The Vulkan backend once it stands: the handles it owns and how far its
/// lifecycle has come.
#[derive(Debug, Clone, Copy, PartialEq, Eq)]
pub struct VulkanRHI {
    pub rhi_name: &'static str,
    pub instance: u64,
    /// The debug messenger, where validation is active.
    pub debug_messenger: Option<u64>,
    pub device: LogicalDevice,
    /// `post_init` has run.
    pub post_initialized: bool,
    /// `shutdown` has run: the backend owns nothing any more.
    pub released: bool,
}

impl VulkanRHI {
    /// What the backend acquired, in the order in which it acquired it.
    pub open spec fn acquired(self) -> Seq<Resource> {
        match self.debug_messenger {
            Some(m) => seq![
                Resource::Instance(self.instance),
                Resource::DebugMessenger(m),
                Resource::Device(self.device.handle),
            ],
            None => seq![Resource::Instance(self.instance), Resource::Device(self.device.handle)],
        }
    }

    /// What a call of `shutdown` releases, in order: everything acquired,
    /// last first, or nothing where the backend was shut down before.
    pub open spec fn releases(self) -> Seq<Resource> {
        if self.released {
            Seq::<Resource>::empty()
        } else {
            self.acquired().reverse()
        }
    }

    /// The backend as a call of `shutdown` leaves it.
    pub open spec fn shut_down(self) -> VulkanRHI {
        VulkanRHI { released: true, ..self }
    }

    /// Whether a call of `post_init` does its work: only the first call on a
    /// backend that stands.
    pub open spec fn post_init_due(self) -> bool {
        !self.post_initialized && !self.released
    }

    /// Finishes initialization. Only the first call on a backend that stands
    /// does anything; any other call changes nothing. Returns whether this
    /// call was the one.
    pub fn post_init(&mut self) -> (ran: bool)
        ensures
            ran == old(self).post_init_due(),
            *final(self) == (VulkanRHI {
                post_initialized: old(self).post_initialized || ran,
                ..*old(self)
            }),
    {
        if self.post_initialized || self.released {
            false
        } else {
            self.post_initialized = true;
            true
        }
    }

    /// Shuts the backend down and lists what the caller releases, in order:
    /// the device, the debug messenger if there is one, the instance. A
    /// second call lists nothing.
    pub fn shutdown(&mut self) -> (released: Vec<Resource>)
        ensures
            released@ == old(self).releases(),
            *final(self) == old(self).shut_down(),
    {
        let mut order: Vec<Resource> = Vec::new();
        if !self.released {
            order.push(Resource::Device(self.device.handle));
            match self.debug_messenger {
                Some(m) => {
                    order.push(Resource::DebugMessenger(m));
                },
                None => {},
            }
            order.push(Resource::Instance(self.instance));
            self.released = true;
        }
        assert(order@ =~= old(self).releases());
        order
    }
}

/// What is released when presentation is given up: all that the swapchain in
/// use holds, or nothing where there is none.
pub open spec fn presentation_releases(in_use: Option<Swapchain>) -> Seq<Resource> {
    match in_use {
        Some(s) => s.release_sequence(),
        None => Seq::<Resource>::empty(),
    }
}

/// Shuts down presentation and backend together and lists what the caller
/// releases, in order: first what was built last, the swapchain in use with
/// its render pass and image views, then what the backend owns. Nothing that
/// was made on the device is released after it, and nothing at all after the
/// instance. A second call lists nothing.
pub fn teardown(rhi: &mut VulkanRHI, manager: &mut SwapchainManager) -> (released: Vec<Resource>)
    ensures
        released@ == presentation_releases(old(manager).current()) + old(rhi).releases(),
        *final(rhi) == old(rhi).shut_down(),
        final(manager).current() is None,
        final(manager).fallback_extent() == old(manager).fallback_extent(),
{
    let mut order: Vec<Resource> = match manager.retire() {
        Some(s) => s.release_order(),
        None => Vec::new(),
    };
    let ghost first = order@;
    let mut rest = rhi.shutdown();
    order.append(&mut rest);
    assert(order@ =~= first + old(rhi).releases());
    order
}

/// The backend in use: one of the three, chosen once when the engine starts.
#[derive(Debug, Clone, Copy, PartialEq, Eq)]
pub enum TargetRenderingAPI {
    Vulkan(VulkanRHI),
    DX12(DX12RHI),
    Metal(MetalRHI),
}

impl TargetRenderingAPI {
    /// The name under which the backend in use reports its errors.
    pub fn rhi_name(&self) -> (name: &'static str)
        ensures
            name == match *self {
                TargetRenderingAPI::Vulkan(rhi) => rhi.rhi_name,
                TargetRenderingAPI::DX12(rhi) => rhi.rhi_name,
                TargetRenderingAPI::Metal(rhi) => rhi.rhi_name,
            },
    {
        match self {
            TargetRenderingAPI::Vulkan(rhi) => rhi.rhi_name,
            TargetRenderingAPI::DX12(rhi) => rhi.rhi_name,
            TargetRenderingAPI::Metal(rhi) => rhi.rhi_name,
        }
    }
}

/// Shutting down twice releases everything that the backend owns exactly
/// once: the first call releases what was acquired, each handle once and the
/// last acquired first, and the second call releases nothing.
pub proof fn lemma_shutdown_is_idempotent(rhi: VulkanRHI)
    requires
        !rhi.released,
    ensures
        rhi.releases() == rhi.acquired().reverse(),
        rhi.releases().to_multiset() == rhi.acquired().to_multiset(),
        rhi.releases().len() == rhi.acquired().len(),
        forall|i: int|
            0 <= i < rhi.acquired().len() ==> #[trigger] rhi.releases()[i] == rhi.acquired()[rhi.acquired().len()
                - 1 - i],
        rhi.shut_down().releases() == Seq::<Resource>::empty(),
        rhi.shut_down().shut_down() == rhi.shut_down(),
{
    rhi.acquired().lemma_reverse_to_multiset();
}

/// Once `post_init` has run, another call does nothing.
pub proof fn lemma_post_init_runs_once(rhi: VulkanRHI)
    ensures
        !(VulkanRHI { post_initialized: true, ..rhi }).post_init_due(),
{
}

} // verus!
