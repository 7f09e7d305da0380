//! Swapchain negotiation: extent, image count, surface format and present
//! mode, and the manager that holds the swapchain across recreations.

use vstd::prelude::*;
use crate::error::{RHIError, RHIErrorEnum};
use crate::resource::Resource;

verus! {

/// The format code of 8-bit BGRA with sRGB transfer.
pub const FORMAT_B8G8R8A8_SRGB: i32 = 50;

/// The color space code of non-linear sRGB.
pub const COLOR_SPACE_SRGB_NONLINEAR: i32 = 0;

/// The present mode code of the low-latency mode that is preferred.
pub const PRESENT_MODE_MAILBOX: i32 = 1;

/// The present mode code of the baseline mode that every surface supports.
pub const PRESENT_MODE_FIFO: i32 = 2;

/// The width by which a surface reports that its extent is undefined.
pub const UNDEFINED_EXTENT_WIDTH: u32 = 0xFFFF_FFFF;

/// The resolution used where the caller supplies none that is defined.
pub const DEFAULT_EXTENT_WIDTH: u32 = 1920;

pub const DEFAULT_EXTENT_HEIGHT: u32 = 1080;

/// The swapchain creation flag that allows views of other formats.
pub const SWAPCHAIN_CREATE_MUTABLE_FORMAT: u32 = 0x4;

/// The image usage flag of a color attachment.
pub const IMAGE_USAGE_COLOR_ATTACHMENT: u32 = 0x10;

/// A width and a height in pixels.
#[derive(Debug, Clone, Copy, PartialEq, Eq, Structural)]
pub struct Extent {
    pub width: u32,
    pub height: u32,
}

impl Extent {
    /// The extent is the sentinel by which a surface leaves the size to the
    /// swapchain.
    pub open spec fn undefined(self) -> bool {
        self.width == UNDEFINED_EXTENT_WIDTH
    }

    /// Whether the extent is the undefined sentinel.
    pub fn is_undefined(&self) -> (r: bool)
        ensures
            r == self.undefined(),
    {
        self.width == UNDEFINED_EXTENT_WIDTH
    }
}

/// A pair of format and color space that a surface supports.
#[derive(Debug, Clone, Copy, PartialEq, Eq, Structural)]
pub struct SurfaceFormat {
    pub format: i32,
    pub color_space: i32,
}

impl SurfaceFormat {
    /// The preferred surface format: 8-bit BGRA in non-linear sRGB.
    pub open spec fn preferred(self) -> bool {
        self.format == FORMAT_B8G8R8A8_SRGB && self.color_space == COLOR_SPACE_SRGB_NONLINEAR
    }

    /// Whether this is the preferred surface format.
    pub fn is_preferred(&self) -> (r: bool)
        ensures
            r == self.preferred(),
    {
        self.format == FORMAT_B8G8R8A8_SRGB && self.color_space == COLOR_SPACE_SRGB_NONLINEAR
    }
}

/// What a surface reports of itself.
#[derive(Debug, Clone, Copy, PartialEq, Eq, Structural)]
pub struct SurfaceCapabilities {
    pub current_extent: Extent,
    pub min_image_count: u32,
    /// The largest image count, or 0 where the surface sets no limit.
    pub max_image_count: u32,
}

/// The negotiated parameters of a swapchain.
#[derive(Debug, Clone, Copy, PartialEq, Eq, Structural)]
pub struct SwapchainConfig {
    pub format: i32,
    pub color_space: i32,
    pub present_mode: i32,
    pub extent: Extent,
    pub image_count: u32,
}

/// The extent of a swapchain: the surface's current extent, or the fallback
/// where the surface reports the undefined sentinel.
pub open spec fn extent_for(current: Extent, fallback: Extent) -> Extent {
    if current.undefined() {
        fallback
    } else {
        current
    }
}

/// Chooses the extent of a swapchain from the surface's current extent and
/// the fallback.
pub fn choose_extent(current: Extent, fallback: Extent) -> (extent: Extent)
    ensures
        extent == extent_for(current, fallback),
{
    if current.is_undefined() {
        fallback
    } else {
        current
    }
}

/// The image count of a swapchain: one more than the surface's minimum, held
/// to the surface's maximum where that is not 0, and to what 32 bits hold.
pub open spec fn image_count_for(min_image_count: u32, max_image_count: u32) -> int {
    let wanted = min_image_count + 1;
    if max_image_count > 0 && wanted > max_image_count {
        max_image_count as int
    } else if wanted > u32::MAX {
        u32::MAX as int
    } else {
        wanted
    }
}

/// Chooses the image count of a swapchain from the surface's bounds.
pub fn choose_image_count(min_image_count: u32, max_image_count: u32) -> (count: u32)
    ensures
        count == image_count_for(min_image_count, max_image_count),
{
    let wanted: u32 = if min_image_count == u32::MAX {
        u32::MAX
    } else {
        min_image_count + 1
    };
    if max_image_count > 0 && wanted > max_image_count {
        max_image_count
    } else {
        wanted
    }
}

/// `i` is the first preferred entry of `formats`.
pub open spec fn is_first_preferred(formats: Seq<SurfaceFormat>, i: int) -> bool {
    &&& 0 <= i < formats.len()
    &&& formats[i].preferred()
    &&& forall|j: int| 0 <= j < i ==> !(#[trigger] formats[j]).preferred()
}

/// Some entry of the list is the preferred format.
pub open spec fn has_preferred(formats: Seq<SurfaceFormat>) -> bool {
    exists|j: int| 0 <= j < formats.len() && (#[trigger] formats[j]).preferred()
}

/// Selects the first supported surface format that is the preferred one, and
/// returns its index; nothing where the surface supports none.
pub fn choose_surface_format(formats: &Vec<SurfaceFormat>) -> (chosen: Option<usize>)
    ensures
        match chosen {
            Some(i) => is_first_preferred(formats@, i as int),
            None => !has_preferred(formats@),
        },
{
    let mut i: usize = 0;
    while i < formats.len()
        invariant
            i <= formats.len(),
            forall|j: int| 0 <= j < i ==> !(#[trigger] formats@[j]).preferred(),
        decreases formats.len() - i,
    {
        if formats[i].is_preferred() {
            return Some(i);
        }
        i = i + 1;
    }
    None
}

/// The present mode of a swapchain: the preferred low-latency mode where the
/// surface supports it, the baseline mode otherwise.
pub open spec fn present_mode_for(modes: Seq<i32>) -> i32 {
    if modes.contains(PRESENT_MODE_MAILBOX) {
        PRESENT_MODE_MAILBOX
    } else {
        PRESENT_MODE_FIFO
    }
}

/// Chooses the present mode of a swapchain among those that the surface
/// supports.
pub fn choose_present_mode(modes: &Vec<i32>) -> (mode: i32)
    ensures
        mode == present_mode_for(modes@),
{
    let mut i: usize = 0;
    while i < modes.len()
        invariant
            i <= modes.len(),
            forall|j: int| 0 <= j < i ==> #[trigger] modes@[j] != PRESENT_MODE_MAILBOX,
        decreases modes.len() - i,
    {
        if modes[i] == PRESENT_MODE_MAILBOX {
            return PRESENT_MODE_MAILBOX;
        }
        i = i + 1;
    }
    PRESENT_MODE_FIFO
}

/// The answers to the three surface queries. An answer is missing where the
/// query failed or, after an earlier failure, was not made.
#[derive(Debug, Clone, PartialEq, Eq)]
pub struct SwapchainSupportDetails {
    pub capabilities: Option<SurfaceCapabilities>,
    pub formats: Option<Vec<SurfaceFormat>>,
    pub present_modes: Option<Vec<i32>>,
}

impl SwapchainSupportDetails {
    /// Puts the answers to the three surface queries together.
    pub fn new(
        capabilities: Option<SurfaceCapabilities>,
        formats: Option<Vec<SurfaceFormat>>,
        present_modes: Option<Vec<i32>>,
    ) -> (details: Self)
        ensures
            details.capabilities == capabilities,
            details.formats == formats,
            details.present_modes == present_modes,
    {
        SwapchainSupportDetails { capabilities, formats, present_modes }
    }

    /// The message of the first step of negotiation that fails, in the order
    /// of the steps; nothing where negotiation succeeds.
    pub open spec fn failure(self) -> Option<Seq<char>> {
        if self.capabilities is None {
            Some("Could not query swap chain support."@)
        } else if self.formats is None {
            Some("Could not query swap chain formats."@)
        } else if !has_preferred(self.formats->Some_0@) {
            Some("Could not find a suitable swap chain format."@)
        } else if self.present_modes is None {
            Some("Could not query swap chain present modes."@)
        } else {
            None
        }
    }

    /// The configuration that negotiation yields where it succeeds.
    pub open spec fn config(self, fallback: Extent) -> SwapchainConfig {
        let caps = self.capabilities->Some_0;
        SwapchainConfig {
            format: FORMAT_B8G8R8A8_SRGB,
            color_space: COLOR_SPACE_SRGB_NONLINEAR,
            present_mode: present_mode_for(self.present_modes->Some_0@),
            extent: extent_for(caps.current_extent, fallback),
            image_count: image_count_for(caps.min_image_count, caps.max_image_count) as u32,
        }
    }
}

/// Negotiates the configuration of a swapchain from the surface's answers.
///
/// Fails with a logical device error at the first step that cannot be taken:
/// a query without an answer, or a surface without the preferred format.
pub fn negotiate(rhi_name: &'static str, support: &SwapchainSupportDetails, fallback: Extent) -> (negotiated:
    Result<SwapchainConfig, RHIError>)
    ensures
        match support.failure() {
            Some(message) => negotiated is Err && negotiated->Err_0.says(
                RHIErrorEnum::LogicalDeviceError,
                message,
            ) && negotiated->Err_0.rhi == rhi_name,
            None => negotiated == Ok::<SwapchainConfig, RHIError>(support.config(fallback)),
        },
{
    let caps = match &support.capabilities {
        Some(c) => *c,
        None => {
            return Err(
                RHIError::new(
                    rhi_name,
                    RHIErrorEnum::LogicalDeviceError,
                    "Could not query swap chain support.",
                ),
            );
        },
    };
    let extent = choose_extent(caps.current_extent, fallback);
    let image_count = choose_image_count(caps.min_image_count, caps.max_image_count);
    let formats = match &support.formats {
        Some(f) => f,
        None => {
            return Err(
                RHIError::new(
                    rhi_name,
                    RHIErrorEnum::LogicalDeviceError,
                    "Could not query swap chain formats.",
                ),
            );
        },
    };
    let surface_format = match choose_surface_format(formats) {
        Some(i) => formats[i],
        None => {
            return Err(
                RHIError::new(
                    rhi_name,
                    RHIErrorEnum::LogicalDeviceError,
                    "Could not find a suitable swap chain format.",
                ),
            );
        },
    };
    let modes = match &support.present_modes {
        Some(m) => m,
        None => {
            return Err(
                RHIError::new(
                    rhi_name,
                    RHIErrorEnum::LogicalDeviceError,
                    "Could not query swap chain present modes.",
                ),
            );
        },
    };
    let present_mode = choose_present_mode(modes);
    Ok(
        SwapchainConfig {
            format: surface_format.format,
            color_space: surface_format.color_space,
            present_mode,
            extent,
            image_count,
        },
    )
}

/// Format selection does not depend on the order of the list: in every
/// permutation of a list that holds the preferred format, an entry is
/// selected, and the entry selected is that format.
pub proof fn lemma_format_selection_ignores_order(
    formats: Seq<SurfaceFormat>,
    permuted: Seq<SurfaceFormat>,
    preferred: SurfaceFormat,
)
    requires
        preferred.preferred(),
        formats.contains(preferred),
        permuted.to_multiset() == formats.to_multiset(),
    ensures
        has_preferred(permuted),
        forall|i: int| is_first_preferred(permuted, i) ==> permuted[i] == preferred,
{
    formats.to_multiset_ensures();
    permuted.to_multiset_ensures();
    assert(formats.to_multiset().count(preferred) > 0);
    assert(permuted.to_multiset().count(preferred) > 0);
    assert(permuted.contains(preferred));
    let k = choose|k: int| 0 <= k < permuted.len() && permuted[k] == preferred;
    assert(permuted[k].preferred());
}

/// The extent of a swapchain is never the undefined sentinel, as long as the
/// fallback is not.
pub proof fn lemma_extent_is_defined(current: Extent, fallback: Extent)
    requires
        !fallback.undefined(),
    ensures
        !extent_for(current, fallback).undefined(),
        current.undefined() ==> extent_for(current, fallback) == fallback,
{
}

/// The image count is one more than the minimum, capped at the maximum where
/// there is one.
pub proof fn lemma_image_count_bounds(min_image_count: u32, max_image_count: u32)
    ensures
        max_image_count > 0 ==> image_count_for(min_image_count, max_image_count)
            <= max_image_count,
        image_count_for(min_image_count, max_image_count) <= min_image_count + 1,
        max_image_count == 0 || min_image_count < max_image_count ==> image_count_for(
            min_image_count,
            max_image_count,
        ) == if min_image_count == u32::MAX { u32::MAX as int } else { min_image_count + 1 },
{
}

/// The view type code of a two-dimensional image view.
pub const IMAGE_VIEW_TYPE_2D: i32 = 1;

/// The swizzle code that leaves a channel where it is.
pub const COMPONENT_SWIZZLE_IDENTITY: i32 = 0;

/// The aspect flag of an image's color.
pub const IMAGE_ASPECT_COLOR: u32 = 0x1;

/// What is handed to the driver to create a swapchain.
#[derive(Debug, Clone, Copy, PartialEq, Eq)]
pub struct SwapchainRequest {
    pub config: SwapchainConfig,
    pub flags: u32,
    pub image_array_layers: u32,
    pub image_usage: u32,
    /// The swapchain that the new one replaces, so that the driver can hand
    /// over the images in flight.
    pub old_swapchain: Option<u64>,
}

/// The request for a swapchain of the given configuration: single-layer
/// color attachment images, views of other formats allowed.
pub open spec fn request_for(config: SwapchainConfig, old_swapchain: Option<u64>) -> SwapchainRequest {
    SwapchainRequest {
        config,
        flags: SWAPCHAIN_CREATE_MUTABLE_FORMAT,
        image_array_layers: 1,
        image_usage: IMAGE_USAGE_COLOR_ATTACHMENT,
        old_swapchain,
    }
}

/// What is handed to the driver to create the view of one swapchain image.
#[derive(Debug, Clone, Copy, PartialEq, Eq, Structural)]
pub struct ImageViewRequest {
    pub image: u64,
    pub format: i32,
    pub view_type: i32,
    pub swizzle_r: i32,
    pub swizzle_g: i32,
    pub swizzle_b: i32,
    pub swizzle_a: i32,
    pub aspect_mask: u32,
    pub base_mip_level: u32,
    pub level_count: u32,
    pub base_array_layer: u32,
    pub layer_count: u32,
}

/// The view of a swapchain image: two-dimensional, every channel where it
/// is, the color aspect of the one mip level and the one array layer.
pub open spec fn view_request_for(image: u64, format: i32) -> ImageViewRequest {
    ImageViewRequest {
        image,
        format,
        view_type: IMAGE_VIEW_TYPE_2D,
        swizzle_r: COMPONENT_SWIZZLE_IDENTITY,
        swizzle_g: COMPONENT_SWIZZLE_IDENTITY,
        swizzle_b: COMPONENT_SWIZZLE_IDENTITY,
        swizzle_a: COMPONENT_SWIZZLE_IDENTITY,
        aspect_mask: IMAGE_ASPECT_COLOR,
        base_mip_level: 0,
        level_count: 1,
        base_array_layer: 0,
        layer_count: 1,
    }
}

/// Describes the view of one swapchain image.
pub fn image_view_request(image: u64, format: i32) -> (request: ImageViewRequest)
    ensures
        request == view_request_for(image, format),
{
    ImageViewRequest {
        image,
        format,
        view_type: IMAGE_VIEW_TYPE_2D,
        swizzle_r: COMPONENT_SWIZZLE_IDENTITY,
        swizzle_g: COMPONENT_SWIZZLE_IDENTITY,
        swizzle_b: COMPONENT_SWIZZLE_IDENTITY,
        swizzle_a: COMPONENT_SWIZZLE_IDENTITY,
        aspect_mask: IMAGE_ASPECT_COLOR,
        base_mip_level: 0,
        level_count: 1,
        base_array_layer: 0,
        layer_count: 1,
    }
}

/// Describes one image view per swapchain image, in the order of the images.
pub fn create_image_views(images: &Vec<u64>, format: i32) -> (requests: Vec<ImageViewRequest>)
    ensures
        requests@.len() == images@.len(),
        forall|i: int|
            0 <= i < images@.len() ==> #[trigger] requests@[i] == view_request_for(images@[i], format),
{
    let mut requests: Vec<ImageViewRequest> = Vec::new();
    let mut i: usize = 0;
    while i < images.len()
        invariant
            i <= images.len(),
            requests@.len() == i,
            forall|k: int|
                0 <= k < i ==> #[trigger] requests@[k] == view_request_for(images@[k], format),
        decreases images.len() - i,
    {
        requests.push(image_view_request(images[i], format));
        i = i + 1;
    }
    requests
}

/// A live swapchain with what was built on it.
#[derive(Debug, Clone, PartialEq, Eq)]
pub struct Swapchain {
    pub handle: u64,
    pub config: SwapchainConfig,
    pub images: Vec<u64>,
    /// One view per image, in the order of the images.
    pub image_views: Vec<u64>,
    pub render_pass: u64,
}

impl Swapchain {
    /// The handles in the order in which they are released: the reverse of
    /// the order in which they were acquired.
    pub open spec fn release_sequence(self) -> Seq<Resource> {
        seq![Resource::RenderPass(self.render_pass)] + Seq::new(
            self.image_views@.len(),
            |i: int| Resource::ImageView(self.image_views@[self.image_views@.len() - 1 - i]),
        ) + seq![Resource::Swapchain(self.handle)]
    }

    /// Lists what the caller releases when it retires this swapchain: the
    /// render pass, the image views from the last to the first, then the
    /// swapchain itself.
    pub fn release_order(&self) -> (order: Vec<Resource>)
        ensures
            order@ == self.release_sequence(),
    {
        let mut order: Vec<Resource> = Vec::new();
        order.push(Resource::RenderPass(self.render_pass));
        let n = self.image_views.len();
        let mut i: usize = 0;
        while i < n
            invariant
                i <= n,
                n == self.image_views@.len(),
                order@.len() == i + 1,
                order@[0] == Resource::RenderPass(self.render_pass),
                forall|k: int|
                    1 <= k <= i ==> #[trigger] order@[k] == Resource::ImageView(
                        self.image_views@[n - k],
                    ),
            decreases n - i,
        {
            order.push(Resource::ImageView(self.image_views[n - 1 - i]));
            i = i + 1;
        }
        order.push(Resource::Swapchain(self.handle));
        proof {
            let expected = self.release_sequence();
            assert(expected.len() == n + 2);
            assert forall|k: int| 0 <= k < order@.len() implies order@[k] == expected[k] by {
                if 1 <= k <= n {
                    assert(order@[k] == Resource::ImageView(self.image_views@[n - k]));
                }
            }
            assert(order@ =~= expected);
        }
        order
    }
}

/// The image views that were made, the last made first. An answer that
/// holds nothing made no view.
pub open spec fn views_released(answers: Seq<Option<u64>>) -> Seq<Resource>
    decreases answers.len(),
{
    if answers.len() == 0 {
        Seq::<Resource>::empty()
    } else {
        (match answers.last() {
            Some(v) => seq![Resource::ImageView(v)],
            None => Seq::<Resource>::empty(),
        }) + views_released(answers.drop_last())
    }
}

/// What the driver answered to the requests of one recreation. An answer is
/// missing where the call failed or, after an earlier failure, was not made.
#[derive(Debug, Clone, PartialEq, Eq)]
pub struct CreationOutcome {
    pub swapchain: Option<u64>,
    pub images: Vec<u64>,
    /// The answers to the image view requests, in the order of the images.
    pub image_views: Vec<Option<u64>>,
    pub render_pass: Option<u64>,
}

impl CreationOutcome {
    /// Every image has its view.
    pub open spec fn views_complete(self) -> bool {
        &&& self.image_views@.len() == self.images@.len()
        &&& forall|i: int| 0 <= i < self.image_views@.len() ==> (#[trigger] self.image_views@[i]) is Some
    }

    /// The views, where every image has one.
    pub open spec fn views(self) -> Seq<u64> {
        Seq::new(self.image_views@.len(), |i: int| self.image_views@[i]->Some_0)
    }

    /// The message of the first creation step that failed, in the order of
    /// the steps; nothing where all succeeded.
    pub open spec fn failure(self) -> Option<Seq<char>> {
        if self.swapchain is None {
            Some("Could not create swap chain."@)
        } else if !self.views_complete() {
            Some("Could not create image view."@)
        } else if self.render_pass is None {
            Some("Could not create render pass."@)
        } else {
            None
        }
    }

    /// What a failed recreation leaves behind, in the order in which it is
    /// released: the render pass if it was made, the image views that were
    /// made, the last first, and the swapchain if it was made.
    pub open spec fn release_sequence(self) -> Seq<Resource> {
        (match self.render_pass {
            Some(p) => seq![Resource::RenderPass(p)],
            None => Seq::<Resource>::empty(),
        }) + views_released(self.image_views@) + (match self.swapchain {
            Some(s) => seq![Resource::Swapchain(s)],
            None => Seq::<Resource>::empty(),
        })
    }

    /// Lists what the caller releases after a recreation that failed: all
    /// that the driver made for it, the last made first.
    pub fn release_order(&self) -> (order: Vec<Resource>)
        ensures
            order@ == self.release_sequence(),
    {
        let mut order: Vec<Resource> = Vec::new();
        match self.render_pass {
            Some(p) => {
                order.push(Resource::RenderPass(p));
            },
            None => {},
        }
        let ghost head = order@;
        let mut i: usize = self.image_views.len();
        assert(self.image_views@.take(i as int) =~= self.image_views@);
        while i > 0
            invariant
                i <= self.image_views@.len(),
                order@ + views_released(self.image_views@.take(i as int)) == head + views_released(
                    self.image_views@,
                ),
            decreases i,
        {
            proof {
                let prefix = self.image_views@.take(i as int);
                assert(prefix.last() == self.image_views@[i - 1]);
                assert(prefix.drop_last() =~= self.image_views@.take(i - 1));
            }
            let ghost before = order@;
            i = i - 1;
            match self.image_views[i] {
                Some(v) => {
                    order.push(Resource::ImageView(v));
                    assert(order@ =~= before + seq![Resource::ImageView(v)]);
                },
                None => {},
            }
            assert(order@ + views_released(self.image_views@.take(i as int)) =~= before
                + views_released(self.image_views@.take(i + 1)));
        }
        assert(self.image_views@.take(0) =~= Seq::<Option<u64>>::empty());
        assert(order@ =~= head + views_released(self.image_views@)) by {
            assert(views_released(self.image_views@.take(0)) =~= Seq::<Resource>::empty());
        }
        let ghost middle = order@;
        match self.swapchain {
            Some(s) => {
                order.push(Resource::Swapchain(s));
                assert(order@ =~= middle + seq![Resource::Swapchain(s)]);
            },
            None => {
                assert(order@ =~= middle + Seq::<Resource>::empty());
            },
        }
        order
    }

    /// Collects the views where every image has one.
    pub(crate) fn collect_views(&self) -> (collected: Option<Vec<u64>>)
        ensures
            match collected {
                Some(v) => self.views_complete() && v@ == self.views(),
                None => !self.views_complete(),
            },
    {
        if self.image_views.len() != self.images.len() {
            return None;
        }
        let mut views: Vec<u64> = Vec::new();
        let mut i: usize = 0;
        while i < self.image_views.len()
            invariant
                i <= self.image_views@.len(),
                views@.len() == i,
                self.image_views@.len() == self.images@.len(),
                forall|k: int| 0 <= k < i ==> (#[trigger] self.image_views@[k]) is Some,
                forall|k: int| 0 <= k < i ==> #[trigger] views@[k] == self.image_views@[k]->Some_0,
            decreases self.image_views.len() - i,
        {
            match self.image_views[i] {
                Some(v) => {
                    views.push(v);
                },
                None => {
                    return None;
                },
            }
            i = i + 1;
        }
        assert(views@ =~= self.views());
        Some(views)
    }
}

/// The state of presentation: no swapchain yet, or the one in use.
pub struct SwapchainManager {
    fallback: Extent,
    current: Option<Swapchain>,
}

impl SwapchainManager {
    /// The extent used where the surface reports none.
    pub closed spec fn fallback_extent(self) -> Extent {
        self.fallback
    }

    /// The swapchain in use, if there is one.
    pub closed spec fn current(self) -> Option<Swapchain> {
        self.current
    }

    /// The fallback extent is never the undefined sentinel, and where a
    /// swapchain is in use, every one of its images has its view.
    #[verifier::type_invariant]
    pub closed spec fn inv(self) -> bool {
        &&& !self.fallback.undefined()
        &&& self.current matches Some(s) ==> s.image_views@.len() == s.images@.len()
    }

    /// A manager without a swapchain. Where the extent supplied is the
    /// undefined sentinel, the default resolution takes its place.
    pub fn new(fallback: Extent) -> (manager: Self)
        ensures
            manager.current() is None,
            manager.fallback_extent() == if fallback.undefined() {
                (Extent { width: DEFAULT_EXTENT_WIDTH, height: DEFAULT_EXTENT_HEIGHT })
            } else {
                fallback
            },
    {
        let fallback = if fallback.is_undefined() {
            Extent { width: DEFAULT_EXTENT_WIDTH, height: DEFAULT_EXTENT_HEIGHT }
        } else {
            fallback
        };
        SwapchainManager { fallback, current: None }
    }

    /// The extent used where the surface reports none: never the undefined
    /// sentinel.
    pub fn fallback(&self) -> (extent: Extent)
        ensures
            extent == self.fallback_extent(),
            !extent.undefined(),
    {
        proof {
            use_type_invariant(self);
        }
        self.fallback
    }

    /// The swapchain in use, if there is one.
    pub fn swapchain(&self) -> (current: Option<&Swapchain>)
        ensures
            match current {
                Some(s) => self.current() == Some(*s) && s.image_views@.len() == s.images@.len(),
                None => self.current() is None,
            },
    {
        proof {
            use_type_invariant(self);
        }
        self.current.as_ref()
    }

    /// Puts a swapchain in use and hands the one that it replaces to the
    /// caller, who releases it.
    pub fn install(&mut self, created: Swapchain) -> (retired: Option<Swapchain>)
        requires
            created.image_views@.len() == created.images@.len(),
        ensures
            retired == old(self).current(),
            final(self).current() == Some(created),
            final(self).fallback_extent() == old(self).fallback_extent(),
    {
        proof {
            use_type_invariant(&*self);
        }
        let mut previous = SwapchainManager { fallback: self.fallback, current: Some(created) };
        core::mem::swap(self, &mut previous);
        previous.current
    }

    /// Gives up the swapchain in use, if there is one, and hands it to the
    /// caller, who releases it. The manager is left without a swapchain.
    pub fn retire(&mut self) -> (retired: Option<Swapchain>)
        ensures
            retired == old(self).current(),
            final(self).current() is None,
            final(self).fallback_extent() == old(self).fallback_extent(),
    {
        proof {
            use_type_invariant(&*self);
        }
        let mut previous = SwapchainManager { fallback: self.fallback, current: None };
        core::mem::swap(self, &mut previous);
        previous.current
    }

    /// The handle of the swapchain in use, if there is one.
    pub open spec fn current_handle(self) -> Option<u64> {
        match self.current() {
            Some(s) => Some(s.handle),
            None => None,
        }
    }

    /// The first half of a recreation: negotiates the configuration from the
    /// surface's fresh answers and names the swapchain in use, if any, as the
    /// one to replace. The manager does not change.
    pub fn plan(&self, rhi_name: &'static str, support: &SwapchainSupportDetails) -> (planned: Result<
        SwapchainRequest,
        RHIError,
    >)
        ensures
            match support.failure() {
                Some(message) => planned is Err && planned->Err_0.says(
                    RHIErrorEnum::LogicalDeviceError,
                    message,
                ) && planned->Err_0.rhi == rhi_name,
                None => planned == Ok::<SwapchainRequest, RHIError>(
                    request_for(support.config(self.fallback_extent()), self.current_handle()),
                ),
            },
            planned matches Ok(request) ==> !request.config.extent.undefined(),
    {
        proof {
            use_type_invariant(self);
        }
        let config = match negotiate(rhi_name, support, self.fallback) {
            Ok(c) => c,
            Err(e) => {
                return Err(e);
            },
        };
        let old_swapchain = match &self.current {
            Some(s) => Some(s.handle),
            None => None,
        };
        Ok(
            SwapchainRequest {
                config,
                flags: SWAPCHAIN_CREATE_MUTABLE_FORMAT,
                image_array_layers: 1,
                image_usage: IMAGE_USAGE_COLOR_ATTACHMENT,
                old_swapchain,
            },
        )
    }

    /// The second half of a recreation: takes the driver's answers to the
    /// request.
    ///
    /// Where a step failed, the error names the first such step and the
    /// manager stays as it was, with the swapchain it had. Where all
    /// succeeded, the new swapchain is the one in use, and the one it
    /// replaced is handed to the caller, who releases it.
    pub fn create_or_recreate(
        &mut self,
        rhi_name: &'static str,
        request: SwapchainRequest,
        outcome: CreationOutcome,
    ) -> (retired: Result<Option<Swapchain>, RHIError>)
        ensures
            final(self).fallback_extent() == old(self).fallback_extent(),
            match outcome.failure() {
                Some(message) => {
                    &&& retired is Err
                    &&& retired->Err_0.says(RHIErrorEnum::LogicalDeviceError, message)
                    &&& retired->Err_0.rhi == rhi_name
                    &&& final(self).current() == old(self).current()
                },
                None => {
                    &&& retired == Ok::<Option<Swapchain>, RHIError>(old(self).current())
                    &&& final(self).current() matches Some(s)
                    &&& s.handle == outcome.swapchain->Some_0
                    &&& s.config == request.config
                    &&& s.images == outcome.images
                    &&& s.image_views@ == outcome.views()
                    &&& s.render_pass == outcome.render_pass->Some_0
                },
            },
    {
        proof {
            use_type_invariant(&*self);
        }
        let handle = match outcome.swapchain {
            Some(h) => h,
            None => {
                return Err(
                    RHIError::new(
                        rhi_name,
                        RHIErrorEnum::LogicalDeviceError,
                        "Could not create swap chain.",
                    ),
                );
            },
        };
        let image_views = match outcome.collect_views() {
            Some(v) => v,
            None => {
                return Err(
                    RHIError::new(
                        rhi_name,
                        RHIErrorEnum::LogicalDeviceError,
                        "Could not create image view.",
                    ),
                );
            },
        };
        let render_pass = match outcome.render_pass {
            Some(r) => r,
            None => {
                return Err(
                    RHIError::new(
                        rhi_name,
                        RHIErrorEnum::LogicalDeviceError,
                        "Could not create render pass.",
                    ),
                );
            },
        };
        let created = Swapchain {
            handle,
            config: request.config,
            images: outcome.images,
            image_views,
            render_pass,
        };
        Ok(self.install(created))
    }
}

/// A recreation after a resize takes the surface's new extent, and names the
/// swapchain in use as the one to replace: the request that `plan` makes from
/// answers that hold a defined current extent has that extent and that old
/// swapchain. `create_or_recreate` then hands the old swapchain back to the
/// caller without having released anything.
pub proof fn lemma_recreate_takes_new_extent(
    support: SwapchainSupportDetails,
    fallback: Extent,
    in_use: Option<u64>,
)
    requires
        support.failure() is None,
        !support.capabilities->Some_0.current_extent.undefined(),
    ensures
        request_for(support.config(fallback), in_use).config.extent
            == support.capabilities->Some_0.current_extent,
        request_for(support.config(fallback), in_use).old_swapchain == in_use,
{
}

} // verus!
