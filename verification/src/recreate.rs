//! Creating or recreating the swapchain, one driver call at a time.
//!
//! The session decides; the caller acts. Each call of
//! [`RecreateSession::step`] takes the driver's answer to the action before
//! and returns the next action. The steps are taken in order and the first
//! failure ends the session: it names what the driver made for the new
//! swapchain so far, so that the caller gives it back, and leaves the manager
//! with the swapchain it had.

use vstd::prelude::*;
use crate::error::{RHIError, RHIErrorEnum};
use crate::render_pass::{render_pass_for, vk_create_render_pass, RenderPassDescription};
use crate::resource::Resource;
use crate::swapchain::{
    image_view_request, request_for, view_request_for, views_released, CreationOutcome, Extent,
    ImageViewRequest, Swapchain, SwapchainManager, SwapchainRequest, SwapchainSupportDetails,
};

verus! {

/// How far a recreation has come: which answer the session waits for.
#[derive(Debug, Clone, Copy, PartialEq, Eq, Structural)]
pub enum RecreateStage {
    Start,
    AwaitSupport,
    AwaitSwapchain,
    AwaitImageView,
    AwaitRenderPass,
    Done,
    Failed,
}

/// A swapchain that the driver made, with its images.
#[derive(Debug, Clone, PartialEq, Eq)]
pub struct CreatedSwapchain {
    pub handle: u64,
    pub images: Vec<u64>,
}

/// The driver's answer to the action before. An answer holds nothing where
/// the driver call failed.
#[derive(Debug, Clone, PartialEq, Eq)]
pub enum RecreateEvent {
    /// The caller asks for a swapchain: the first one, or a new one after a
    /// resize or an outdated presentation.
    Begin,
    /// The surface's fresh answers.
    Support(SwapchainSupportDetails),
    Swapchain(Option<CreatedSwapchain>),
    /// The view of the image that the action before named.
    ImageView(Option<u64>),
    RenderPass(Option<u64>),
}

/// What the caller does next.
#[derive(Debug, Clone, PartialEq, Eq)]
pub enum RecreateAction {
    QuerySupport,
    CreateSwapchain(SwapchainRequest),
    CreateImageView(ImageViewRequest),
    CreateRenderPass(RenderPassDescription),
    /// The new swapchain is the one in use. The one it replaced is handed
    /// over: the caller releases it now, and not before.
    Done { retired: Option<Swapchain> },
    /// The recreation is given up: release what `release` names, in its
    /// order, then report the error. The swapchain that was in use still is.
    Fail { error: RHIError, release: Vec<Resource> },
}

/// What the caller does next, as a value of the mathematical model.
pub enum Decision {
    QuerySupport,
    CreateSwapchain(SwapchainRequest),
    CreateImageView(ImageViewRequest),
    CreateRenderPass(RenderPassDescription),
    Done { retired: Option<Swapchain> },
    Fail { kind: RHIErrorEnum, message: Seq<char>, release: Seq<Resource> },
}

impl RecreateAction {
    /// The action in the mathematical model.
    pub open spec fn decision(self) -> Decision {
        match self {
            RecreateAction::QuerySupport => Decision::QuerySupport,
            RecreateAction::CreateSwapchain(request) => Decision::CreateSwapchain(request),
            RecreateAction::CreateImageView(request) => Decision::CreateImageView(request),
            RecreateAction::CreateRenderPass(pass) => Decision::CreateRenderPass(pass),
            RecreateAction::Done { retired } => Decision::Done { retired },
            RecreateAction::Fail { error, release } => Decision::Fail {
                kind: error.kind,
                message: error.message@,
                release: release@,
            },
        }
    }
}

/// The state of a recreation in the mathematical model.
pub struct Progress {
    pub stage: RecreateStage,
    /// The request that the new swapchain is made from.
    pub request: Option<SwapchainRequest>,
    pub swapchain: Option<u64>,
    pub images: Seq<u64>,
    /// The answers to the image view requests so far, in the order of the
    /// images.
    pub views: Seq<Option<u64>>,
    pub render_pass: Option<u64>,
}

impl Progress {
    /// What the driver made so far, in the order in which it is released:
    /// the render pass, the image views, the last made first, then the
    /// swapchain.
    pub open spec fn release_sequence(self) -> Seq<Resource> {
        (match self.render_pass {
            Some(p) => seq![Resource::RenderPass(p)],
            None => Seq::<Resource>::empty(),
        }) + views_released(self.views) + (match self.swapchain {
            Some(s) => seq![Resource::Swapchain(s)],
            None => Seq::<Resource>::empty(),
        })
    }

    /// The state once the session has come to an end: it holds nothing any
    /// more.
    pub open spec fn halted(self, stage: RecreateStage) -> Progress {
        Progress {
            stage,
            request: None,
            swapchain: None,
            images: Seq::<u64>::empty(),
            views: Seq::<Option<u64>>::empty(),
            render_pass: None,
        }
    }

    /// Every image has its view.
    pub open spec fn views_complete(self) -> bool {
        &&& self.views.len() == self.images.len()
        &&& forall|i: int| 0 <= i < self.views.len() ==> (#[trigger] self.views[i]) is Some
    }

    /// The session gives up with a logical device error of the given
    /// message, and hands back what the driver made so far.
    pub open spec fn fails(self, message: Seq<char>) -> (Progress, Decision) {
        (
            self.halted(RecreateStage::Failed),
            Decision::Fail {
                kind: RHIErrorEnum::LogicalDeviceError,
                message,
                release: self.release_sequence(),
            },
        )
    }

    /// An event that the stage does not wait for ends the session.
    pub open spec fn refuses(self) -> (Progress, Decision) {
        self.fails("Unexpected event for this stage of recreation."@)
    }

    /// What comes after the swapchain and after each image view: the view of
    /// the next image, or the render pass once every image has its view.
    pub open spec fn goes_on(self, format: i32) -> (Progress, Decision) {
        if self.views.len() < self.images.len() {
            (
                Progress { stage: RecreateStage::AwaitImageView, ..self },
                Decision::CreateImageView(view_request_for(self.images[self.views.len() as int], format)),
            )
        } else {
            (
                Progress { stage: RecreateStage::AwaitRenderPass, ..self },
                Decision::CreateRenderPass(render_pass_for(format)),
            )
        }
    }

    /// The one step that a recreation takes on an event, for a manager with
    /// the given fallback extent and swapchain in use.
    pub open spec fn next(
        self,
        fallback: Extent,
        in_use: Option<Swapchain>,
        event: RecreateEvent,
    ) -> (Progress, Decision) {
        match (self.stage, event) {
            (RecreateStage::Start, RecreateEvent::Begin) => (
                Progress { stage: RecreateStage::AwaitSupport, ..self },
                Decision::QuerySupport,
            ),
            (RecreateStage::AwaitSupport, RecreateEvent::Support(details)) => match details.failure() {
                Some(message) => self.fails(message),
                None => {
                    let request = request_for(
                        details.config(fallback),
                        match in_use {
                            Some(s) => Some(s.handle),
                            None => None,
                        },
                    );
                    (
                        Progress {
                            stage: RecreateStage::AwaitSwapchain,
                            request: Some(request),
                            ..self
                        },
                        Decision::CreateSwapchain(request),
                    )
                },
            },
            (RecreateStage::AwaitSwapchain, RecreateEvent::Swapchain(created)) => match (
                created,
                self.request,
            ) {
                (None, _) => self.fails("Could not create swap chain."@),
                (Some(made), Some(request)) => (Progress {
                    swapchain: Some(made.handle),
                    images: made.images@,
                    views: Seq::<Option<u64>>::empty(),
                    ..self
                }).goes_on(request.config.format),
                (Some(_), None) => self.refuses(),
            },
            (RecreateStage::AwaitImageView, RecreateEvent::ImageView(created)) => match (
                created,
                self.request,
            ) {
                (None, _) => self.fails("Could not create image view."@),
                (Some(view), Some(request)) => if self.views.len() < self.images.len() {
                    (Progress { views: self.views.push(Some(view)), ..self }).goes_on(
                        request.config.format,
                    )
                } else {
                    self.refuses()
                },
                (Some(_), None) => self.refuses(),
            },
            (RecreateStage::AwaitRenderPass, RecreateEvent::RenderPass(created)) => match (
                created,
                self.request,
                self.swapchain,
            ) {
                (None, _, _) => self.fails("Could not create render pass."@),
                (Some(pass), Some(_), Some(_)) => if self.views_complete() {
                    (self.halted(RecreateStage::Done), Decision::Done { retired: in_use })
                } else {
                    (Progress { render_pass: Some(pass), ..self }).refuses()
                },
                (Some(pass), _, _) => (Progress { render_pass: Some(pass), ..self }).refuses(),
            },
            _ => self.refuses(),
        }
    }
}

/// A recreation in progress.
#[derive(Debug, Clone, PartialEq, Eq)]
pub struct RecreateSession {
    pub rhi_name: &'static str,
    pub stage: RecreateStage,
    /// The request that the new swapchain is made from.
    pub request: Option<SwapchainRequest>,
    /// What the driver made for the new swapchain so far.
    pub made: CreationOutcome,
}

impl RecreateSession {
    /// The state of the session in the mathematical model.
    pub open spec fn progress(self) -> Progress {
        Progress {
            stage: self.stage,
            request: self.request,
            swapchain: self.made.swapchain,
            images: self.made.images@,
            views: self.made.image_views@,
            render_pass: self.made.render_pass,
        }
    }

    /// A session that has not begun.
    pub fn new(rhi_name: &'static str) -> (session: Self)
        ensures
            session.rhi_name == rhi_name,
            session.progress() == (Progress {
                stage: RecreateStage::Start,
                request: None,
                swapchain: None,
                images: Seq::<u64>::empty(),
                views: Seq::<Option<u64>>::empty(),
                render_pass: None,
            }),
    {
        RecreateSession {
            rhi_name,
            stage: RecreateStage::Start,
            request: None,
            made: CreationOutcome {
                swapchain: None,
                images: Vec::new(),
                image_views: Vec::new(),
                render_pass: None,
            },
        }
    }

    fn halt(&mut self, stage: RecreateStage) -> (made: CreationOutcome)
        ensures
            made == old(self).made,
            final(self).rhi_name == old(self).rhi_name,
            final(self).progress() == old(self).progress().halted(stage),
    {
        let mut made = CreationOutcome {
            swapchain: None,
            images: Vec::new(),
            image_views: Vec::new(),
            render_pass: None,
        };
        core::mem::swap(&mut self.made, &mut made);
        self.stage = stage;
        self.request = None;
        made
    }

    fn fail(&mut self, message: &'static str) -> (action: RecreateAction)
        ensures
            final(self).rhi_name == old(self).rhi_name,
            (final(self).progress(), action.decision()) == old(self).progress().fails(message@),
            action matches RecreateAction::Fail { error, .. } && error.rhi == old(self).rhi_name,
    {
        let error = RHIError::new(self.rhi_name, RHIErrorEnum::LogicalDeviceError, message);
        let made = self.halt(RecreateStage::Failed);
        let release = made.release_order();
        assert(release@ =~= old(self).progress().release_sequence());
        RecreateAction::Fail { error, release }
    }

    fn refuse(&mut self) -> (action: RecreateAction)
        ensures
            final(self).rhi_name == old(self).rhi_name,
            (final(self).progress(), action.decision()) == old(self).progress().refuses(),
            action matches RecreateAction::Fail { error, .. } && error.rhi == old(self).rhi_name,
    {
        self.fail("Unexpected event for this stage of recreation.")
    }

    fn go_on(&mut self, format: i32) -> (action: RecreateAction)
        ensures
            final(self).rhi_name == old(self).rhi_name,
            (final(self).progress(), action.decision()) == old(self).progress().goes_on(format),
            !(action is Fail),
            !(action is Done),
    {
        let made = self.made.image_views.len();
        if made < self.made.images.len() {
            self.stage = RecreateStage::AwaitImageView;
            RecreateAction::CreateImageView(image_view_request(self.made.images[made], format))
        } else {
            self.stage = RecreateStage::AwaitRenderPass;
            RecreateAction::CreateRenderPass(vk_create_render_pass(format))
        }
    }

    /// Takes the driver's answer to the action before and decides the next
    /// action. Only the step that ends the recreation with success changes
    /// the manager: every other step, and every failure, leaves it as it was.
    pub fn step(&mut self, manager: &mut SwapchainManager, event: RecreateEvent) -> (action:
        RecreateAction)
        ensures
            final(self).rhi_name == old(self).rhi_name,
            (final(self).progress(), action.decision()) == old(self).progress().next(
                old(manager).fallback_extent(),
                old(manager).current(),
                event,
            ),
            action matches RecreateAction::Fail { error, .. } ==> error.rhi == old(self).rhi_name,
            final(manager).fallback_extent() == old(manager).fallback_extent(),
            match action {
                RecreateAction::Done { .. } => {
                    &&& final(manager).current() matches Some(s)
                    &&& Some(s.handle) == old(self).made.swapchain
                    &&& old(self).request matches Some(request) && s.config == request.config
                    &&& s.images@ == old(self).made.images@
                    &&& s.image_views@ == old(self).made.views()
                    &&& event matches RecreateEvent::RenderPass(Some(pass)) && s.render_pass == pass
                },
                _ => final(manager).current() == old(manager).current(),
            },
    {
        match (self.stage, event) {
            (RecreateStage::Start, RecreateEvent::Begin) => {
                self.stage = RecreateStage::AwaitSupport;
                RecreateAction::QuerySupport
            },
            (RecreateStage::AwaitSupport, RecreateEvent::Support(details)) => {
                match manager.plan(self.rhi_name, &details) {
                    Ok(request) => {
                        self.stage = RecreateStage::AwaitSwapchain;
                        self.request = Some(request);
                        RecreateAction::CreateSwapchain(request)
                    },
                    Err(e) => {
                        let made = self.halt(RecreateStage::Failed);
                        let release = made.release_order();
                        assert(release@ =~= old(self).progress().release_sequence());
                        RecreateAction::Fail { error: e, release }
                    },
                }
            },
            (RecreateStage::AwaitSwapchain, RecreateEvent::Swapchain(created)) => {
                match (created, self.request) {
                    (None, _) => self.fail("Could not create swap chain."),
                    (Some(made), Some(request)) => {
                        self.made.swapchain = Some(made.handle);
                        self.made.images = made.images;
                        self.made.image_views = Vec::new();
                        self.go_on(request.config.format)
                    },
                    (Some(_), None) => self.refuse(),
                }
            },
            (RecreateStage::AwaitImageView, RecreateEvent::ImageView(created)) => {
                match (created, self.request) {
                    (None, _) => self.fail("Could not create image view."),
                    (Some(view), Some(request)) => {
                        if self.made.image_views.len() < self.made.images.len() {
                            self.made.image_views.push(Some(view));
                            self.go_on(request.config.format)
                        } else {
                            self.refuse()
                        }
                    },
                    (Some(_), None) => self.refuse(),
                }
            },
            (RecreateStage::AwaitRenderPass, RecreateEvent::RenderPass(created)) => {
                match (created, self.request, self.made.swapchain) {
                    (None, _, _) => self.fail("Could not create render pass."),
                    (Some(pass), Some(request), Some(handle)) => {
                        match self.made.collect_views() {
                            Some(image_views) => {
                                let made = self.halt(RecreateStage::Done);
                                let created = Swapchain {
                                    handle,
                                    config: request.config,
                                    images: made.images,
                                    image_views,
                                    render_pass: pass,
                                };
                                let retired = manager.install(created);
                                RecreateAction::Done { retired }
                            },
                            None => {
                                self.made.render_pass = Some(pass);
                                self.refuse()
                            },
                        }
                    },
                    (Some(pass), _, _) => {
                        self.made.render_pass = Some(pass);
                        self.refuse()
                    },
                }
            },
            _ => self.refuse(),
        }
    }
}

/// A recreation after a resize takes the new extent up and names the
/// swapchain in use as the one to replace: on fresh answers that hold a
/// defined current extent and allow a swapchain, the step is the creation of
/// a swapchain of that extent in place of the one in use.
pub proof fn lemma_resize_is_taken_up(
    progress: Progress,
    fallback: Extent,
    in_use: Swapchain,
    details: SwapchainSupportDetails,
)
    requires
        progress.stage == RecreateStage::AwaitSupport,
        details.failure() is None,
        !details.capabilities->Some_0.current_extent.undefined(),
    ensures
        progress.next(fallback, Some(in_use), RecreateEvent::Support(details)).1 matches Decision::CreateSwapchain(
            request,
        ) && request.config.extent == details.capabilities->Some_0.current_extent
            && request.old_swapchain == Some(in_use.handle),
{
}

/// The swapchain in use is handed to the caller by one step only: the step
/// that ends the recreation with success, on the render pass, once every
/// image of the new swapchain has its view.
pub proof fn lemma_old_swapchain_outlives_the_recreation(
    progress: Progress,
    fallback: Extent,
    in_use: Option<Swapchain>,
    event: RecreateEvent,
)
    requires
        progress.next(fallback, in_use, event).1 is Done,
    ensures
        progress.next(fallback, in_use, event).1 == (Decision::Done { retired: in_use }),
        progress.stage == RecreateStage::AwaitRenderPass,
        event matches RecreateEvent::RenderPass(Some(_)),
        progress.views_complete(),
{
}

} // verus!
