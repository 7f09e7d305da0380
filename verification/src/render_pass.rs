//! The render pass that matches a swapchain: one color attachment, one
//! subpass, one dependency from outside the pass.

use vstd::prelude::*;

verus! {

/// The subpass index that stands for what happens outside the render pass.
pub const SUBPASS_EXTERNAL: u32 = 0xFFFF_FFFF;

/// The codes and flag bits that the description of the render pass uses.
pub const SAMPLE_COUNT_1: u32 = 0x1;

pub const ATTACHMENT_LOAD_OP_CLEAR: i32 = 1;

pub const ATTACHMENT_LOAD_OP_DONT_CARE: i32 = 2;

pub const ATTACHMENT_STORE_OP_STORE: i32 = 0;

pub const ATTACHMENT_STORE_OP_DONT_CARE: i32 = 1;

pub const IMAGE_LAYOUT_UNDEFINED: i32 = 0;

pub const IMAGE_LAYOUT_COLOR_ATTACHMENT_OPTIMAL: i32 = 2;

pub const IMAGE_LAYOUT_PRESENT_SRC: i32 = 1_000_001_002;

pub const PIPELINE_BIND_POINT_GRAPHICS: i32 = 0;

pub const PIPELINE_STAGE_COLOR_ATTACHMENT_OUTPUT: u32 = 0x400;

pub const ACCESS_COLOR_ATTACHMENT_WRITE: u32 = 0x100;

/// How an attachment is loaded, stored and laid out.
#[derive(Debug, Clone, Copy, PartialEq, Eq, Structural)]
pub struct AttachmentDescription {
    pub format: i32,
    pub samples: u32,
    pub load_op: i32,
    pub store_op: i32,
    pub stencil_load_op: i32,
    pub stencil_store_op: i32,
    pub initial_layout: i32,
    pub final_layout: i32,
}

/// Which attachment a subpass uses, and in what layout.
#[derive(Debug, Clone, Copy, PartialEq, Eq, Structural)]
pub struct AttachmentReference {
    pub attachment: u32,
    pub layout: i32,
}

/// A subpass with one color attachment.
#[derive(Debug, Clone, Copy, PartialEq, Eq, Structural)]
pub struct SubpassDescription {
    pub pipeline_bind_point: i32,
    pub color_attachment: AttachmentReference,
}

/// What a subpass waits for.
#[derive(Debug, Clone, Copy, PartialEq, Eq, Structural)]
pub struct SubpassDependency {
    pub src_subpass: u32,
    pub dst_subpass: u32,
    pub src_stage_mask: u32,
    pub dst_stage_mask: u32,
    pub src_access_mask: u32,
    pub dst_access_mask: u32,
}

/// A render pass of one attachment, one subpass and one dependency.
#[derive(Debug, Clone, Copy, PartialEq, Eq, Structural)]
pub struct RenderPassDescription {
    pub attachment: AttachmentDescription,
    pub subpass: SubpassDescription,
    pub dependency: SubpassDependency,
}

/// The render pass for a swapchain of the given format: its one color
/// attachment has that format, is cleared on load, stored, and handed over
/// for presentation; its one subpass is a graphics subpass that draws to the
/// attachment; its one dependency makes the subpass's writes to the color
/// attachment wait for the color attachment output stage of what came before
/// the pass.
pub open spec fn render_pass_for(format: i32) -> RenderPassDescription {
    RenderPassDescription {
        attachment: AttachmentDescription {
            format,
            samples: SAMPLE_COUNT_1,
            load_op: ATTACHMENT_LOAD_OP_CLEAR,
            store_op: ATTACHMENT_STORE_OP_STORE,
            stencil_load_op: ATTACHMENT_LOAD_OP_DONT_CARE,
            stencil_store_op: ATTACHMENT_STORE_OP_DONT_CARE,
            initial_layout: IMAGE_LAYOUT_UNDEFINED,
            final_layout: IMAGE_LAYOUT_PRESENT_SRC,
        },
        subpass: SubpassDescription {
            pipeline_bind_point: PIPELINE_BIND_POINT_GRAPHICS,
            color_attachment: AttachmentReference {
                attachment: 0,
                layout: IMAGE_LAYOUT_COLOR_ATTACHMENT_OPTIMAL,
            },
        },
        dependency: SubpassDependency {
            src_subpass: SUBPASS_EXTERNAL,
            dst_subpass: 0,
            src_stage_mask: PIPELINE_STAGE_COLOR_ATTACHMENT_OUTPUT,
            dst_stage_mask: PIPELINE_STAGE_COLOR_ATTACHMENT_OUTPUT,
            src_access_mask: 0,
            dst_access_mask: ACCESS_COLOR_ATTACHMENT_WRITE,
        },
    }
}

/// Describes the render pass for a swapchain of the given format.
pub fn vk_create_render_pass(format: i32) -> (pass: RenderPassDescription)
    ensures
        pass == render_pass_for(format),
        pass.attachment.format == format,
{
    let attachment = AttachmentDescription {
        format,
        samples: SAMPLE_COUNT_1,
        load_op: ATTACHMENT_LOAD_OP_CLEAR,
        store_op: ATTACHMENT_STORE_OP_STORE,
        stencil_load_op: ATTACHMENT_LOAD_OP_DONT_CARE,
        stencil_store_op: ATTACHMENT_STORE_OP_DONT_CARE,
        initial_layout: IMAGE_LAYOUT_UNDEFINED,
        final_layout: IMAGE_LAYOUT_PRESENT_SRC,
    };
    let color_attachment = AttachmentReference {
        attachment: 0,
        layout: IMAGE_LAYOUT_COLOR_ATTACHMENT_OPTIMAL,
    };
    let subpass = SubpassDescription {
        pipeline_bind_point: PIPELINE_BIND_POINT_GRAPHICS,
        color_attachment,
    };
    let dependency = SubpassDependency {
        src_subpass: SUBPASS_EXTERNAL,
        dst_subpass: 0,
        src_stage_mask: PIPELINE_STAGE_COLOR_ATTACHMENT_OUTPUT,
        dst_stage_mask: PIPELINE_STAGE_COLOR_ATTACHMENT_OUTPUT,
        src_access_mask: 0,
        dst_access_mask: ACCESS_COLOR_ATTACHMENT_WRITE,
    };
    RenderPassDescription { attachment, subpass, dependency }
}

} // verus!
