use vstd::prelude::*;

verus! {

/// What happens to an attachment's contents when a render pass begins.
#[derive(Clone, Copy, Debug, PartialEq, Eq, Structural)]
pub enum LoadOp {
    Load,
    Clear,
    DontCare,
}

/// What happens to an attachment's contents when a render pass ends.
#[derive(Clone, Copy, Debug, PartialEq, Eq, Structural)]
pub enum StoreOp {
    Store,
    DontCare,
}

/// The memory layouts an attachment passes through.
#[derive(Clone, Copy, Debug, PartialEq, Eq, Structural)]
pub enum ImageLayout {
    Undefined,
    ColorAttachmentOptimal,
    DepthStencilAttachmentOptimal,
    PresentSrc,
}

/// Subpass index that stands for the work outside the render pass (`VK_SUBPASS_EXTERNAL`).
pub const SUBPASS_EXTERNAL: u32 = 0xffff_ffff;

/// Pipeline stage that writes colour attachments (`VK_PIPELINE_STAGE_COLOR_ATTACHMENT_OUTPUT_BIT`).
pub const STAGE_COLOR_ATTACHMENT_OUTPUT: u32 = 0x400;

/// Access by reading a colour attachment (`VK_ACCESS_COLOR_ATTACHMENT_READ_BIT`).
pub const ACCESS_COLOR_ATTACHMENT_READ: u32 = 0x80;

/// Access by writing a colour attachment (`VK_ACCESS_COLOR_ATTACHMENT_WRITE_BIT`).
pub const ACCESS_COLOR_ATTACHMENT_WRITE: u32 = 0x100;

/// One attachment of the render pass, single-sampled.
#[derive(Clone, Copy, Debug, PartialEq, Eq, Structural)]
pub struct AttachmentDescription {
    pub format: i32,
    pub load_op: LoadOp,
    pub store_op: StoreOp,
    pub stencil_load_op: LoadOp,
    pub stencil_store_op: StoreOp,
    pub initial_layout: ImageLayout,
    pub final_layout: ImageLayout,
}

/// A subpass's use of an attachment, by its position among the attachments.
#[derive(Clone, Copy, Debug, PartialEq, Eq, Structural)]
pub struct AttachmentReference {
    pub attachment: u32,
    pub layout: ImageLayout,
}

/// An ordering between the work of two subpasses.
#[derive(Clone, Copy, Debug, PartialEq, Eq, Structural)]
pub struct SubpassDependency {
    pub src_subpass: u32,
    pub dst_subpass: u32,
    pub src_stage_mask: u32,
    pub src_access_mask: u32,
    pub dst_stage_mask: u32,
    pub dst_access_mask: u32,
}

/// The layout of the render pass: its attachments, the references of its one
/// graphics subpass, and the dependency on the work before it.
pub struct RenderPassLayout {
    pub attachments: Vec<AttachmentDescription>,
    pub color_reference: AttachmentReference,
    pub depth_reference: AttachmentReference,
    pub dependency: SubpassDependency,
}

/// The colour attachment: cleared on load, kept on store, left ready to present.
pub open spec fn color_attachment(format: i32) -> AttachmentDescription {
    AttachmentDescription {
        format,
        load_op: LoadOp::Clear,
        store_op: StoreOp::Store,
        stencil_load_op: LoadOp::DontCare,
        stencil_store_op: StoreOp::DontCare,
        initial_layout: ImageLayout::Undefined,
        final_layout: ImageLayout::PresentSrc,
    }
}

/// The depth attachment: cleared on load, discarded on store.
pub open spec fn depth_attachment(format: i32) -> AttachmentDescription {
    AttachmentDescription {
        format,
        load_op: LoadOp::Clear,
        store_op: StoreOp::DontCare,
        stencil_load_op: LoadOp::DontCare,
        stencil_store_op: StoreOp::DontCare,
        initial_layout: ImageLayout::Undefined,
        final_layout: ImageLayout::DepthStencilAttachmentOptimal,
    }
}

/// Colour output of the subpass waits for colour output of whatever ran before
/// the render pass, so the layout transition cannot race with it.
pub open spec fn external_dependency() -> SubpassDependency {
    SubpassDependency {
        src_subpass: SUBPASS_EXTERNAL,
        dst_subpass: 0,
        src_stage_mask: STAGE_COLOR_ATTACHMENT_OUTPUT,
        src_access_mask: 0,
        dst_stage_mask: STAGE_COLOR_ATTACHMENT_OUTPUT,
        dst_access_mask: ACCESS_COLOR_ATTACHMENT_READ | ACCESS_COLOR_ATTACHMENT_WRITE,
    }
}

impl RenderPassLayout {
    /// Describes the render pass for a colour target of `color_format` and a
    /// depth buffer of `depth_format`.
    pub fn new(color_format: i32, depth_format: i32) -> (r: RenderPassLayout)
        ensures
            r.attachments@ == seq![color_attachment(color_format), depth_attachment(depth_format)],
            r.color_reference == (AttachmentReference {
                attachment: 0,
                layout: ImageLayout::ColorAttachmentOptimal,
            }),
            r.depth_reference == (AttachmentReference {
                attachment: 1,
                layout: ImageLayout::DepthStencilAttachmentOptimal,
            }),
            r.dependency == external_dependency(),
    {
        let color = AttachmentDescription {
            format: color_format,
            load_op: LoadOp::Clear,
            store_op: StoreOp::Store,
            stencil_load_op: LoadOp::DontCare,
            stencil_store_op: StoreOp::DontCare,
            initial_layout: ImageLayout::Undefined,
            final_layout: ImageLayout::PresentSrc,
        };
        let depth = AttachmentDescription {
            format: depth_format,
            load_op: LoadOp::Clear,
            store_op: StoreOp::DontCare,
            stencil_load_op: LoadOp::DontCare,
            stencil_store_op: StoreOp::DontCare,
            initial_layout: ImageLayout::Undefined,
            final_layout: ImageLayout::DepthStencilAttachmentOptimal,
        };
        let mut attachments: Vec<AttachmentDescription> = Vec::new();
        attachments.push(color);
        attachments.push(depth);
        RenderPassLayout {
            attachments,
            color_reference: AttachmentReference {
                attachment: 0,
                layout: ImageLayout::ColorAttachmentOptimal,
            },
            depth_reference: AttachmentReference {
                attachment: 1,
                layout: ImageLayout::DepthStencilAttachmentOptimal,
            },
            dependency: SubpassDependency {
                src_subpass: SUBPASS_EXTERNAL,
                dst_subpass: 0,
                src_stage_mask: STAGE_COLOR_ATTACHMENT_OUTPUT,
                src_access_mask: 0,
                dst_stage_mask: STAGE_COLOR_ATTACHMENT_OUTPUT,
                dst_access_mask: ACCESS_COLOR_ATTACHMENT_READ | ACCESS_COLOR_ATTACHMENT_WRITE,
            },
        }
    }
}

} // verus!
