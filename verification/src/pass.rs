use vstd::prelude::*;
use crate::format::Format;
use crate::surface::Extent;
use crate::surface::Extent2D;

verus! {

/// What happens to an attachment's contents when a render pass begins.
#[derive(Clone, Copy, Debug, PartialEq, Eq, Structural)]
pub enum LoadOp {
    Load,
    Clear,
    DontCare,
}

/// What happens to an attachment's contents when a render pass ends.
#[derive(Clone, Copy, Debug, PartialEq, Eq, Structural)]
pub enum StoreOp {
    Store,
    DontCare,
}

/// The layouts of an image that a frame passes through.
#[derive(Clone, Copy, Debug, PartialEq, Eq, Structural)]
pub enum Layout {
    /// The contents do not matter.
    Undefined,
    /// Best for drawing colour to.
    ColorAttachmentOptimal,
    /// Ready to be shown.
    Present,
}

/// The pipeline stage in which colour is written to an attachment.
pub const COLOR_ATTACHMENT_OUTPUT: u32 = 0x400;

/// The colour aspect of an image.
pub const ASPECT_COLOR: u8 = 0x1;

/// The one render pass of the renderer: a single colour attachment that is
/// cleared when the pass begins and kept when it ends, and a single subpass
/// that draws to it and waits for work outside the pass at one stage.
#[derive(Clone, Copy, Debug, PartialEq, Eq, Structural)]
pub struct RenderPassDesc {
    /// The attachment's format: that of the swapchain's images.
    pub format: Format,
    /// Samples per pixel.
    pub samples: u8,
    pub load: LoadOp,
    pub store: StoreOp,
    pub stencil_load: LoadOp,
    pub stencil_store: StoreOp,
    /// The layout in which the attachment enters the pass.
    pub initial_layout: Layout,
    /// The layout in which the attachment leaves the pass.
    pub final_layout: Layout,
    /// The layout of the attachment while the subpass draws to it.
    pub subpass_layout: Layout,
    /// The stage at which the subpass depends on what was submitted before
    /// the pass.
    pub dependency_stage: u32,
}

/// How the image of a swapchain is looked at: as a two-dimensional colour
/// image with its channels in place, one mip level and one layer.
#[derive(Clone, Copy, Debug, PartialEq, Eq, Structural)]
pub struct ImageViewDesc {
    pub format: Format,
    /// The number of dimensions of the view.
    pub dimensions: u8,
    /// Whether any channel is moved to another.
    pub swizzled: bool,
    pub aspects: u8,
    pub first_level: u8,
    pub level_count: u8,
    pub first_layer: u16,
    pub layer_count: u16,
}

impl RenderPassDesc {
    /// The render pass for images of the given format.
    pub open spec fn of(format: Format) -> RenderPassDesc {
        RenderPassDesc {
            format,
            samples: 1,
            load: LoadOp::Clear,
            store: StoreOp::Store,
            stencil_load: LoadOp::DontCare,
            stencil_store: StoreOp::DontCare,
            initial_layout: Layout::Undefined,
            final_layout: Layout::Present,
            subpass_layout: Layout::ColorAttachmentOptimal,
            dependency_stage: COLOR_ATTACHMENT_OUTPUT,
        }
    }

    /// Describes the render pass for images of the given format.
    pub fn for_format(format: Format) -> (r: RenderPassDesc)
        ensures
            r == RenderPassDesc::of(format),
    {
        RenderPassDesc {
            format,
            samples: 1,
            load: LoadOp::Clear,
            store: StoreOp::Store,
            stencil_load: LoadOp::DontCare,
            stencil_store: StoreOp::DontCare,
            initial_layout: Layout::Undefined,
            final_layout: Layout::Present,
            subpass_layout: Layout::ColorAttachmentOptimal,
            dependency_stage: COLOR_ATTACHMENT_OUTPUT,
        }
    }
}

impl ImageViewDesc {
    /// The view of a swapchain image of the given format.
    pub open spec fn of(format: Format) -> ImageViewDesc {
        ImageViewDesc {
            format,
            dimensions: 2,
            swizzled: false,
            aspects: ASPECT_COLOR,
            first_level: 0,
            level_count: 1,
            first_layer: 0,
            layer_count: 1,
        }
    }

    /// Describes the view of a swapchain image of the given format.
    pub fn for_format(format: Format) -> (r: ImageViewDesc)
        ensures
            r == ImageViewDesc::of(format),
    {
        ImageViewDesc {
            format,
            dimensions: 2,
            swizzled: false,
            aspects: ASPECT_COLOR,
            first_level: 0,
            level_count: 1,
            first_layer: 0,
            layer_count: 1,
        }
    }
}

/// The extent of the framebuffers of a swapchain of the given extent: the
/// same width and height, one layer deep.
pub open spec fn framebuffer_extent_of(extent: Extent2D) -> Extent {
    Extent { width: extent.width, height: extent.height, depth: 1 }
}

/// The extent of the framebuffers of a swapchain of the given extent.
pub fn framebuffer_extent(extent: Extent2D) -> (r: Extent)
    ensures
        r == framebuffer_extent_of(extent),
{
    Extent { width: extent.width, height: extent.height, depth: 1 }
}

} // verus!
