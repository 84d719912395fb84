use vstd::prelude::*;
use crate::command::Command;
use crate::format::Format;
use crate::pass::framebuffer_extent;
use crate::pass::framebuffer_extent_of;
use crate::pass::ImageViewDesc;
use crate::pass::RenderPassDesc;
use crate::surface::Extent2D;
use crate::surface::SwapchainConfig;

verus! {

/// The owner of the swapchain and of what hangs on it: the render pass, one
/// image view and one framebuffer for each image. The four are made together
/// and destroyed together.
#[derive(Debug)]
pub struct SwapchainManager {
    config: Option<SwapchainConfig>,
    ready: bool,
    images: usize,
    image_views: usize,
    framebuffers: usize,
}

/// What a swapchain manager stands for.
pub struct SwapchainView {
    /// The configuration of the swapchain that exists or is being created.
    pub config: Option<SwapchainConfig>,
    /// Whether the swapchain and all that hangs on it exist.
    pub ready: bool,
    /// The number of images of the swapchain.
    pub images: nat,
    /// The number of image views.
    pub image_views: nat,
    /// The number of framebuffers.
    pub framebuffers: nat,
}

/// The commands that create one view for each of `images` images.
pub open spec fn create_image_views(format: Format, images: nat) -> Seq<Command> {
    Seq::new(
        images,
        |i: int| Command::CreateImageView { image: i as usize, desc: ImageViewDesc::of(format) },
    )
}

/// The commands that create one framebuffer for each of `image_views` image
/// views.
pub open spec fn create_framebuffers(extent: Extent2D, image_views: nat) -> Seq<Command> {
    Seq::new(
        image_views,
        |i: int|
            Command::CreateFramebuffer {
                image_view: i as usize,
                extent: framebuffer_extent_of(extent),
            },
    )
}

/// The commands that create what hangs on a swapchain of `images` images:
/// the render pass for the format, a view of each image, a framebuffer for
/// each view.
pub open spec fn creation_plan(config: SwapchainConfig, images: nat) -> Seq<Command> {
    seq![Command::CreateRenderPass(RenderPassDesc::of(config.format))] + create_image_views(
        config.format,
        images,
    ) + create_framebuffers(config.extent, images)
}

/// The commands that destroy the framebuffers `0..count`.
pub open spec fn destroy_framebuffers(count: nat) -> Seq<Command> {
    Seq::new(count, |i: int| Command::DestroyFramebuffer { index: i as usize })
}

/// The commands that destroy the image views `0..count`.
pub open spec fn destroy_image_views(count: nat) -> Seq<Command> {
    Seq::new(count, |i: int| Command::DestroyImageView { index: i as usize })
}

impl SwapchainView {
    /// No swapchain, and nothing that would hang on one.
    pub open spec fn absent() -> SwapchainView {
        SwapchainView { config: None, ready: false, images: 0, image_views: 0, framebuffers: 0 }
    }

    /// A swapchain of the given configuration is being created; how many
    /// images it holds is not known yet.
    pub open spec fn pending(config: SwapchainConfig) -> SwapchainView {
        SwapchainView {
            config: Some(config),
            ready: false,
            images: 0,
            image_views: 0,
            framebuffers: 0,
        }
    }

    /// A swapchain of `images` images with its views and framebuffers.
    pub open spec fn built(config: SwapchainConfig, images: nat) -> SwapchainView {
        SwapchainView {
            config: Some(config),
            ready: true,
            images,
            image_views: images,
            framebuffers: images,
        }
    }

    /// There are as many image views and as many framebuffers as the
    /// swapchain has images, and none of them without a swapchain.
    pub open spec fn well_formed(self) -> bool {
        &&& self.image_views == self.images
        &&& self.framebuffers == self.images
        &&& self.ready ==> self.config is Some
        &&& !self.ready ==> self.images == 0
    }

    /// The commands that destroy the swapchain and what hangs on it, those
    /// first that depend on others: wait for the device, reset the command
    /// pool, then framebuffers, render pass, image views, swapchain. Of a
    /// swapchain that is still being created nothing but the swapchain
    /// itself can exist. Where nothing exists, nothing is to be done.
    pub open spec fn teardown_plan(self) -> Seq<Command> {
        if self.ready {
            seq![Command::WaitIdle, Command::ResetCommandPool] + destroy_framebuffers(
                self.framebuffers,
            ) + seq![Command::DestroyRenderPass] + destroy_image_views(self.image_views)
                + seq![Command::DestroySwapchain]
        } else if self.config is Some {
            seq![Command::DestroySwapchain]
        } else {
            Seq::empty()
        }
    }
}

impl View for SwapchainManager {
    type V = SwapchainView;

    closed spec fn view(&self) -> SwapchainView {
        SwapchainView {
            config: self.config,
            ready: self.ready,
            images: self.images as nat,
            image_views: self.image_views as nat,
            framebuffers: self.framebuffers as nat,
        }
    }
}

impl SwapchainManager {
    /// A manager without a swapchain.
    pub fn new() -> (r: SwapchainManager)
        ensures
            r@ == SwapchainView::absent(),
            r@.well_formed(),
    {
        SwapchainManager { config: None, ready: false, images: 0, image_views: 0, framebuffers: 0 }
    }

    /// Begins a swapchain of the given configuration and returns the command
    /// that creates it. How many images the swapchain holds is told to
    /// `build` afterwards.
    pub fn create(config: SwapchainConfig) -> (r: (SwapchainManager, Vec<Command>))
        ensures
            r.0@ == SwapchainView::pending(config),
            r.0@.well_formed(),
            r.1@ == seq![Command::CreateSwapchain(config)],
    {
        let mut plan: Vec<Command> = Vec::new();
        plan.push(Command::CreateSwapchain(config));
        (
            SwapchainManager {
                config: Some(config),
                ready: false,
                images: 0,
                image_views: 0,
                framebuffers: 0,
            },
            plan,
        )
    }

    /// Whether the swapchain and all that hangs on it exist.
    pub fn is_ready(&self) -> (r: bool)
        ensures
            r == self@.ready,
    {
        self.ready
    }

    /// The configuration of the swapchain that exists or is being created.
    pub fn config(&self) -> (r: Option<SwapchainConfig>)
        ensures
            r == self@.config,
    {
        self.config
    }

    /// The number of images of the swapchain.
    pub fn image_count(&self) -> (r: usize)
        ensures
            r == self@.images,
    {
        self.images
    }

    /// The number of image views.
    pub fn image_view_count(&self) -> (r: usize)
        ensures
            r == self@.image_views,
    {
        self.image_views
    }

    /// The number of framebuffers.
    pub fn framebuffer_count(&self) -> (r: usize)
        ensures
            r == self@.framebuffers,
    {
        self.framebuffers
    }

    /// Takes note that the swapchain in the making holds `images` images and
    /// returns the commands that create what hangs on it: the render pass,
    /// then a view of each image, then a framebuffer for each view.
    pub fn build(&mut self, images: usize) -> (plan: Vec<Command>)
        requires
            old(self)@.config is Some,
            !old(self)@.ready,
        ensures
            final(self)@ == SwapchainView::built(old(self)@.config->0, images as nat),
            final(self)@.well_formed(),
            plan@ == creation_plan(old(self)@.config->0, images as nat),
    {
        let config = self.config.unwrap();
        let mut plan: Vec<Command> = Vec::new();
        plan.push(Command::CreateRenderPass(RenderPassDesc::for_format(config.format)));
        let ghost head = plan@;
        let mut views: usize = 0;
        while views < images
            invariant
                views <= images,
                head == seq![Command::CreateRenderPass(RenderPassDesc::of(config.format))],
                plan@ == head + create_image_views(config.format, views as nat),
            decreases images - views,
        {
            plan.push(
                Command::CreateImageView {
                    image: views,
                    desc: ImageViewDesc::for_format(config.format),
                },
            );
            assert(plan@ =~= head + create_image_views(config.format, (views + 1) as nat));
            views += 1;
        }
        let extent = framebuffer_extent(config.extent);
        let mut framebuffers: usize = 0;
        while framebuffers < views
            invariant
                framebuffers <= views,
                extent == framebuffer_extent_of(config.extent),
                plan@ == head + create_image_views(config.format, views as nat)
                    + create_framebuffers(config.extent, framebuffers as nat),
            decreases views - framebuffers,
        {
            plan.push(Command::CreateFramebuffer { image_view: framebuffers, extent });
            assert(plan@ =~= head + create_image_views(config.format, views as nat)
                + create_framebuffers(config.extent, (framebuffers + 1) as nat));
            framebuffers += 1;
        }
        self.ready = true;
        self.images = images;
        self.image_views = views;
        self.framebuffers = framebuffers;
        plan
    }

    /// Gives up the swapchain and what hangs on it, and returns the commands
    /// that destroy them in the order of their dependencies. A swapchain
    /// that is still being created is destroyed alone. On a manager that
    /// holds nothing this does nothing: it may be called again.
    pub fn destroy(&mut self) -> (plan: Vec<Command>)
        ensures
            final(self)@ == SwapchainView::absent(),
            final(self)@.well_formed(),
            plan@ == old(self)@.teardown_plan(),
    {
        let mut plan: Vec<Command> = Vec::new();
        if self.ready {
            plan.push(Command::WaitIdle);
            plan.push(Command::ResetCommandPool);
            let ghost head = plan@;
            let count = self.framebuffers;
            let mut i: usize = 0;
            while i < count
                invariant
                    i <= count,
                    plan@ == head + destroy_framebuffers(i as nat),
                decreases count - i,
            {
                plan.push(Command::DestroyFramebuffer { index: i });
                assert(plan@ =~= head + destroy_framebuffers((i + 1) as nat));
                i += 1;
            }
            plan.push(Command::DestroyRenderPass);
            let ghost middle = plan@;
            let views = self.image_views;
            i = 0;
            while i < views
                invariant
                    i <= views,
                    plan@ == middle + destroy_image_views(i as nat),
                decreases views - i,
            {
                plan.push(Command::DestroyImageView { index: i });
                assert(plan@ =~= middle + destroy_image_views((i + 1) as nat));
                i += 1;
            }
            plan.push(Command::DestroySwapchain);
            assert(plan@ =~= old(self)@.teardown_plan());
        } else if self.config.is_some() {
            plan.push(Command::DestroySwapchain);
        }
        self.config = None;
        self.ready = false;
        self.images = 0;
        self.image_views = 0;
        self.framebuffers = 0;
        plan
    }

    /// Replaces the swapchain: what exists is torn down, and at once a
    /// swapchain of the new configuration is begun. Returns the commands of
    /// the teardown followed by the one that creates the new swapchain.
    pub fn recreate(&mut self, config: SwapchainConfig) -> (plan: Vec<Command>)
        ensures
            final(self)@ == SwapchainView::pending(config),
            final(self)@.well_formed(),
            plan@ == old(self)@.teardown_plan() + seq![Command::CreateSwapchain(config)],
    {
        let mut plan = self.destroy();
        plan.push(Command::CreateSwapchain(config));
        self.config = Some(config);
        assert(plan@ =~= old(self)@.teardown_plan() + seq![Command::CreateSwapchain(config)]);
        plan
    }
}

} // verus!
