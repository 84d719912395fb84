use vstd::prelude::*;
use crate::error::Error;
use crate::format::describe_all;
use crate::format::infos;
use crate::format::Format;
use crate::format::FormatInfo;
use crate::format::RGBA8_SRGB;

verus! {

/// How a swapchain hands its images to the display.
#[derive(Clone, Copy, Debug, PartialEq, Eq, Structural)]
pub enum PresentMode {
    /// Never wait for the vertical blank.
    Immediate,
    /// Wait for the vertical blank and replace the frame that waits.
    Mailbox,
    /// Show the frames in the order in which they were drawn.
    Fifo,
    /// As `Fifo`, but do not wait for a blank that was just missed.
    Relaxed,
}

/// How the alpha channel of a presented image is composed with what lies
/// behind the window.
#[derive(Clone, Copy, Debug, PartialEq, Eq, Structural)]
pub enum CompositeAlpha {
    /// Alpha is ignored and taken to be one.
    Opaque,
    /// Alpha is used, the colours are already multiplied by it.
    PreMultiplied,
    /// Alpha is used, the compositor multiplies the colours by it.
    PostMultiplied,
    /// Whatever the window system is set to.
    Inherit,
}

/// The width and height of a surface or an image, in pixels.
#[derive(Clone, Copy, Debug, PartialEq, Eq, Structural)]
pub struct Extent2D {
    pub width: u32,
    pub height: u32,
}

/// The size of an image of up to three dimensions.
#[derive(Clone, Copy, Debug, PartialEq, Eq, Structural)]
pub struct Extent {
    pub width: u32,
    pub height: u32,
    pub depth: u32,
}

/// A rectangle with integer coordinates.
#[derive(Clone, Copy, Debug, PartialEq, Eq, Structural)]
pub struct Rect {
    pub x: i16,
    pub y: i16,
    pub w: i16,
    pub h: i16,
}

/// The usage bit of an image that serves as a colour attachment.
pub const COLOR_ATTACHMENT: u32 = 0x10;

/// The bit of `CompositeAlpha::Opaque` in a mask of composite-alpha modes.
pub const ALPHA_OPAQUE: u32 = 0x1;

/// The bit of `CompositeAlpha::PreMultiplied` in a mask of composite-alpha modes.
pub const ALPHA_PREMULTIPLIED: u32 = 0x2;

/// The bit of `CompositeAlpha::PostMultiplied` in a mask of composite-alpha modes.
pub const ALPHA_POSTMULTIPLIED: u32 = 0x4;

/// The bit of `CompositeAlpha::Inherit` in a mask of composite-alpha modes.
pub const ALPHA_INHERIT: u32 = 0x8;

/// What a surface reports of the swapchains that can be made for it.
#[derive(Clone, Copy, Debug, PartialEq, Eq, Structural)]
pub struct SurfaceCapabilities {
    /// The least number of images in a swapchain.
    pub min_image_count: u32,
    /// The upper end of the range of image counts. A swapchain is asked to
    /// hold fewer images than this.
    pub max_image_count: u32,
    /// The lower end of the range of extents.
    pub min_extent: Extent2D,
    /// The upper end of the range of extents: the extent that swapchains are
    /// made with.
    pub max_extent: Extent2D,
    /// The usage bits that the surface's images support.
    pub usage: u32,
}

/// All that a device needs to know to create a swapchain.
#[derive(Clone, Copy, Debug, PartialEq, Eq, Structural)]
pub struct SwapchainConfig {
    pub present_mode: PresentMode,
    pub composite_alpha: CompositeAlpha,
    pub format: Format,
    pub extent: Extent2D,
    pub image_count: u32,
    pub image_layers: u16,
    pub image_usage: u32,
}

/// The present mode that is taken of those a surface supports: `Mailbox`
/// before `Fifo` before `Relaxed` before `Immediate`.
pub open spec fn preferred_present_mode(modes: Seq<PresentMode>) -> Option<PresentMode> {
    if modes.contains(PresentMode::Mailbox) {
        Some(PresentMode::Mailbox)
    } else if modes.contains(PresentMode::Fifo) {
        Some(PresentMode::Fifo)
    } else if modes.contains(PresentMode::Relaxed) {
        Some(PresentMode::Relaxed)
    } else if modes.contains(PresentMode::Immediate) {
        Some(PresentMode::Immediate)
    } else {
        None
    }
}

/// The composite-alpha mode that is taken of those a surface supports:
/// `Opaque` before `Inherit` before `PreMultiplied` before `PostMultiplied`.
pub open spec fn preferred_composite_alpha(alphas: Seq<CompositeAlpha>) -> Option<CompositeAlpha> {
    if alphas.contains(CompositeAlpha::Opaque) {
        Some(CompositeAlpha::Opaque)
    } else if alphas.contains(CompositeAlpha::Inherit) {
        Some(CompositeAlpha::Inherit)
    } else if alphas.contains(CompositeAlpha::PreMultiplied) {
        Some(CompositeAlpha::PreMultiplied)
    } else if alphas.contains(CompositeAlpha::PostMultiplied) {
        Some(CompositeAlpha::PostMultiplied)
    } else {
        None
    }
}

/// The first sRGB format among `formats[from..]`.
pub open spec fn first_srgb(formats: Seq<FormatInfo>, from: int) -> Option<Format>
    decreases formats.len() - from,
{
    if from < 0 || from >= formats.len() {
        None
    } else if formats[from].srgb() {
        Some(formats[from].format)
    } else {
        first_srgb(formats, from + 1)
    }
}

/// The format that is taken for a surface: with no stated preference the
/// sRGB format of eight bits a channel; of a stated list the first sRGB
/// format, or else the list's first format. An empty list gives none.
pub open spec fn preferred_format(preferred: Option<Seq<FormatInfo>>) -> Option<Format> {
    match preferred {
        None => Some(Format { code: RGBA8_SRGB }),
        Some(formats) => match first_srgb(formats, 0) {
            Some(format) => Some(format),
            None => if formats.len() > 0 {
                Some(formats[0].format)
            } else {
                None
            },
        },
    }
}

/// The number of images that a swapchain is asked to hold: one less than the
/// upper end of what the surface supports, and no more than three with
/// `Mailbox`, two with any other mode.
pub open spec fn preferred_image_count(mode: PresentMode, max_image_count: u32) -> int {
    let most: int = if mode == PresentMode::Mailbox {
        3
    } else {
        2
    };
    if max_image_count - 1 < most {
        max_image_count - 1
    } else {
        most
    }
}

/// Whether images with the usage bits `usage` can be colour attachments.
pub open spec fn color_capable(usage: u32) -> bool {
    usage & COLOR_ATTACHMENT == COLOR_ATTACHMENT
}

/// The composite-alpha modes whose bits are set in `mask`, in the order of
/// their bits.
pub open spec fn alphas_in_mask(mask: u32) -> Seq<CompositeAlpha> {
    (if mask & ALPHA_OPAQUE != 0 {
        seq![CompositeAlpha::Opaque]
    } else {
        seq![]
    }) + (if mask & ALPHA_PREMULTIPLIED != 0 {
        seq![CompositeAlpha::PreMultiplied]
    } else {
        seq![]
    }) + (if mask & ALPHA_POSTMULTIPLIED != 0 {
        seq![CompositeAlpha::PostMultiplied]
    } else {
        seq![]
    }) + (if mask & ALPHA_INHERIT != 0 {
        seq![CompositeAlpha::Inherit]
    } else {
        seq![]
    })
}

/// Calls `contains` of gfx-hal's `image::Usage` flags, made from `usage` by
/// `from_bits_truncate`, with the flag `COLOR_ATTACHMENT`. The flag is the
/// bit 0x10, truncation keeps it, and `contains` tests that every bit of the
/// flag is set.
#[verifier::external_body]
fn usage_contains_color_attachment(usage: u32) -> (r: bool)
    ensures
        r == color_capable(usage),
{
    gfx_hal::image::Usage::from_bits_truncate(usage).contains(
        gfx_hal::image::Usage::COLOR_ATTACHMENT,
    )
}

/// Calls `to_extent` of gfx-hal's `window::Extent2D`, which keeps width and
/// height and gives the image a depth of one.
#[verifier::external_body]
fn extent2d_to_extent(extent: Extent2D) -> (r: Extent)
    ensures
        r == (Extent { width: extent.width, height: extent.height, depth: 1 }),
{
    let e = (gfx_hal::window::Extent2D { width: extent.width, height: extent.height }).to_extent();
    Extent { width: e.width, height: e.height, depth: e.depth }
}

/// Calls `rect` of gfx-hal's `image::Extent`: the rectangle at the origin
/// whose width and height are those of the extent, cut down to sixteen bits.
#[verifier::external_body]
fn extent_rect(extent: Extent) -> (r: Rect)
    ensures
        r == (Rect { x: 0, y: 0, w: extent.width as i16, h: extent.height as i16 }),
{
    let r = (gfx_hal::image::Extent {
        width: extent.width,
        height: extent.height,
        depth: extent.depth,
    }).rect();
    Rect { x: r.x, y: r.y, w: r.w, h: r.h }
}

impl Extent2D {
    /// The whole extent as a rectangle at the origin. Width and height are
    /// cut down to sixteen bits.
    pub open spec fn rect(self) -> Rect {
        Rect { x: 0, y: 0, w: self.width as i16, h: self.height as i16 }
    }

    /// The extent as that of an image of depth one.
    pub fn to_extent(&self) -> (r: Extent)
        ensures
            r == (Extent { width: self.width, height: self.height, depth: 1 }),
    {
        extent2d_to_extent(*self)
    }

    /// The area that is drawn to: the whole extent, as a rectangle at the
    /// origin. Width and height are cut down to sixteen bits.
    pub fn render_area(&self) -> (r: Rect)
        ensures
            r == self.rect(),
    {
        extent_rect(extent2d_to_extent(*self))
    }
}

impl SurfaceCapabilities {
    /// What every surface is bound to report: at least one image, and a
    /// range of image counts that is not upside down.
    pub open spec fn well_formed(self) -> bool {
        1 <= self.min_image_count <= self.max_image_count
    }
}

/// Whether `mode` is among `modes`.
fn supports_present_mode(modes: &Vec<PresentMode>, mode: PresentMode) -> (r: bool)
    ensures
        r == modes@.contains(mode),
{
    let mut i: usize = 0;
    while i < modes.len()
        invariant
            i <= modes.len(),
            forall|j: int| 0 <= j < i ==> modes@[j] != mode,
        decreases modes.len() - i,
    {
        if modes[i] == mode {
            return true;
        }
        i += 1;
    }
    false
}

/// Whether `alpha` is among `alphas`.
fn supports_composite_alpha(alphas: &Vec<CompositeAlpha>, alpha: CompositeAlpha) -> (r: bool)
    ensures
        r == alphas@.contains(alpha),
{
    let mut i: usize = 0;
    while i < alphas.len()
        invariant
            i <= alphas.len(),
            forall|j: int| 0 <= j < i ==> alphas@[j] != alpha,
        decreases alphas.len() - i,
    {
        if alphas[i] == alpha {
            return true;
        }
        i += 1;
    }
    false
}

/// Picks the present mode: `Mailbox` before `Fifo` before `Relaxed` before
/// `Immediate`, whichever the surface supports first. Fails only where the
/// surface supports no mode at all.
pub fn select_present_mode(modes: &Vec<PresentMode>) -> (r: Result<PresentMode, Error>)
    ensures
        r == match preferred_present_mode(modes@) {
            Some(mode) => Ok::<PresentMode, Error>(mode),
            None => Err(Error::NoPresentMode),
        },
        r is Err <==> modes@.len() == 0,
{
    proof {
        if modes@.len() > 0 {
            let first = modes@[0];
            assert(modes@.contains(first));
        }
    }
    if supports_present_mode(modes, PresentMode::Mailbox) {
        Ok(PresentMode::Mailbox)
    } else if supports_present_mode(modes, PresentMode::Fifo) {
        Ok(PresentMode::Fifo)
    } else if supports_present_mode(modes, PresentMode::Relaxed) {
        Ok(PresentMode::Relaxed)
    } else if supports_present_mode(modes, PresentMode::Immediate) {
        Ok(PresentMode::Immediate)
    } else {
        Err(Error::NoPresentMode)
    }
}

/// Picks the composite-alpha mode: `Opaque` before `Inherit` before
/// `PreMultiplied` before `PostMultiplied`, whichever the surface supports
/// first. Fails only where the surface supports no mode at all.
pub fn select_composite_alpha(alphas: &Vec<CompositeAlpha>) -> (r: Result<CompositeAlpha, Error>)
    ensures
        r == match preferred_composite_alpha(alphas@) {
            Some(alpha) => Ok::<CompositeAlpha, Error>(alpha),
            None => Err(Error::NoCompositeAlpha),
        },
        r is Err <==> alphas@.len() == 0,
{
    proof {
        if alphas@.len() > 0 {
            let first = alphas@[0];
            assert(alphas@.contains(first));
        }
    }
    if supports_composite_alpha(alphas, CompositeAlpha::Opaque) {
        Ok(CompositeAlpha::Opaque)
    } else if supports_composite_alpha(alphas, CompositeAlpha::Inherit) {
        Ok(CompositeAlpha::Inherit)
    } else if supports_composite_alpha(alphas, CompositeAlpha::PreMultiplied) {
        Ok(CompositeAlpha::PreMultiplied)
    } else if supports_composite_alpha(alphas, CompositeAlpha::PostMultiplied) {
        Ok(CompositeAlpha::PostMultiplied)
    } else {
        Err(Error::NoCompositeAlpha)
    }
}

/// The view of an optional list of formats with their channel types.
pub open spec fn infos_view(preferred: Option<Vec<FormatInfo>>) -> Option<Seq<FormatInfo>> {
    match preferred {
        None => None,
        Some(formats) => Some(formats@),
    }
}

/// The view of an optional list of formats, each with its channel type.
pub open spec fn formats_view(preferred: Option<Vec<Format>>) -> Option<Seq<FormatInfo>> {
    match preferred {
        None => None,
        Some(formats) => Some(infos(formats@)),
    }
}

/// Picks the format of the swapchain's images from formats whose channel
/// types are known. A surface without a preference gets the sRGB format of
/// eight bits a channel. Of a stated list the first format with sRGB
/// channels is taken, or, where there is none, the first format. A stated
/// list that is empty is an error.
pub fn choose_format(preferred: &Option<Vec<FormatInfo>>) -> (r: Result<Format, Error>)
    ensures
        r == match preferred_format(infos_view(*preferred)) {
            Some(format) => Ok::<Format, Error>(format),
            None => Err(Error::EmptyFormatList),
        },
{
    match preferred {
        None => Ok(Format::new(RGBA8_SRGB)),
        Some(formats) => {
            let mut i: usize = 0;
            while i < formats.len()
                invariant
                    i <= formats.len(),
                    infos_view(*preferred) == Some(formats@),
                    first_srgb(formats@, 0) == first_srgb(formats@, i as int),
                decreases formats.len() - i,
            {
                if formats[i].is_srgb() {
                    assert(first_srgb(formats@, i as int) == Some(formats@[i as int].format));
                    return Ok(formats[i].format);
                }
                assert(first_srgb(formats@, i as int) == first_srgb(formats@, i + 1));
                i += 1;
            }
            if formats.len() > 0 {
                Ok(formats[0].format)
            } else {
                Err(Error::EmptyFormatList)
            }
        },
    }
}

/// Picks the format of the swapchain's images: the channel type of each
/// advertised format is looked up, and the choice is that of
/// `choose_format`.
pub fn select_format(preferred: &Option<Vec<Format>>) -> (r: Result<Format, Error>)
    ensures
        r == match preferred_format(formats_view(*preferred)) {
            Some(format) => Ok::<Format, Error>(format),
            None => Err(Error::EmptyFormatList),
        },
{
    match preferred {
        None => choose_format(&None),
        Some(formats) => choose_format(&Some(describe_all(formats))),
    }
}

/// The number of images to ask for: one less than the upper end of the
/// surface's range, capped at three for `Mailbox` and at two otherwise.
pub fn select_image_count(mode: PresentMode, max_image_count: u32) -> (r: u32)
    requires
        max_image_count >= 1,
    ensures
        r == preferred_image_count(mode, max_image_count),
        r <= max_image_count - 1,
        max_image_count >= 2 ==> 1 <= r,
        mode == PresentMode::Mailbox ==> r <= 3,
        mode != PresentMode::Mailbox ==> r <= 2,
{
    let most: u32 = if mode == PresentMode::Mailbox {
        3
    } else {
        2
    };
    if max_image_count - 1 < most {
        max_image_count - 1
    } else {
        most
    }
}

/// The usage that the swapchain's images are created with: colour
/// attachment, which the surface has to support.
pub fn select_image_usage(usage: u32) -> (r: Result<u32, Error>)
    ensures
        r == if color_capable(usage) {
            Ok::<u32, Error>(COLOR_ATTACHMENT)
        } else {
            Err(Error::SurfaceNotColorCapable)
        },
{
    if usage_contains_color_attachment(usage) {
        Ok(COLOR_ATTACHMENT)
    } else {
        Err(Error::SurfaceNotColorCapable)
    }
}

/// The composite-alpha modes whose bits are set in `mask`, for a surface
/// that reports them as a mask.
pub fn composite_alphas_from_mask(mask: u32) -> (r: Vec<CompositeAlpha>)
    ensures
        r@ == alphas_in_mask(mask),
{
    let mut alphas: Vec<CompositeAlpha> = Vec::new();
    if mask & ALPHA_OPAQUE != 0 {
        alphas.push(CompositeAlpha::Opaque);
    }
    if mask & ALPHA_PREMULTIPLIED != 0 {
        alphas.push(CompositeAlpha::PreMultiplied);
    }
    if mask & ALPHA_POSTMULTIPLIED != 0 {
        alphas.push(CompositeAlpha::PostMultiplied);
    }
    if mask & ALPHA_INHERIT != 0 {
        alphas.push(CompositeAlpha::Inherit);
    }
    assert(alphas@ =~= alphas_in_mask(mask));
    alphas
}

impl SwapchainConfig {
    /// The configuration that is chosen for a surface, or the first of the
    /// four reasons for which there is none: no present mode, no
    /// composite-alpha mode, an empty list of formats, no colour attachment.
    pub open spec fn chosen(
        caps: SurfaceCapabilities,
        preferred: Option<Seq<FormatInfo>>,
        modes: Seq<PresentMode>,
        alphas: Seq<CompositeAlpha>,
    ) -> Result<SwapchainConfig, Error> {
        if preferred_present_mode(modes) is None {
            Err(Error::NoPresentMode)
        } else if preferred_composite_alpha(alphas) is None {
            Err(Error::NoCompositeAlpha)
        } else if preferred_format(preferred) is None {
            Err(Error::EmptyFormatList)
        } else if !color_capable(caps.usage) {
            Err(Error::SurfaceNotColorCapable)
        } else {
            let mode = preferred_present_mode(modes)->0;
            Ok(
                SwapchainConfig {
                    present_mode: mode,
                    composite_alpha: preferred_composite_alpha(alphas)->0,
                    format: preferred_format(preferred)->0,
                    extent: caps.max_extent,
                    image_count: preferred_image_count(mode, caps.max_image_count) as u32,
                    image_layers: 1,
                    image_usage: COLOR_ATTACHMENT,
                },
            )
        }
    }

    /// Chooses the configuration of a swapchain from what the surface
    /// reports, with the channel type of each advertised format known. The
    /// extent is the one that the surface reports, never the size that the
    /// window was asked to have.
    pub fn for_formats(
        caps: &SurfaceCapabilities,
        preferred: &Option<Vec<FormatInfo>>,
        modes: &Vec<PresentMode>,
        alphas: &Vec<CompositeAlpha>,
    ) -> (r: Result<SwapchainConfig, Error>)
        requires
            caps.well_formed(),
        ensures
            r == SwapchainConfig::chosen(*caps, infos_view(*preferred), modes@, alphas@),
    {
        let present_mode = match select_present_mode(modes) {
            Ok(mode) => mode,
            Err(e) => {
                return Err(e);
            },
        };
        let composite_alpha = match select_composite_alpha(alphas) {
            Ok(alpha) => alpha,
            Err(e) => {
                return Err(e);
            },
        };
        let format = match choose_format(preferred) {
            Ok(format) => format,
            Err(e) => {
                return Err(e);
            },
        };
        let image_count = select_image_count(present_mode, caps.max_image_count);
        let image_usage = match select_image_usage(caps.usage) {
            Ok(usage) => usage,
            Err(e) => {
                return Err(e);
            },
        };
        Ok(
            SwapchainConfig {
                present_mode,
                composite_alpha,
                format,
                extent: caps.max_extent,
                image_count,
                image_layers: 1,
                image_usage,
            },
        )
    }

    /// Chooses the configuration of a swapchain from what the surface
    /// reports: the channel type of each advertised format is looked up, and
    /// the choice is that of `for_formats`.
    pub fn select(
        caps: &SurfaceCapabilities,
        preferred: &Option<Vec<Format>>,
        modes: &Vec<PresentMode>,
        alphas: &Vec<CompositeAlpha>,
    ) -> (r: Result<SwapchainConfig, Error>)
        requires
            caps.well_formed(),
        ensures
            r == SwapchainConfig::chosen(*caps, formats_view(*preferred), modes@, alphas@),
    {
        match preferred {
            None => SwapchainConfig::for_formats(caps, &None, modes, alphas),
            Some(formats) => SwapchainConfig::for_formats(
                caps,
                &Some(describe_all(formats)),
                modes,
                alphas,
            ),
        }
    }
}

} // verus!
