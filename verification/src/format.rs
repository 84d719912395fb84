use vstd::prelude::*;

verus! {

/// How the bits of a format's channels are read.
#[derive(Clone, Copy, Debug, PartialEq, Eq, Structural)]
pub enum ChannelType {
    /// Unsigned normalized.
    Unorm,
    /// Signed normalized.
    Snorm,
    /// Unsigned integer.
    Uint,
    /// Signed integer.
    Sint,
    /// Unsigned floating point.
    Ufloat,
    /// Signed floating point.
    Sfloat,
    /// Unsigned scaled integer.
    Uscaled,
    /// Signed scaled integer.
    Sscaled,
    /// Unsigned normalized, sRGB encoded.
    Srgb,
}

/// An image format, held as its number in gfx-hal's `Format` enum, which is
/// Vulkan's numbering. Number 0 is no format.
#[derive(Clone, Copy, Debug, PartialEq, Eq, Structural)]
pub struct Format {
    pub code: u32,
}

/// A format together with its channel type, `None` where the number names
/// no format.
#[derive(Clone, Copy, Debug, PartialEq, Eq, Structural)]
pub struct FormatInfo {
    pub format: Format,
    pub channel: Option<ChannelType>,
}

/// The number of the format with eight bits each of red, green, blue and
/// alpha, unsigned normalized.
pub const RGBA8_UNORM: u32 = 37;

/// The number of the format with eight bits each of red, green, blue and
/// alpha, sRGB encoded.
pub const RGBA8_SRGB: u32 = 43;

/// The channel type in entry `index` of gfx-hal's table of base formats,
/// `None` where the table has no such entry.
pub uninterp spec fn base_channel_at(index: usize) -> Option<ChannelType>;

/// Reads entry `index` of `gfx_hal::format::BASE_FORMATS`, the constant table
/// from which `Format::base_format` answers, and hands on the entry's channel
/// type. Nothing is claimed of which type an entry holds, only that the same
/// index always gives the same answer.
#[verifier::external_body]
fn base_channel(index: usize) -> (r: Option<ChannelType>)
    ensures
        r == base_channel_at(index),
{
    match gfx_hal::format::BASE_FORMATS.get(index) {
        None => None,
        Some(base) => Some(match base.1 {
            gfx_hal::format::ChannelType::Unorm => ChannelType::Unorm,
            gfx_hal::format::ChannelType::Snorm => ChannelType::Snorm,
            gfx_hal::format::ChannelType::Uint => ChannelType::Uint,
            gfx_hal::format::ChannelType::Sint => ChannelType::Sint,
            gfx_hal::format::ChannelType::Ufloat => ChannelType::Ufloat,
            gfx_hal::format::ChannelType::Sfloat => ChannelType::Sfloat,
            gfx_hal::format::ChannelType::Uscaled => ChannelType::Uscaled,
            gfx_hal::format::ChannelType::Sscaled => ChannelType::Sscaled,
            gfx_hal::format::ChannelType::Srgb => ChannelType::Srgb,
        }),
    }
}

impl Format {
    /// The format with the given number.
    pub fn new(code: u32) -> (r: Format)
        ensures
            r == (Format { code }),
    {
        Format { code }
    }

    /// The channel type of the format: the table's entry one below the
    /// format's number, as the table leaves number 0 out.
    pub open spec fn channel(self) -> Option<ChannelType> {
        if self.code == 0 {
            None
        } else {
            base_channel_at((self.code - 1) as usize)
        }
    }

    /// Whether the format's channels are sRGB encoded.
    pub open spec fn srgb(self) -> bool {
        self.channel() == Some(ChannelType::Srgb)
    }

    /// The channel type of the format, `None` for a number that names no
    /// format.
    pub fn channel_type(&self) -> (r: Option<ChannelType>)
        ensures
            r == self.channel(),
    {
        if self.code == 0 {
            None
        } else {
            base_channel((self.code - 1) as usize)
        }
    }

    /// Whether the format's channels are sRGB encoded.
    pub fn is_srgb(&self) -> (r: bool)
        ensures
            r == self.srgb(),
    {
        match self.channel_type() {
            Some(ChannelType::Srgb) => true,
            _ => false,
        }
    }

    /// The format with its channel type.
    pub open spec fn info(self) -> FormatInfo {
        FormatInfo { format: self, channel: self.channel() }
    }

    /// Looks the channel type of the format up and returns both.
    pub fn describe(&self) -> (r: FormatInfo)
        ensures
            r == self.info(),
    {
        FormatInfo { format: *self, channel: self.channel_type() }
    }
}

impl FormatInfo {
    /// Whether the format's channels are sRGB encoded.
    pub open spec fn srgb(self) -> bool {
        self.channel == Some(ChannelType::Srgb)
    }

    /// Whether the format's channels are sRGB encoded.
    pub fn is_srgb(&self) -> (r: bool)
        ensures
            r == self.srgb(),
    {
        match self.channel {
            Some(ChannelType::Srgb) => true,
            _ => false,
        }
    }
}

/// The formats of a list, each with its channel type.
pub open spec fn infos(formats: Seq<Format>) -> Seq<FormatInfo> {
    Seq::new(formats.len(), |i: int| formats[i].info())
}

/// Looks up the channel type of each format of a list.
pub fn describe_all(formats: &Vec<Format>) -> (r: Vec<FormatInfo>)
    ensures
        r@ == infos(formats@),
{
    let mut described: Vec<FormatInfo> = Vec::new();
    let mut i: usize = 0;
    while i < formats.len()
        invariant
            i <= formats.len(),
            described@ == infos(formats@.take(i as int)),
        decreases formats.len() - i,
    {
        described.push(formats[i].describe());
        assert(described@ =~= infos(formats@.take(i + 1)));
        i += 1;
    }
    assert(formats@.take(formats.len() as int) =~= formats@);
    described
}

} // verus!
