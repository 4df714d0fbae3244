//! The surface that frames are drawn to: its size, its format and its configuration.

use vstd::prelude::*;

verus! {

/// `wgpu::TextureFormat`, which is carried through. All that is ever asked of it is
/// [`has_srgb`].
#[verifier::external_type_specification]
#[verifier::external_body]
pub struct ExTextureFormat(wgpu::TextureFormat);

/// `wgpu::CompositeAlphaMode`, which is carried through and never looked into.
#[verifier::external_type_specification]
#[verifier::external_body]
pub struct ExCompositeAlphaMode(wgpu::CompositeAlphaMode);

/// What `wgpu::TextureFormat::is_srgb` answers for a format.
pub uninterp spec fn has_srgb(format: wgpu::TextureFormat) -> bool;

/// Calls `wgpu::TextureFormat::is_srgb`, which answers `true` for the formats whose values
/// are encoded in sRGB. Which formats those are is left unsaid: the answer depends on the
/// format alone and has the name [`has_srgb`].
#[verifier::external_body]
fn is_srgb(format: &wgpu::TextureFormat) -> (answer: bool)
    ensures
        answer == has_srgb(*format),
{
    format.is_srgb()
}

/// The size of a window in pixels.
#[derive(Clone, Copy, Debug, PartialEq, Eq, Structural)]
pub struct PhysicalSize {
    pub width: u32,
    pub height: u32,
}

impl PhysicalSize {
    /// Whether there is anything to draw on.
    pub open spec fn has_area(self) -> bool {
        self.width > 0 && self.height > 0
    }
}

/// When finished frames are shown.
#[derive(Clone, Copy, Debug, PartialEq, Eq, Structural)]
pub enum PresentMode {
    AutoVsync,
    AutoNoVsync,
    Fifo,
    FifoRelaxed,
    Immediate,
    Mailbox,
}

/// The flag of a texture that a render pass can draw to.
pub const RENDER_ATTACHMENT: u32 = 0x10;

/// How a surface is configured.
#[derive(Clone, Copy, Debug, PartialEq, Eq)]
pub struct SurfaceConfiguration {
    pub usage: u32,
    pub format: wgpu::TextureFormat,
    pub width: u32,
    pub height: u32,
    pub present_mode: PresentMode,
    pub alpha_mode: wgpu::CompositeAlphaMode,
    pub desired_maximum_frame_latency: u32,
}

/// What came of asking a surface for its next texture.
#[derive(Clone, Copy, Debug, PartialEq, Eq, Structural)]
pub enum SurfaceTextureStatus {
    Success,
    Suboptimal,
    Timeout,
    Occluded,
    Outdated,
    Lost,
    Validation,
}

/// The place of the first `true`, and 0 where there is none.
pub open spec fn first_flagged(flags: Seq<bool>) -> int {
    match flags.index_of_first(true) {
        Some(place) => place,
        None => 0,
    }
}

/// The answers of [`has_srgb`] for a list of formats.
pub open spec fn srgb_flags(formats: Seq<wgpu::TextureFormat>) -> Seq<bool> {
    formats.map_values(|format: wgpu::TextureFormat| has_srgb(format))
}

/// The format to draw in: the first in sRGB, or else the first of all.
pub open spec fn preferred(formats: Seq<wgpu::TextureFormat>) -> wgpu::TextureFormat {
    formats[first_flagged(srgb_flags(formats))]
}

/// The place of the first `true`, and 0 where there is none.
pub fn first_flagged_index(flags: &Vec<bool>) -> (place: usize)
    ensures
        place == first_flagged(flags@),
        flags@.len() > 0 ==> place < flags@.len(),
        forall|j: int| 0 <= j < place ==> !#[trigger] flags@[j],
        place > 0 ==> flags@[place as int],
        flags@.contains(true) ==> flags@[place as int],
{
    let mut i: usize = 0;
    while i < flags.len()
        invariant
            i <= flags@.len(),
            forall|j: int| 0 <= j < i ==> !flags@[j],
        decreases flags@.len() - i,
    {
        if flags[i] {
            proof {
                assert(flags@.contains(true));
                flags@.index_of_first_ensures(true);
            }
            return i;
        }
        i = i + 1;
    }
    proof {
        flags@.index_of_first_ensures(true);
    }
    0
}

/// The format to draw in, out of those that a surface offers.
pub fn preferred_format(formats: &Vec<wgpu::TextureFormat>) -> (format: wgpu::TextureFormat)
    requires
        formats@.len() > 0,
    ensures
        format == preferred(formats@),
{
    let mut flags: Vec<bool> = Vec::new();
    let mut i: usize = 0;
    while i < formats.len()
        invariant
            i <= formats@.len(),
            flags@ == srgb_flags(formats@.take(i as int)),
        decreases formats@.len() - i,
    {
        flags.push(is_srgb(&formats[i]));
        i = i + 1;
        assert(flags@ =~= srgb_flags(formats@.take(i as int)));
    }
    assert(formats@.take(i as int) =~= formats@);
    formats[first_flagged_index(&flags)]
}

/// A length that a surface can have: at least one pixel.
pub open spec fn at_least_one(length: u32) -> u32 {
    if length == 0 {
        1
    } else {
        length
    }
}

impl SurfaceConfiguration {
    /// The configuration that a surface starts with.
    pub open spec fn first(
        size: PhysicalSize,
        formats: Seq<wgpu::TextureFormat>,
        alpha_modes: Seq<wgpu::CompositeAlphaMode>,
    ) -> SurfaceConfiguration {
        SurfaceConfiguration {
            usage: RENDER_ATTACHMENT,
            format: preferred(formats),
            width: at_least_one(size.width),
            height: at_least_one(size.height),
            present_mode: PresentMode::AutoVsync,
            alpha_mode: alpha_modes[0],
            desired_maximum_frame_latency: 2,
        }
    }

    /// The configuration that a surface starts with, for a window of the given size and what
    /// the surface offers: an sRGB format where there is one, the first alpha mode, and no
    /// side without a pixel.
    pub fn new(
        size: PhysicalSize,
        formats: &Vec<wgpu::TextureFormat>,
        alpha_modes: &Vec<wgpu::CompositeAlphaMode>,
    ) -> (config: SurfaceConfiguration)
        requires
            formats@.len() > 0,
            alpha_modes@.len() > 0,
        ensures
            config == SurfaceConfiguration::first(size, formats@, alpha_modes@),
            size.width > 0 ==> config.width == size.width,
            size.height > 0 ==> config.height == size.height,
            size.width == 0 ==> config.width == 1,
            size.height == 0 ==> config.height == 1,
            config.alpha_mode == alpha_modes@[0],
    {
        SurfaceConfiguration {
            usage: RENDER_ATTACHMENT,
            format: preferred_format(formats),
            width: if size.width == 0 { 1 } else { size.width },
            height: if size.height == 0 { 1 } else { size.height },
            present_mode: PresentMode::AutoVsync,
            alpha_mode: alpha_modes[0],
            desired_maximum_frame_latency: 2,
        }
    }

    /// The formats besides its own that views of the surface's textures may have: none.
    pub fn view_formats(&self) -> (formats: Vec<wgpu::TextureFormat>)
        ensures
            formats@ == Seq::<wgpu::TextureFormat>::empty(),
    {
        Vec::new()
    }
}

/// A surface is drawn in sRGB whenever it can be: the preferred format is one of those
/// offered, it is in sRGB if any of them is, and none before it is.
pub proof fn law_srgb_is_preferred(formats: Seq<wgpu::TextureFormat>)
    requires
        formats.len() > 0,
    ensures
        formats.contains(preferred(formats)),
        (exists|i: int| 0 <= i < formats.len() && #[trigger] has_srgb(formats[i])) ==> has_srgb(
            preferred(formats),
        ),
        (forall|i: int| 0 <= i < formats.len() ==> !#[trigger] has_srgb(formats[i]))
            ==> preferred(formats) == formats[0],
        forall|i: int|
            0 <= i < first_flagged(srgb_flags(formats)) ==> !#[trigger] has_srgb(formats[i]),
{
    let flags = srgb_flags(formats);
    flags.index_of_first_ensures(true);
    assert forall|i: int| 0 <= i < formats.len() && #[trigger] has_srgb(
        formats[i],
    ) implies flags.contains(true) by {
        assert(flags[i]);
    }
    assert forall|i: int| 0 <= i < first_flagged(flags) implies !#[trigger] has_srgb(
        formats[i],
    ) by {
        assert(!flags[i]);
    }
}

/// The choice of a format in one piece: it is the one at some place `p` of the list, either in
/// sRGB with none in sRGB before it, or at the front of a list with none in sRGB at all.
pub proof fn law_first_srgb_format_wins(formats: Seq<wgpu::TextureFormat>)
    requires
        formats.len() > 0,
    ensures
        exists|p: int|
            0 <= p < formats.len() && #[trigger] formats[p] == preferred(formats) && (if has_srgb(
                formats[p],
            ) {
                forall|j: int| 0 <= j < p ==> !has_srgb(#[trigger] formats[j])
            } else {
                p == 0 && forall|j: int|
                    0 <= j < formats.len() ==> !has_srgb(#[trigger] formats[j])
            }),
{
    let flags = srgb_flags(formats);
    let p = first_flagged(flags);
    flags.index_of_first_ensures(true);
    assert forall|j: int| 0 <= j < formats.len() implies flags[j] == has_srgb(
        #[trigger] formats[j],
    ) by {}
    if !has_srgb(formats[p]) {
        assert forall|j: int| 0 <= j < formats.len() implies !has_srgb(#[trigger] formats[j]) by {
            if flags[j] {
                assert(flags.contains(true));
            }
        }
    }
    assert(formats[p] == preferred(formats));
}

/// The surface starts with the size of the window, and with one pixel where a side of the window
/// has none.
pub proof fn law_first_configuration_has_the_size_of_the_window(
    size: PhysicalSize,
    formats: Seq<wgpu::TextureFormat>,
    alpha_modes: Seq<wgpu::CompositeAlphaMode>,
)
    ensures
        ({
            let config = SurfaceConfiguration::first(size, formats, alpha_modes);
            &&& size.width > 0 ==> config.width == size.width
            &&& size.height > 0 ==> config.height == size.height
            &&& size.width == 0 ==> config.width == 1
            &&& size.height == 0 ==> config.height == 1
            &&& config.format == preferred(formats)
            &&& config.alpha_mode == alpha_modes[0]
            &&& config.usage == 0x10
            &&& config.present_mode is AutoVsync
            &&& config.desired_maximum_frame_latency == 2
        }),
{
}

} // verus!
