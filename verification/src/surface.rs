//! The surface target: the presentation configuration bound to the window.

use vstd::prelude::*;

verus! {

/// `wgpu::TextureFormat`, the pixel format of a texture. Its values are
/// carried as they are; nothing is known of what is inside one.
#[verifier::external_type_specification]
#[verifier::external_body]
pub struct ExTextureFormat(wgpu::TextureFormat);

/// `wgpu::PresentMode`, how frames are paced to the display. Carried as it
/// is.
#[verifier::external_type_specification]
#[verifier::external_body]
pub struct ExPresentMode(wgpu::PresentMode);

/// `wgpu::CompositeAlphaMode`, how the compositor treats the alpha channel.
/// Carried as it is.
#[verifier::external_type_specification]
#[verifier::external_body]
pub struct ExCompositeAlphaMode(wgpu::CompositeAlphaMode);

/// The answer of `wgpu::TextureFormat::is_srgb` for a format.
pub uninterp spec fn srgb_capable(format: wgpu::TextureFormat) -> bool;

/// Calls `wgpu::TextureFormat::is_srgb`, which compares the format with the
/// same format stripped of its sRGB suffix. Nothing is proved of the answer;
/// the contract only gives it its name.
#[verifier::external_body]
fn is_srgb(format: &wgpu::TextureFormat) -> (b: bool)
    ensures
        b == srgb_capable(*format),
{
    format.is_srgb()
}

/// Width and height of a drawable area, in physical pixels.
#[derive(Clone, Copy, Debug, PartialEq, Eq, Structural)]
pub struct Extent {
    pub width: u32,
    pub height: u32,
}

impl Extent {
    pub fn new(width: u32, height: u32) -> (e: Extent)
        ensures
            e == (Extent { width, height }),
    {
        Extent { width, height }
    }
}

/// `i` is the position of the format to present in: the first one that is
/// sRGB-capable, or the first one of all where none is.
pub open spec fn is_preferred(formats: Seq<wgpu::TextureFormat>, i: int) -> bool {
    &&& 0 <= i < formats.len()
    &&& forall|j: int| 0 <= j < i ==> !srgb_capable(#[trigger] formats[j])
    &&& (srgb_capable(formats[i]) || (i == 0 && forall|j: int|
        0 <= j < formats.len() ==> !srgb_capable(#[trigger] formats[j])))
}

/// At most one position is the preferred one.
pub proof fn lemma_preferred_unique(formats: Seq<wgpu::TextureFormat>, i: int, j: int)
    requires
        is_preferred(formats, i),
        is_preferred(formats, j),
    ensures
        i == j,
{
    if i < j {
        assert(!srgb_capable(formats[i]));
    } else if j < i {
        assert(!srgb_capable(formats[j]));
    }
}

proof fn lemma_preferred_from(formats: Seq<wgpu::TextureFormat>, k: int) -> (i: int)
    requires
        0 <= k <= formats.len(),
        formats.len() > 0,
        forall|j: int| 0 <= j < k ==> !srgb_capable(#[trigger] formats[j]),
    ensures
        is_preferred(formats, i),
    decreases formats.len() - k,
{
    if k == formats.len() {
        0
    } else if srgb_capable(formats[k]) {
        k
    } else {
        lemma_preferred_from(formats, k + 1)
    }
}

/// The preferred position among `formats`, where there is any format.
pub open spec fn preferred_position(formats: Seq<wgpu::TextureFormat>) -> int {
    choose|i: int| is_preferred(formats, i)
}

/// Where a surface offers any format, one of them is the preferred one.
pub proof fn lemma_preferred_exists(formats: Seq<wgpu::TextureFormat>)
    requires
        formats.len() > 0,
    ensures
        is_preferred(formats, preferred_position(formats)),
{
    lemma_preferred_from(formats, 0);
}

/// Picks the presentation format among those that the surface offers, by its
/// position: none where the surface offers none.
pub fn preferred_format(formats: &Vec<wgpu::TextureFormat>) -> (r: Option<usize>)
    ensures
        formats@.len() == 0 <==> r is None,
        r matches Some(i) ==> i == preferred_position(formats@) && is_preferred(
            formats@,
            i as int,
        ),
{
    let n: usize = formats.len();
    if n == 0 {
        return None;
    }
    proof {
        lemma_preferred_exists(formats@);
    }
    let mut i: usize = 0;
    while i < n
        invariant
            n == formats@.len(),
            i <= n,
            is_preferred(formats@, preferred_position(formats@)),
            forall|j: int| 0 <= j < i ==> !srgb_capable(#[trigger] formats@[j]),
        decreases n - i,
    {
        if is_srgb(&formats[i]) {
            proof {
                lemma_preferred_unique(formats@, i as int, preferred_position(formats@));
            }
            return Some(i);
        }
        i = i + 1;
    }
    proof {
        lemma_preferred_unique(formats@, 0, preferred_position(formats@));
    }
    Some(0)
}

/// What the images of the surface may be used for.
#[derive(Clone, Copy, Debug, PartialEq, Eq, Structural)]
pub struct SurfaceUsage {
    pub copy_source: bool,
    pub copy_destination: bool,
    pub texture_binding: bool,
    pub storage_binding: bool,
    pub render_attachment: bool,
}

impl SurfaceUsage {
    /// Output attachment of a render pass, and nothing else.
    pub open spec fn render_target() -> SurfaceUsage {
        SurfaceUsage {
            copy_source: false,
            copy_destination: false,
            texture_binding: false,
            storage_binding: false,
            render_attachment: true,
        }
    }
}

/// Number of frames that the presentation engine may queue in advance.
pub const FRAME_LATENCY: u32 = 2;

/// Why a surface cannot be configured for a window and adapter.
#[derive(Clone, Copy, Debug, PartialEq, Eq, Structural)]
pub enum ConfigureError {
    /// The surface offers no pixel format.
    NoFormat,
    /// The surface offers no present mode.
    NoPresentMode,
    /// The surface offers no alpha-compositing mode.
    NoAlphaMode,
}

/// The configuration that the presentation backend was last given.
#[derive(Clone, Copy, Debug, PartialEq, Eq)]
pub struct SurfaceConfig {
    pub usage: SurfaceUsage,
    pub format: wgpu::TextureFormat,
    pub width: u32,
    pub height: u32,
    pub present_mode: wgpu::PresentMode,
    pub alpha_mode: wgpu::CompositeAlphaMode,
    pub frame_latency: u32,
}

impl SurfaceConfig {
    /// The configuration that `configure` builds from what a surface offers.
    pub open spec fn initial(
        width: u32,
        height: u32,
        format: wgpu::TextureFormat,
        present_mode: wgpu::PresentMode,
        alpha_mode: wgpu::CompositeAlphaMode,
    ) -> SurfaceConfig {
        SurfaceConfig {
            usage: SurfaceUsage::render_target(),
            format,
            width,
            height,
            present_mode,
            alpha_mode,
            frame_latency: FRAME_LATENCY,
        }
    }

    /// The first configuration of a surface, or why it has none.
    pub open spec fn configured(
        width: u32,
        height: u32,
        formats: Seq<wgpu::TextureFormat>,
        present_modes: Seq<wgpu::PresentMode>,
        alpha_modes: Seq<wgpu::CompositeAlphaMode>,
    ) -> Result<SurfaceConfig, ConfigureError> {
        if formats.len() == 0 {
            Err(ConfigureError::NoFormat)
        } else if present_modes.len() == 0 {
            Err(ConfigureError::NoPresentMode)
        } else if alpha_modes.len() == 0 {
            Err(ConfigureError::NoAlphaMode)
        } else {
            Ok(
                SurfaceConfig::initial(
                    width,
                    height,
                    formats[preferred_position(formats)],
                    present_modes[0],
                    alpha_modes[0],
                ),
            )
        }
    }

    /// This configuration with other dimensions.
    pub open spec fn resized(self, width: u32, height: u32) -> SurfaceConfig {
        SurfaceConfig { width, height, ..self }
    }

    pub open spec fn extent(self) -> Extent {
        Extent { width: self.width, height: self.height }
    }

    /// Builds the first configuration of a surface from the size of its window
    /// and from what the surface offers with the chosen adapter: the preferred
    /// format, the first present mode and the first alpha-compositing mode.
    pub fn configure(
        width: u32,
        height: u32,
        formats: &Vec<wgpu::TextureFormat>,
        present_modes: &Vec<wgpu::PresentMode>,
        alpha_modes: &Vec<wgpu::CompositeAlphaMode>,
    ) -> (r: Result<SurfaceConfig, ConfigureError>)
        ensures
            r == SurfaceConfig::configured(
                width,
                height,
                formats@,
                present_modes@,
                alpha_modes@,
            ),
    {
        let chosen: usize = match preferred_format(formats) {
            Some(i) => i,
            None => {
                return Err(ConfigureError::NoFormat);
            },
        };
        if present_modes.len() == 0 {
            return Err(ConfigureError::NoPresentMode);
        }
        if alpha_modes.len() == 0 {
            return Err(ConfigureError::NoAlphaMode);
        }
        Ok(
            SurfaceConfig {
                usage: SurfaceUsage {
                    copy_source: false,
                    copy_destination: false,
                    texture_binding: false,
                    storage_binding: false,
                    render_attachment: true,
                },
                format: formats[chosen],
                width,
                height,
                present_mode: present_modes[0],
                alpha_mode: alpha_modes[0],
                frame_latency: FRAME_LATENCY,
            },
        )
    }

    /// Stores new dimensions. Format, present mode and the rest stay as they
    /// are: only the size of a surface changes during its life.
    pub fn resize(&mut self, width: u32, height: u32)
        ensures
            *final(self) == old(self).resized(width, height),
    {
        self.width = width;
        self.height = height;
    }

    /// The dimensions that the next acquired frame will have.
    pub fn size(&self) -> (e: Extent)
        ensures
            e == self.extent(),
    {
        Extent { width: self.width, height: self.height }
    }
}

/// Resizing to the dimensions that a configuration already has changes
/// nothing.
pub proof fn lemma_resize_unchanged(config: SurfaceConfig)
    ensures
        config.resized(config.width, config.height) == config,
{
}

/// After any two resizes the configuration is what the second alone gives.
pub proof fn lemma_resize_last_wins(config: SurfaceConfig, a: Extent, b: Extent)
    ensures
        config.resized(a.width, a.height).resized(b.width, b.height) == config.resized(
            b.width,
            b.height,
        ),
        config.resized(b.width, b.height).extent() == b,
        config.resized(b.width, b.height).format == config.format,
{
}

/// Why no frame could be acquired from the surface.
#[derive(Clone, Copy, Debug, PartialEq, Eq, Structural)]
pub enum AcquireFailure {
    /// The surface changed and has to be configured again.
    Outdated,
    /// The surface was lost.
    Lost,
    /// No frame became available in time.
    Timeout,
    /// No memory is left for a new frame.
    OutOfMemory,
    /// The device behind the surface was lost.
    DeviceLost,
}

impl AcquireFailure {
    /// A failure after which the host only drops the frame.
    pub open spec fn recoverable(self) -> bool {
        self is Outdated || self is Lost
    }

    pub fn is_recoverable(&self) -> (b: bool)
        ensures
            b == self.recoverable(),
    {
        match self {
            AcquireFailure::Outdated => true,
            AcquireFailure::Lost => true,
            AcquireFailure::Timeout => false,
            AcquireFailure::OutOfMemory => false,
            AcquireFailure::DeviceLost => false,
        }
    }
}

} // verus!
