//! The graphics context: the surface, its swap chain, and the frames
//! acquired from it, as plain values.

use vstd::prelude::*;
use crate::error::ErrorKind;
use crate::event::ScaleFactor;

verus! {

/// Texel formats a colour target can have.
#[derive(Clone, Copy, Debug, PartialEq, Eq, Structural)]
pub enum TextureFormat {
    Rgba8Unorm,
    Rgba8UnormSrgb,
    Bgra8Unorm,
    /// Eight bits per channel, blue first, gamma-correct encoding.
    Bgra8UnormSrgb,
}

/// When a presented image becomes visible.
#[derive(Clone, Copy, Debug, PartialEq, Eq, Structural)]
pub enum PresentMode {
    Immediate,
    /// Frames are handed over without delay and shown at the next vertical
    /// blank: low latency, no tearing.
    Mailbox,
    Fifo,
}

/// What a texture is used for.
#[derive(Clone, Copy, Debug, PartialEq, Eq, Structural)]
pub enum TextureUsage {
    CopySrc,
    CopyDst,
    Sampled,
    Storage,
    OutputAttachment,
}

/// Which adapter to prefer where several are present.
#[derive(Clone, Copy, Debug, PartialEq, Eq, Structural)]
pub enum PowerPreference {
    Default,
    LowPower,
    HighPerformance,
}

/// The set of backends an adapter may come from.
#[derive(Clone, Copy, Debug, PartialEq, Eq, Structural)]
pub enum Backends {
    /// The backends with first-class support.
    Primary,
    Secondary,
    All,
}

/// What the harness asks of the adapter it runs on.
#[derive(Clone, Copy, Debug, PartialEq, Eq, Structural)]
pub struct AdapterRequest {
    pub power_preference: PowerPreference,
    /// The adapter must be able to present to the window's surface.
    pub compatible_with_surface: bool,
    pub backends: Backends,
}

/// What the harness asks of the device. Limits are left at their defaults.
#[derive(Clone, Copy, Debug, PartialEq, Eq, Structural)]
pub struct DeviceRequest {
    pub anisotropic_filtering: bool,
}

/// How the negotiation with the GPU ended.
#[derive(Clone, Copy, Debug, PartialEq, Eq, Structural)]
pub enum GpuProbe {
    /// An adapter was found and it handed out a device and a queue.
    Ready,
    NoAdapter,
    NoDevice,
}

/// The parameters a swap chain is built with.
#[derive(Clone, Copy, Debug, PartialEq, Eq, Structural)]
pub struct SwapChainDescriptor {
    pub usage: TextureUsage,
    pub format: TextureFormat,
    pub width: u32,
    pub height: u32,
    pub present_mode: PresentMode,
}

/// A swap chain of the surface.
///
/// A swap chain is never changed in place. Each one that is built gets the
/// generation after that of the one it replaces.
#[derive(Clone, Copy, Debug, PartialEq, Eq, Structural)]
pub struct SwapChain {
    pub desc: SwapChainDescriptor,
    pub generation: u64,
}

/// The texture of a swap chain that one frame renders into.
#[derive(Debug, PartialEq, Eq, Structural)]
pub struct FrameTarget {
    /// The generation of the swap chain the texture belongs to.
    pub generation: u64,
    pub width: u32,
    pub height: u32,
    pub format: TextureFormat,
}

/// The graphics context.
#[derive(Debug, PartialEq, Eq, Structural)]
pub struct Renderer {
    /// The swap chain that frames are taken from.
    pub swap_chain: SwapChain,
    /// The inner width of the window at the last resize, in physical pixels.
    pub width: u32,
    /// The inner height of the window at the last resize, in physical pixels.
    pub height: u32,
    /// The display scale factor that came with the last resize.
    pub hidpi_factor: ScaleFactor,
}

/// The format every colour target of the harness has.
pub open spec fn surface_format() -> TextureFormat {
    TextureFormat::Bgra8UnormSrgb
}

/// The descriptor of the swap chain for a surface of the given size.
pub open spec fn surface_descriptor(width: u32, height: u32) -> SwapChainDescriptor {
    SwapChainDescriptor {
        usage: TextureUsage::OutputAttachment,
        format: surface_format(),
        width,
        height,
        present_mode: PresentMode::Mailbox,
    }
}

/// The generation that follows `generation`. The counter wraps around; the
/// result always differs from the argument.
pub open spec fn next_generation(generation: u64) -> u64 {
    if generation == u64::MAX {
        0
    } else {
        (generation + 1) as u64
    }
}

/// The request the harness makes for an adapter.
pub fn adapter_request() -> (request: AdapterRequest)
    ensures
        request == (AdapterRequest {
            power_preference: PowerPreference::HighPerformance,
            compatible_with_surface: true,
            backends: Backends::Primary,
        }),
{
    AdapterRequest {
        power_preference: PowerPreference::HighPerformance,
        compatible_with_surface: true,
        backends: Backends::Primary,
    }
}

/// The request the harness makes for a device.
pub fn device_request() -> (request: DeviceRequest)
    ensures
        request == (DeviceRequest { anisotropic_filtering: false }),
{
    DeviceRequest { anisotropic_filtering: false }
}

/// The swap chain for a surface of the given size, with the given generation.
pub fn new_swap_chain(width: u32, height: u32, generation: u64) -> (swap_chain: SwapChain)
    ensures
        swap_chain.desc == surface_descriptor(width, height),
        swap_chain.generation == generation,
{
    SwapChain {
        desc: SwapChainDescriptor {
            usage: TextureUsage::OutputAttachment,
            format: TextureFormat::Bgra8UnormSrgb,
            width,
            height,
            present_mode: PresentMode::Mailbox,
        },
        generation,
    }
}

impl Renderer {
    /// The swap chain matches the recorded size of the window.
    pub open spec fn wf(&self) -> bool {
        self.swap_chain.desc == surface_descriptor(self.width, self.height)
    }

    /// The frame that the current swap chain hands out.
    pub open spec fn current_target(&self) -> FrameTarget {
        FrameTarget {
            generation: self.swap_chain.generation,
            width: self.swap_chain.desc.width,
            height: self.swap_chain.desc.height,
            format: self.swap_chain.desc.format,
        }
    }

    /// The target belongs to the current swap chain.
    pub open spec fn presentable(&self, target: &FrameTarget) -> bool {
        target.generation == self.swap_chain.generation
    }

    /// The context as `resize` leaves it.
    pub open spec fn resized(self, width: u32, height: u32, hidpi_factor: ScaleFactor) -> Renderer {
        Renderer {
            swap_chain: if width != self.width || height != self.height {
                SwapChain {
                    desc: surface_descriptor(width, height),
                    generation: next_generation(self.swap_chain.generation),
                }
            } else {
                self.swap_chain
            },
            width,
            height,
            hidpi_factor,
        }
    }

    /// Sets the context up for a window whose inner size is `width` by
    /// `height` physical pixels, once the GPU has been asked for an adapter
    /// and a device. Without both there is no context.
    pub fn new(probe: GpuProbe, width: u32, height: u32) -> (res: Result<Renderer, ErrorKind>)
        ensures
            probe == GpuProbe::NoAdapter ==> res == Err::<Renderer, ErrorKind>(ErrorKind::NoAdapter),
            probe == GpuProbe::NoDevice ==> res == Err::<Renderer, ErrorKind>(
                ErrorKind::DeviceRequest,
            ),
            probe == GpuProbe::Ready ==> res == Ok::<Renderer, ErrorKind>(
                Renderer {
                    swap_chain: SwapChain { desc: surface_descriptor(width, height), generation: 0 },
                    width,
                    height,
                    hidpi_factor: ScaleFactor::unit(),
                },
            ),
            res matches Ok(renderer) ==> renderer.wf(),
    {
        match probe {
            GpuProbe::NoAdapter => Err(ErrorKind::NoAdapter),
            GpuProbe::NoDevice => Err(ErrorKind::DeviceRequest),
            GpuProbe::Ready => Ok(
                Renderer {
                    swap_chain: new_swap_chain(width, height, 0),
                    width,
                    height,
                    hidpi_factor: ScaleFactor::one(),
                },
            ),
        }
    }

    /// Records the new size and scale factor of the window. Where the size
    /// differs from the recorded one the swap chain is replaced by one of
    /// the new size, and `true` is returned: the embedding program then has
    /// to build that swap chain. Where the size is the same the swap chain
    /// stays as it is.
    pub fn resize(&mut self, width: u32, height: u32, hidpi_factor: ScaleFactor) -> (rebuilt: bool)
        ensures
            *final(self) == old(self).resized(width, height, hidpi_factor),
            rebuilt == (width != old(self).width || height != old(self).height),
            old(self).wf() ==> final(self).wf(),
    {
        let rebuilt = width != self.width || height != self.height;
        self.width = width;
        self.height = height;
        self.hidpi_factor = hidpi_factor;
        if rebuilt {
            let generation: u64 = if self.swap_chain.generation == u64::MAX {
                0
            } else {
                self.swap_chain.generation + 1
            };
            self.swap_chain = new_swap_chain(width, height, generation);
        }
        rebuilt
    }

    /// The current swap chain.
    pub fn swap_chain(&mut self) -> (swap_chain: &mut SwapChain)
        ensures
            *swap_chain == old(self).swap_chain,
            *final(self) == (Renderer { swap_chain: *final(swap_chain), ..*old(self) }),
    {
        &mut self.swap_chain
    }

    /// Takes the next frame from the current swap chain. `ready` tells
    /// whether a presentable texture became available before the wait ran
    /// out.
    pub fn acquire_frame(&self, ready: bool) -> (res: Result<FrameTarget, ErrorKind>)
        ensures
            ready ==> res == Ok::<FrameTarget, ErrorKind>(self.current_target()),
            !ready ==> res == Err::<FrameTarget, ErrorKind>(ErrorKind::FrameAcquisitionTimeout),
    {
        if ready {
            Ok(
                FrameTarget {
                    generation: self.swap_chain.generation,
                    width: self.swap_chain.desc.width,
                    height: self.swap_chain.desc.height,
                    format: self.swap_chain.desc.format,
                },
            )
        } else {
            Err(ErrorKind::FrameAcquisitionTimeout)
        }
    }

    /// Whether a frame taken earlier may still be presented.
    pub fn can_present(&self, target: &FrameTarget) -> (b: bool)
        ensures
            b == self.presentable(target),
    {
        target.generation == self.swap_chain.generation
    }
}

/// A frame acquired before the swap chain was replaced cannot be presented
/// after it.
pub proof fn lemma_rebuild_invalidates_frames(
    renderer: Renderer,
    target: FrameTarget,
    width: u32,
    height: u32,
    hidpi_factor: ScaleFactor,
)
    requires
        renderer.presentable(&target),
        width != renderer.width || height != renderer.height,
    ensures
        !renderer.resized(width, height, hidpi_factor).presentable(&target),
{
}

/// A resize to the recorded size leaves the swap chain, and with it every
/// frame in flight, as it was.
pub proof fn lemma_same_size_keeps_swap_chain(renderer: Renderer, hidpi_factor: ScaleFactor)
    ensures
        renderer.resized(renderer.width, renderer.height, hidpi_factor).swap_chain
            == renderer.swap_chain,
{
}

} // verus!
