//! The swapchain: its creation, its recreation when it has gone stale, and
//! the acquire and present operations around it.

use crate::consts::COLOR_SPACE_SRGB_NONLINEAR;
use crate::consts::COMPOSITE_ALPHA_OPAQUE;
use crate::consts::ERROR_OUT_OF_DATE;
use crate::consts::FORMAT_B8G8R8A8_UNORM;
use crate::consts::IMAGE_USAGE_TRANSFER_DST;
use crate::consts::NOT_READY;
use crate::consts::PRESENT_MODE_FIFO;
use crate::consts::PRESENT_MODE_MAILBOX;
use crate::consts::SURFACE_TRANSFORM_IDENTITY;
use crate::consts::TIMEOUT;
use crate::consts::WAIT_TIMEOUT_NS;
use crate::device::agrees;
use crate::device::refusal;
use crate::device::spec_refusal;
use crate::device::Error;
use crate::device::Extent;
use crate::device::PresentInfo;
use crate::device::Reply;
use crate::device::Request;
use crate::device::RequestView;
use crate::device::Sharing;
use crate::device::Stated;
use crate::device::Step;
use crate::device::SurfaceCapabilities;
use crate::device::SurfaceFormat;
use crate::device::SwapchainCreateInfo;
use crate::queues::QueueFamilies;
use ash::vk;
use vstd::prelude::*;

verus! {

/// The chain of presentable images of a surface.
#[derive(Debug)]
pub struct Swapchain {
    /// The chain itself; `None` once it has been destroyed.
    inner: Option<vk::SwapchainKHR>,
    surface: vk::SurfaceKHR,
    gpu: vk::PhysicalDevice,
    extent: Extent,
    format: i32,
    images: Vec<vk::Image>,
    /// Set when the device has said that the chain no longer matches the
    /// surface; cleared by a recreation only.
    suboptimal: bool,
}

/// The swapchain as contracts see it.
pub struct SwapchainView {
    pub inner: Option<vk::SwapchainKHR>,
    pub surface: vk::SurfaceKHR,
    pub gpu: vk::PhysicalDevice,
    pub extent: Extent,
    pub format: i32,
    pub images: Seq<vk::Image>,
    pub suboptimal: bool,
}

impl SwapchainView {
    /// Whether the chain has to be recreated before an image is acquired:
    /// the device has called it out of step with the surface, or it has been
    /// destroyed.
    pub open spec fn stale(self) -> bool {
        self.suboptimal || self.inner is None
    }
}

impl View for Swapchain {
    type V = SwapchainView;

    closed spec fn view(&self) -> SwapchainView {
        SwapchainView {
            inner: self.inner,
            surface: self.surface,
            gpu: self.gpu,
            extent: self.extent,
            format: self.format,
            images: self.images@,
            suboptimal: self.suboptimal,
        }
    }
}

/// An image of the swapchain that has been acquired for one frame.
#[must_use]
#[derive(Clone, Copy, Debug)]
pub struct SwapchainImage {
    pub image: vk::Image,
    /// The place of the image in its swapchain.
    pub index: u32,
}

impl View for SwapchainImage {
    type V = SwapchainImage;

    open spec fn view(&self) -> SwapchainImage {
        *self
    }
}

/// The format that is preferred where the surface offers it.
pub open spec fn spec_wanted_format() -> SurfaceFormat {
    SurfaceFormat { format: FORMAT_B8G8R8A8_UNORM, color_space: COLOR_SPACE_SRGB_NONLINEAR }
}

/// The format to use of those that the surface offers: the preferred one
/// where it is among them, else the first.
pub open spec fn spec_preferred_format(formats: Seq<SurfaceFormat>) -> SurfaceFormat
    recommends
        formats.len() > 0,
{
    if formats.contains(spec_wanted_format()) {
        spec_wanted_format()
    } else {
        formats[0]
    }
}

/// The present mode to use of those that the surface offers: the one that
/// never blocks where it is among them, else the one that is always there.
pub open spec fn spec_preferred_present_mode(modes: Seq<i32>) -> i32 {
    if modes.contains(PRESENT_MODE_MAILBOX) {
        PRESENT_MODE_MAILBOX
    } else {
        PRESENT_MODE_FIFO
    }
}

/// `value` brought into the range from `low` to `high`; `high` wins where
/// the two cross.
pub open spec fn spec_clamp(value: u32, low: u32, high: u32) -> u32 {
    let raised = if value < low {
        low
    } else {
        value
    };
    if raised > high {
        high
    } else {
        raised
    }
}

/// The extent that a swapchain gets when `wanted` is asked for: each side
/// brought into the range that the surface admits.
pub open spec fn spec_clamp_extent(wanted: Extent, caps: SurfaceCapabilities) -> Extent {
    Extent {
        width: spec_clamp(wanted.width, caps.min_image_extent.width, caps.max_image_extent.width),
        height: spec_clamp(
            wanted.height,
            caps.min_image_extent.height,
            caps.max_image_extent.height,
        ),
    }
}

/// The number of images to ask for: one more than the least that the
/// surface needs, but no more than its limit where it has one.
pub open spec fn spec_image_count(caps: SurfaceCapabilities) -> u32 {
    let wanted = if caps.min_image_count == u32::MAX {
        u32::MAX
    } else {
        (caps.min_image_count + 1) as u32
    };
    if caps.max_image_count != 0 && wanted > caps.max_image_count {
        caps.max_image_count
    } else {
        wanted
    }
}

/// Who shares the images: nobody where one family both draws and presents,
/// else the presenting and the drawing family.
pub open spec fn spec_sharing(present: u32, graphics: u32) -> Sharing {
    if present == graphics {
        Sharing::Exclusive
    } else {
        Sharing::Concurrent(present, graphics)
    }
}

/// Brings `value` into the range from `low` to `high`.
pub fn clamp(value: u32, low: u32, high: u32) -> (r: u32)
    ensures
        r == spec_clamp(value, low, high),
{
    let raised = if value < low {
        low
    } else {
        value
    };
    if raised > high {
        high
    } else {
        raised
    }
}

/// Brings both sides of `wanted` into the range that the surface admits.
pub fn clamp_extent(wanted: Extent, caps: &SurfaceCapabilities) -> (r: Extent)
    ensures
        r == spec_clamp_extent(wanted, *caps),
{
    Extent {
        width: clamp(wanted.width, caps.min_image_extent.width, caps.max_image_extent.width),
        height: clamp(wanted.height, caps.min_image_extent.height, caps.max_image_extent.height),
    }
}

/// Clamping is idempotent: an extent that has been clamped to what a surface
/// admits is left as it is by clamping it again, so recreating with the same
/// size gives the same extent every time.
pub proof fn lemma_clamp_extent_idempotent(wanted: Extent, caps: SurfaceCapabilities)
    ensures
        spec_clamp_extent(spec_clamp_extent(wanted, caps), caps) == spec_clamp_extent(
            wanted,
            caps,
        ),
{
}

/// A clamped extent lies within the surface's limits wherever these do not
/// cross.
pub proof fn lemma_clamp_extent_in_range(wanted: Extent, caps: SurfaceCapabilities)
    requires
        caps.min_image_extent.width <= caps.max_image_extent.width,
        caps.min_image_extent.height <= caps.max_image_extent.height,
    ensures
        caps.min_image_extent.width <= spec_clamp_extent(wanted, caps).width
            <= caps.max_image_extent.width,
        caps.min_image_extent.height <= spec_clamp_extent(wanted, caps).height
            <= caps.max_image_extent.height,
{
}

/// The creation of a swapchain in progress.
#[derive(Debug)]
pub struct SwapchainBuild {
    pub gpu: vk::PhysicalDevice,
    pub surface: vk::SurfaceKHR,
    /// The queue family that presents.
    pub present: u32,
    /// The queue family that draws.
    pub graphics: u32,
    /// The extent that was asked for.
    pub extent: Extent,
    pub stage: BuildStage,
}

/// The stage of a swapchain's creation, named by the request that is pending.
#[derive(Debug)]
pub enum BuildStage {
    /// The surface's formats are being read.
    Formats,
    /// The surface's present modes are being read.
    PresentModes(SurfaceFormat),
    /// The surface's capabilities are being read.
    Capabilities(SurfaceFormat, i32),
    /// The chain is being created with this format and extent.
    Create(SurfaceFormat, Extent),
    /// The chain's images are being read.
    Images(SurfaceFormat, Extent, vk::SwapchainKHR),
    /// The chain has been made and its images could not be read: it is
    /// being destroyed again, and then the creation has failed for the
    /// reason given.
    Abandon(Error),
}

impl View for SwapchainBuild {
    type V = SwapchainBuild;

    open spec fn view(&self) -> SwapchainBuild {
        *self
    }
}

impl SwapchainBuild {
    /// What is asked of the device for the chain itself: images of one layer
    /// that are copied to, shown untransformed and opaque, with hidden
    /// pixels clipped.
    pub open spec fn spec_create_info(
        self,
        format: SurfaceFormat,
        present_mode: i32,
        caps: SurfaceCapabilities,
    ) -> SwapchainCreateInfo {
        SwapchainCreateInfo {
            surface: self.surface,
            sharing: spec_sharing(self.present, self.graphics),
            format,
            present_mode,
            extent: spec_clamp_extent(self.extent, caps),
            min_image_count: spec_image_count(caps),
            array_layers: 1,
            usage: IMAGE_USAGE_TRANSFER_DST,
            pre_transform: SURFACE_TRANSFORM_IDENTITY,
            composite_alpha: COMPOSITE_ALPHA_OPAQUE,
            clipped: true,
        }
    }

    /// What follows from `reply` in this state. A surface that offers no
    /// format at all fails the creation. A chain whose images cannot be
    /// read is destroyed again before the creation fails.
    pub open spec fn spec_advance(self, reply: Reply) -> Stated<SwapchainBuild, SwapchainView> {
        match (self.stage, reply) {
            (BuildStage::Formats, Reply::SurfaceFormats(formats)) => if formats@.len() == 0 {
                Stated::Failed(Error::NoSurfaceFormat)
            } else {
                Stated::Next(
                    SwapchainBuild {
                        stage: BuildStage::PresentModes(spec_preferred_format(formats@)),
                        ..self
                    },
                    RequestView::Plain(
                        Request::SurfacePresentModes { gpu: self.gpu, surface: self.surface },
                    ),
                )
            },
            (BuildStage::PresentModes(format), Reply::PresentModes(modes)) => Stated::Next(
                SwapchainBuild {
                    stage: BuildStage::Capabilities(format, spec_preferred_present_mode(modes@)),
                    ..self
                },
                RequestView::Plain(
                    Request::SurfaceCapabilities { gpu: self.gpu, surface: self.surface },
                ),
            ),
            (BuildStage::Capabilities(format, mode), Reply::Capabilities(caps)) => Stated::Next(
                SwapchainBuild {
                    stage: BuildStage::Create(format, spec_clamp_extent(self.extent, caps)),
                    ..self
                },
                RequestView::Plain(Request::CreateSwapchain(self.spec_create_info(format, mode, caps))),
            ),
            (BuildStage::Create(format, extent), Reply::Swapchain(chain)) => Stated::Next(
                SwapchainBuild { stage: BuildStage::Images(format, extent, chain), ..self },
                RequestView::Plain(Request::SwapchainImages(chain)),
            ),
            (BuildStage::Images(format, extent, chain), Reply::Images(images)) => Stated::Done(
                SwapchainView {
                    inner: Some(chain),
                    surface: self.surface,
                    gpu: self.gpu,
                    extent,
                    format: format.format,
                    images: images@,
                    suboptimal: false,
                },
            ),
            (BuildStage::Images(_, _, chain), reply) => Stated::Next(
                SwapchainBuild { stage: BuildStage::Abandon(spec_refusal(reply)), ..self },
                RequestView::Plain(Request::DestroySwapchain(chain)),
            ),
            (BuildStage::Abandon(e), _) => Stated::Failed(e),
            (_, reply) => Stated::Failed(spec_refusal(reply)),
        }
    }

    /// Takes the reply to the pending request and says what comes next.
    pub fn advance(self, reply: Reply) -> (r: Step<SwapchainBuild, Swapchain>)
        ensures
            agrees(r, self.spec_advance(reply)),
    {
        match (self.stage, reply) {
            (BuildStage::Formats, Reply::SurfaceFormats(formats)) => {
                if formats.len() == 0 {
                    Step::Failed(Error::NoSurfaceFormat)
                } else {
                    let format = Swapchain::preferred_format(&formats);
                    Step::Next(
                        SwapchainBuild { stage: BuildStage::PresentModes(format), ..self },
                        Request::SurfacePresentModes { gpu: self.gpu, surface: self.surface },
                    )
                }
            },
            (BuildStage::PresentModes(format), Reply::PresentModes(modes)) => {
                let mode = Swapchain::preferred_present_mode(&modes);
                Step::Next(
                    SwapchainBuild { stage: BuildStage::Capabilities(format, mode), ..self },
                    Request::SurfaceCapabilities { gpu: self.gpu, surface: self.surface },
                )
            },
            (BuildStage::Capabilities(format, mode), Reply::Capabilities(caps)) => {
                let mut image_count = caps.min_image_count.saturating_add(1);
                if caps.max_image_count != 0 && image_count > caps.max_image_count {
                    image_count = caps.max_image_count;
                }
                let sharing = if self.present == self.graphics {
                    Sharing::Exclusive
                } else {
                    Sharing::Concurrent(self.present, self.graphics)
                };
                let extent = clamp_extent(self.extent, &caps);
                Step::Next(
                    SwapchainBuild { stage: BuildStage::Create(format, extent), ..self },
                    Request::CreateSwapchain(
                        SwapchainCreateInfo {
                            surface: self.surface,
                            sharing,
                            format,
                            present_mode: mode,
                            extent,
                            min_image_count: image_count,
                            array_layers: 1,
                            usage: IMAGE_USAGE_TRANSFER_DST,
                            pre_transform: SURFACE_TRANSFORM_IDENTITY,
                            composite_alpha: COMPOSITE_ALPHA_OPAQUE,
                            clipped: true,
                        },
                    ),
                )
            },
            (BuildStage::Create(format, extent), Reply::Swapchain(chain)) => Step::Next(
                SwapchainBuild { stage: BuildStage::Images(format, extent, chain), ..self },
                Request::SwapchainImages(chain),
            ),
            (BuildStage::Images(format, extent, chain), Reply::Images(images)) => Step::Done(
                Swapchain {
                    inner: Some(chain),
                    surface: self.surface,
                    gpu: self.gpu,
                    extent,
                    format: format.format,
                    images,
                    suboptimal: false,
                },
            ),
            (BuildStage::Images(_, _, chain), reply) => Step::Next(
                SwapchainBuild { stage: BuildStage::Abandon(refusal(reply)), ..self },
                Request::DestroySwapchain(chain),
            ),
            (BuildStage::Abandon(e), _) => Step::Failed(e),
            (_, reply) => Step::Failed(refusal(reply)),
        }
    }
}

impl Swapchain {
    /// Starts the creation of a swapchain for `surface` with the extent
    /// asked for: the first request reads the formats that the surface
    /// offers.
    pub fn new(
        gpu: vk::PhysicalDevice,
        queue_families: &QueueFamilies,
        surface: vk::SurfaceKHR,
        extent: Extent,
    ) -> (r: (SwapchainBuild, Request))
        ensures
            r.0 == (SwapchainBuild {
                gpu,
                surface,
                present: queue_families.present,
                graphics: queue_families.graphics,
                extent,
                stage: BuildStage::Formats,
            }),
            r.1 == (Request::SurfaceFormats { gpu, surface }),
    {
        (
            SwapchainBuild {
                gpu,
                surface,
                present: queue_families.present,
                graphics: queue_families.graphics,
                extent,
                stage: BuildStage::Formats,
            },
            Request::SurfaceFormats { gpu, surface },
        )
    }

    /// The size of the chain's images.
    pub fn extent(&self) -> (r: Extent)
        ensures
            r == self@.extent,
    {
        self.extent
    }

    /// Whether the chain has to be recreated before an image is acquired.
    pub fn is_stale(&self) -> (r: bool)
        ensures
            r == self@.stale(),
    {
        self.suboptimal || self.inner.is_none()
    }

    /// The format to use of those that the surface offers.
    pub fn preferred_format(formats: &Vec<SurfaceFormat>) -> (r: SurfaceFormat)
        requires
            formats@.len() > 0,
        ensures
            r == spec_preferred_format(formats@),
    {
        let mut i: usize = 0;
        while i < formats.len()
            invariant
                i <= formats@.len(),
                forall|j: int| 0 <= j < i ==> formats@[j] != spec_wanted_format(),
            decreases formats@.len() - i,
        {
            let f = formats[i];
            if f.format == FORMAT_B8G8R8A8_UNORM && f.color_space == COLOR_SPACE_SRGB_NONLINEAR {
                assert(formats@[i as int] == spec_wanted_format());
                return f;
            }
            i += 1;
        }
        formats[0]
    }

    /// The present mode to use of those that the surface offers.
    pub fn preferred_present_mode(modes: &Vec<i32>) -> (r: i32)
        ensures
            r == spec_preferred_present_mode(modes@),
    {
        let mut i: usize = 0;
        while i < modes.len()
            invariant
                i <= modes@.len(),
                forall|j: int| 0 <= j < i ==> modes@[j] != PRESENT_MODE_MAILBOX,
            decreases modes@.len() - i,
        {
            if modes[i] == PRESENT_MODE_MAILBOX {
                assert(modes@[i as int] == PRESENT_MODE_MAILBOX);
                return PRESENT_MODE_MAILBOX;
            }
            i += 1;
        }
        PRESENT_MODE_FIFO
    }

    /// Starts the recreation of the chain in place: the first request lets
    /// the device finish what it has been given.
    pub fn recreate(&self, queue_families: &QueueFamilies) -> (r: (SwapchainRecreate, Request))
        ensures
            r.0 == SwapchainRecreate::WaitIdle(queue_families.present, queue_families.graphics),
            r.1 == Request::WaitIdle,
    {
        (
            SwapchainRecreate::WaitIdle(queue_families.present, queue_families.graphics),
            Request::WaitIdle,
        )
    }

    /// Starts the acquisition of the next image; `on_acquire` is signaled
    /// when the image is ready. A stale chain is recreated first.
    pub fn acquire(&self, on_acquire: vk::Semaphore, queue_families: &QueueFamilies) -> (r: Step<
        SwapchainAcquire,
        SwapchainImage,
    >)
        ensures
            agrees(
                r,
                (SwapchainAcquire {
                    on_acquire,
                    present: queue_families.present,
                    graphics: queue_families.graphics,
                    stage: AcquireStage::Acquiring,
                }).spec_attempt(self@),
            ),
    {
        let machine = SwapchainAcquire {
            on_acquire,
            present: queue_families.present,
            graphics: queue_families.graphics,
            stage: AcquireStage::Acquiring,
        };
        machine.attempt(self)
    }

    /// Starts the presentation of `image` on `queue` once `wait_for` has
    /// been signaled. A chain that has been destroyed presents nothing.
    pub fn present(&self, image: SwapchainImage, queue: vk::Queue, wait_for: vk::Semaphore) -> (r:
        Result<(SwapchainPresent, Request), Error>)
        ensures
            r == match self@.inner {
                Some(live) => Ok::<(SwapchainPresent, Request), Error>(
                    (
                        SwapchainPresent {  },
                        Request::Present(
                            PresentInfo {
                                queue,
                                swapchain: live,
                                image_index: image.index,
                                wait: wait_for,
                            },
                        ),
                    ),
                ),
                None => Err::<(SwapchainPresent, Request), Error>(Error::NoSwapchain),
            },
    {
        match self.inner {
            Some(live) => Ok(
                (
                    SwapchainPresent {  },
                    Request::Present(
                        PresentInfo {
                            queue,
                            swapchain: live,
                            image_index: image.index,
                            wait: wait_for,
                        },
                    ),
                ),
            ),
            None => Err(Error::NoSwapchain),
        }
    }

    /// Gives up the chain: the result is the request that destroys it, or
    /// `None` where it has been destroyed already.
    pub fn destroy(&mut self) -> (r: Option<Request>)
        ensures
            r == match old(self)@.inner {
                Some(chain) => Some(Request::DestroySwapchain(chain)),
                None => None::<Request>,
            },
            final(self)@ == (SwapchainView { inner: None, ..old(self)@ }),
    {
        match self.inner {
            Some(chain) => {
                self.inner = None;
                Some(Request::DestroySwapchain(chain))
            },
            None => None,
        }
    }
}


/// The recreation of a swapchain in progress, named by the request that is
/// pending. It keeps the queue families that present and that draw.
#[derive(Debug)]
pub enum SwapchainRecreate {
    /// The device is finishing what it has been given.
    WaitIdle(u32, u32),
    /// The window's size is being read.
    Size(u32, u32),
    /// The old chain is being destroyed; the new one gets this extent.
    Destroy(u32, u32, Extent),
    /// The new chain is being created.
    Build(SwapchainBuild),
}

impl View for SwapchainRecreate {
    type V = SwapchainRecreate;

    open spec fn view(&self) -> SwapchainRecreate {
        *self
    }
}

impl SwapchainRecreate {
    /// The first stage of the creation of the chain that replaces `chain`.
    pub open spec fn spec_build(
        chain: SwapchainView,
        present: u32,
        graphics: u32,
        extent: Extent,
    ) -> SwapchainBuild {
        SwapchainBuild {
            gpu: chain.gpu,
            surface: chain.surface,
            present,
            graphics,
            extent,
            stage: BuildStage::Formats,
        }
    }

    /// What follows from `reply` in this state, for the chain `chain`.
    /// Whether the device became idle without error does not matter. The
    /// old chain is destroyed before the new one is created, for the same
    /// surface and with the window's size of the moment.
    pub open spec fn spec_advance(self, reply: Reply, chain: SwapchainView) -> Stated<
        SwapchainRecreate,
        (),
    > {
        match (self, reply) {
            (SwapchainRecreate::WaitIdle(present, graphics), Reply::Done) => Stated::Next(
                SwapchainRecreate::Size(present, graphics),
                RequestView::Plain(Request::WindowExtent),
            ),
            (SwapchainRecreate::WaitIdle(present, graphics), Reply::Failed(_)) => Stated::Next(
                SwapchainRecreate::Size(present, graphics),
                RequestView::Plain(Request::WindowExtent),
            ),
            (SwapchainRecreate::Size(present, graphics), Reply::Extent(extent)) => match chain.inner {
                Some(old) => Stated::Next(
                    SwapchainRecreate::Destroy(present, graphics, extent),
                    RequestView::Plain(Request::DestroySwapchain(old)),
                ),
                None => Stated::Next(
                    SwapchainRecreate::Build(Self::spec_build(chain, present, graphics, extent)),
                    RequestView::Plain(
                        Request::SurfaceFormats { gpu: chain.gpu, surface: chain.surface },
                    ),
                ),
            },
            (SwapchainRecreate::Destroy(present, graphics, extent), Reply::Done) => Stated::Next(
                SwapchainRecreate::Build(Self::spec_build(chain, present, graphics, extent)),
                RequestView::Plain(
                    Request::SurfaceFormats { gpu: chain.gpu, surface: chain.surface },
                ),
            ),
            (SwapchainRecreate::Build(build), reply) => match build.spec_advance(reply) {
                Stated::Next(m, request) => Stated::Next(SwapchainRecreate::Build(m), request),
                Stated::Done(_) => Stated::Done(()),
                Stated::Failed(e) => Stated::Failed(e),
            },
            (_, reply) => Stated::Failed(spec_refusal(reply)),
        }
    }

    /// The chain after `reply` in this state: it loses its handle when its
    /// destruction is requested, and is replaced as a whole when the new
    /// chain is complete. A failed recreation leaves it destroyed.
    pub open spec fn spec_chain_after(self, reply: Reply, chain: SwapchainView) -> SwapchainView {
        match (self, reply) {
            (SwapchainRecreate::Size(_, _), Reply::Extent(_)) => SwapchainView {
                inner: None,
                ..chain
            },
            (SwapchainRecreate::Build(build), reply) => match build.spec_advance(reply) {
                Stated::Done(new) => new,
                _ => chain,
            },
            _ => chain,
        }
    }

    /// Takes the reply to the pending request, updates the chain, and says
    /// what comes next.
    pub fn advance(self, reply: Reply, chain: &mut Swapchain) -> (r: Step<SwapchainRecreate, ()>)
        ensures
            agrees(r, self.spec_advance(reply, old(chain)@)),
            final(chain)@ == self.spec_chain_after(reply, old(chain)@),
    {
        match (self, reply) {
            (SwapchainRecreate::WaitIdle(present, graphics), Reply::Done) => Step::Next(
                SwapchainRecreate::Size(present, graphics),
                Request::WindowExtent,
            ),
            (SwapchainRecreate::WaitIdle(present, graphics), Reply::Failed(_)) => Step::Next(
                SwapchainRecreate::Size(present, graphics),
                Request::WindowExtent,
            ),
            (SwapchainRecreate::Size(present, graphics), Reply::Extent(extent)) => {
                let build = SwapchainBuild {
                    gpu: chain.gpu,
                    surface: chain.surface,
                    present,
                    graphics,
                    extent,
                    stage: BuildStage::Formats,
                };
                match chain.destroy() {
                    Some(request) => Step::Next(
                        SwapchainRecreate::Destroy(present, graphics, extent),
                        request,
                    ),
                    None => Step::Next(
                        SwapchainRecreate::Build(build),
                        Request::SurfaceFormats { gpu: chain.gpu, surface: chain.surface },
                    ),
                }
            },
            (SwapchainRecreate::Destroy(present, graphics, extent), Reply::Done) => Step::Next(
                SwapchainRecreate::Build(
                    SwapchainBuild {
                        gpu: chain.gpu,
                        surface: chain.surface,
                        present,
                        graphics,
                        extent,
                        stage: BuildStage::Formats,
                    },
                ),
                Request::SurfaceFormats { gpu: chain.gpu, surface: chain.surface },
            ),
            (SwapchainRecreate::Build(build), reply) => match build.advance(reply) {
                Step::Next(m, request) => Step::Next(SwapchainRecreate::Build(m), request),
                Step::Done(new) => {
                    *chain = new;
                    Step::Done(())
                },
                Step::Failed(e) => Step::Failed(e),
            },
            (_, reply) => Step::Failed(refusal(reply)),
        }
    }
}

/// The acquisition of an image in progress.
#[derive(Debug)]
pub struct SwapchainAcquire {
    /// The semaphore that the device signals when the image is ready.
    pub on_acquire: vk::Semaphore,
    /// The queue family that presents.
    pub present: u32,
    /// The queue family that draws.
    pub graphics: u32,
    pub stage: AcquireStage,
}

/// The stage of an acquisition.
#[derive(Debug)]
pub enum AcquireStage {
    /// The chain is being recreated first.
    Recreating(SwapchainRecreate),
    /// The device has been asked for the next image.
    Acquiring,
}

impl View for SwapchainAcquire {
    type V = SwapchainAcquire;

    open spec fn view(&self) -> SwapchainAcquire {
        *self
    }
}

impl SwapchainAcquire {
    /// What an attempt starts with, for the chain `chain`: a stale chain is
    /// recreated first, a good one is asked for its next image, within one
    /// second.
    pub open spec fn spec_attempt(self, chain: SwapchainView) -> Stated<
        SwapchainAcquire,
        SwapchainImage,
    > {
        if chain.stale() {
            Stated::Next(
                SwapchainAcquire {
                    stage: AcquireStage::Recreating(
                        SwapchainRecreate::WaitIdle(self.present, self.graphics),
                    ),
                    ..self
                },
                RequestView::Plain(Request::WaitIdle),
            )
        } else {
            Stated::Next(
                SwapchainAcquire { stage: AcquireStage::Acquiring, ..self },
                RequestView::Plain(
                    Request::AcquireNextImage {
                        swapchain: chain.inner->Some_0,
                        timeout_ns: WAIT_TIMEOUT_NS,
                        semaphore: self.on_acquire,
                    },
                ),
            )
        }
    }

    /// What follows from `reply` in this state, for the chain `chain`.
    ///
    /// An acquired image ends the operation. A device that is not ready is
    /// asked again. A chain that is out of date is recreated, and then asked
    /// again. Running out of time is fatal, and so is every other refusal.
    pub open spec fn spec_advance(self, reply: Reply, chain: SwapchainView) -> Stated<
        SwapchainAcquire,
        SwapchainImage,
    > {
        match (self.stage, reply) {
            (AcquireStage::Acquiring, Reply::Acquired { index, suboptimal }) => if index
                < chain.images.len() {
                Stated::Done(SwapchainImage { image: chain.images[index as int], index })
            } else {
                Stated::Failed(Error::NoSuchImage(index))
            },
            (AcquireStage::Acquiring, Reply::Failed(code)) => if code == NOT_READY {
                self.spec_attempt(chain)
            } else if code == TIMEOUT {
                Stated::Failed(Error::SwapchainTimeout)
            } else if code == ERROR_OUT_OF_DATE {
                Stated::Next(
                    SwapchainAcquire {
                        stage: AcquireStage::Recreating(
                            SwapchainRecreate::WaitIdle(self.present, self.graphics),
                        ),
                        ..self
                    },
                    RequestView::Plain(Request::WaitIdle),
                )
            } else {
                Stated::Failed(Error::Acquire(code))
            },
            (AcquireStage::Recreating(recreate), reply) => match recreate.spec_advance(
                reply,
                chain,
            ) {
                Stated::Next(m, request) => Stated::Next(
                    SwapchainAcquire { stage: AcquireStage::Recreating(m), ..self },
                    request,
                ),
                Stated::Done(_) => self.spec_attempt(recreate.spec_chain_after(reply, chain)),
                Stated::Failed(e) => Stated::Failed(e),
            },
            (_, reply) => Stated::Failed(spec_refusal(reply)),
        }
    }

    /// The chain after `reply` in this state: an acquired image that the
    /// device calls suboptimal marks the chain for recreation, without
    /// clearing an earlier mark; a recreation changes the chain as it says.
    pub open spec fn spec_chain_after(self, reply: Reply, chain: SwapchainView) -> SwapchainView {
        match (self.stage, reply) {
            (AcquireStage::Acquiring, Reply::Acquired { index, suboptimal }) => SwapchainView {
                suboptimal: chain.suboptimal || suboptimal,
                ..chain
            },
            (AcquireStage::Recreating(recreate), reply) => recreate.spec_chain_after(reply, chain),
            _ => chain,
        }
    }

    /// Starts an attempt on the chain as it stands.
    fn attempt(self, chain: &Swapchain) -> (r: Step<SwapchainAcquire, SwapchainImage>)
        ensures
            agrees(r, self.spec_attempt(chain@)),
    {
        let recreate = Step::Next(
            SwapchainAcquire {
                stage: AcquireStage::Recreating(
                    SwapchainRecreate::WaitIdle(self.present, self.graphics),
                ),
                ..self
            },
            Request::WaitIdle,
        );
        if chain.suboptimal {
            return recreate;
        }
        match chain.inner {
            Some(live) => Step::Next(
                SwapchainAcquire { stage: AcquireStage::Acquiring, ..self },
                Request::AcquireNextImage {
                    swapchain: live,
                    timeout_ns: WAIT_TIMEOUT_NS,
                    semaphore: self.on_acquire,
                },
            ),
            None => recreate,
        }
    }

    /// Takes the reply to the pending request, updates the chain, and says
    /// what comes next.
    pub fn advance(self, reply: Reply, chain: &mut Swapchain) -> (r: Step<
        SwapchainAcquire,
        SwapchainImage,
    >)
        ensures
            agrees(r, self.spec_advance(reply, old(chain)@)),
            final(chain)@ == self.spec_chain_after(reply, old(chain)@),
    {
        match (self.stage, reply) {
            (AcquireStage::Acquiring, Reply::Acquired { index, suboptimal }) => {
                chain.suboptimal = chain.suboptimal || suboptimal;
                if (index as usize) < chain.images.len() {
                    Step::Done(SwapchainImage { image: chain.images[index as usize], index })
                } else {
                    Step::Failed(Error::NoSuchImage(index))
                }
            },
            (AcquireStage::Acquiring, Reply::Failed(code)) => {
                if code == NOT_READY {
                    let again = SwapchainAcquire { stage: AcquireStage::Acquiring, ..self };
                    again.attempt(chain)
                } else if code == TIMEOUT {
                    Step::Failed(Error::SwapchainTimeout)
                } else if code == ERROR_OUT_OF_DATE {
                    Step::Next(
                        SwapchainAcquire {
                            stage: AcquireStage::Recreating(
                                SwapchainRecreate::WaitIdle(self.present, self.graphics),
                            ),
                            ..self
                        },
                        Request::WaitIdle,
                    )
                } else {
                    Step::Failed(Error::Acquire(code))
                }
            },
            (AcquireStage::Recreating(recreate), reply) => match recreate.advance(reply, chain) {
                Step::Next(m, request) => Step::Next(
                    SwapchainAcquire { stage: AcquireStage::Recreating(m), ..self },
                    request,
                ),
                Step::Done(_) => {
                    let again = SwapchainAcquire { stage: AcquireStage::Acquiring, ..self };
                    again.attempt(chain)
                },
                Step::Failed(e) => Step::Failed(e),
            },
            (_, reply) => Step::Failed(refusal(reply)),
        }
    }
}

/// The presentation of an image in progress.
#[derive(Clone, Copy, Debug, PartialEq, Eq, Structural)]
pub struct SwapchainPresent {}

impl View for SwapchainPresent {
    type V = SwapchainPresent;

    open spec fn view(&self) -> SwapchainPresent {
        *self
    }
}

impl SwapchainPresent {
    /// What follows from `reply`: the frame is complete whether or not the
    /// chain has gone stale meanwhile; every other refusal is fatal.
    pub open spec fn spec_advance(self, reply: Reply) -> Stated<SwapchainPresent, ()> {
        match reply {
            Reply::Presented { suboptimal } => Stated::Done(()),
            Reply::Failed(code) => if code == ERROR_OUT_OF_DATE {
                Stated::Done(())
            } else {
                Stated::Failed(Error::Device(code))
            },
            reply => Stated::Failed(spec_refusal(reply)),
        }
    }

    /// The chain after `reply`: a suboptimal or out-of-date presentation
    /// marks it for recreation at the next acquisition.
    pub open spec fn spec_chain_after(self, reply: Reply, chain: SwapchainView) -> SwapchainView {
        match reply {
            Reply::Presented { suboptimal } => SwapchainView {
                suboptimal: chain.suboptimal || suboptimal,
                ..chain
            },
            Reply::Failed(code) => SwapchainView {
                suboptimal: chain.suboptimal || code == ERROR_OUT_OF_DATE,
                ..chain
            },
            _ => chain,
        }
    }

    /// Takes the reply to the presentation, updates the chain, and says how
    /// the operation ended.
    pub fn advance(self, reply: Reply, chain: &mut Swapchain) -> (r: Step<SwapchainPresent, ()>)
        ensures
            agrees(r, self.spec_advance(reply)),
            final(chain)@ == self.spec_chain_after(reply, old(chain)@),
    {
        match reply {
            Reply::Presented { suboptimal } => {
                chain.suboptimal = chain.suboptimal || suboptimal;
                Step::Done(())
            },
            Reply::Failed(code) => {
                if code == ERROR_OUT_OF_DATE {
                    chain.suboptimal = true;
                    Step::Done(())
                } else {
                    Step::Failed(Error::Device(code))
                }
            },
            reply => Step::Failed(refusal(reply)),
        }
    }
}


/// A stale chain is never asked for an image: an attempt on it starts with
/// its recreation.
pub proof fn lemma_stale_chain_is_recreated_first(machine: SwapchainAcquire, chain: SwapchainView)
    requires
        chain.stale(),
    ensures
        machine.spec_attempt(chain) matches Stated::Next(m, request) && request
            == RequestView::Plain(Request::WaitIdle) && m.stage is Recreating,
{
}

/// Once the chain is marked, only a recreation that ran to its end clears
/// the mark: no other step of an acquisition does, and no presentation.
pub proof fn lemma_mark_cleared_by_recreation_only(
    acquire: SwapchainAcquire,
    present: SwapchainPresent,
    reply: Reply,
    chain: SwapchainView,
)
    requires
        chain.suboptimal,
    ensures
        present.spec_chain_after(reply, chain).suboptimal,
        !acquire.spec_chain_after(reply, chain).suboptimal ==> (acquire.stage matches AcquireStage::Recreating(
            SwapchainRecreate::Build(build),
        ) && build.spec_advance(reply) is Done),
{
}

/// A chain that has just been created or recreated is not stale.
pub proof fn lemma_new_chain_is_good(build: SwapchainBuild, reply: Reply)
    ensures
        build.spec_advance(reply) matches Stated::Done(chain) ==> !chain.stale(),
{
}

} // verus!
