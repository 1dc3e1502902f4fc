//! Images: the builder, the steps of a build, and the finished wrapper.

use crate::consts::FORMAT_R16G16B16A16_SFLOAT;
use crate::consts::IMAGE_ASPECT_COLOR;
use crate::consts::IMAGE_TILING_OPTIMAL;
use crate::consts::IMAGE_TYPE_2D;
use crate::consts::IMAGE_USAGE_COLOR_ATTACHMENT;
use crate::consts::IMAGE_USAGE_SAMPLED;
use crate::consts::IMAGE_USAGE_STORAGE;
use crate::consts::IMAGE_USAGE_TRANSFER_DST;
use crate::consts::IMAGE_USAGE_TRANSFER_SRC;
use crate::consts::LAYOUT_UNDEFINED;
use crate::consts::SAMPLE_COUNT_1;
use crate::consts::SHARING_EXCLUSIVE;
use crate::delete_queue::DeleteQueue;
use crate::delete_queue::DeletionEntry;
use crate::device::refusal;
use crate::device::spec_refusal;
use crate::device::AllocationRequest;
use crate::device::Extent;
use crate::device::ImageCreateInfo;
use crate::device::ImageViewCreateInfo;
use crate::device::MemoryLocation;
use crate::device::Reply;
use crate::device::Request;
use crate::device::Step;
use crate::device::SubresourceRange;
use ash::vk;
use vstd::prelude::*;

verus! {

/// An image on the device together with a view of the whole of it. The
/// objects belong to the deletion queue that the build registered them with.
#[derive(Clone, Copy, Debug)]
pub struct GpuImage {
    pub image: vk::Image,
    pub view: vk::ImageView,
    pub extent: Extent,
    pub format: i32,
}

impl GpuImage {
    /// A builder with the default parameters.
    pub fn builder() -> (r: ImageBuilder)
        ensures
            r == ImageBuilder::spec_default(),
    {
        ImageBuilder::default()
    }
}

/// Parameters of an image that is yet to be built.
#[derive(Clone, Copy, Debug)]
pub struct ImageBuilder {
    pub format: i32,
    pub usage: u32,
    pub extent: Extent,
    pub aspect_flags: u32,
}

impl Default for ImageBuilder {
    fn default() -> (r: Self)
        ensures
            r == ImageBuilder::spec_default(),
    {
        ImageBuilder {
            format: FORMAT_R16G16B16A16_SFLOAT,
            usage: IMAGE_USAGE_TRANSFER_SRC | IMAGE_USAGE_TRANSFER_DST | IMAGE_USAGE_STORAGE
                | IMAGE_USAGE_SAMPLED | IMAGE_USAGE_COLOR_ATTACHMENT,
            extent: Extent { width: 64, height: 64 },
            aspect_flags: IMAGE_ASPECT_COLOR,
        }
    }
}

impl ImageBuilder {
    /// The parameters a builder starts with: a 64 by 64 colour image of four
    /// 16-bit float channels that can be copied from and to, stored to,
    /// sampled and rendered to.
    pub open spec fn spec_default() -> ImageBuilder {
        ImageBuilder {
            format: FORMAT_R16G16B16A16_SFLOAT,
            usage: IMAGE_USAGE_TRANSFER_SRC | IMAGE_USAGE_TRANSFER_DST | IMAGE_USAGE_STORAGE
                | IMAGE_USAGE_SAMPLED | IMAGE_USAGE_COLOR_ATTACHMENT,
            extent: Extent { width: 64, height: 64 },
            aspect_flags: IMAGE_ASPECT_COLOR,
        }
    }

    /// Sets the pixel format.
    pub fn format(self, format: i32) -> (r: Self)
        ensures
            r == (ImageBuilder { format, ..self }),
    {
        ImageBuilder { format, ..self }
    }

    /// Sets the usage flags.
    pub fn usage(self, usage: u32) -> (r: Self)
        ensures
            r == (ImageBuilder { usage, ..self }),
    {
        ImageBuilder { usage, ..self }
    }

    /// Sets the size in pixels.
    pub fn extent(self, extent: Extent) -> (r: Self)
        ensures
            r == (ImageBuilder { extent, ..self }),
    {
        ImageBuilder { extent, ..self }
    }

    /// Sets the aspects that the view covers.
    pub fn aspect_flags(self, aspect_flags: u32) -> (r: Self)
        ensures
            r == (ImageBuilder { aspect_flags, ..self }),
    {
        ImageBuilder { aspect_flags, ..self }
    }

    /// What is asked of the device for the image itself: a two-dimensional
    /// image of one mip level, one layer and one sample per pixel, tiled as
    /// the device likes, used by one queue family at a time.
    pub open spec fn spec_create_info(self) -> ImageCreateInfo {
        ImageCreateInfo {
            image_type: IMAGE_TYPE_2D,
            format: self.format,
            extent: self.extent,
            depth: 1,
            mip_levels: 1,
            array_layers: 1,
            samples: SAMPLE_COUNT_1,
            tiling: IMAGE_TILING_OPTIMAL,
            usage: self.usage,
            sharing_mode: SHARING_EXCLUSIVE,
            initial_layout: LAYOUT_UNDEFINED,
        }
    }

    /// What is asked of the device for the view: the first mip level and
    /// layer of `image`, in the builder's format and aspects.
    pub open spec fn spec_view_info(self, image: vk::Image) -> ImageViewCreateInfo {
        ImageViewCreateInfo {
            view_type: IMAGE_TYPE_2D,
            image,
            format: self.format,
            range: SubresourceRange {
                aspect_mask: self.aspect_flags,
                base_mip_level: 0,
                level_count: 1,
                base_array_layer: 0,
                layer_count: 1,
            },
        }
    }

    /// Starts a build: the first request creates the image itself.
    pub fn build(self) -> (r: (ImageBuild, Request))
        ensures
            r.0 == ImageBuild::Create(self),
            r.1 == Request::CreateImage(self.spec_create_info()),
    {
        (
            ImageBuild::Create(self),
            Request::CreateImage(
                ImageCreateInfo {
                    image_type: IMAGE_TYPE_2D,
                    format: self.format,
                    extent: self.extent,
                    depth: 1,
                    mip_levels: 1,
                    array_layers: 1,
                    samples: SAMPLE_COUNT_1,
                    tiling: IMAGE_TILING_OPTIMAL,
                    usage: self.usage,
                    sharing_mode: SHARING_EXCLUSIVE,
                    initial_layout: LAYOUT_UNDEFINED,
                },
            ),
        )
    }
}

/// A build in progress, named by the request that is pending.
#[derive(Clone, Copy, Debug)]
pub enum ImageBuild {
    /// The image is being created.
    Create(ImageBuilder),
    /// The image's memory requirements are being read.
    Requirements(ImageBuilder, vk::Image),
    /// Device-local memory is being allocated.
    Allocate(ImageBuilder, vk::Image),
    /// The memory is being bound.
    Bind(ImageBuilder, vk::Image),
    /// The view is being created; afterwards the image is ready.
    View(ImageBuilder, vk::Image),
}

impl ImageBuild {
    /// What follows from `reply` in this state.
    pub open spec fn spec_advance(self, reply: Reply) -> Step<ImageBuild, GpuImage> {
        match (self, reply) {
            (ImageBuild::Create(b), Reply::Image(image)) => Step::Next(
                ImageBuild::Requirements(b, image),
                Request::ImageRequirements(image),
            ),
            (ImageBuild::Requirements(b, image), Reply::Requirements(requirements)) => Step::Next(
                ImageBuild::Allocate(b, image),
                Request::Allocate(
                    AllocationRequest {
                        requirements,
                        location: MemoryLocation::GpuOnly,
                        linear: false,
                    },
                ),
            ),
            (ImageBuild::Allocate(b, image), Reply::Allocated(a)) => Step::Next(
                ImageBuild::Bind(b, image),
                Request::BindImageMemory { image, memory: a.memory, offset: a.offset },
            ),
            (ImageBuild::Bind(b, image), Reply::Done) => Step::Next(
                ImageBuild::View(b, image),
                Request::CreateImageView(b.spec_view_info(image)),
            ),
            (ImageBuild::View(b, image), Reply::ImageView(view)) => Step::Done(
                GpuImage { image, view, extent: b.extent, format: b.format },
            ),
            (_, reply) => Step::Failed(spec_refusal(reply)),
        }
    }

    /// The entries that `reply` adds to the deletion queue in this state:
    /// every object is registered as soon as it exists.
    pub open spec fn spec_registered(self, reply: Reply) -> Seq<DeletionEntry> {
        match (self, reply) {
            (ImageBuild::Create(_), Reply::Image(image)) => seq![DeletionEntry::Image(image)],
            (ImageBuild::Allocate(_, _), Reply::Allocated(a)) => seq![
                DeletionEntry::Allocation(a.allocation),
            ],
            (ImageBuild::View(_, _), Reply::ImageView(view)) => seq![DeletionEntry::ImageView(view)],
            _ => Seq::empty(),
        }
    }

    /// Takes the reply to the pending request, registers what was created
    /// with `queue`, and says what comes next.
    pub fn advance(self, reply: Reply, queue: &mut DeleteQueue) -> (r: Step<ImageBuild, GpuImage>)
        ensures
            r == self.spec_advance(reply),
            final(queue)@ == old(queue)@ + self.spec_registered(reply),
    {
        proof {
            assert(old(queue)@ + Seq::<DeletionEntry>::empty() =~= old(queue)@);
        }
        match (self, reply) {
            (ImageBuild::Create(b), Reply::Image(image)) => {
                queue.push(image);
                assert(queue@ =~= old(queue)@ + seq![DeletionEntry::Image(image)]);
                Step::Next(ImageBuild::Requirements(b, image), Request::ImageRequirements(image))
            },
            (ImageBuild::Requirements(b, image), Reply::Requirements(requirements)) => Step::Next(
                ImageBuild::Allocate(b, image),
                Request::Allocate(
                    AllocationRequest {
                        requirements,
                        location: MemoryLocation::GpuOnly,
                        linear: false,
                    },
                ),
            ),
            (ImageBuild::Allocate(b, image), Reply::Allocated(a)) => {
                let memory = a.memory;
                let offset = a.offset;
                queue.push(a.allocation);
                assert(queue@ =~= old(queue)@ + seq![DeletionEntry::Allocation(a.allocation)]);
                Step::Next(
                    ImageBuild::Bind(b, image),
                    Request::BindImageMemory { image, memory, offset },
                )
            },
            (ImageBuild::Bind(b, image), Reply::Done) => Step::Next(
                ImageBuild::View(b, image),
                Request::CreateImageView(
                    ImageViewCreateInfo {
                        view_type: IMAGE_TYPE_2D,
                        image,
                        format: b.format,
                        range: SubresourceRange {
                            aspect_mask: b.aspect_flags,
                            base_mip_level: 0,
                            level_count: 1,
                            base_array_layer: 0,
                            layer_count: 1,
                        },
                    },
                ),
            ),
            (ImageBuild::View(b, image), Reply::ImageView(view)) => {
                queue.push(view);
                assert(queue@ =~= old(queue)@ + seq![DeletionEntry::ImageView(view)]);
                Step::Done(GpuImage { image, view, extent: b.extent, format: b.format })
            },
            (_, reply) => Step::Failed(refusal(reply)),
        }
    }
}

} // verus!
