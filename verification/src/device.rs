//! The boundary to the device: what the core asks for, and what comes back.
//!
//! An operation of the core that needs the device is a small state machine. It
//! hands out one [`Request`] at a time; whoever drives it performs the request
//! and feeds the [`Reply`] back, until the machine is done or has failed.

use crate::delete_queue::DeletionEntry;
use crate::voxels::Voxel;
use ash::vk;
use gpu_allocator::vulkan::Allocation;
use gpu_allocator::AllocationError;
use vstd::prelude::*;

verus! {

/// Width and height in pixels.
#[derive(Clone, Copy, Debug, PartialEq, Eq, Structural)]
pub struct Extent {
    pub width: u32,
    pub height: u32,
}

/// Where an allocation is asked to live.
#[derive(Clone, Copy, Debug, PartialEq, Eq, Structural)]
pub enum MemoryLocation {
    /// Wherever the driver thinks best.
    Unknown,
    /// Memory that only the device reaches.
    GpuOnly,
    /// Host-visible memory for uploads to the device.
    CpuToGpu,
    /// Host-visible memory for reading results back.
    GpuToCpu,
}

/// What a resource needs of the memory that backs it.
#[derive(Clone, Copy, Debug, PartialEq, Eq, Structural)]
pub struct MemoryRequirements {
    pub size: u64,
    pub alignment: u64,
    pub memory_type_bits: u32,
}

/// Parameters of a buffer to create.
#[derive(Clone, Copy, Debug, PartialEq, Eq, Structural)]
pub struct BufferCreateInfo {
    pub size: u64,
    pub usage: u32,
}

/// Parameters of an allocation to ask of the allocator.
#[derive(Clone, Copy, Debug, PartialEq, Eq, Structural)]
pub struct AllocationRequest {
    pub requirements: MemoryRequirements,
    pub location: MemoryLocation,
    pub linear: bool,
}

/// A block of memory as the allocator handed it out.
#[derive(Debug)]
pub struct Allocated {
    pub allocation: Allocation,
    pub memory: vk::DeviceMemory,
    pub offset: u64,
    /// Address of the host mapping, where the memory is host-visible.
    pub mapped: Option<usize>,
}

/// Parameters of an image to create.
#[derive(Clone, Copy, Debug, PartialEq, Eq, Structural)]
pub struct ImageCreateInfo {
    pub image_type: i32,
    pub format: i32,
    pub extent: Extent,
    pub depth: u32,
    pub mip_levels: u32,
    pub array_layers: u32,
    pub samples: u32,
    pub tiling: i32,
    pub usage: u32,
    pub sharing_mode: i32,
    pub initial_layout: i32,
}

/// The part of an image that a view or a barrier covers.
#[derive(Clone, Copy, Debug, PartialEq, Eq, Structural)]
pub struct SubresourceRange {
    pub aspect_mask: u32,
    pub base_mip_level: u32,
    pub level_count: u32,
    pub base_array_layer: u32,
    pub layer_count: u32,
}

/// Parameters of an image view to create.
#[derive(Clone, Copy, Debug, PartialEq, Eq)]
pub struct ImageViewCreateInfo {
    pub view_type: i32,
    pub image: vk::Image,
    pub format: i32,
    pub range: SubresourceRange,
}

/// One binding of a descriptor set layout.
#[derive(Clone, Copy, Debug, PartialEq, Eq, Structural)]
pub struct LayoutBinding {
    pub binding: u32,
    pub descriptor_type: i32,
    pub descriptor_count: u32,
    pub stage_flags: u32,
}

/// How many descriptors of one type a pool can hand out.
#[derive(Clone, Copy, Debug, PartialEq, Eq, Structural)]
pub struct PoolSize {
    pub descriptor_type: i32,
    pub descriptor_count: u32,
}

/// Parameters of a descriptor pool to create.
#[derive(Debug, PartialEq, Eq)]
pub struct DescriptorPoolCreateInfo {
    pub sizes: Vec<PoolSize>,
    pub max_sets: u32,
    pub flags: u32,
}

/// An image as a descriptor refers to it; no sampler is attached.
#[derive(Clone, Copy, Debug, PartialEq, Eq)]
pub struct ImageInfo {
    pub image_view: vk::ImageView,
    pub image_layout: i32,
}

/// One write into a descriptor set.
#[derive(Clone, Copy, Debug, PartialEq, Eq)]
pub struct DescriptorWrite {
    pub dst_set: vk::DescriptorSet,
    pub dst_binding: u32,
    pub dst_array_element: u32,
    pub descriptor_count: u32,
    pub descriptor_type: i32,
    pub image_info: ImageInfo,
}

/// A range of push constants that a pipeline layout admits.
#[derive(Clone, Copy, Debug, PartialEq, Eq, Structural)]
pub struct PushConstantRange {
    pub stage_flags: u32,
    pub offset: u32,
    pub size: u32,
}

/// Parameters of a pipeline layout to create.
#[derive(Clone, Copy, Debug, PartialEq, Eq)]
pub struct PipelineLayoutCreateInfo {
    pub set_layout: vk::DescriptorSetLayout,
    pub push_constant: Option<PushConstantRange>,
}

/// Parameters of a compute pipeline to create. Its one stage runs the entry
/// point `main` of the module.
#[derive(Clone, Copy, Debug, PartialEq, Eq)]
pub struct ComputePipelineCreateInfo {
    pub module: vk::ShaderModule,
    pub layout: vk::PipelineLayout,
}

/// Parameters of a command pool to create.
#[derive(Clone, Copy, Debug, PartialEq, Eq, Structural)]
pub struct CommandPoolCreateInfo {
    pub queue_family_index: u32,
    pub flags: u32,
}

/// A semaphore together with the pipeline stages that wait for it or signal it.
#[derive(Clone, Copy, Debug, PartialEq, Eq)]
pub struct SemaphoreStage {
    pub semaphore: vk::Semaphore,
    pub stage_mask: u64,
}

/// One submission of a recorded command buffer to a queue.
#[derive(Clone, Copy, Debug, PartialEq, Eq)]
pub struct SubmitInfo {
    pub queue: vk::Queue,
    pub command_buffer: vk::CommandBuffer,
    /// The submission starts only when this semaphore is signaled.
    pub wait: Option<SemaphoreStage>,
    /// The submission signals this semaphore when it completes.
    pub signal: Option<SemaphoreStage>,
    /// The submission signals this fence when it completes.
    pub fence: vk::Fence,
}

/// A pixel format with its colour space, as a surface offers it.
#[derive(Clone, Copy, Debug, PartialEq, Eq, Structural)]
pub struct SurfaceFormat {
    pub format: i32,
    pub color_space: i32,
}

/// What a surface can currently do.
#[derive(Clone, Copy, Debug, PartialEq, Eq, Structural)]
pub struct SurfaceCapabilities {
    pub min_image_count: u32,
    /// Zero where there is no upper limit.
    pub max_image_count: u32,
    pub min_image_extent: Extent,
    pub max_image_extent: Extent,
}

/// Which queue families use the images of a swapchain.
#[derive(Clone, Copy, Debug, PartialEq, Eq, Structural)]
pub enum Sharing {
    /// One family at a time; no family is named.
    Exclusive,
    /// These two families at once.
    Concurrent(u32, u32),
}

/// Parameters of a swapchain to create.
#[derive(Clone, Copy, Debug, PartialEq, Eq)]
pub struct SwapchainCreateInfo {
    pub surface: vk::SurfaceKHR,
    pub sharing: Sharing,
    pub format: SurfaceFormat,
    pub present_mode: i32,
    pub extent: Extent,
    pub min_image_count: u32,
    pub array_layers: u32,
    pub usage: u32,
    pub pre_transform: u32,
    pub composite_alpha: u32,
    pub clipped: bool,
}

/// One presentation of a swapchain image.
#[derive(Clone, Copy, Debug, PartialEq, Eq)]
pub struct PresentInfo {
    pub queue: vk::Queue,
    pub swapchain: vk::SwapchainKHR,
    pub image_index: u32,
    pub wait: vk::Semaphore,
}

/// A change of an image's layout, with the memory dependency around it.
#[derive(Clone, Copy, Debug, PartialEq, Eq)]
pub struct ImageBarrier {
    pub image: vk::Image,
    pub old_layout: i32,
    pub new_layout: i32,
    pub src_stage_mask: u64,
    pub src_access_mask: u64,
    pub dst_stage_mask: u64,
    pub dst_access_mask: u64,
    pub src_queue_family_index: u32,
    pub dst_queue_family_index: u32,
    pub range: SubresourceRange,
}

/// A scaled copy of one colour image onto another, with linear filtering,
/// from mip level and layer zero to the same. Each region reaches from the
/// origin to the extent given, one pixel deep.
#[derive(Clone, Copy, Debug, PartialEq, Eq)]
pub struct ImageBlit {
    pub src: vk::Image,
    pub src_layout: i32,
    pub src_extent: Extent,
    pub dst: vk::Image,
    pub dst_layout: i32,
    pub dst_extent: Extent,
    pub aspect_mask: u32,
}

/// One command recorded into a command buffer.
#[derive(Clone, Copy, Debug, PartialEq, Eq)]
pub enum Command {
    Barrier(ImageBarrier),
    Blit(ImageBlit),
    /// Binds a compute pipeline.
    BindPipeline(vk::Pipeline),
    /// Binds one descriptor set for compute, as set number zero.
    BindDescriptorSet { layout: vk::PipelineLayout, set: vk::DescriptorSet },
    /// Runs the bound compute pipeline on this many work groups.
    Dispatch { x: u32, y: u32, z: u32 },
    /// Copies the first `size` bytes of one buffer to the start of another.
    CopyBuffer { src: vk::Buffer, dst: vk::Buffer, size: u64 },
}

/// One thing the core asks of the device, of the allocator or of the window.
#[allow(inconsistent_fields)]
#[derive(Debug)]
pub enum Request {
    CreateBuffer(BufferCreateInfo),
    BufferRequirements(vk::Buffer),
    Allocate(AllocationRequest),
    BindBufferMemory { buffer: vk::Buffer, memory: vk::DeviceMemory, offset: u64 },
    CreateImage(ImageCreateInfo),
    ImageRequirements(vk::Image),
    BindImageMemory { image: vk::Image, memory: vk::DeviceMemory, offset: u64 },
    CreateImageView(ImageViewCreateInfo),
    CreateShaderModule(Vec<u32>),
    CreateDescriptorSetLayout(Vec<LayoutBinding>),
    CreateDescriptorPool(DescriptorPoolCreateInfo),
    ResetDescriptorPool(vk::DescriptorPool),
    AllocateDescriptorSet { pool: vk::DescriptorPool, set_layout: vk::DescriptorSetLayout },
    FreeDescriptorSet { pool: vk::DescriptorPool, set: vk::DescriptorSet },
    UpdateDescriptorSets(Vec<DescriptorWrite>),
    CreatePipelineLayout(PipelineLayoutCreateInfo),
    CreateComputePipeline(ComputePipelineCreateInfo),
    CreateCommandPool(CommandPoolCreateInfo),
    /// Allocates this many primary command buffers from the pool.
    AllocateCommandBuffers { command_pool: vk::CommandPool, count: u32 },
    CreateSemaphore,
    CreateFence { signaled: bool },
    /// Blocks until the fence is signaled or the time has run out.
    WaitForFence { fence: vk::Fence, timeout_ns: u64 },
    ResetFence(vk::Fence),
    ResetCommandBuffer(vk::CommandBuffer),
    /// Begins recording for a single submission.
    BeginCommandBuffer(vk::CommandBuffer),
    EndCommandBuffer(vk::CommandBuffer),
    /// Records the commands into the command buffer, in their order.
    Record { command_buffer: vk::CommandBuffer, commands: Vec<Command> },
    /// Lets the caller of an immediate submission record what it wants.
    RecordCaller(vk::CommandBuffer),
    Submit(SubmitInfo),
    /// Blocks until the device has nothing left to do. A failure is ignored.
    WaitIdle,
    /// Reads the size of the window's drawing area.
    WindowExtent,
    SurfaceFormats { gpu: vk::PhysicalDevice, surface: vk::SurfaceKHR },
    SurfacePresentModes { gpu: vk::PhysicalDevice, surface: vk::SurfaceKHR },
    SurfaceCapabilities { gpu: vk::PhysicalDevice, surface: vk::SurfaceKHR },
    CreateSwapchain(SwapchainCreateInfo),
    SwapchainImages(vk::SwapchainKHR),
    DestroySwapchain(vk::SwapchainKHR),
    /// Asks for the next image, signaling the semaphore when it is ready.
    AcquireNextImage { swapchain: vk::SwapchainKHR, timeout_ns: u64, semaphore: vk::Semaphore },
    Present(PresentInfo),
    /// Destroys the objects in the order given. A failure is reported and
    /// does not stop the rest.
    Destroy(Vec<DeletionEntry>),
    /// Writes the voxels, as the bytes they are made of, to host-visible
    /// memory from the address given.
    WriteMapped { address: usize, voxels: Vec<Voxel> },
    /// Creates the allocator for the device.
    CreateAllocator,
    /// Shuts the allocator down.
    DestroyAllocator,
    DestroyDevice,
    DestroySurface(vk::SurfaceKHR),
    DestroyDebugMessenger(vk::DebugUtilsMessengerEXT),
}

/// A request as contracts see it: a list by the sequence of its items.
#[allow(inconsistent_fields)]
pub enum RequestView {
    /// A request that holds no list, as it is.
    Plain(Request),
    CreateShaderModule(Seq<u32>),
    CreateDescriptorSetLayout(Seq<LayoutBinding>),
    CreateDescriptorPool { sizes: Seq<PoolSize>, max_sets: u32, flags: u32 },
    UpdateDescriptorSets(Seq<DescriptorWrite>),
    Record { command_buffer: vk::CommandBuffer, commands: Seq<Command> },
    Destroy(Seq<DeletionEntry>),
    WriteMapped { address: usize, voxels: Seq<Voxel> },
}

impl View for Request {
    type V = RequestView;

    open spec fn view(&self) -> RequestView {
        match *self {
            Request::CreateShaderModule(code) => RequestView::CreateShaderModule(code@),
            Request::CreateDescriptorSetLayout(bindings) => RequestView::CreateDescriptorSetLayout(
                bindings@,
            ),
            Request::CreateDescriptorPool(info) => RequestView::CreateDescriptorPool {
                sizes: info.sizes@,
                max_sets: info.max_sets,
                flags: info.flags,
            },
            Request::UpdateDescriptorSets(writes) => RequestView::UpdateDescriptorSets(writes@),
            Request::Record { command_buffer, commands } => RequestView::Record {
                command_buffer,
                commands: commands@,
            },
            Request::Destroy(entries) => RequestView::Destroy(entries@),
            Request::WriteMapped { address, voxels } => RequestView::WriteMapped {
                address,
                voxels: voxels@,
            },
            plain => RequestView::Plain(plain),
        }
    }
}

/// What came back for a request.
#[derive(Debug)]
pub enum Reply {
    /// The request succeeded and has nothing to report.
    Done,
    /// The device refused, with its result code.
    Failed(i32),
    /// The allocator refused.
    AllocationFailed(AllocationError),
    /// What the caller was asked to do failed; the caller knows why.
    CallerFailed,
    Buffer(vk::Buffer),
    Requirements(MemoryRequirements),
    Allocated(Allocated),
    Image(vk::Image),
    ImageView(vk::ImageView),
    ShaderModule(vk::ShaderModule),
    DescriptorSetLayout(vk::DescriptorSetLayout),
    DescriptorPool(vk::DescriptorPool),
    DescriptorSets(Vec<vk::DescriptorSet>),
    PipelineLayout(vk::PipelineLayout),
    Pipelines(Vec<vk::Pipeline>),
    CommandPool(vk::CommandPool),
    CommandBuffers(Vec<vk::CommandBuffer>),
    Semaphore(vk::Semaphore),
    Fence(vk::Fence),
    Extent(Extent),
    SurfaceFormats(Vec<SurfaceFormat>),
    PresentModes(Vec<i32>),
    Capabilities(SurfaceCapabilities),
    Swapchain(vk::SwapchainKHR),
    Images(Vec<vk::Image>),
    /// An image was acquired; `suboptimal` says that the swapchain no longer
    /// matches the surface exactly.
    Acquired { index: u32, suboptimal: bool },
    /// The image was queued for presentation.
    Presented { suboptimal: bool },
}

/// Why an operation of the core failed.
#[derive(Debug)]
pub enum Error {
    /// A device call failed, with the device's result code.
    Device(i32),
    /// The allocator refused.
    Allocation(AllocationError),
    /// What the caller was asked to do failed.
    Caller,
    /// The reply does not answer the request that was pending.
    UnexpectedReply,
    /// The device handed out no command buffer.
    NoCommandBuffer,
    /// The device reported success and handed out nothing.
    EmptyReply,
    /// No image of the swapchain became available in time.
    SwapchainTimeout,
    /// Acquiring an image failed for good, with the device's result code.
    Acquire(i32),
    /// The surface offers no format at all.
    NoSurfaceFormat,
    /// The swapchain has been destroyed and not been recreated.
    NoSwapchain,
    /// Memory that was asked to be host-visible is not mapped.
    NotMapped,
    /// The swapchain handed out an image index that it has no image for.
    NoSuchImage(u32),
    /// The push constants do not fit the size that a range can state.
    PushConstantTooLarge,
    /// No physical device can run the renderer.
    NoSuitableGpu,
}

/// Where a state machine stands after a reply.
pub enum Step<M, T> {
    /// Another request is pending.
    Next(M, Request),
    /// The operation has finished with this result.
    Done(T),
    /// The operation has failed; nothing further is requested.
    Failed(Error),
}

/// A step as contracts state it: the machine, the request and the result
/// each by its view.
pub enum Stated<M, T> {
    Next(M, RequestView),
    Done(T),
    Failed(Error),
}

/// Whether the step `taken` is the step `stated`.
pub open spec fn agrees<M: View, T: View>(taken: Step<M, T>, stated: Stated<M::V, T::V>) -> bool {
    match (taken, stated) {
        (Step::Next(m, request), Stated::Next(n, wanted)) => m@ == n && request@ == wanted,
        (Step::Done(result), Stated::Done(view)) => result@ == view,
        (Step::Failed(e), Stated::Failed(f)) => e == f,
        _ => false,
    }
}

/// The error that a reply stands for where a reply of another kind was
/// expected: the device's, the allocator's or the caller's refusal, or a
/// reply out of place.
pub open spec fn spec_refusal(reply: Reply) -> Error {
    match reply {
        Reply::Failed(code) => Error::Device(code),
        Reply::AllocationFailed(e) => Error::Allocation(e),
        Reply::CallerFailed => Error::Caller,
        _ => Error::UnexpectedReply,
    }
}

/// Turns a reply that is not the expected one into the error it stands for.
pub fn refusal(reply: Reply) -> (r: Error)
    ensures
        r == spec_refusal(reply),
{
    match reply {
        Reply::Failed(code) => Error::Device(code),
        Reply::AllocationFailed(e) => Error::Allocation(e),
        Reply::CallerFailed => Error::Caller,
        _ => Error::UnexpectedReply,
    }
}


/// An operation of one request that reports nothing but its success.
#[derive(Clone, Copy, Debug, PartialEq, Eq, Structural)]
pub struct Completion {}

impl View for Completion {
    type V = Completion;

    open spec fn view(&self) -> Completion {
        *self
    }
}

impl Completion {
    /// What follows from `reply`: success ends the operation, anything
    /// else fails it.
    pub open spec fn spec_advance(self, reply: Reply) -> Step<Completion, ()> {
        match reply {
            Reply::Done => Step::Done(()),
            reply => Step::Failed(spec_refusal(reply)),
        }
    }

    /// Takes the reply to the request and says how the operation ended.
    pub fn advance(self, reply: Reply) -> (r: Step<Completion, ()>)
        ensures
            r == self.spec_advance(reply),
    {
        match reply {
            Reply::Done => Step::Done(()),
            reply => Step::Failed(refusal(reply)),
        }
    }
}

} // verus!
