use ash::vk;
use ash::vk::Handle;
use gpu_allocator::vulkan::Allocation;
use gpu_allocator::AllocationError;
use luminary::boot::BootQueues;
use luminary::buffer::BufferBuild;
use luminary::buffer::GpuBuffer;
use luminary::consts;
use luminary::delete_queue::DeleteQueue;
use luminary::delete_queue::DeletionEntry;
use luminary::descriptor::DescriptorSetUpdateEntry;
use luminary::descriptor::GpuDescriptorPool;
use luminary::descriptor::GpuDescriptorSet;
use luminary::descriptor::GpuDescriptorSetLayout;
use luminary::device::Allocated;
use luminary::device::Command;
use luminary::device::Completion;
use luminary::device::Error;
use luminary::device::Extent;
use luminary::device::MemoryLocation;
use luminary::device::MemoryRequirements;
use luminary::device::Reply;
use luminary::device::Request;
use luminary::device::Sharing;
use luminary::device::Step;
use luminary::device::SurfaceCapabilities;
use luminary::device::SurfaceFormat;
use luminary::frame::FrameInFlight;
use luminary::frame::FramesInFlight;
use luminary::frame::SlotState;
use luminary::graphics::round_up;
use luminary::graphics::work_groups;
use luminary::graphics::Graphics;
use luminary::image::GpuImage;
use luminary::immediate::Immediate;
use luminary::pipeline::ComputePipeline;
use luminary::pipeline::GpuPipelineLayout;
use luminary::queues::QueueFamilies;
use luminary::queues::Queues;
use luminary::shader::Shader;
use luminary::surface::DebugUtils;
use luminary::swapchain::clamp;
use luminary::swapchain::clamp_extent;
use luminary::swapchain::Swapchain;
use luminary::swapchain::SwapchainImage;
use luminary::voxels::Voxel;
use luminary::voxels::VoxelStructure;

/// A device that exists only on paper: it hands out fresh handles and keeps
/// a record of what it was asked.
struct Paper {
    last: u64,
    log: Vec<&'static str>,
    /// Replies to the next requests for an image, first to last; when they
    /// run out, image zero is handed out.
    acquire: Vec<Reply>,
    formats: Vec<SurfaceFormat>,
    modes: Vec<i32>,
    caps: SurfaceCapabilities,
    window: Extent,
    images: u64,
    /// The request, by its name, that the device refuses.
    refuse: Option<&'static str>,
}

fn name(request: &Request) -> &'static str {
    match request {
        Request::CreateBuffer(_) => "create buffer",
        Request::BufferRequirements(_) => "buffer requirements",
        Request::Allocate(_) => "allocate",
        Request::BindBufferMemory { .. } => "bind buffer",
        Request::CreateImage(_) => "create image",
        Request::ImageRequirements(_) => "image requirements",
        Request::BindImageMemory { .. } => "bind image",
        Request::CreateImageView(_) => "create view",
        Request::CreateShaderModule(_) => "create shader",
        Request::CreateDescriptorSetLayout(_) => "create set layout",
        Request::CreateDescriptorPool(_) => "create descriptor pool",
        Request::ResetDescriptorPool(_) => "reset descriptor pool",
        Request::AllocateDescriptorSet { .. } => "allocate set",
        Request::FreeDescriptorSet { .. } => "free set",
        Request::UpdateDescriptorSets(_) => "update sets",
        Request::CreatePipelineLayout(_) => "create pipeline layout",
        Request::CreateComputePipeline(_) => "create pipeline",
        Request::CreateCommandPool(_) => "create command pool",
        Request::AllocateCommandBuffers { .. } => "allocate command buffers",
        Request::CreateSemaphore => "create semaphore",
        Request::CreateFence { .. } => "create fence",
        Request::WaitForFence { .. } => "wait for fence",
        Request::ResetFence(_) => "reset fence",
        Request::ResetCommandBuffer(_) => "reset commands",
        Request::BeginCommandBuffer(_) => "begin",
        Request::EndCommandBuffer(_) => "end",
        Request::Record { .. } => "record",
        Request::RecordCaller(_) => "record caller",
        Request::Submit(_) => "submit",
        Request::WaitIdle => "wait idle",
        Request::WindowExtent => "window extent",
        Request::SurfaceFormats { .. } => "surface formats",
        Request::SurfacePresentModes { .. } => "surface present modes",
        Request::SurfaceCapabilities { .. } => "surface capabilities",
        Request::CreateSwapchain(_) => "create swapchain",
        Request::SwapchainImages(_) => "swapchain images",
        Request::DestroySwapchain(_) => "destroy swapchain",
        Request::AcquireNextImage { .. } => "acquire",
        Request::Present(_) => "present",
        Request::Destroy(_) => "destroy",
        Request::WriteMapped { .. } => "write",
        Request::CreateAllocator => "create allocator",
        Request::DestroyAllocator => "destroy allocator",
        Request::DestroyDevice => "destroy device",
        Request::DestroySurface(_) => "destroy surface",
        Request::DestroyDebugMessenger(_) => "destroy messenger",
    }
}

impl Paper {
    fn new() -> Paper {
        Paper {
            last: 100,
            log: Vec::new(),
            acquire: Vec::new(),
            formats: vec![
                SurfaceFormat { format: 50, color_space: 0 },
                SurfaceFormat { format: consts::FORMAT_B8G8R8A8_UNORM, color_space: 0 },
            ],
            modes: vec![consts::PRESENT_MODE_FIFO, consts::PRESENT_MODE_MAILBOX],
            caps: SurfaceCapabilities {
                min_image_count: 2,
                max_image_count: 0,
                min_image_extent: Extent { width: 1, height: 1 },
                max_image_extent: Extent { width: 4096, height: 4096 },
            },
            window: Extent { width: 800, height: 600 },
            images: 3,
            refuse: None,
        }
    }

    fn fresh(&mut self) -> u64 {
        self.last += 1;
        self.last
    }

    fn count(&self, what: &str) -> usize {
        self.log.iter().filter(|n| **n == what).count()
    }

    fn answer(&mut self, request: &Request) -> Reply {
        let what = name(request);
        self.log.push(what);
        if self.refuse == Some(what) {
            return if what == "allocate" {
                Reply::AllocationFailed(AllocationError::OutOfMemory)
            } else {
                Reply::Failed(-3)
            };
        }
        match request {
            Request::CreateBuffer(_) => Reply::Buffer(vk::Buffer::from_raw(self.fresh())),
            Request::BufferRequirements(_) | Request::ImageRequirements(_) => {
                Reply::Requirements(MemoryRequirements {
                    size: 64,
                    alignment: 16,
                    memory_type_bits: 1,
                })
            }
            Request::Allocate(wanted) => Reply::Allocated(Allocated {
                allocation: Allocation::default(),
                memory: vk::DeviceMemory::from_raw(self.fresh()),
                offset: 128,
                mapped: match wanted.location {
                    MemoryLocation::CpuToGpu | MemoryLocation::GpuToCpu => Some(0x1000),
                    _ => None,
                },
            }),
            Request::CreateImage(_) => Reply::Image(vk::Image::from_raw(self.fresh())),
            Request::CreateImageView(_) => Reply::ImageView(vk::ImageView::from_raw(self.fresh())),
            Request::CreateShaderModule(_) => {
                Reply::ShaderModule(vk::ShaderModule::from_raw(self.fresh()))
            }
            Request::CreateDescriptorSetLayout(_) => {
                Reply::DescriptorSetLayout(vk::DescriptorSetLayout::from_raw(self.fresh()))
            }
            Request::CreateDescriptorPool(_) => {
                Reply::DescriptorPool(vk::DescriptorPool::from_raw(self.fresh()))
            }
            Request::AllocateDescriptorSet { .. } => {
                Reply::DescriptorSets(vec![vk::DescriptorSet::from_raw(self.fresh())])
            }
            Request::CreatePipelineLayout(_) => {
                Reply::PipelineLayout(vk::PipelineLayout::from_raw(self.fresh()))
            }
            Request::CreateComputePipeline(_) => {
                Reply::Pipelines(vec![vk::Pipeline::from_raw(self.fresh())])
            }
            Request::CreateCommandPool(_) => {
                Reply::CommandPool(vk::CommandPool::from_raw(self.fresh()))
            }
            Request::AllocateCommandBuffers { .. } => {
                Reply::CommandBuffers(vec![vk::CommandBuffer::from_raw(self.fresh())])
            }
            Request::CreateSemaphore => Reply::Semaphore(vk::Semaphore::from_raw(self.fresh())),
            Request::CreateFence { .. } => Reply::Fence(vk::Fence::from_raw(self.fresh())),
            Request::WindowExtent => Reply::Extent(self.window),
            Request::SurfaceFormats { .. } => Reply::SurfaceFormats(self.formats.clone()),
            Request::SurfacePresentModes { .. } => Reply::PresentModes(self.modes.clone()),
            Request::SurfaceCapabilities { .. } => Reply::Capabilities(self.caps),
            Request::CreateSwapchain(_) => {
                Reply::Swapchain(vk::SwapchainKHR::from_raw(self.fresh()))
            }
            Request::SwapchainImages(_) => {
                let mut images = Vec::new();
                for _ in 0..self.images {
                    images.push(vk::Image::from_raw(self.fresh()));
                }
                Reply::Images(images)
            }
            Request::AcquireNextImage { .. } => {
                if self.acquire.is_empty() {
                    Reply::Acquired { index: 0, suboptimal: false }
                } else {
                    self.acquire.remove(0)
                }
            }
            Request::Present(_) => Reply::Presented { suboptimal: false },
            _ => Reply::Done,
        }
    }
}

fn families() -> QueueFamilies {
    QueueFamilies { present: 0, graphics: 0, transfer: 1, compute: 2, families: vec![0, 1, 2] }
}

fn kinds(entries: &[DeletionEntry]) -> Vec<&'static str> {
    entries
        .iter()
        .map(|e| match e {
            DeletionEntry::Semaphore(_) => "semaphore",
            DeletionEntry::Fence(_) => "fence",
            DeletionEntry::CommandPool(_) => "command pool",
            DeletionEntry::Image(_) => "image",
            DeletionEntry::ImageView(_) => "image view",
            DeletionEntry::Allocation(_) => "allocation",
            DeletionEntry::ShaderModule(_) => "shader module",
            DeletionEntry::DescriptorPool(_) => "descriptor pool",
            DeletionEntry::DescriptorSetLayout(_) => "descriptor set layout",
            DeletionEntry::Pipeline(_) => "pipeline",
            DeletionEntry::PipelineLayout(_) => "pipeline layout",
            DeletionEntry::Buffer(_) => "buffer",
        })
        .collect()
}

fn build_buffer(
    paper: &mut Paper,
    capacity: usize,
    location: MemoryLocation,
    queue: &mut DeleteQueue,
) -> Result<GpuBuffer, Error> {
    let mut builder = GpuBuffer::builder();
    builder.capacity(capacity).usage(0x21).location(location);
    let (mut machine, mut request) = builder.build();
    loop {
        let reply = paper.answer(&request);
        match machine.advance(reply, queue) {
            Step::Next(m, r) => {
                machine = m;
                request = r;
            }
            Step::Done(buffer) => return Ok(buffer),
            Step::Failed(e) => return Err(e),
        }
    }
}

fn build_image(
    paper: &mut Paper,
    extent: Extent,
    queue: &mut DeleteQueue,
) -> Result<GpuImage, Error> {
    let (mut machine, mut request) = GpuImage::builder().extent(extent).build();
    loop {
        let reply = paper.answer(&request);
        match machine.advance(reply, queue) {
            Step::Next(m, r) => {
                machine = m;
                request = r;
            }
            Step::Done(image) => return Ok(image),
            Step::Failed(e) => return Err(e),
        }
    }
}

fn build_swapchain(paper: &mut Paper, extent: Extent) -> Result<Swapchain, Error> {
    let (mut machine, mut request) = Swapchain::new(
        vk::PhysicalDevice::from_raw(1),
        &families(),
        vk::SurfaceKHR::from_raw(2),
        extent,
    );
    loop {
        let reply = paper.answer(&request);
        match machine.advance(reply) {
            Step::Next(m, r) => {
                machine = m;
                request = r;
            }
            Step::Done(chain) => return Ok(chain),
            Step::Failed(e) => return Err(e),
        }
    }
}

fn acquire(paper: &mut Paper, chain: &mut Swapchain) -> Result<SwapchainImage, Error> {
    let mut step = chain.acquire(vk::Semaphore::from_raw(9), &families());
    loop {
        match step {
            Step::Next(m, r) => {
                let reply = paper.answer(&r);
                step = m.advance(reply, chain);
            }
            Step::Done(image) => return Ok(image),
            Step::Failed(e) => return Err(e),
        }
    }
}

fn build_frames(paper: &mut Paper, queue: &mut DeleteQueue) -> Result<FramesInFlight, Error> {
    let (mut machine, mut request) = FramesInFlight::new(&families());
    loop {
        let reply = paper.answer(&request);
        match machine.advance(reply, queue) {
            Step::Next(m, r) => {
                machine = m;
                request = r;
            }
            Step::Done(frames) => return Ok(frames),
            Step::Failed(e) => return Err(e),
        }
    }
}

fn boot(paper: &mut Paper, queues: &mut BootQueues) -> Result<Graphics, Error> {
    let (mut machine, mut request) = Graphics::new(
        DebugUtils::new(vk::DebugUtilsMessengerEXT::from_raw(3)),
        vk::SurfaceKHR::from_raw(2),
        vk::PhysicalDevice::from_raw(1),
        families(),
        Queues {
            present: vk::Queue::from_raw(10),
            graphics: vk::Queue::from_raw(11),
            transfer: vk::Queue::from_raw(12),
            compute: vk::Queue::from_raw(13),
        },
        paper.window,
        vec![0x0723_0203, 1, 2, 3],
        0,
    );
    loop {
        let reply = paper.answer(&request);
        match machine.advance(reply, queues) {
            Step::Next(m, r) => {
                machine = m;
                request = r;
            }
            Step::Done(graphics) => return Ok(graphics),
            Step::Failed(e) => return Err(e),
        }
    }
}

fn draw(paper: &mut Paper, graphics: &mut Graphics) -> Result<(), Error> {
    let (mut machine, mut request) = graphics.draw();
    loop {
        let reply = paper.answer(&request);
        match machine.advance(reply, graphics) {
            Step::Next(m, r) => {
                machine = m;
                request = r;
            }
            Step::Done(()) => return Ok(()),
            Step::Failed(e) => return Err(e),
        }
    }
}

fn resize(paper: &mut Paper, graphics: &mut Graphics) -> Result<(), Error> {
    let (mut machine, mut request) = graphics.resize();
    loop {
        let reply = paper.answer(&request);
        match machine.advance(reply, graphics) {
            Step::Next(m, r) => {
                machine = m;
                request = r;
            }
            Step::Done(()) => return Ok(()),
            Step::Failed(e) => return Err(e),
        }
    }
}

#[test]
fn buffer_build_asks_in_order_and_registers_what_it_makes() {
    let mut paper = Paper::new();
    let mut queue = DeleteQueue::new();
    let buffer = build_buffer(&mut paper, 256, MemoryLocation::GpuOnly, &mut queue).unwrap();
    assert_eq!(
        paper.log,
        vec!["create buffer", "buffer requirements", "allocate", "bind buffer"]
    );
    assert_eq!(buffer.size, 256);
    assert_eq!(buffer.ptr, None);
    assert_eq!(buffer.mapped_range(), None);
    assert_eq!(kinds(&queue.flush()), vec!["allocation", "buffer"]);
}

#[test]
fn buffer_build_hands_the_parameters_to_the_device() {
    let mut builder = GpuBuffer::builder();
    assert_eq!(builder.capacity, 0);
    assert_eq!(builder.usage, 0);
    assert_eq!(builder.location, MemoryLocation::GpuOnly);
    builder.capacity(4096).usage(0x22).location(MemoryLocation::CpuToGpu);
    let (machine, request) = builder.build();
    assert!(matches!(request, Request::CreateBuffer(info) if info.size == 4096 && info.usage == 0x22));
    let mut queue = DeleteQueue::new();
    let step = machine.advance(Reply::Buffer(vk::Buffer::from_raw(5)), &mut queue);
    let Step::Next(machine, Request::BufferRequirements(b)) = step else { panic!() };
    assert_eq!(b, vk::Buffer::from_raw(5));
    let wanted = MemoryRequirements { size: 4096, alignment: 256, memory_type_bits: 6 };
    let step = machine.advance(Reply::Requirements(wanted), &mut queue);
    let Step::Next(machine, Request::Allocate(asked)) = step else { panic!() };
    assert_eq!(asked.requirements, wanted);
    assert_eq!(asked.location, MemoryLocation::CpuToGpu);
    assert!(asked.linear);
    let step = machine.advance(
        Reply::Allocated(Allocated {
            allocation: Allocation::default(),
            memory: vk::DeviceMemory::from_raw(77),
            offset: 512,
            mapped: Some(0xbeef),
        }),
        &mut queue,
    );
    let Step::Next(machine, Request::BindBufferMemory { buffer, memory, offset }) = step else {
        panic!()
    };
    assert_eq!(buffer, vk::Buffer::from_raw(5));
    assert_eq!(memory, vk::DeviceMemory::from_raw(77));
    assert_eq!(offset, 512);
    assert!(matches!(machine, BufferBuild::Bind(_)));
    let Step::Done(made) = machine.advance(Reply::Done, &mut queue) else { panic!() };
    assert_eq!(made.buffer, vk::Buffer::from_raw(5));
    assert_eq!(made.mapped_range(), Some((0xbeef, 4096)));
}

#[test]
fn buffer_of_capacity_zero_builds_and_has_an_empty_view() {
    let mut paper = Paper::new();
    let mut queue = DeleteQueue::new();
    let buffer = build_buffer(&mut paper, 0, MemoryLocation::CpuToGpu, &mut queue).unwrap();
    assert_eq!(buffer.size, 0);
    assert_eq!(buffer.mapped_range(), Some((0x1000, 0)));
    assert_eq!(queue.len(), 2);
}

#[test]
fn buffer_build_that_fails_keeps_what_exists_registered() {
    let mut paper = Paper::new();
    paper.refuse = Some("allocate");
    let mut queue = DeleteQueue::new();
    let failed = build_buffer(&mut paper, 16, MemoryLocation::GpuOnly, &mut queue);
    assert!(matches!(failed, Err(Error::Allocation(AllocationError::OutOfMemory))));
    assert_eq!(kinds(&queue.flush()), vec!["buffer"]);

    let mut paper = Paper::new();
    paper.refuse = Some("bind buffer");
    let failed = build_buffer(&mut paper, 16, MemoryLocation::GpuOnly, &mut queue);
    assert!(matches!(failed, Err(Error::Device(-3))));
    assert_eq!(kinds(&queue.flush()), vec!["allocation", "buffer"]);

    let mut paper = Paper::new();
    paper.refuse = Some("create buffer");
    let failed = build_buffer(&mut paper, 16, MemoryLocation::GpuOnly, &mut queue);
    assert!(matches!(failed, Err(Error::Device(-3))));
    assert!(queue.is_empty());
}

#[test]
fn a_reply_out_of_place_fails_the_build() {
    let (machine, _) = GpuBuffer::builder().build();
    let mut queue = DeleteQueue::new();
    let step = machine.advance(Reply::Image(vk::Image::from_raw(1)), &mut queue);
    assert!(matches!(step, Step::Failed(Error::UnexpectedReply)));
    assert!(queue.is_empty());
}

#[test]
fn image_build_asks_in_order_and_registers_what_it_makes() {
    let mut paper = Paper::new();
    let mut queue = DeleteQueue::new();
    let image = build_image(&mut paper, Extent { width: 320, height: 200 }, &mut queue).unwrap();
    assert_eq!(
        paper.log,
        vec!["create image", "image requirements", "allocate", "bind image", "create view"]
    );
    assert_eq!(image.extent, Extent { width: 320, height: 200 });
    assert_eq!(image.format, consts::FORMAT_R16G16B16A16_SFLOAT);
    assert_eq!(kinds(&queue.flush()), vec!["image view", "allocation", "image"]);
}

#[test]
fn image_builder_starts_from_the_defaults() {
    let builder = GpuImage::builder();
    assert_eq!(builder.format, 97);
    assert_eq!(builder.usage, 0x1f);
    assert_eq!(builder.extent, Extent { width: 64, height: 64 });
    assert_eq!(builder.aspect_flags, 1);
    let changed = builder.format(44).usage(2).aspect_flags(2);
    let (_, request) = changed.build();
    let Request::CreateImage(info) = request else { panic!() };
    assert_eq!(info.format, 44);
    assert_eq!(info.usage, 2);
    assert_eq!(info.extent, Extent { width: 64, height: 64 });
    assert_eq!((info.depth, info.mip_levels, info.array_layers), (1, 1, 1));
    assert_eq!(info.image_type, consts::IMAGE_TYPE_2D);
    assert_eq!(info.samples, consts::SAMPLE_COUNT_1);
    assert_eq!(info.tiling, consts::IMAGE_TILING_OPTIMAL);
    assert_eq!(info.sharing_mode, consts::SHARING_EXCLUSIVE);
    assert_eq!(info.initial_layout, consts::LAYOUT_UNDEFINED);
}

#[test]
fn image_build_asks_for_device_local_memory_and_a_view_of_the_aspect() {
    let mut queue = DeleteQueue::new();
    let (machine, _) = GpuImage::builder().aspect_flags(2).build();
    let Step::Next(machine, _) = machine.advance(Reply::Image(vk::Image::from_raw(4)), &mut queue)
    else {
        panic!()
    };
    let wanted = MemoryRequirements { size: 1, alignment: 1, memory_type_bits: 1 };
    let Step::Next(machine, Request::Allocate(asked)) =
        machine.advance(Reply::Requirements(wanted), &mut queue)
    else {
        panic!()
    };
    assert_eq!(asked.location, MemoryLocation::GpuOnly);
    assert!(!asked.linear);
    let Step::Next(machine, Request::BindImageMemory { image, memory, offset }) = machine.advance(
        Reply::Allocated(Allocated {
            allocation: Allocation::default(),
            memory: vk::DeviceMemory::from_raw(8),
            offset: 64,
            mapped: None,
        }),
        &mut queue,
    ) else {
        panic!()
    };
    assert_eq!((image.as_raw(), memory.as_raw(), offset), (4, 8, 64));
    let Step::Next(machine, Request::CreateImageView(view)) =
        machine.advance(Reply::Done, &mut queue)
    else {
        panic!()
    };
    assert_eq!(view.image.as_raw(), 4);
    assert_eq!(view.format, 97);
    assert_eq!(view.range.aspect_mask, 2);
    assert_eq!((view.range.base_mip_level, view.range.level_count), (0, 1));
    assert_eq!((view.range.base_array_layer, view.range.layer_count), (0, 1));
    let Step::Done(made) = machine.advance(Reply::ImageView(vk::ImageView::from_raw(6)), &mut queue)
    else {
        panic!()
    };
    assert_eq!((made.image.as_raw(), made.view.as_raw()), (4, 6));
}

#[test]
fn image_build_that_fails_at_the_view_keeps_image_and_memory_registered() {
    let mut paper = Paper::new();
    paper.refuse = Some("create view");
    let mut queue = DeleteQueue::new();
    let failed = build_image(&mut paper, Extent { width: 8, height: 8 }, &mut queue);
    assert!(matches!(failed, Err(Error::Device(-3))));
    assert_eq!(kinds(&queue.flush()), vec!["allocation", "image"]);
}

#[test]
fn a_slot_is_created_idle_with_a_signaled_fence() {
    let mut paper = Paper::new();
    let mut queue = DeleteQueue::new();
    let (mut machine, mut request) = FrameInFlight::new(&families());
    assert!(matches!(
        request,
        Request::CreateCommandPool(info)
            if info.queue_family_index == 0
                && info.flags == consts::COMMAND_POOL_RESET_COMMAND_BUFFER
    ));
    let mut signaled = Vec::new();
    let frame = loop {
        if let Request::CreateFence { signaled: s } = request {
            signaled.push(s);
        }
        let reply = paper.answer(&request);
        match machine.advance(reply, &mut queue) {
            Step::Next(m, r) => {
                machine = m;
                request = r;
            }
            Step::Done(frame) => break frame,
            Step::Failed(_) => panic!(),
        }
    };
    assert_eq!(signaled, vec![true]);
    assert_eq!(frame.state, SlotState::Idle);
    assert!(frame.delete_queue.is_empty());
    assert_eq!(
        paper.log,
        vec![
            "create command pool",
            "allocate command buffers",
            "create semaphore",
            "create semaphore",
            "create fence"
        ]
    );
    assert_eq!(kinds(&queue.flush()), vec!["fence", "semaphore", "semaphore", "command pool"]);
}

#[test]
fn a_slot_without_a_command_buffer_fails() {
    let mut queue = DeleteQueue::new();
    let (machine, _) = FrameInFlight::new(&families());
    let Step::Next(machine, _) =
        machine.advance(Reply::CommandPool(vk::CommandPool::from_raw(1)), &mut queue)
    else {
        panic!()
    };
    let step = machine.advance(Reply::CommandBuffers(Vec::new()), &mut queue);
    assert!(matches!(step, Step::Failed(Error::NoCommandBuffer)));
    assert_eq!(kinds(&queue.flush()), vec!["command pool"]);
}

#[test]
fn the_ring_rotates_through_its_two_slots() {
    let mut paper = Paper::new();
    let mut queue = DeleteQueue::new();
    let mut ring = build_frames(&mut paper, &mut queue).unwrap();
    assert_eq!(queue.len(), 8);
    let first = ring.get(0).render_fence;
    let second = ring.get(1).render_fence;
    assert_ne!(first, second);
    let (slot, i) = ring.current();
    assert_eq!((i, slot.render_fence), (0, first));
    let (slot, i) = ring.previous();
    assert_eq!((i, slot.render_fence), (1, second));
    let (slot, i) = ring.next();
    assert_eq!((i, slot.render_fence), (1, second));
    let (slot, i) = ring.current();
    assert_eq!((i, slot.render_fence), (1, second));
    let (_, i) = ring.previous();
    assert_eq!(i, 0);
    let (slot, i) = ring.next();
    assert_eq!((i, slot.render_fence), (0, first));
    let (_, i) = ring.current();
    assert_eq!(i, 0);
    let (_, i) = ring.next();
    assert_eq!(i, 1);
    ring.increment();
    let (_, i) = ring.current();
    assert_eq!(i, 0);
    ring.increment();
    ring.increment();
    let (_, i) = ring.current();
    assert_eq!(i, 0);
}

#[test]
fn a_wait_resets_the_fence_and_flushes_the_slot() {
    let mut paper = Paper::new();
    let mut queue = DeleteQueue::new();
    let mut ring = build_frames(&mut paper, &mut queue).unwrap();
    let frame = ring.get(0);
    frame.delete_queue.push(vk::Image::from_raw(1));
    frame.delete_queue.push(vk::ImageView::from_raw(2));
    let fence = frame.render_fence;
    let (op, request) = frame.wait();
    assert!(matches!(
        request,
        Request::WaitForFence { fence: f, timeout_ns: 1_000_000_000 } if f == fence
    ));
    let Step::Next(op, Request::ResetFence(f)) = op.advance(Reply::Done, frame) else { panic!() };
    assert_eq!(f, fence);
    assert_eq!(frame.state, SlotState::Idle);
    assert_eq!(frame.delete_queue.len(), 2);
    let Step::Next(op, Request::Destroy(entries)) = op.advance(Reply::Done, frame) else {
        panic!()
    };
    assert_eq!(kinds(&entries), vec!["image view", "image"]);
    assert_eq!(frame.state, SlotState::Recording);
    assert!(frame.delete_queue.is_empty());
    assert!(matches!(op.advance(Reply::Done, frame), Step::Done(())));
}

#[test]
fn a_wait_on_a_slot_with_nothing_to_destroy_ends_with_the_reset() {
    let mut paper = Paper::new();
    let mut queue = DeleteQueue::new();
    let mut ring = build_frames(&mut paper, &mut queue).unwrap();
    let frame = ring.get(1);
    let (op, _) = frame.wait();
    let Step::Next(op, _) = op.advance(Reply::Done, frame) else { panic!() };
    assert!(matches!(op.advance(Reply::Done, frame), Step::Done(())));
}

#[test]
fn a_wait_that_runs_out_of_time_is_fatal_and_flushes_nothing() {
    let mut paper = Paper::new();
    let mut queue = DeleteQueue::new();
    let mut ring = build_frames(&mut paper, &mut queue).unwrap();
    let frame = ring.get(0);
    frame.delete_queue.push(vk::Image::from_raw(1));
    let (op, _) = frame.wait();
    let step = op.advance(Reply::Failed(consts::TIMEOUT), frame);
    assert!(matches!(step, Step::Failed(Error::Device(2))));
    assert_eq!(frame.delete_queue.len(), 1);
    assert_eq!(frame.state, SlotState::Idle);
}

#[test]
fn a_submission_leaves_the_slot_submitted_until_the_next_wait() {
    let mut paper = Paper::new();
    let mut queue = DeleteQueue::new();
    let mut ring = build_frames(&mut paper, &mut queue).unwrap();
    let frame = ring.get(0);
    let (op, request) = frame.begin();
    assert!(matches!(request, Request::ResetCommandBuffer(c) if c == frame.main_cbuf));
    let Step::Next(op, Request::BeginCommandBuffer(_)) = op.advance(Reply::Done, frame) else {
        panic!()
    };
    assert!(matches!(op.advance(Reply::Done, frame), Step::Done(())));
    let (op, request) = frame.end();
    assert!(matches!(request, Request::EndCommandBuffer(c) if c == frame.main_cbuf));
    assert!(matches!(op.advance(Reply::Done, frame), Step::Done(())));
    let (op, request) = frame.submit(vk::Queue::from_raw(40));
    let Request::Submit(info) = request else { panic!() };
    assert_eq!(info.queue, vk::Queue::from_raw(40));
    assert_eq!(info.command_buffer, frame.main_cbuf);
    assert_eq!(info.fence, frame.render_fence);
    let wait = info.wait.unwrap();
    assert_eq!(wait.semaphore, frame.swapchain_sema);
    assert_eq!(wait.stage_mask, consts::STAGE_COLOR_ATTACHMENT_OUTPUT);
    let signal = info.signal.unwrap();
    assert_eq!(signal.semaphore, frame.render_sema);
    assert_eq!(signal.stage_mask, consts::STAGE_ALL_GRAPHICS);
    assert!(matches!(op.advance(Reply::Done, frame), Step::Done(())));
    assert_eq!(frame.state, SlotState::Submitted);
    let (op, _) = frame.begin();
    let _ = op.advance(Reply::Done, frame);
    assert_eq!(frame.state, SlotState::Submitted);
    let (op, _) = frame.wait();
    let _ = op.advance(Reply::Done, frame);
    assert_eq!(frame.state, SlotState::Idle);
}

#[test]
fn a_submission_that_is_refused_leaves_the_slot_as_it_was() {
    let mut paper = Paper::new();
    let mut queue = DeleteQueue::new();
    let mut ring = build_frames(&mut paper, &mut queue).unwrap();
    let frame = ring.get(0);
    let (op, _) = frame.submit(vk::Queue::from_raw(40));
    assert!(matches!(op.advance(Reply::Failed(-4), frame), Step::Failed(Error::Device(-4))));
    assert_eq!(frame.state, SlotState::Idle);
}

#[test]
fn swapchain_creation_negotiates_format_mode_count_and_extent() {
    let mut paper = Paper::new();
    paper.caps = SurfaceCapabilities {
        min_image_count: 2,
        max_image_count: 8,
        min_image_extent: Extent { width: 100, height: 100 },
        max_image_extent: Extent { width: 640, height: 480 },
    };
    let (mut machine, mut request) = Swapchain::new(
        vk::PhysicalDevice::from_raw(1),
        &QueueFamilies { present: 3, graphics: 5, transfer: 0, compute: 0, families: vec![0, 3, 5] },
        vk::SurfaceKHR::from_raw(2),
        Extent { width: 800, height: 50 },
    );
    let mut asked = None;
    let chain = loop {
        if let Request::CreateSwapchain(info) = &request {
            asked = Some(*info);
        }
        let reply = paper.answer(&request);
        match machine.advance(reply) {
            Step::Next(m, r) => {
                machine = m;
                request = r;
            }
            Step::Done(chain) => break chain,
            Step::Failed(_) => panic!(),
        }
    };
    assert_eq!(
        paper.log,
        vec![
            "surface formats",
            "surface present modes",
            "surface capabilities",
            "create swapchain",
            "swapchain images"
        ]
    );
    let info = asked.unwrap();
    assert_eq!(info.format, SurfaceFormat { format: 44, color_space: 0 });
    assert_eq!(info.present_mode, consts::PRESENT_MODE_MAILBOX);
    assert_eq!(info.min_image_count, 3);
    assert_eq!(info.extent, Extent { width: 640, height: 100 });
    assert_eq!(info.sharing, Sharing::Concurrent(3, 5));
    assert_eq!(info.surface, vk::SurfaceKHR::from_raw(2));
    assert_eq!(info.array_layers, 1);
    assert_eq!(info.usage, consts::IMAGE_USAGE_TRANSFER_DST);
    assert_eq!(info.pre_transform, consts::SURFACE_TRANSFORM_IDENTITY);
    assert_eq!(info.composite_alpha, consts::COMPOSITE_ALPHA_OPAQUE);
    assert!(info.clipped);
    assert_eq!(chain.extent(), Extent { width: 640, height: 100 });
    assert!(!chain.is_stale());
}

#[test]
fn swapchain_creation_respects_the_limit_on_images_and_shares_nothing_within_one_family() {
    let mut paper = Paper::new();
    paper.caps.min_image_count = 4;
    paper.caps.max_image_count = 4;
    paper.formats = vec![SurfaceFormat { format: 50, color_space: 7 }];
    paper.modes = vec![0, 3];
    let (mut machine, mut request) = Swapchain::new(
        vk::PhysicalDevice::from_raw(1),
        &families(),
        vk::SurfaceKHR::from_raw(2),
        Extent { width: 0, height: 9000 },
    );
    let mut asked = None;
    loop {
        if let Request::CreateSwapchain(info) = &request {
            asked = Some(*info);
        }
        let reply = paper.answer(&request);
        match machine.advance(reply) {
            Step::Next(m, r) => {
                machine = m;
                request = r;
            }
            Step::Done(_) => break,
            Step::Failed(_) => panic!(),
        }
    }
    let info = asked.unwrap();
    assert_eq!(info.min_image_count, 4);
    assert_eq!(info.format, SurfaceFormat { format: 50, color_space: 7 });
    assert_eq!(info.present_mode, consts::PRESENT_MODE_FIFO);
    assert_eq!(info.sharing, Sharing::Exclusive);
    assert_eq!(info.extent, Extent { width: 1, height: 4096 });
}

#[test]
fn a_surface_without_formats_fails_the_creation() {
    let mut paper = Paper::new();
    paper.formats = Vec::new();
    let failed = build_swapchain(&mut paper, Extent { width: 10, height: 10 });
    assert!(matches!(failed, Err(Error::NoSurfaceFormat)));
    assert_eq!(paper.log, vec!["surface formats"]);
}

#[test]
fn preferred_format_and_mode() {
    let wanted = SurfaceFormat { format: 44, color_space: 0 };
    let other = SurfaceFormat { format: 44, color_space: 1 };
    let third = SurfaceFormat { format: 37, color_space: 0 };
    assert_eq!(Swapchain::preferred_format(&vec![other, third, wanted]), wanted);
    assert_eq!(Swapchain::preferred_format(&vec![other, third]), other);
    assert_eq!(Swapchain::preferred_format(&vec![third]), third);
    assert_eq!(Swapchain::preferred_present_mode(&vec![0, 2, 1]), 1);
    assert_eq!(Swapchain::preferred_present_mode(&vec![0, 3]), 2);
    assert_eq!(Swapchain::preferred_present_mode(&Vec::new()), 2);
}

#[test]
fn clamping_brings_a_side_into_range_and_is_idempotent() {
    assert_eq!(clamp(5, 10, 20), 10);
    assert_eq!(clamp(15, 10, 20), 15);
    assert_eq!(clamp(25, 10, 20), 20);
    assert_eq!(clamp(10, 10, 20), 10);
    assert_eq!(clamp(20, 10, 20), 20);
    assert_eq!(clamp(15, 20, 10), 10);
    let caps = SurfaceCapabilities {
        min_image_count: 1,
        max_image_count: 0,
        min_image_extent: Extent { width: 16, height: 32 },
        max_image_extent: Extent { width: 1920, height: 1080 },
    };
    let once = clamp_extent(Extent { width: 4000, height: 4 }, &caps);
    assert_eq!(once, Extent { width: 1920, height: 32 });
    assert_eq!(clamp_extent(once, &caps), once);
}

#[test]
fn acquire_on_a_good_chain_asks_once_and_hands_out_the_image() {
    let mut paper = Paper::new();
    let mut chain = build_swapchain(&mut paper, Extent { width: 800, height: 600 }).unwrap();
    paper.log.clear();
    paper.acquire = vec![Reply::Acquired { index: 2, suboptimal: false }];
    let step = chain.acquire(vk::Semaphore::from_raw(9), &families());
    let Step::Next(machine, Request::AcquireNextImage { timeout_ns, semaphore, .. }) = step else {
        panic!()
    };
    assert_eq!(timeout_ns, 1_000_000_000);
    assert_eq!(semaphore, vk::Semaphore::from_raw(9));
    let Step::Done(image) =
        machine.advance(Reply::Acquired { index: 2, suboptimal: false }, &mut chain)
    else {
        panic!()
    };
    assert_eq!(image.index, 2);
    assert!(!chain.is_stale());
}

#[test]
fn acquire_out_of_date_three_times_then_succeeds_on_the_fourth_attempt() {
    let mut paper = Paper::new();
    let mut chain = build_swapchain(&mut paper, Extent { width: 800, height: 600 }).unwrap();
    paper.log.clear();
    paper.acquire = vec![
        Reply::Failed(consts::ERROR_OUT_OF_DATE),
        Reply::Failed(consts::ERROR_OUT_OF_DATE),
        Reply::Failed(consts::ERROR_OUT_OF_DATE),
        Reply::Acquired { index: 1, suboptimal: false },
    ];
    let image = acquire(&mut paper, &mut chain).unwrap();
    assert_eq!(image.index, 1);
    assert_eq!(paper.count("acquire"), 4);
    assert_eq!(paper.count("create swapchain"), 3);
    assert_eq!(paper.count("destroy swapchain"), 3);
    assert!(!chain.is_stale());
}

#[test]
fn acquire_retries_when_the_device_is_not_ready() {
    let mut paper = Paper::new();
    let mut chain = build_swapchain(&mut paper, Extent { width: 800, height: 600 }).unwrap();
    paper.log.clear();
    paper.acquire = vec![
        Reply::Failed(consts::NOT_READY),
        Reply::Failed(consts::NOT_READY),
        Reply::Acquired { index: 0, suboptimal: false },
    ];
    assert!(acquire(&mut paper, &mut chain).is_ok());
    assert_eq!(paper.log, vec!["acquire", "acquire", "acquire"]);
}

#[test]
fn acquire_that_runs_out_of_time_is_fatal() {
    let mut paper = Paper::new();
    let mut chain = build_swapchain(&mut paper, Extent { width: 800, height: 600 }).unwrap();
    paper.acquire = vec![Reply::Failed(consts::TIMEOUT)];
    assert!(matches!(acquire(&mut paper, &mut chain), Err(Error::SwapchainTimeout)));
    paper.acquire = vec![Reply::Failed(-4)];
    assert!(matches!(acquire(&mut paper, &mut chain), Err(Error::Acquire(-4))));
}

#[test]
fn acquire_of_an_image_that_the_chain_does_not_have_fails() {
    let mut paper = Paper::new();
    let mut chain = build_swapchain(&mut paper, Extent { width: 800, height: 600 }).unwrap();
    paper.acquire = vec![Reply::Acquired { index: 3, suboptimal: false }];
    assert!(matches!(acquire(&mut paper, &mut chain), Err(Error::NoSuchImage(3))));
}

#[test]
fn a_suboptimal_image_is_used_and_the_chain_is_recreated_at_the_next_acquire() {
    let mut paper = Paper::new();
    let mut chain = build_swapchain(&mut paper, Extent { width: 800, height: 600 }).unwrap();
    paper.log.clear();
    paper.acquire = vec![Reply::Acquired { index: 1, suboptimal: true }];
    let image = acquire(&mut paper, &mut chain).unwrap();
    assert_eq!(image.index, 1);
    assert_eq!(paper.log, vec!["acquire"]);
    assert!(chain.is_stale());
    paper.log.clear();
    paper.window = Extent { width: 1024, height: 768 };
    assert!(acquire(&mut paper, &mut chain).is_ok());
    assert_eq!(
        paper.log,
        vec![
            "wait idle",
            "window extent",
            "destroy swapchain",
            "surface formats",
            "surface present modes",
            "surface capabilities",
            "create swapchain",
            "swapchain images",
            "acquire"
        ]
    );
    assert!(!chain.is_stale());
    assert_eq!(chain.extent(), Extent { width: 1024, height: 768 });
}

#[test]
fn present_marks_the_chain_and_does_not_fail_the_frame() {
    let mut paper = Paper::new();
    let mut chain = build_swapchain(&mut paper, Extent { width: 800, height: 600 }).unwrap();
    let image = acquire(&mut paper, &mut chain).unwrap();
    let (machine, request) =
        chain.present(image, vk::Queue::from_raw(10), vk::Semaphore::from_raw(20)).unwrap();
    let Request::Present(info) = request else { panic!() };
    assert_eq!(info.queue, vk::Queue::from_raw(10));
    assert_eq!(info.wait, vk::Semaphore::from_raw(20));
    assert_eq!(info.image_index, image.index);
    assert!(matches!(
        machine.advance(Reply::Presented { suboptimal: false }, &mut chain),
        Step::Done(())
    ));
    assert!(!chain.is_stale());
    assert!(matches!(
        machine.advance(Reply::Presented { suboptimal: true }, &mut chain),
        Step::Done(())
    ));
    assert!(chain.is_stale());
    assert!(matches!(
        machine.advance(Reply::Presented { suboptimal: false }, &mut chain),
        Step::Done(())
    ));
    assert!(chain.is_stale());

    let mut chain = build_swapchain(&mut paper, Extent { width: 800, height: 600 }).unwrap();
    assert!(matches!(
        machine.advance(Reply::Failed(consts::ERROR_OUT_OF_DATE), &mut chain),
        Step::Done(())
    ));
    assert!(chain.is_stale());

    let mut chain = build_swapchain(&mut paper, Extent { width: 800, height: 600 }).unwrap();
    assert!(matches!(
        machine.advance(Reply::Failed(-4), &mut chain),
        Step::Failed(Error::Device(-4))
    ));
    assert!(!chain.is_stale());
}

#[test]
fn a_destroyed_chain_presents_nothing_and_is_recreated_before_an_acquire() {
    let mut paper = Paper::new();
    let mut chain = build_swapchain(&mut paper, Extent { width: 800, height: 600 }).unwrap();
    let image = acquire(&mut paper, &mut chain).unwrap();
    assert!(matches!(chain.destroy(), Some(Request::DestroySwapchain(_))));
    assert!(chain.destroy().is_none());
    assert!(chain.is_stale());
    assert!(matches!(
        chain.present(image, vk::Queue::from_raw(1), vk::Semaphore::from_raw(2)),
        Err(Error::NoSwapchain)
    ));
    paper.log.clear();
    assert!(acquire(&mut paper, &mut chain).is_ok());
    assert_eq!(paper.count("destroy swapchain"), 0);
    assert_eq!(paper.count("create swapchain"), 1);
}

#[test]
fn recreate_goes_on_when_the_device_fails_to_become_idle() {
    let mut paper = Paper::new();
    let mut chain = build_swapchain(&mut paper, Extent { width: 800, height: 600 }).unwrap();
    let (machine, request) = chain.recreate(&families());
    assert!(matches!(request, Request::WaitIdle));
    let step = machine.advance(Reply::Failed(-4), &mut chain);
    assert!(matches!(step, Step::Next(_, Request::WindowExtent)));
}

#[test]
fn a_recreation_that_fails_leaves_the_chain_destroyed() {
    let mut paper = Paper::new();
    let mut chain = build_swapchain(&mut paper, Extent { width: 800, height: 600 }).unwrap();
    paper.refuse = Some("create swapchain");
    assert!(matches!(acquire_after_mark(&mut paper, &mut chain), Err(Error::Device(-3))));
    assert!(chain.is_stale());
    assert!(chain.destroy().is_none());
}

fn acquire_after_mark(paper: &mut Paper, chain: &mut Swapchain) -> Result<SwapchainImage, Error> {
    paper.acquire = vec![Reply::Failed(consts::ERROR_OUT_OF_DATE)];
    acquire(paper, chain)
}

#[test]
fn immediate_path_is_created_with_an_unsignaled_fence() {
    let mut paper = Paper::new();
    let (mut machine, mut request) = Immediate::new(vk::Queue::from_raw(12), 1);
    assert!(matches!(
        request,
        Request::CreateCommandPool(info)
            if info.queue_family_index == 1
                && info.flags == consts::COMMAND_POOL_RESET_COMMAND_BUFFER
    ));
    let mut signaled = Vec::new();
    let path = loop {
        if let Request::CreateFence { signaled: s } = request {
            signaled.push(s);
        }
        let reply = paper.answer(&request);
        match machine.advance(reply) {
            Step::Next(m, r) => {
                machine = m;
                request = r;
            }
            Step::Done(path) => break path,
            Step::Failed(_) => panic!(),
        }
    };
    assert_eq!(signaled, vec![false]);
    assert_eq!(paper.log, vec!["create command pool", "allocate command buffers", "create fence"]);
    let Request::Destroy(entries) = path.destroy() else { panic!() };
    assert_eq!(kinds(&entries), vec!["fence", "command pool"]);
}

#[test]
fn immediate_submission_runs_its_steps_in_order() {
    let mut paper = Paper::new();
    let (mut machine, mut request) = Immediate::new(vk::Queue::from_raw(12), 1);
    let path = loop {
        let reply = paper.answer(&request);
        match machine.advance(reply) {
            Step::Next(m, r) => {
                machine = m;
                request = r;
            }
            Step::Done(path) => break path,
            Step::Failed(_) => panic!(),
        }
    };
    paper.log.clear();
    let (mut machine, mut request) = path.submit();
    let mut submitted = None;
    loop {
        if let Request::Submit(info) = &request {
            submitted = Some(*info);
        }
        let reply = paper.answer(&request);
        match machine.advance(reply) {
            Step::Next(m, r) => {
                machine = m;
                request = r;
            }
            Step::Done(()) => break,
            Step::Failed(_) => panic!(),
        }
    }
    assert_eq!(
        paper.log,
        vec![
            "reset fence",
            "reset commands",
            "begin",
            "record caller",
            "end",
            "submit",
            "wait for fence"
        ]
    );
    let info = submitted.unwrap();
    assert_eq!(info.queue, vk::Queue::from_raw(12));
    assert!(info.wait.is_none());
    assert!(info.signal.is_none());
}

#[test]
fn immediate_submission_stops_where_a_step_fails() {
    let mut paper = Paper::new();
    let (mut machine, mut request) = Immediate::new(vk::Queue::from_raw(12), 1);
    let path = loop {
        let reply = paper.answer(&request);
        match machine.advance(reply) {
            Step::Next(m, r) => {
                machine = m;
                request = r;
            }
            Step::Done(path) => break path,
            Step::Failed(_) => panic!(),
        }
    };
    let (machine, _) = path.submit();
    let Step::Next(machine, _) = machine.advance(Reply::Done) else { panic!() };
    let Step::Next(machine, _) = machine.advance(Reply::Done) else { panic!() };
    let Step::Next(machine, Request::RecordCaller(_)) = machine.advance(Reply::Done) else {
        panic!()
    };
    assert!(matches!(machine.advance(Reply::CallerFailed), Step::Failed(Error::Caller)));
    let Step::Next(machine, _) = machine.advance(Reply::Done) else { panic!() };
    let Step::Next(machine, _) = machine.advance(Reply::Done) else { panic!() };
    let Step::Next(machine, Request::WaitForFence { timeout_ns, .. }) =
        machine.advance(Reply::Done)
    else {
        panic!()
    };
    assert_eq!(timeout_ns, 1_000_000_000);
    assert!(matches!(machine.advance(Reply::Failed(2)), Step::Failed(Error::Device(2))));
}

#[test]
fn immediate_path_without_a_command_buffer_fails() {
    let (machine, _) = Immediate::new(vk::Queue::from_raw(12), 1);
    let Step::Next(machine, _) = machine.advance(Reply::CommandPool(vk::CommandPool::from_raw(1)))
    else {
        panic!()
    };
    let Step::Next(machine, Request::Destroy(entries)) =
        machine.advance(Reply::CommandBuffers(Vec::new()))
    else {
        panic!()
    };
    assert!(matches!(entries[..], [DeletionEntry::CommandPool(p)] if p.as_raw() == 1));
    assert!(matches!(machine.advance(Reply::Done), Step::Failed(Error::NoCommandBuffer)));
}

#[test]
fn immediate_path_that_fails_at_its_fence_destroys_its_command_pool() {
    let mut paper = Paper::new();
    paper.refuse = Some("create fence");
    let (mut machine, mut request) = Immediate::new(vk::Queue::from_raw(12), 1);
    let failed = loop {
        let reply = paper.answer(&request);
        match machine.advance(reply) {
            Step::Next(m, r) => {
                machine = m;
                request = r;
            }
            Step::Done(_) => panic!(),
            Step::Failed(e) => break e,
        }
    };
    assert!(matches!(failed, Error::Device(-3)));
    assert_eq!(
        paper.log,
        vec!["create command pool", "allocate command buffers", "create fence", "destroy"]
    );

    let (machine, _) = Immediate::new(vk::Queue::from_raw(12), 1);
    assert!(matches!(machine.advance(Reply::Failed(-1)), Step::Failed(Error::Device(-1))));
}

#[test]
fn descriptor_set_layout_builds_with_its_bindings() {
    let builder = GpuDescriptorSetLayout::builder().add_binding(0, 3, 0x20).add_binding(4, 7, 0x10);
    let (machine, request) = builder.build();
    let Request::CreateDescriptorSetLayout(bindings) = request else { panic!() };
    assert_eq!(bindings.len(), 2);
    assert_eq!(
        (bindings[0].binding, bindings[0].descriptor_type, bindings[0].descriptor_count),
        (0, 3, 1)
    );
    assert_eq!(bindings[0].stage_flags, 0x20);
    assert_eq!((bindings[1].binding, bindings[1].descriptor_type), (4, 7));
    let mut queue = DeleteQueue::new();
    let Step::Done(layout) = machine.advance(
        Reply::DescriptorSetLayout(vk::DescriptorSetLayout::from_raw(5)),
        &mut queue,
    ) else {
        panic!()
    };
    assert_eq!(layout.layout.as_raw(), 5);
    assert_eq!(kinds(&queue.flush()), vec!["descriptor set layout"]);
    assert!(matches!(
        machine.advance(Reply::Failed(-1), &mut queue),
        Step::Failed(Error::Device(-1))
    ));
    assert!(queue.is_empty());
}

#[test]
fn descriptor_pool_builds_allocates_frees_and_resets() {
    let builder = GpuDescriptorPool::builder();
    assert_eq!(builder.max_sets, 10);
    let builder = builder.add_type_allocation(3, 7).max_sets(4);
    let (machine, request) = builder.build();
    let Request::CreateDescriptorPool(info) = request else { panic!() };
    assert_eq!(info.max_sets, 4);
    assert_eq!(info.flags, consts::DESCRIPTOR_POOL_FREE_DESCRIPTOR_SET);
    assert_eq!(info.sizes.len(), 1);
    assert_eq!((info.sizes[0].descriptor_type, info.sizes[0].descriptor_count), (3, 7));
    let mut queue = DeleteQueue::new();
    let Step::Done(pool) =
        machine.advance(Reply::DescriptorPool(vk::DescriptorPool::from_raw(6)), &mut queue)
    else {
        panic!()
    };
    assert_eq!(kinds(&queue.flush()), vec!["descriptor pool"]);
    let layout = GpuDescriptorSetLayout { layout: vk::DescriptorSetLayout::from_raw(5) };
    let (machine, request) = pool.allocate(&layout);
    assert!(matches!(
        request,
        Request::AllocateDescriptorSet { pool, set_layout }
            if pool.as_raw() == 6 && set_layout.as_raw() == 5
    ));
    let Step::Done(set) = machine.advance(Reply::DescriptorSets(vec![
        vk::DescriptorSet::from_raw(8),
        vk::DescriptorSet::from_raw(9),
    ])) else {
        panic!()
    };
    assert_eq!(set.set.as_raw(), 8);
    assert!(matches!(
        machine.advance(Reply::DescriptorSets(Vec::new())),
        Step::Failed(Error::EmptyReply)
    ));
    let (done, request) = pool.free(set);
    assert!(matches!(
        request,
        Request::FreeDescriptorSet { pool, set } if pool.as_raw() == 6 && set.as_raw() == 8
    ));
    assert!(matches!(done.advance(Reply::Done), Step::Done(())));
    let (done, request) = pool.reset();
    assert!(matches!(request, Request::ResetDescriptorPool(p) if p.as_raw() == 6));
    assert!(matches!(done.advance(Reply::Failed(-2)), Step::Failed(Error::Device(-2))));
}

#[test]
fn descriptor_writes_are_sent_in_the_order_in_which_they_were_added() {
    let image = GpuImage {
        image: vk::Image::from_raw(1),
        view: vk::ImageView::from_raw(2),
        extent: Extent { width: 1, height: 1 },
        format: 97,
    };
    let other = GpuImage { view: vk::ImageView::from_raw(3), ..image };
    let mut set = GpuDescriptorSet { set: vk::DescriptorSet::from_raw(4) };
    let mut update = set.update();
    update
        .write(5, DescriptorSetUpdateEntry::storage_image(&image))
        .write(0, DescriptorSetUpdateEntry::storage_image(&other));
    let (_done, request) = update.finish();
    let Request::UpdateDescriptorSets(writes) = request else { panic!() };
    assert_eq!(writes.len(), 2);
    assert_eq!((writes[0].dst_binding, writes[0].image_info.image_view.as_raw()), (5, 2));
    assert_eq!((writes[1].dst_binding, writes[1].image_info.image_view.as_raw()), (0, 3));
    for write in &writes {
        assert_eq!(write.dst_set.as_raw(), 4);
        assert_eq!((write.dst_array_element, write.descriptor_count), (0, 1));
        assert_eq!(write.descriptor_type, consts::DESCRIPTOR_TYPE_STORAGE_IMAGE);
        assert_eq!(write.image_info.image_layout, consts::LAYOUT_GENERAL);
    }
    let _: Completion = _done;
}

#[test]
fn pipeline_layout_has_a_push_constant_range_only_for_push_constants_of_some_size() {
    let layout = GpuDescriptorSetLayout { layout: vk::DescriptorSetLayout::from_raw(5) };
    let (machine, request) = GpuPipelineLayout::new(&layout, 0).unwrap();
    let Request::CreatePipelineLayout(info) = request else { panic!() };
    assert_eq!(info.set_layout.as_raw(), 5);
    assert!(info.push_constant.is_none());
    let mut queue = DeleteQueue::new();
    let Step::Done(made) =
        machine.advance(Reply::PipelineLayout(vk::PipelineLayout::from_raw(7)), &mut queue)
    else {
        panic!()
    };
    assert_eq!((made.layout.as_raw(), made.push_constant_size), (7, 0));
    assert_eq!(kinds(&queue.flush()), vec!["pipeline layout"]);

    let (_, request) = GpuPipelineLayout::new(&layout, 80).unwrap();
    let Request::CreatePipelineLayout(info) = request else { panic!() };
    let range = info.push_constant.unwrap();
    assert_eq!((range.offset, range.size, range.stage_flags), (0, 80, consts::SHADER_STAGE_COMPUTE));
}

#[test]
fn pipeline_layout_refuses_push_constants_that_are_too_large() {
    let layout = GpuDescriptorSetLayout { layout: vk::DescriptorSetLayout::from_raw(5) };
    if usize::BITS > 32 {
        let too_large = (u32::MAX as u64 + 1) as usize;
        assert!(matches!(
            GpuPipelineLayout::new(&layout, too_large),
            Err(Error::PushConstantTooLarge)
        ));
    }
    assert!(GpuPipelineLayout::new(&layout, u32::MAX as usize).is_ok());
}

#[test]
fn shader_and_pipeline_register_themselves() {
    let mut queue = DeleteQueue::new();
    let (machine, request) = Shader::new(vec![7, 8, 9]);
    assert!(matches!(request, Request::CreateShaderModule(code) if code == vec![7, 8, 9]));
    let Step::Done(shader) =
        machine.advance(Reply::ShaderModule(vk::ShaderModule::from_raw(3)), &mut queue)
    else {
        panic!()
    };
    let layout = GpuPipelineLayout { layout: vk::PipelineLayout::from_raw(4), push_constant_size: 16 };
    let (machine, request) = ComputePipeline::new(layout, &shader);
    assert!(matches!(
        request,
        Request::CreateComputePipeline(info)
            if info.module.as_raw() == 3 && info.layout.as_raw() == 4
    ));
    assert!(matches!(
        machine.advance(Reply::Pipelines(Vec::new()), &mut queue),
        Step::Failed(Error::EmptyReply)
    ));
    let Step::Done(pipeline) =
        machine.advance(Reply::Pipelines(vec![vk::Pipeline::from_raw(5)]), &mut queue)
    else {
        panic!()
    };
    assert_eq!(pipeline.pipeline.as_raw(), 5);
    assert!(pipeline.takes_push_constants());
    assert_eq!(kinds(&queue.flush()), vec!["pipeline", "shader module"]);
    assert!(matches!(pipeline.bind(), Command::BindPipeline(p) if p.as_raw() == 5));
    assert!(matches!(
        pipeline.bind_sets(vk::DescriptorSet::from_raw(6)),
        Command::BindDescriptorSet { layout, set } if layout.as_raw() == 4 && set.as_raw() == 6
    ));
    assert!(matches!(pipeline.dispatch((1, 2, 3)), Command::Dispatch { x: 1, y: 2, z: 3 }));
}

#[test]
fn the_renderer_comes_up_in_order() {
    let mut paper = Paper::new();
    let mut queues = BootQueues::new();
    let graphics = boot(&mut paper, &mut queues).unwrap();
    assert_eq!(
        paper.log,
        vec![
            "surface formats",
            "surface present modes",
            "surface capabilities",
            "create swapchain",
            "swapchain images",
            "create allocator",
            "create command pool",
            "allocate command buffers",
            "create semaphore",
            "create semaphore",
            "create fence",
            "create command pool",
            "allocate command buffers",
            "create semaphore",
            "create semaphore",
            "create fence",
            "create image",
            "image requirements",
            "allocate",
            "bind image",
            "create view",
            "create descriptor pool",
            "create set layout",
            "allocate set",
            "update sets",
            "create pipeline layout",
            "create shader",
            "create pipeline",
            "destroy"
        ]
    );
    assert!(queues.global.is_empty());
    assert!(queues.render_target.is_empty());
    assert!(queues.init.is_empty());
    assert_eq!(graphics.global_delete_queue.len(), 12);
    assert_eq!(graphics.render_target_delete_queue.len(), 3);
    assert_eq!(graphics.render_target.extent, Extent { width: 800, height: 600 });
    assert_eq!(graphics.swapchain.extent(), Extent { width: 800, height: 600 });
    assert_eq!(graphics.pipeline.layout.layout, graphics.pipeline_layout.layout);
    assert!(graphics.surface.inner.is_some());
}

#[test]
fn a_renderer_that_fails_to_come_up_destroys_what_it_made_before_it_fails() {
    let mut paper = Paper::new();
    paper.refuse = Some("create pipeline");
    let mut queues = BootQueues::new();
    let (mut machine, mut request) = Graphics::new(
        DebugUtils::new(vk::DebugUtilsMessengerEXT::from_raw(3)),
        vk::SurfaceKHR::from_raw(2),
        vk::PhysicalDevice::from_raw(1),
        families(),
        Queues {
            present: vk::Queue::from_raw(10),
            graphics: vk::Queue::from_raw(11),
            transfer: vk::Queue::from_raw(12),
            compute: vk::Queue::from_raw(13),
        },
        paper.window,
        vec![1, 2, 3],
        0,
    );
    let mut made = None;
    let mut destroyed = None;
    let mut order = Vec::new();
    let failed = loop {
        match &request {
            Request::CreateSwapchain(_) => {}
            Request::Destroy(entries) => order = kinds(entries),
            Request::DestroySwapchain(chain) => destroyed = Some(*chain),
            _ => {}
        }
        let reply = paper.answer(&request);
        if let Reply::Swapchain(chain) = &reply {
            made = Some(*chain);
        }
        match machine.advance(reply, &mut queues) {
            Step::Next(m, r) => {
                machine = m;
                request = r;
            }
            Step::Done(_) => panic!(),
            Step::Failed(e) => break e,
        }
    };
    assert!(matches!(failed, Error::Device(-3)));
    let n = paper.log.len();
    assert_eq!(
        paper.log[n - 4..],
        ["create pipeline", "destroy", "destroy allocator", "destroy swapchain"]
    );
    assert!(made.is_some());
    assert_eq!(destroyed, made);
    assert_eq!(order.len(), 15);
    assert_eq!(
        order[..5],
        ["shader module", "image view", "allocation", "image", "pipeline layout"]
    );
    assert_eq!(order[14], "command pool");
    assert!(queues.global.is_empty() && queues.render_target.is_empty() && queues.init.is_empty());
}

#[test]
fn a_renderer_that_fails_before_the_allocator_destroys_the_swapchain_only() {
    let mut paper = Paper::new();
    paper.refuse = Some("create allocator");
    let mut queues = BootQueues::new();
    assert!(matches!(boot(&mut paper, &mut queues), Err(Error::Device(-3))));
    let n = paper.log.len();
    assert_eq!(paper.log[n - 3..], ["swapchain images", "create allocator", "destroy swapchain"]);
    assert_eq!(paper.count("destroy allocator"), 0);
    assert_eq!(paper.count("destroy"), 0);
}

#[test]
fn a_renderer_that_fails_at_the_swapchain_has_nothing_to_destroy() {
    let mut paper = Paper::new();
    paper.refuse = Some("surface capabilities");
    let mut queues = BootQueues::new();
    assert!(matches!(boot(&mut paper, &mut queues), Err(Error::Device(-3))));
    assert_eq!(
        paper.log,
        vec!["surface formats", "surface present modes", "surface capabilities"]
    );
}

#[test]
fn a_renderer_that_fails_at_its_frames_destroys_them_with_allocator_and_swapchain() {
    let mut paper = Paper::new();
    paper.refuse = Some("create fence");
    let mut queues = BootQueues::new();
    assert!(matches!(boot(&mut paper, &mut queues), Err(Error::Device(-3))));
    let n = paper.log.len();
    assert_eq!(
        paper.log[n - 4..],
        ["create fence", "destroy", "destroy allocator", "destroy swapchain"]
    );
    assert!(queues.global.is_empty());
}

#[test]
fn a_frame_runs_from_the_wait_to_the_presentation() {
    let mut paper = Paper::new();
    let mut queues = BootQueues::new();
    let mut graphics = boot(&mut paper, &mut queues).unwrap();
    paper.log.clear();
    draw(&mut paper, &mut graphics).unwrap();
    assert_eq!(
        paper.log,
        vec![
            "wait for fence",
            "reset fence",
            "acquire",
            "reset commands",
            "begin",
            "record",
            "end",
            "submit",
            "present"
        ]
    );
    assert_eq!(graphics.frames.get(1).state, SlotState::Submitted);
    assert_eq!(graphics.frames.get(0).state, SlotState::Idle);
    let (_, current) = graphics.frames.current();
    assert_eq!(current, 1);
    paper.log.clear();
    draw(&mut paper, &mut graphics).unwrap();
    assert_eq!(graphics.frames.get(0).state, SlotState::Submitted);
    let (_, current) = graphics.frames.current();
    assert_eq!(current, 0);
}

#[test]
fn a_frame_records_the_scene_and_the_copy_to_the_swapchain() {
    let mut paper = Paper::new();
    paper.window = Extent { width: 100, height: 33 };
    let mut queues = BootQueues::new();
    let mut graphics = boot(&mut paper, &mut queues).unwrap();
    let (mut machine, mut request) = graphics.draw();
    let mut recorded = None;
    loop {
        if let Request::Record { command_buffer, commands } = &request {
            recorded = Some((*command_buffer, commands.clone()));
        }
        let reply = paper.answer(&request);
        match machine.advance(reply, &mut graphics) {
            Step::Next(m, r) => {
                machine = m;
                request = r;
            }
            Step::Done(()) => break,
            Step::Failed(_) => panic!(),
        }
    }
    let (cbuf, commands) = recorded.unwrap();
    assert_eq!(cbuf, graphics.frames.get(1).main_cbuf);
    assert_eq!(commands.len(), 8);
    let target = graphics.render_target.image;
    let Command::Barrier(first) = commands[0] else { panic!() };
    assert_eq!((first.image, first.old_layout, first.new_layout), (target, 0, 1));
    assert_eq!(first.range.aspect_mask, consts::IMAGE_ASPECT_COLOR);
    assert_eq!((first.range.level_count, first.range.layer_count), (u32::MAX, u32::MAX));
    assert_eq!(first.src_stage_mask, consts::STAGE_ALL_COMMANDS);
    assert_eq!(first.src_access_mask, consts::ACCESS_MEMORY_WRITE);
    assert_eq!(first.dst_access_mask, consts::ACCESS_MEMORY_WRITE | consts::ACCESS_MEMORY_READ);
    assert!(matches!(commands[1], Command::BindPipeline(p) if p == graphics.pipeline.pipeline));
    assert!(matches!(
        commands[2],
        Command::BindDescriptorSet { layout, set }
            if layout == graphics.pipeline_layout.layout && set == graphics.descriptor_set.set
    ));
    assert!(matches!(commands[3], Command::Dispatch { x: 7, y: 3, z: 1 }));
    let Command::Barrier(to_source) = commands[4] else { panic!() };
    assert_eq!((to_source.image, to_source.old_layout, to_source.new_layout), (target, 1, 6));
    let Command::Barrier(to_destination) = commands[5] else { panic!() };
    assert_eq!((to_destination.old_layout, to_destination.new_layout), (0, 7));
    let Command::Blit(blit) = commands[6] else { panic!() };
    assert_eq!(blit.src, target);
    assert_eq!(blit.dst, to_destination.image);
    assert_eq!(blit.src_extent, Extent { width: 100, height: 33 });
    assert_eq!(blit.dst_extent, Extent { width: 100, height: 33 });
    assert_eq!((blit.src_layout, blit.dst_layout), (6, 7));
    let Command::Barrier(to_present) = commands[7] else { panic!() };
    assert_eq!(
        (to_present.image, to_present.old_layout, to_present.new_layout),
        (blit.dst, 7, consts::LAYOUT_PRESENT_SRC)
    );
}

#[test]
fn a_frame_whose_acquire_times_out_fails_and_submits_nothing() {
    let mut paper = Paper::new();
    let mut queues = BootQueues::new();
    let mut graphics = boot(&mut paper, &mut queues).unwrap();
    paper.log.clear();
    paper.acquire = vec![Reply::Failed(consts::TIMEOUT)];
    assert!(matches!(draw(&mut paper, &mut graphics), Err(Error::SwapchainTimeout)));
    assert_eq!(paper.count("submit"), 0);
    assert_eq!(graphics.frames.get(1).state, SlotState::Recording);
    assert_eq!(graphics.frames.get(0).state, SlotState::Idle);
}

#[test]
fn work_groups_cover_every_pixel() {
    assert_eq!(work_groups(0), 0);
    assert_eq!(work_groups(1), 1);
    assert_eq!(work_groups(16), 1);
    assert_eq!(work_groups(17), 2);
    assert_eq!(work_groups(800), 50);
    assert_eq!(work_groups(u32::MAX), 268_435_456);
}

#[test]
fn rounding_up_to_the_step_of_the_render_target() {
    assert_eq!(round_up(0), 0);
    assert_eq!(round_up(1), 256);
    assert_eq!(round_up(256), 256);
    assert_eq!(round_up(257), 512);
    assert_eq!(round_up(800), 1024);
    assert_eq!(round_up(u32::MAX), u32::MAX);
    assert_eq!(round_up(u32::MAX - 255), u32::MAX - 255);
    assert_eq!(round_up(u32::MAX - 256), u32::MAX - 255);
}

#[test]
fn a_resize_replaces_the_render_target_once_and_then_no_more() {
    let mut paper = Paper::new();
    let mut queues = BootQueues::new();
    let mut graphics = boot(&mut paper, &mut queues).unwrap();
    draw(&mut paper, &mut graphics).unwrap();
    let old_target = graphics.render_target;
    paper.window = Extent { width: 1000, height: 700 };
    paper.log.clear();
    resize(&mut paper, &mut graphics).unwrap();
    assert_eq!(paper.count("create swapchain"), 1);
    assert_eq!(paper.count("create image"), 1);
    assert_eq!(paper.count("update sets"), 1);
    assert_eq!(graphics.swapchain.extent(), Extent { width: 1000, height: 700 });
    assert_eq!(graphics.render_target.extent, Extent { width: 1024, height: 768 });
    assert_ne!(graphics.render_target.image, old_target.image);
    assert_eq!(graphics.render_target_delete_queue.len(), 3);
    let (_, previous) = graphics.frames.previous();
    assert_eq!(previous, 0);
    assert_eq!(graphics.frames.get(0).delete_queue.len(), 3);
    assert_eq!(graphics.frames.get(1).delete_queue.len(), 0);
    let global = graphics.global_delete_queue.len();

    paper.log.clear();
    resize(&mut paper, &mut graphics).unwrap();
    resize(&mut paper, &mut graphics).unwrap();
    assert_eq!(paper.count("create swapchain"), 2);
    assert_eq!(paper.count("create image"), 0);
    assert_eq!(graphics.swapchain.extent(), Extent { width: 1000, height: 700 });
    assert_eq!(graphics.render_target.extent, Extent { width: 1024, height: 768 });
    assert_eq!(graphics.render_target_delete_queue.len(), 3);
    assert_eq!(graphics.frames.get(0).delete_queue.len(), 3);
    assert_eq!(graphics.frames.get(1).delete_queue.len(), 0);
    assert_eq!(graphics.global_delete_queue.len(), global);
}

#[test]
fn the_old_render_target_lives_until_the_other_slot_has_been_waited_for() {
    let mut paper = Paper::new();
    let mut queues = BootQueues::new();
    let mut graphics = boot(&mut paper, &mut queues).unwrap();
    draw(&mut paper, &mut graphics).unwrap();
    paper.window = Extent { width: 2000, height: 100 };
    resize(&mut paper, &mut graphics).unwrap();
    let (_, current) = graphics.frames.current();
    assert_eq!(current, 1);
    assert_eq!(graphics.frames.get(1).delete_queue.len(), 0);
    assert_eq!(graphics.frames.get(0).delete_queue.len(), 3);
    paper.log.clear();
    let (mut machine, mut request) = graphics.draw();
    let mut destroyed_after = None;
    loop {
        if let Request::Destroy(entries) = &request {
            assert_eq!(kinds(entries), vec!["image view", "allocation", "image"]);
            destroyed_after = Some(paper.log.clone());
        }
        let reply = paper.answer(&request);
        match machine.advance(reply, &mut graphics) {
            Step::Next(m, r) => {
                machine = m;
                request = r;
            }
            Step::Done(()) => break,
            Step::Failed(_) => panic!(),
        }
    }
    assert_eq!(destroyed_after.unwrap(), vec!["wait for fence", "reset fence"]);
    assert_eq!(paper.count("destroy"), 1);
    assert_eq!(graphics.frames.get(0).delete_queue.len(), 0);
    draw(&mut paper, &mut graphics).unwrap();
    assert_eq!(paper.count("destroy"), 1);
}

#[test]
fn a_render_target_that_is_one_step_wider_than_needed_is_kept() {
    let mut paper = Paper::new();
    paper.window = Extent { width: 512, height: 512 };
    let mut queues = BootQueues::new();
    let mut graphics = boot(&mut paper, &mut queues).unwrap();
    paper.window = Extent { width: 256, height: 10 };
    paper.log.clear();
    resize(&mut paper, &mut graphics).unwrap();
    assert_eq!(paper.count("create image"), 0);
    paper.window = Extent { width: 255, height: 10 };
    resize(&mut paper, &mut graphics).unwrap();
    assert_eq!(paper.count("create image"), 1);
    assert_eq!(graphics.render_target.extent, Extent { width: 256, height: 256 });
}

#[test]
fn teardown_empties_the_queues_and_destroys_in_reverse_order_of_creation() {
    let mut paper = Paper::new();
    let mut queues = BootQueues::new();
    let mut graphics = boot(&mut paper, &mut queues).unwrap();
    graphics.frames.get(1).delete_queue.push(vk::Buffer::from_raw(1));
    let plan = graphics.teardown();
    let names: Vec<&str> = plan.iter().map(name).collect();
    assert_eq!(
        names,
        vec![
            "wait idle",
            "destroy",
            "destroy",
            "destroy",
            "destroy allocator",
            "destroy swapchain",
            "destroy device",
            "destroy surface",
            "destroy messenger"
        ]
    );
    let Request::Destroy(frame) = &plan[1] else { panic!() };
    assert_eq!(kinds(frame), vec!["buffer"]);
    let Request::Destroy(target) = &plan[2] else { panic!() };
    assert_eq!(kinds(target), vec!["image view", "allocation", "image"]);
    let Request::Destroy(global) = &plan[3] else { panic!() };
    assert_eq!(
        kinds(global),
        vec![
            "pipeline",
            "pipeline layout",
            "descriptor set layout",
            "descriptor pool",
            "fence",
            "semaphore",
            "semaphore",
            "command pool",
            "fence",
            "semaphore",
            "semaphore",
            "command pool"
        ]
    );
    assert!(graphics.global_delete_queue.is_empty());
    assert!(graphics.render_target_delete_queue.is_empty());
    assert!(graphics.surface.inner.is_none());
    assert!(graphics.debug_utils.debug_messenger.is_none());
    let again = graphics.teardown();
    let names: Vec<&str> = again.iter().map(name).collect();
    assert_eq!(names, vec!["wait idle", "destroy allocator", "destroy device"]);
}

#[test]
fn transitions_cover_depth_only_for_the_depth_layout() {
    let image = vk::Image::from_raw(1);
    let Command::Barrier(colour) = Graphics::transition_image(image, 0, 1) else { panic!() };
    assert_eq!(colour.range.aspect_mask, consts::IMAGE_ASPECT_COLOR);
    let Command::Barrier(depth) =
        Graphics::transition_image(image, 0, consts::LAYOUT_DEPTH_STENCIL_ATTACHMENT_OPTIMAL)
    else {
        panic!()
    };
    assert_eq!(depth.range.aspect_mask, consts::IMAGE_ASPECT_DEPTH);
    assert_eq!((depth.src_queue_family_index, depth.dst_queue_family_index), (0, 0));
    let range = Graphics::subresource_range(4);
    assert_eq!(
        (
            range.aspect_mask,
            range.base_mip_level,
            range.level_count,
            range.base_array_layer,
            range.layer_count
        ),
        (4, 0, u32::MAX, 0, u32::MAX)
    );
    let target = Graphics::create_render_image(Extent { width: 5, height: 6 });
    assert_eq!(target.usage, 0x1b);
    assert_eq!(target.format, 97);
    assert_eq!(target.extent, Extent { width: 5, height: 6 });
}

fn immediate(paper: &mut Paper) -> Immediate {
    let (mut machine, mut request) = Immediate::new(vk::Queue::from_raw(12), 1);
    loop {
        let reply = paper.answer(&request);
        match machine.advance(reply) {
            Step::Next(m, r) => {
                machine = m;
                request = r;
            }
            Step::Done(path) => return path,
            Step::Failed(_) => panic!(),
        }
    }
}

fn nodes(n: u32) -> Vec<Voxel> {
    (0..n).map(|i| Voxel { col: i, child_pointer: 0, valid_mask: 0, leaf_mask: 0 }).collect()
}

#[test]
fn an_upload_goes_through_a_staging_buffer() {
    let mut paper = Paper::new();
    let path = immediate(&mut paper);
    paper.log.clear();
    let mut queue = DeleteQueue::new();
    let mut staging = DeleteQueue::new();
    let (mut machine, mut request) = VoxelStructure::new(&path, nodes(5));
    assert!(matches!(
        request,
        Request::CreateBuffer(info) if info.size == 40 && info.usage == 0x22
    ));
    let mut written = None;
    let mut recorded = None;
    let mut sizes = Vec::new();
    let mut places = Vec::new();
    let made = loop {
        match &request {
            Request::CreateBuffer(info) => sizes.push((info.size, info.usage)),
            Request::Allocate(wanted) => places.push(wanted.location),
            Request::WriteMapped { address, voxels } => written = Some((*address, voxels.clone())),
            Request::Record { commands, .. } => recorded = Some(commands.clone()),
            Request::Destroy(entries) => {
                assert_eq!(kinds(entries), vec!["allocation", "buffer"]);
            }
            _ => {}
        }
        let reply = paper.answer(&request);
        match machine.advance(reply, &mut queue, &mut staging) {
            Step::Next(m, r) => {
                machine = m;
                request = r;
            }
            Step::Done(made) => break made,
            Step::Failed(_) => panic!(),
        }
    };
    assert_eq!(
        paper.log,
        vec![
            "create buffer",
            "buffer requirements",
            "allocate",
            "bind buffer",
            "create buffer",
            "buffer requirements",
            "allocate",
            "bind buffer",
            "write",
            "reset fence",
            "reset commands",
            "begin",
            "record",
            "end",
            "submit",
            "wait for fence",
            "destroy"
        ]
    );
    assert_eq!(sizes, vec![(40, 0x22), (40, 0x1)]);
    assert_eq!(places, vec![MemoryLocation::GpuOnly, MemoryLocation::CpuToGpu]);
    let (address, voxels) = written.unwrap();
    assert_eq!(address, 0x1000);
    assert_eq!(voxels, nodes(5));
    let commands = recorded.unwrap();
    assert_eq!(commands.len(), 1);
    let Command::CopyBuffer { src, dst, size } = commands[0] else { panic!() };
    assert_eq!(dst, made.buffer.buffer);
    assert_ne!(src, dst);
    assert_eq!(size, 40);
    assert_eq!(made.buffer.size, 40);
    assert_eq!(kinds(&queue.flush()), vec!["allocation", "buffer"]);
    assert!(staging.is_empty());
}

#[test]
fn an_upload_needs_mapped_staging_memory() {
    let mut paper = Paper::new();
    let path = immediate(&mut paper);
    let mut queue = DeleteQueue::new();
    let mut staging = DeleteQueue::new();
    let (mut machine, mut request) = VoxelStructure::new(&path, nodes(1));
    let mut allocations = 0;
    let failed = loop {
        let reply = match &request {
            Request::Allocate(_) => {
                allocations += 1;
                Reply::Allocated(Allocated {
                    allocation: Allocation::default(),
                    memory: vk::DeviceMemory::from_raw(1),
                    offset: 0,
                    mapped: None,
                })
            }
            _ => paper.answer(&request),
        };
        match machine.advance(reply, &mut queue, &mut staging) {
            Step::Next(m, r) => {
                machine = m;
                request = r;
            }
            Step::Done(_) => panic!(),
            Step::Failed(e) => break e,
        }
    };
    assert!(matches!(failed, Error::NotMapped));
    assert_eq!(allocations, 2);
    assert_eq!(kinds(&staging.flush()), vec!["allocation", "buffer"]);
    assert_eq!(queue.len(), 2);
}

#[test]
fn a_chain_whose_images_cannot_be_read_is_destroyed_before_the_creation_fails() {
    let mut paper = Paper::new();
    paper.refuse = Some("swapchain images");
    let failed = build_swapchain(&mut paper, Extent { width: 10, height: 10 });
    assert!(matches!(failed, Err(Error::Device(-3))));
    assert_eq!(
        paper.log,
        vec![
            "surface formats",
            "surface present modes",
            "surface capabilities",
            "create swapchain",
            "swapchain images",
            "destroy swapchain"
        ]
    );

    let mut paper = Paper::new();
    paper.refuse = Some("swapchain images");
    let mut queues = BootQueues::new();
    assert!(matches!(boot(&mut paper, &mut queues), Err(Error::Device(-3))));
    assert_eq!(paper.count("destroy swapchain"), 1);
    assert_eq!(paper.count("create allocator"), 0);
    assert_eq!(paper.log.last(), Some(&"destroy swapchain"));
}

#[test]
fn a_recreation_whose_images_cannot_be_read_leaves_no_chain_behind() {
    let mut paper = Paper::new();
    let mut chain = build_swapchain(&mut paper, Extent { width: 800, height: 600 }).unwrap();
    paper.log.clear();
    paper.refuse = Some("swapchain images");
    paper.acquire = vec![Reply::Failed(consts::ERROR_OUT_OF_DATE)];
    assert!(matches!(acquire(&mut paper, &mut chain), Err(Error::Device(-3))));
    assert_eq!(paper.count("create swapchain"), 1);
    assert_eq!(paper.count("destroy swapchain"), 2);
    assert!(chain.is_stale());
    assert!(chain.destroy().is_none());
}
