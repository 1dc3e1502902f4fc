//! Bringing the renderer up: from the handles of a live device to the
//! renderer's complete state.

use crate::consts::DESCRIPTOR_POOL_FREE_DESCRIPTOR_SET;
use crate::consts::DESCRIPTOR_TYPE_STORAGE_IMAGE;
use crate::consts::SHADER_STAGE_COMPUTE;
use crate::delete_queue::DeleteQueue;
use crate::delete_queue::DeletionEntry;
use crate::descriptor::DescriptorSetUpdateEntry;
use crate::descriptor::GpuDescriptorPool;
use crate::descriptor::GpuDescriptorSet;
use crate::descriptor::GpuDescriptorSetLayout;
use crate::descriptor::LayoutBuild;
use crate::descriptor::PoolBuild;
use crate::descriptor::SetAllocation;
use crate::device::agrees;
use crate::device::refusal;
use crate::device::spec_refusal;
use crate::device::Completion;
use crate::device::ComputePipelineCreateInfo;
use crate::device::Error;
use crate::device::Extent;
use crate::device::LayoutBinding;
use crate::device::PipelineLayoutCreateInfo;
use crate::device::PoolSize;
use crate::device::Reply;
use crate::device::Request;
use crate::device::RequestView;
use crate::device::Stated;
use crate::device::Step;
use crate::frame::FrameBuild;
use crate::frame::FrameInFlight;
use crate::frame::FramesBuild;
use crate::frame::FramesBuildView;
use crate::frame::FramesInFlight;
use crate::frame::FramesView;
use crate::graphics::Graphics;
use crate::graphics::GraphicsView;
use crate::image::GpuImage;
use crate::image::ImageBuild;
use crate::pipeline::ComputePipeline;
use crate::pipeline::ComputePipelineBuild;
use crate::pipeline::GpuPipelineLayout;
use crate::pipeline::PipelineLayoutBuild;
use crate::queues::QueueFamilies;
use crate::queues::Queues;
use crate::shader::Shader;
use crate::shader::ShaderBuild;
use crate::surface::DebugUtils;
use crate::surface::Surface;
use crate::swapchain::BuildStage;
use crate::swapchain::Swapchain;
use crate::swapchain::SwapchainBuild;
use crate::swapchain::SwapchainView;
use ash::vk;
use vstd::prelude::*;

verus! {

/// How many descriptors of the one type, and how many sets, the renderer's
/// descriptor pool can hand out.
pub const POOL_CAPACITY: u32 = 10;

/// The deletion queues that the renderer's objects are registered with
/// while it comes up. They stay with the caller, so that what has been
/// made can still be destroyed where a start is given up half-way.
pub struct BootQueues {
    /// For what lives as long as the renderer.
    pub global: DeleteQueue,
    /// For the objects of the render target.
    pub render_target: DeleteQueue,
    /// For what is needed only while the renderer comes up.
    pub init: DeleteQueue,
}

/// The deletion queues as contracts see them.
pub struct BootQueuesView {
    pub global: Seq<DeletionEntry>,
    pub render_target: Seq<DeletionEntry>,
    pub init: Seq<DeletionEntry>,
}

impl View for BootQueues {
    type V = BootQueuesView;

    open spec fn view(&self) -> BootQueuesView {
        BootQueuesView {
            global: self.global@,
            render_target: self.render_target@,
            init: self.init@,
        }
    }
}

impl BootQueues {
    /// Three empty queues.
    pub fn new() -> (r: Self)
        ensures
            r@.global.len() == 0,
            r@.render_target.len() == 0,
            r@.init.len() == 0,
    {
        BootQueues {
            global: DeleteQueue::new(),
            render_target: DeleteQueue::new(),
            init: DeleteQueue::new(),
        }
    }

    /// Empties the three queues and hands out their entries in the order in
    /// which they are to be destroyed: what was made for the start only,
    /// then the render target, then the rest, each newest first.
    pub fn flush(&mut self) -> (r: Vec<DeletionEntry>)
        ensures
            r@ == old(self)@.init.reverse() + old(self)@.render_target.reverse()
                + old(self)@.global.reverse(),
            final(self)@.global.len() == 0,
            final(self)@.render_target.len() == 0,
            final(self)@.init.len() == 0,
    {
        let mut order = self.init.flush();
        let mut target = self.render_target.flush();
        let mut global = self.global.flush();
        order.append(&mut target);
        order.append(&mut global);
        order
    }
}

/// The renderer's descriptors, once they all exist.
#[derive(Clone, Copy, Debug)]
pub struct Descriptors {
    pub render_target: GpuImage,
    pub pool: GpuDescriptorPool,
    pub layout: GpuDescriptorSetLayout,
    pub set: GpuDescriptorSet,
}

/// The stage of the start, named by what is being made.
#[derive(Debug)]
pub enum BootStage {
    Swapchain(SwapchainBuild),
    Allocator,
    Frames(FramesBuild),
    Target(ImageBuild),
    Pool(GpuImage, PoolBuild),
    Layout(GpuImage, GpuDescriptorPool, LayoutBuild),
    DescriptorSet(GpuImage, GpuDescriptorPool, GpuDescriptorSetLayout, SetAllocation),
    /// The descriptor set is being pointed at the render target.
    Bind(Descriptors, Completion),
    PipelineLayout(Descriptors, PipelineLayoutBuild),
    Shader(Descriptors, GpuPipelineLayout, ShaderBuild),
    Pipeline(Descriptors, GpuPipelineLayout, ComputePipelineBuild),
    /// What was needed for the start only is being destroyed.
    Flush(Descriptors, ComputePipeline, Completion),
    /// The start has failed for the reason given, and what it made is being
    /// destroyed again.
    Abort(Abort, Error),
}

/// The step of giving up a start that has failed, named by the request that
/// is pending. What was made is destroyed in the reverse of the order in
/// which it was made.
#[derive(Clone, Copy, Debug, PartialEq, Eq, Structural)]
pub enum Abort {
    /// What the deletion queues held is being destroyed.
    Flush,
    /// The allocator is being shut down.
    Allocator,
    /// The swapchain is being destroyed.
    Swapchain,
}

/// The stage of the start as contracts see it.
pub enum BootStageView {
    Swapchain(SwapchainBuild),
    Allocator,
    Frames(FramesBuildView),
    Target(ImageBuild),
    Pool(GpuImage, PoolBuild),
    Layout(GpuImage, GpuDescriptorPool, LayoutBuild),
    DescriptorSet(GpuImage, GpuDescriptorPool, GpuDescriptorSetLayout, SetAllocation),
    Bind(Descriptors, Completion),
    PipelineLayout(Descriptors, PipelineLayoutBuild),
    Shader(Descriptors, GpuPipelineLayout, ShaderBuild),
    Pipeline(Descriptors, GpuPipelineLayout, ComputePipelineBuild),
    Flush(Descriptors, ComputePipeline, Completion),
    Abort(Abort, Error),
}

impl View for BootStage {
    type V = BootStageView;

    open spec fn view(&self) -> BootStageView {
        match *self {
            BootStage::Swapchain(b) => BootStageView::Swapchain(b),
            BootStage::Allocator => BootStageView::Allocator,
            BootStage::Frames(b) => BootStageView::Frames(b@),
            BootStage::Target(b) => BootStageView::Target(b),
            BootStage::Pool(t, b) => BootStageView::Pool(t, b),
            BootStage::Layout(t, p, b) => BootStageView::Layout(t, p, b),
            BootStage::DescriptorSet(t, p, l, b) => BootStageView::DescriptorSet(t, p, l, b),
            BootStage::Bind(d, b) => BootStageView::Bind(d, b),
            BootStage::PipelineLayout(d, b) => BootStageView::PipelineLayout(d, b),
            BootStage::Shader(d, l, b) => BootStageView::Shader(d, l, b),
            BootStage::Pipeline(d, l, b) => BootStageView::Pipeline(d, l, b),
            BootStage::Flush(d, p, b) => BootStageView::Flush(d, p, b),
            BootStage::Abort(a, e) => BootStageView::Abort(a, e),
        }
    }
}

/// What the start has to hand, whatever stage it is in.
#[derive(Debug)]
pub struct BootParts {
    pub debug_utils: DebugUtils,
    pub surface: vk::SurfaceKHR,
    pub gpu: vk::PhysicalDevice,
    pub queue_families: QueueFamilies,
    pub queues: Queues,
    /// The size of the window when the start began.
    pub extent: Extent,
    /// The words of the compute shader.
    pub shader: Vec<u32>,
    /// The size in bytes of the pipeline's push constants.
    pub push_constant_size: usize,
    /// Whether the allocator has been made.
    pub allocator: bool,
    pub swapchain: Option<Swapchain>,
    pub frames: Option<FramesInFlight>,
}

/// The start of the renderer in progress.
#[derive(Debug)]
pub struct Boot {
    pub parts: BootParts,
    pub stage: BootStage,
}

/// The start of the renderer as contracts see it.
pub struct BootView {
    pub debug_utils: DebugUtils,
    pub surface: vk::SurfaceKHR,
    pub gpu: vk::PhysicalDevice,
    pub present_family: u32,
    pub graphics_family: u32,
    pub transfer_family: u32,
    pub compute_family: u32,
    pub families: Seq<u32>,
    pub queues: Queues,
    pub extent: Extent,
    pub shader: Seq<u32>,
    pub push_constant_size: usize,
    pub allocator: bool,
    pub stage: BootStageView,
    pub swapchain: Option<SwapchainView>,
    pub frames: Option<FramesView>,
}

impl BootParts {
    /// The start that has these parts and is in the stage `stage`.
    pub open spec fn spec_with(self, stage: BootStageView) -> BootView {
        BootView {
            debug_utils: self.debug_utils,
            surface: self.surface,
            gpu: self.gpu,
            present_family: self.queue_families.present,
            graphics_family: self.queue_families.graphics,
            transfer_family: self.queue_families.transfer,
            compute_family: self.queue_families.compute,
            families: self.queue_families.families@,
            queues: self.queues,
            extent: self.extent,
            shader: self.shader@,
            push_constant_size: self.push_constant_size,
            allocator: self.allocator,
            stage,
            swapchain: match self.swapchain {
                Some(chain) => Some(chain@),
                None => None,
            },
            frames: match self.frames {
                Some(frames) => Some(frames@),
                None => None,
            },
        }
    }
}

impl View for Boot {
    type V = BootView;

    open spec fn view(&self) -> BootView {
        self.parts.spec_with(self.stage@)
    }
}

impl BootView {
    /// The step of the start from a step of the part that is being made:
    /// while the part goes on, so does the start, and where the part fails,
    /// so does the start.
    pub open spec fn spec_within(
        self,
        stage: BootStageView,
        request: RequestView,
    ) -> Stated<BootView, GraphicsView> {
        Stated::Next(BootView { stage, ..self }, request)
    }

    /// The request for the render target.
    pub open spec fn spec_target_request(self) -> Request {
        Request::CreateImage(Graphics::spec_render_image(self.extent).spec_create_info())
    }

    /// The request for the descriptor pool: room for the storage images,
    /// and as many sets.
    pub open spec fn spec_pool_request() -> RequestView {
        RequestView::CreateDescriptorPool {
            sizes: seq![
                PoolSize {
                    descriptor_type: DESCRIPTOR_TYPE_STORAGE_IMAGE,
                    descriptor_count: POOL_CAPACITY,
                },
            ],
            max_sets: POOL_CAPACITY,
            flags: DESCRIPTOR_POOL_FREE_DESCRIPTOR_SET,
        }
    }

    /// The request for the descriptor set layout: one storage image at
    /// binding zero, for the compute stage.
    pub open spec fn spec_layout_request() -> RequestView {
        RequestView::CreateDescriptorSetLayout(
            seq![
                LayoutBinding {
                    binding: 0,
                    descriptor_type: DESCRIPTOR_TYPE_STORAGE_IMAGE,
                    descriptor_count: 1,
                    stage_flags: SHADER_STAGE_COMPUTE,
                },
            ],
        )
    }

    /// The renderer that the start ends with, or the failure of a start
    /// that lacks its swapchain or its frames.
    pub open spec fn spec_finish(
        self,
        d: Descriptors,
        pipeline: ComputePipeline,
        queues: BootQueuesView,
    ) -> Stated<BootView, GraphicsView> {
        match (self.swapchain, self.frames) {
            (Some(swapchain), Some(frames)) => Stated::Done(
                GraphicsView {
                    debug_utils: self.debug_utils,
                    surface: Surface { inner: Some(self.surface) },
                    gpu: self.gpu,
                    present_family: self.present_family,
                    graphics_family: self.graphics_family,
                    transfer_family: self.transfer_family,
                    compute_family: self.compute_family,
                    families: self.families,
                    queues: self.queues,
                    swapchain,
                    frames,
                    descriptor_pool: d.pool,
                    descriptor_set_layout: d.layout,
                    descriptor_set: d.set,
                    pipeline_layout: pipeline.layout,
                    pipeline,
                    render_target: d.render_target,
                    render_target_delete_queue: queues.render_target,
                    global_delete_queue: queues.global,
                },
            ),
            _ => Stated::Failed(Error::UnexpectedReply),
        }
    }

    /// What follows from `reply` in this state, with the deletion queues
    /// `queues`, as long as the start goes on or ends well; a failure is
    /// given as it arose, before anything is destroyed again.
    ///
    /// The parts are made in this order: the swapchain, the allocator, the
    /// frames, the render target, the descriptor pool, the descriptor set
    /// layout, the descriptor set, which is pointed at the render target,
    /// the pipeline layout, the shader and the pipeline. Then what was
    /// needed for the start only is destroyed, and the renderer stands.
    pub open spec fn spec_build(self, reply: Reply, queues: BootQueuesView) -> Stated<
        BootView,
        GraphicsView,
    > {
        match self.stage {
            BootStageView::Abort(_, e) => Stated::Failed(e),
            BootStageView::Swapchain(build) => match build.spec_advance(reply) {
                Stated::Next(m, request) => self.spec_within(BootStageView::Swapchain(m), request),
                Stated::Done(chain) => Stated::Next(
                    BootView { stage: BootStageView::Allocator, swapchain: Some(chain), ..self },
                    RequestView::Plain(Request::CreateAllocator),
                ),
                Stated::Failed(e) => Stated::Failed(e),
            },
            BootStageView::Allocator => match reply {
                Reply::Done => Stated::Next(
                    BootView {
                        stage: BootStageView::Frames(
                            FramesBuildView::First(FrameBuild::Pool, self.graphics_family),
                        ),
                        allocator: true,
                        ..self
                    },
                    RequestView::Plain(FrameInFlight::spec_pool_request(self.graphics_family)),
                ),
                reply => Stated::Failed(spec_refusal(reply)),
            },
            BootStageView::Frames(build) => match FramesBuild::spec_advance(build, reply) {
                Stated::Next(m, request) => self.spec_within(BootStageView::Frames(m), request),
                Stated::Done(frames) => Stated::Next(
                    BootView {
                        stage: BootStageView::Target(
                            ImageBuild::Create(Graphics::spec_render_image(self.extent)),
                        ),
                        frames: Some(frames),
                        ..self
                    },
                    RequestView::Plain(self.spec_target_request()),
                ),
                Stated::Failed(e) => Stated::Failed(e),
            },
            BootStageView::Target(build) => match build.spec_advance(reply) {
                Step::Next(m, request) => self.spec_within(
                    BootStageView::Target(m),
                    RequestView::Plain(request),
                ),
                Step::Done(target) => self.spec_within(
                    BootStageView::Pool(target, PoolBuild {  }),
                    Self::spec_pool_request(),
                ),
                Step::Failed(e) => Stated::Failed(e),
            },
            BootStageView::Pool(target, build) => match build.spec_advance(reply) {
                Step::Next(m, request) => self.spec_within(
                    BootStageView::Pool(target, m),
                    RequestView::Plain(request),
                ),
                Step::Done(pool) => self.spec_within(
                    BootStageView::Layout(target, pool, LayoutBuild {  }),
                    Self::spec_layout_request(),
                ),
                Step::Failed(e) => Stated::Failed(e),
            },
            BootStageView::Layout(target, pool, build) => match build.spec_advance(reply) {
                Step::Next(m, request) => self.spec_within(
                    BootStageView::Layout(target, pool, m),
                    RequestView::Plain(request),
                ),
                Step::Done(layout) => self.spec_within(
                    BootStageView::DescriptorSet(target, pool, layout, SetAllocation {  }),
                    RequestView::Plain(
                        Request::AllocateDescriptorSet {
                            pool: pool.pool,
                            set_layout: layout.layout,
                        },
                    ),
                ),
                Step::Failed(e) => Stated::Failed(e),
            },
            BootStageView::DescriptorSet(target, pool, layout, build) => match build.spec_advance(reply) {
                Step::Next(m, request) => self.spec_within(
                    BootStageView::DescriptorSet(target, pool, layout, m),
                    RequestView::Plain(request),
                ),
                Step::Done(set) => self.spec_within(
                    BootStageView::Bind(
                        Descriptors { render_target: target, pool, layout, set },
                        Completion {  },
                    ),
                    RequestView::UpdateDescriptorSets(
                        seq![
                            DescriptorSetUpdateEntry::StorageImage(
                                crate::device::ImageInfo {
                                    image_view: target.view,
                                    image_layout: crate::consts::LAYOUT_GENERAL,
                                },
                            ).spec_fill(set.set, 0),
                        ],
                    ),
                ),
                Step::Failed(e) => Stated::Failed(e),
            },
            BootStageView::Bind(d, completion) => match completion.spec_advance(reply) {
                Step::Next(m, request) => self.spec_within(
                    BootStageView::Bind(d, m),
                    RequestView::Plain(request),
                ),
                Step::Done(_) => if self.push_constant_size > u32::MAX {
                    Stated::Failed(Error::PushConstantTooLarge)
                } else {
                    self.spec_within(
                        BootStageView::PipelineLayout(
                            d,
                            PipelineLayoutBuild {
                                push_constant_size: self.push_constant_size as u32,
                            },
                        ),
                        RequestView::Plain(
                            Request::CreatePipelineLayout(
                                PipelineLayoutCreateInfo {
                                    set_layout: d.layout.layout,
                                    push_constant: GpuPipelineLayout::spec_push_constant(
                                        self.push_constant_size as u32,
                                    ),
                                },
                            ),
                        ),
                    )
                },
                Step::Failed(e) => Stated::Failed(e),
            },
            BootStageView::PipelineLayout(d, build) => match build.spec_advance(reply) {
                Step::Next(m, request) => self.spec_within(
                    BootStageView::PipelineLayout(d, m),
                    RequestView::Plain(request),
                ),
                Step::Done(layout) => Stated::Next(
                    BootView {
                        stage: BootStageView::Shader(d, layout, ShaderBuild {  }),
                        shader: Seq::empty(),
                        ..self
                    },
                    RequestView::CreateShaderModule(self.shader),
                ),
                Step::Failed(e) => Stated::Failed(e),
            },
            BootStageView::Shader(d, layout, build) => match build.spec_advance(reply) {
                Step::Next(m, request) => self.spec_within(
                    BootStageView::Shader(d, layout, m),
                    RequestView::Plain(request),
                ),
                Step::Done(shader) => self.spec_within(
                    BootStageView::Pipeline(d, layout, ComputePipelineBuild { layout }),
                    RequestView::Plain(
                        Request::CreateComputePipeline(
                            ComputePipelineCreateInfo {
                                module: shader.module,
                                layout: layout.layout,
                            },
                        ),
                    ),
                ),
                Step::Failed(e) => Stated::Failed(e),
            },
            BootStageView::Pipeline(d, layout, build) => match build.spec_advance(reply) {
                Step::Next(m, request) => self.spec_within(
                    BootStageView::Pipeline(d, layout, m),
                    RequestView::Plain(request),
                ),
                Step::Done(pipeline) => if queues.init.len() == 0 {
                    self.spec_finish(
                        d,
                        pipeline,
                        BootQueuesView {
                            global: queues.global + build.spec_registered(reply),
                            ..queues
                        },
                    )
                } else {
                    self.spec_within(
                        BootStageView::Flush(d, pipeline, Completion {  }),
                        RequestView::Destroy(queues.init.reverse()),
                    )
                },
                Step::Failed(e) => Stated::Failed(e),
            },
            BootStageView::Flush(d, pipeline, completion) => match completion.spec_advance(reply) {
                Step::Next(m, request) => self.spec_within(
                    BootStageView::Flush(d, pipeline, m),
                    RequestView::Plain(request),
                ),
                Step::Done(_) => self.spec_finish(d, pipeline, queues),
                Step::Failed(e) => Stated::Failed(e),
            },
        }
    }

    /// The deletion queues once `reply` has been taken in this state and
    /// what it made has been registered: the shader with the queue for the
    /// start, the render target with its own queue, everything else with
    /// the global queue. The queue for the start is emptied when the
    /// pipeline stands.
    pub open spec fn spec_grown(self, reply: Reply, queues: BootQueuesView) -> BootQueuesView {
        match self.stage {
            BootStageView::Frames(build) => BootQueuesView {
                global: queues.global + FramesBuild::spec_registered(build, reply),
                ..queues
            },
            BootStageView::Target(build) => BootQueuesView {
                render_target: queues.render_target + build.spec_registered(reply),
                ..queues
            },
            BootStageView::Pool(_, build) => BootQueuesView {
                global: queues.global + build.spec_registered(reply),
                ..queues
            },
            BootStageView::Layout(_, _, build) => BootQueuesView {
                global: queues.global + build.spec_registered(reply),
                ..queues
            },
            BootStageView::PipelineLayout(_, build) => BootQueuesView {
                global: queues.global + build.spec_registered(reply),
                ..queues
            },
            BootStageView::Shader(_, _, build) => BootQueuesView {
                init: queues.init + build.spec_registered(reply),
                ..queues
            },
            BootStageView::Pipeline(_, _, build) => BootQueuesView {
                global: queues.global + build.spec_registered(reply),
                init: if build.spec_advance(reply) is Done {
                    Seq::empty()
                } else {
                    queues.init
                },
                ..queues
            },
            _ => queues,
        }
    }

    /// The order in which what the deletion queues hold is destroyed: what
    /// was made for the start only, then the render target, then the rest,
    /// each newest first.
    pub open spec fn spec_order(queues: BootQueuesView) -> Seq<DeletionEntry> {
        queues.init.reverse() + queues.render_target.reverse() + queues.global.reverse()
    }

    /// The last step of giving up: the swapchain is destroyed where there
    /// is one, and then the start has failed with `e`.
    pub open spec fn spec_abort_swapchain(self, e: Error) -> Stated<BootView, GraphicsView> {
        match self.swapchain {
            Some(chain) => match chain.inner {
                Some(live) => Stated::Next(
                    BootView {
                        stage: BootStageView::Abort(Abort::Swapchain, e),
                        swapchain: Some(SwapchainView { inner: None, ..chain }),
                        ..self
                    },
                    RequestView::Plain(Request::DestroySwapchain(live)),
                ),
                None => Stated::Failed(e),
            },
            None => Stated::Failed(e),
        }
    }

    /// The step of giving up after the deletion queues: the allocator is
    /// shut down where it has been made; then comes the swapchain.
    pub open spec fn spec_abort_allocator(self, e: Error) -> Stated<BootView, GraphicsView> {
        if self.allocator {
            Stated::Next(
                BootView {
                    stage: BootStageView::Abort(Abort::Allocator, e),
                    allocator: false,
                    ..self
                },
                RequestView::Plain(Request::DestroyAllocator),
            )
        } else {
            self.spec_abort_swapchain(e)
        }
    }

    /// The first step of giving up a start that has failed with `e`: what
    /// the deletion queues hold is destroyed, where they hold anything;
    /// then come the allocator and the swapchain.
    pub open spec fn spec_abort(self, e: Error, queues: BootQueuesView) -> Stated<
        BootView,
        GraphicsView,
    > {
        if Self::spec_order(queues).len() > 0 {
            Stated::Next(
                BootView { stage: BootStageView::Abort(Abort::Flush, e), ..self },
                RequestView::Destroy(Self::spec_order(queues)),
            )
        } else {
            self.spec_abort_allocator(e)
        }
    }

    /// What follows from `reply` in this state, with the deletion queues
    /// `queues`.
    ///
    /// While nothing fails the start goes on as `spec_build` says. A start
    /// that fails does not fail at once: it first destroys what it has
    /// made, in the reverse of the order of making. What the deletion
    /// queues hold goes first, then the allocator, then the swapchain; only
    /// then is the failure handed out. While it gives up, the start takes
    /// every reply as it comes.
    pub open spec fn spec_advance(self, reply: Reply, queues: BootQueuesView) -> Stated<
        BootView,
        GraphicsView,
    > {
        match self.stage {
            BootStageView::Abort(point, e) => match point {
                Abort::Flush => self.spec_abort_allocator(e),
                Abort::Allocator => self.spec_abort_swapchain(e),
                Abort::Swapchain => Stated::Failed(e),
            },
            _ => match self.spec_build(reply, queues) {
                Stated::Failed(e) => self.spec_abort(e, self.spec_grown(reply, queues)),
                step => step,
            },
        }
    }

    /// The deletion queues after `reply` in this state. They grow by what
    /// the reply made. When the renderer stands, the global queue and the
    /// render target's queue go over to it. When the start fails, all
    /// three are emptied: what they held is handed out for destruction.
    pub open spec fn spec_queues_after(self, reply: Reply, queues: BootQueuesView) -> BootQueuesView {
        match self.stage {
            BootStageView::Abort(_, _) => queues,
            _ => match self.spec_build(reply, queues) {
                Stated::Next(_, _) => self.spec_grown(reply, queues),
                Stated::Done(_) => BootQueuesView {
                    global: Seq::empty(),
                    render_target: Seq::empty(),
                    ..self.spec_grown(reply, queues)
                },
                Stated::Failed(_) => BootQueuesView {
                    global: Seq::empty(),
                    render_target: Seq::empty(),
                    init: Seq::empty(),
                },
            },
        }
    }
}

impl Boot {
    /// The last step of giving up.
    fn abort_swapchain(parts: BootParts, e: Error, Ghost(stage): Ghost<BootStageView>) -> (r: Step<
        Boot,
        Graphics,
    >)
        ensures
            agrees(r, parts.spec_with(stage).spec_abort_swapchain(e)),
    {
        let mut parts = parts;
        match parts.swapchain {
            Some(chain) => {
                let mut chain = chain;
                match chain.destroy() {
                    Some(request) => {
                        parts.swapchain = Some(chain);
                        Step::Next(
                            Boot { parts, stage: BootStage::Abort(Abort::Swapchain, e) },
                            request,
                        )
                    },
                    None => Step::Failed(e),
                }
            },
            None => Step::Failed(e),
        }
    }

    /// The step of giving up after the deletion queues.
    fn abort_allocator(parts: BootParts, e: Error, Ghost(stage): Ghost<BootStageView>) -> (r: Step<
        Boot,
        Graphics,
    >)
        ensures
            agrees(r, parts.spec_with(stage).spec_abort_allocator(e)),
    {
        let mut parts = parts;
        if parts.allocator {
            parts.allocator = false;
            Step::Next(
                Boot { parts, stage: BootStage::Abort(Abort::Allocator, e) },
                Request::DestroyAllocator,
            )
        } else {
            Self::abort_swapchain(parts, e, Ghost(stage))
        }
    }

    /// The first step of giving up a start that has failed with `e`.
    fn abort(
        parts: BootParts,
        e: Error,
        queues: &mut BootQueues,
        Ghost(stage): Ghost<BootStageView>,
    ) -> (r: Step<Boot, Graphics>)
        ensures
            agrees(r, parts.spec_with(stage).spec_abort(e, old(queues)@)),
            final(queues)@ == (BootQueuesView {
                global: Seq::empty(),
                render_target: Seq::empty(),
                init: Seq::empty(),
            }),
    {
        let order = queues.flush();
        proof {
            assert(queues@.global =~= Seq::<DeletionEntry>::empty());
            assert(queues@.render_target =~= Seq::<DeletionEntry>::empty());
            assert(queues@.init =~= Seq::<DeletionEntry>::empty());
        }
        if order.len() > 0 {
            Step::Next(
                Boot { parts, stage: BootStage::Abort(Abort::Flush, e) },
                Request::Destroy(order),
            )
        } else {
            Self::abort_allocator(parts, e, Ghost(stage))
        }
    }

    /// Ends the start: the renderer takes over the global queue and the
    /// render target's queue. A start that lacks its swapchain or its
    /// frames gives up.
    fn finish(
        parts: BootParts,
        d: Descriptors,
        pipeline: ComputePipeline,
        queues: &mut BootQueues,
        Ghost(stage): Ghost<BootStageView>,
    ) -> (r: Step<Boot, Graphics>)
        ensures
            agrees(
                r,
                match parts.spec_with(stage).spec_finish(d, pipeline, old(queues)@) {
                    Stated::Failed(e) => parts.spec_with(stage).spec_abort(e, old(queues)@),
                    step => step,
                },
            ),
            final(queues)@ == if parts.spec_with(stage).spec_finish(d, pipeline, old(queues)@)
                is Done {
                BootQueuesView {
                    global: Seq::empty(),
                    render_target: Seq::empty(),
                    ..old(queues)@
                }
            } else {
                BootQueuesView {
                    global: Seq::empty(),
                    render_target: Seq::empty(),
                    init: Seq::empty(),
                }
            },
    {
        let BootParts {
            debug_utils,
            surface,
            gpu,
            queue_families,
            queues: device_queues,
            extent,
            shader,
            push_constant_size,
            allocator,
            swapchain,
            frames,
        } = parts;
        match (swapchain, frames) {
            (Some(swapchain), Some(frames)) => {
                let global = queues.global.take();
                let render_target = queues.render_target.take();
                Step::Done(
                    Graphics {
                        debug_utils,
                        surface: Surface::new(surface),
                        gpu,
                        queue_families,
                        queues: device_queues,
                        swapchain,
                        frames,
                        descriptor_pool: d.pool,
                        descriptor_set_layout: d.layout,
                        descriptor_set: d.set,
                        pipeline_layout: pipeline.layout,
                        pipeline,
                        render_target: d.render_target,
                        render_target_delete_queue: render_target,
                        global_delete_queue: global,
                    },
                )
            },
            (swapchain, frames) => Self::abort(
                BootParts {
                    debug_utils,
                    surface,
                    gpu,
                    queue_families,
                    queues: device_queues,
                    extent,
                    shader,
                    push_constant_size,
                    allocator,
                    swapchain,
                    frames,
                },
                Error::UnexpectedReply,
                queues,
                Ghost(stage),
            ),
        }
    }

    /// Takes the reply to the pending request, registers what was made
    /// with `queues`, and says what comes next. Where the start fails, what
    /// it has made is destroyed before the failure is handed out.
    pub fn advance(self, reply: Reply, queues: &mut BootQueues) -> (r: Step<Boot, Graphics>)
        ensures
            agrees(r, self@.spec_advance(reply, old(queues)@)),
            final(queues)@ == self@.spec_queues_after(reply, old(queues)@),
    {
        proof {
            assert(old(queues)@.global + Seq::<DeletionEntry>::empty() =~= old(queues)@.global);
            assert(old(queues)@.init + Seq::<DeletionEntry>::empty() =~= old(queues)@.init);
            assert(old(queues)@.render_target + Seq::<DeletionEntry>::empty()
                =~= old(queues)@.render_target);
        }
        let ghost was = self.stage@;
        let Boot { parts, stage } = self;
        let mut parts = parts;
        match stage {
            BootStage::Abort(point, e) => match point {
                Abort::Flush => Self::abort_allocator(parts, e, Ghost(was)),
                Abort::Allocator => Self::abort_swapchain(parts, e, Ghost(was)),
                Abort::Swapchain => Step::Failed(e),
            },
            BootStage::Swapchain(build) => match build.advance(reply) {
                Step::Next(m, request) => Step::Next(
                    Boot { parts, stage: BootStage::Swapchain(m) },
                    request,
                ),
                Step::Done(chain) => {
                    parts.swapchain = Some(chain);
                    Step::Next(Boot { parts, stage: BootStage::Allocator }, Request::CreateAllocator)
                },
                Step::Failed(e) => Self::abort(parts, e, queues, Ghost(was)),
            },
            BootStage::Allocator => match reply {
                Reply::Done => {
                    let (build, request) = FramesInFlight::new(&parts.queue_families);
                    parts.allocator = true;
                    Step::Next(Boot { parts, stage: BootStage::Frames(build) }, request)
                },
                reply => Self::abort(parts, refusal(reply), queues, Ghost(was)),
            },
            BootStage::Frames(build) => match build.advance(reply, &mut queues.global) {
                Step::Next(m, request) => Step::Next(
                    Boot { parts, stage: BootStage::Frames(m) },
                    request,
                ),
                Step::Done(ring) => {
                    let (target, request) = Graphics::create_render_image(parts.extent).build();
                    parts.frames = Some(ring);
                    Step::Next(Boot { parts, stage: BootStage::Target(target) }, request)
                },
                Step::Failed(e) => Self::abort(parts, e, queues, Ghost(was)),
            },
            BootStage::Target(build) => match build.advance(reply, &mut queues.render_target) {
                Step::Next(m, request) => Step::Next(
                    Boot { parts, stage: BootStage::Target(m) },
                    request,
                ),
                Step::Done(target) => {
                    let builder = GpuDescriptorPool::builder().add_type_allocation(
                        DESCRIPTOR_TYPE_STORAGE_IMAGE,
                        POOL_CAPACITY,
                    ).max_sets(POOL_CAPACITY);
                    let (pool, request) = builder.build();
                    assert(builder.sizes@ =~= seq![
                        PoolSize {
                            descriptor_type: DESCRIPTOR_TYPE_STORAGE_IMAGE,
                            descriptor_count: POOL_CAPACITY,
                        },
                    ]);
                    Step::Next(Boot { parts, stage: BootStage::Pool(target, pool) }, request)
                },
                Step::Failed(e) => Self::abort(parts, e, queues, Ghost(was)),
            },
            BootStage::Pool(target, build) => match build.advance(reply, &mut queues.global) {
                Step::Next(m, request) => Step::Next(
                    Boot { parts, stage: BootStage::Pool(target, m) },
                    request,
                ),
                Step::Done(pool) => {
                    let builder = GpuDescriptorSetLayout::builder().add_binding(
                        0,
                        DESCRIPTOR_TYPE_STORAGE_IMAGE,
                        SHADER_STAGE_COMPUTE,
                    );
                    let (layout, request) = builder.build();
                    assert(builder.bindings@ =~= seq![
                        LayoutBinding {
                            binding: 0,
                            descriptor_type: DESCRIPTOR_TYPE_STORAGE_IMAGE,
                            descriptor_count: 1,
                            stage_flags: SHADER_STAGE_COMPUTE,
                        },
                    ]);
                    Step::Next(
                        Boot { parts, stage: BootStage::Layout(target, pool, layout) },
                        request,
                    )
                },
                Step::Failed(e) => Self::abort(parts, e, queues, Ghost(was)),
            },
            BootStage::Layout(target, pool, build) => match build.advance(
                reply,
                &mut queues.global,
            ) {
                Step::Next(m, request) => Step::Next(
                    Boot { parts, stage: BootStage::Layout(target, pool, m) },
                    request,
                ),
                Step::Done(layout) => {
                    let (set, request) = pool.allocate(&layout);
                    Step::Next(
                        Boot { parts, stage: BootStage::DescriptorSet(target, pool, layout, set) },
                        request,
                    )
                },
                Step::Failed(e) => Self::abort(parts, e, queues, Ghost(was)),
            },
            BootStage::DescriptorSet(target, pool, layout, build) => match build.advance(reply) {
                Step::Next(m, request) => Step::Next(
                    Boot { parts, stage: BootStage::DescriptorSet(target, pool, layout, m) },
                    request,
                ),
                Step::Done(set) => {
                    let mut set = set;
                    let mut update = set.update();
                    update.write(0, DescriptorSetUpdateEntry::storage_image(&target));
                    let ghost writes = update.spec_writes();
                    let (completion, request) = update.finish();
                    assert(writes =~= seq![
                        DescriptorSetUpdateEntry::StorageImage(
                            crate::device::ImageInfo {
                                image_view: target.view,
                                image_layout: crate::consts::LAYOUT_GENERAL,
                            },
                        ).spec_fill(set.set, 0),
                    ]);
                    Step::Next(
                        Boot {
                            parts,
                            stage: BootStage::Bind(
                                Descriptors { render_target: target, pool, layout, set },
                                completion,
                            ),
                        },
                        request,
                    )
                },
                Step::Failed(e) => Self::abort(parts, e, queues, Ghost(was)),
            },
            BootStage::Bind(d, completion) => match completion.advance(reply) {
                Step::Next(m, request) => Step::Next(
                    Boot { parts, stage: BootStage::Bind(d, m) },
                    request,
                ),
                Step::Done(_) => match GpuPipelineLayout::new(&d.layout, parts.push_constant_size) {
                    Ok((build, request)) => Step::Next(
                        Boot { parts, stage: BootStage::PipelineLayout(d, build) },
                        request,
                    ),
                    Err(e) => Self::abort(parts, e, queues, Ghost(was)),
                },
                Step::Failed(e) => Self::abort(parts, e, queues, Ghost(was)),
            },
            BootStage::PipelineLayout(d, build) => match build.advance(reply, &mut queues.global) {
                Step::Next(m, request) => Step::Next(
                    Boot { parts, stage: BootStage::PipelineLayout(d, m) },
                    request,
                ),
                Step::Done(layout) => {
                    let BootParts {
                        debug_utils,
                        surface,
                        gpu,
                        queue_families,
                        queues: device_queues,
                        extent,
                        shader,
                        push_constant_size,
                        allocator,
                        swapchain,
                        frames,
                    } = parts;
                    let (build, request) = Shader::new(shader);
                    Step::Next(
                        Boot {
                            parts: BootParts {
                                debug_utils,
                                surface,
                                gpu,
                                queue_families,
                                queues: device_queues,
                                extent,
                                shader: Vec::new(),
                                push_constant_size,
                                allocator,
                                swapchain,
                                frames,
                            },
                            stage: BootStage::Shader(d, layout, build),
                        },
                        request,
                    )
                },
                Step::Failed(e) => Self::abort(parts, e, queues, Ghost(was)),
            },
            BootStage::Shader(d, layout, build) => match build.advance(reply, &mut queues.init) {
                Step::Next(m, request) => Step::Next(
                    Boot { parts, stage: BootStage::Shader(d, layout, m) },
                    request,
                ),
                Step::Done(module) => {
                    let (build, request) = ComputePipeline::new(layout, &module);
                    Step::Next(Boot { parts, stage: BootStage::Pipeline(d, layout, build) }, request)
                },
                Step::Failed(e) => Self::abort(parts, e, queues, Ghost(was)),
            },
            BootStage::Pipeline(d, layout, build) => match build.advance(
                reply,
                &mut queues.global,
            ) {
                Step::Next(m, request) => Step::Next(
                    Boot { parts, stage: BootStage::Pipeline(d, layout, m) },
                    request,
                ),
                Step::Done(pipeline) => {
                    let entries = queues.init.flush();
                    if entries.len() == 0 {
                        Self::finish(parts, d, pipeline, queues, Ghost(was))
                    } else {
                        Step::Next(
                            Boot {
                                parts,
                                stage: BootStage::Flush(d, pipeline, Completion {  }),
                            },
                            Request::Destroy(entries),
                        )
                    }
                },
                Step::Failed(e) => Self::abort(parts, e, queues, Ghost(was)),
            },
            BootStage::Flush(d, pipeline, completion) => match completion.advance(reply) {
                Step::Next(m, request) => Step::Next(
                    Boot { parts, stage: BootStage::Flush(d, pipeline, m) },
                    request,
                ),
                Step::Done(_) => Self::finish(parts, d, pipeline, queues, Ghost(was)),
                Step::Failed(e) => Self::abort(parts, e, queues, Ghost(was)),
            },
        }
    }
}

impl Graphics {
    /// Starts the renderer on a live device: the first request reads the
    /// formats of the surface, for the swapchain.
    pub fn new(
        debug_utils: DebugUtils,
        surface: vk::SurfaceKHR,
        gpu: vk::PhysicalDevice,
        queue_families: QueueFamilies,
        queues: Queues,
        extent: Extent,
        shader: Vec<u32>,
        push_constant_size: usize,
    ) -> (r: (Boot, Request))
        ensures
            r.0@ == (BootView {
                debug_utils,
                surface,
                gpu,
                present_family: queue_families.present,
                graphics_family: queue_families.graphics,
                transfer_family: queue_families.transfer,
                compute_family: queue_families.compute,
                families: queue_families.families@,
                queues,
                extent,
                shader: shader@,
                push_constant_size,
                allocator: false,
                stage: BootStageView::Swapchain(
                    SwapchainBuild {
                        gpu,
                        surface,
                        present: queue_families.present,
                        graphics: queue_families.graphics,
                        extent,
                        stage: BuildStage::Formats,
                    },
                ),
                swapchain: None,
                frames: None,
            }),
            r.1 == (Request::SurfaceFormats { gpu, surface }),
    {
        let (build, request) = Swapchain::new(gpu, &queue_families, surface, extent);
        (
            Boot {
                parts: BootParts {
                    debug_utils,
                    surface,
                    gpu,
                    queue_families,
                    queues,
                    extent,
                    shader,
                    push_constant_size,
                    allocator: false,
                    swapchain: None,
                    frames: None,
                },
                stage: BootStage::Swapchain(build),
            },
            request,
        )
    }
}

} // verus!
