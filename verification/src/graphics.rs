//! The renderer's core state and its operations: one frame, a resize, and
//! the teardown.

use crate::consts::ACCESS_MEMORY_READ;
use crate::consts::ACCESS_MEMORY_WRITE;
use crate::consts::FORMAT_R16G16B16A16_SFLOAT;
use crate::consts::IMAGE_ASPECT_COLOR;
use crate::consts::IMAGE_ASPECT_DEPTH;
use crate::consts::IMAGE_USAGE_COLOR_ATTACHMENT;
use crate::consts::IMAGE_USAGE_STORAGE;
use crate::consts::IMAGE_USAGE_TRANSFER_DST;
use crate::consts::IMAGE_USAGE_TRANSFER_SRC;
use crate::consts::LAYOUT_DEPTH_STENCIL_ATTACHMENT_OPTIMAL;
use crate::consts::LAYOUT_GENERAL;
use crate::consts::LAYOUT_PRESENT_SRC;
use crate::consts::LAYOUT_TRANSFER_DST_OPTIMAL;
use crate::consts::LAYOUT_TRANSFER_SRC_OPTIMAL;
use crate::consts::LAYOUT_UNDEFINED;
use crate::consts::REMAINING;
use crate::consts::STAGE_ALL_COMMANDS;
use crate::delete_queue::DeleteQueue;
use crate::delete_queue::DeletionEntry;
use crate::descriptor::GpuDescriptorPool;
use crate::descriptor::GpuDescriptorSet;
use crate::descriptor::GpuDescriptorSetLayout;
use crate::device::agrees;
use crate::device::refusal;
use crate::device::spec_refusal;
use crate::device::Command;
use crate::device::Error;
use crate::device::Extent;
use crate::device::ImageBarrier;
use crate::device::ImageBlit;
use crate::device::PresentInfo;
use crate::device::Reply;
use crate::device::Request;
use crate::device::RequestView;
use crate::device::Stated;
use crate::device::Step;
use crate::device::SubresourceRange;
use crate::frame::FrameOp;
use crate::frame::FrameView;
use crate::frame::FramesInFlight;
use crate::frame::FramesView;
use crate::image::GpuImage;
use crate::image::ImageBuilder;
use crate::pipeline::ComputePipeline;
use crate::pipeline::GpuPipelineLayout;
use crate::queues::QueueFamilies;
use crate::queues::Queues;
use crate::surface::DebugUtils;
use crate::surface::Surface;
use crate::swapchain::Swapchain;
use crate::swapchain::SwapchainAcquire;
use crate::swapchain::SwapchainImage;
use crate::swapchain::SwapchainPresent;
use crate::swapchain::SwapchainView;
use ash::vk;
use vstd::prelude::*;

verus! {

/// Everything the renderer keeps between frames.
pub struct Graphics {
    pub debug_utils: DebugUtils,
    pub surface: Surface,
    pub gpu: vk::PhysicalDevice,
    pub queue_families: QueueFamilies,
    pub queues: Queues,
    pub swapchain: Swapchain,
    pub frames: FramesInFlight,
    pub descriptor_pool: GpuDescriptorPool,
    pub descriptor_set_layout: GpuDescriptorSetLayout,
    pub descriptor_set: GpuDescriptorSet,
    pub pipeline_layout: GpuPipelineLayout,
    pub pipeline: ComputePipeline,
    /// The image that the scene is rendered to before it is copied to the
    /// swapchain.
    pub render_target: GpuImage,
    /// Owns the objects of the render target.
    pub render_target_delete_queue: DeleteQueue,
    /// Owns what lives as long as the renderer.
    pub global_delete_queue: DeleteQueue,
}

/// The renderer's state as contracts see it.
pub struct GraphicsView {
    pub debug_utils: DebugUtils,
    pub surface: Surface,
    pub gpu: vk::PhysicalDevice,
    pub present_family: u32,
    pub graphics_family: u32,
    pub transfer_family: u32,
    pub compute_family: u32,
    pub families: Seq<u32>,
    pub queues: Queues,
    pub swapchain: SwapchainView,
    pub frames: FramesView,
    pub descriptor_pool: GpuDescriptorPool,
    pub descriptor_set_layout: GpuDescriptorSetLayout,
    pub descriptor_set: GpuDescriptorSet,
    pub pipeline_layout: GpuPipelineLayout,
    pub pipeline: ComputePipeline,
    pub render_target: GpuImage,
    pub render_target_delete_queue: Seq<DeletionEntry>,
    pub global_delete_queue: Seq<DeletionEntry>,
}

impl View for Graphics {
    type V = GraphicsView;

    open spec fn view(&self) -> GraphicsView {
        GraphicsView {
            debug_utils: self.debug_utils,
            surface: self.surface,
            gpu: self.gpu,
            present_family: self.queue_families.present,
            graphics_family: self.queue_families.graphics,
            transfer_family: self.queue_families.transfer,
            compute_family: self.queue_families.compute,
            families: self.queue_families.families@,
            queues: self.queues,
            swapchain: self.swapchain@,
            frames: self.frames@,
            descriptor_pool: self.descriptor_pool,
            descriptor_set_layout: self.descriptor_set_layout,
            descriptor_set: self.descriptor_set,
            pipeline_layout: self.pipeline_layout,
            pipeline: self.pipeline,
            render_target: self.render_target,
            render_target_delete_queue: self.render_target_delete_queue@,
            global_delete_queue: self.global_delete_queue@,
        }
    }
}

/// The side of a work group of the scene's compute shader, in pixels.
pub const WORK_GROUP_SIDE: u32 = 16;

/// The number of work groups that cover `pixels` pixels: `pixels` divided by
/// the side of a work group, rounded up.
pub open spec fn spec_work_groups(pixels: u32) -> u32 {
    ((pixels + WORK_GROUP_SIDE - 1) / WORK_GROUP_SIDE as int) as u32
}

/// The number of work groups that cover `pixels` pixels.
pub fn work_groups(pixels: u32) -> (r: u32)
    ensures
        r == spec_work_groups(pixels),
        r as int * WORK_GROUP_SIDE >= pixels,
        (r as int - 1) * WORK_GROUP_SIDE < pixels,
{
    let whole = pixels / WORK_GROUP_SIDE;
    if pixels % WORK_GROUP_SIDE == 0 {
        whole
    } else {
        whole + 1
    }
}

impl Graphics {
    /// The whole of an image in the given aspects: every mip level and
    /// every layer.
    pub open spec fn spec_subresource_range(aspect: u32) -> SubresourceRange {
        SubresourceRange {
            aspect_mask: aspect,
            base_mip_level: 0,
            level_count: REMAINING,
            base_array_layer: 0,
            layer_count: REMAINING,
        }
    }

    /// The whole of an image in the given aspects.
    pub fn subresource_range(aspect: u32) -> (r: SubresourceRange)
        ensures
            r == Self::spec_subresource_range(aspect),
    {
        SubresourceRange {
            aspect_mask: aspect,
            base_mip_level: 0,
            level_count: REMAINING,
            base_array_layer: 0,
            layer_count: REMAINING,
        }
    }

    /// The barrier that takes `image` from layout `from` to layout `to`:
    /// every command before it has written what it writes, and every
    /// command after it may read and write. It covers the depth aspect
    /// where `to` is the depth attachment layout, else the colour aspect.
    pub open spec fn spec_transition_image(image: vk::Image, from: i32, to: i32) -> Command {
        Command::Barrier(
            ImageBarrier {
                image,
                old_layout: from,
                new_layout: to,
                src_stage_mask: STAGE_ALL_COMMANDS,
                src_access_mask: ACCESS_MEMORY_WRITE,
                dst_stage_mask: STAGE_ALL_COMMANDS,
                dst_access_mask: ACCESS_MEMORY_WRITE | ACCESS_MEMORY_READ,
                src_queue_family_index: 0,
                dst_queue_family_index: 0,
                range: Self::spec_subresource_range(
                    if to == LAYOUT_DEPTH_STENCIL_ATTACHMENT_OPTIMAL {
                        IMAGE_ASPECT_DEPTH
                    } else {
                        IMAGE_ASPECT_COLOR
                    },
                ),
            },
        )
    }

    /// The barrier that takes `image` from layout `from` to layout `to`.
    pub fn transition_image(image: vk::Image, from: i32, to: i32) -> (r: Command)
        ensures
            r == Self::spec_transition_image(image, from, to),
    {
        let aspect = if to == LAYOUT_DEPTH_STENCIL_ATTACHMENT_OPTIMAL {
            IMAGE_ASPECT_DEPTH
        } else {
            IMAGE_ASPECT_COLOR
        };
        Command::Barrier(
            ImageBarrier {
                image,
                old_layout: from,
                new_layout: to,
                src_stage_mask: STAGE_ALL_COMMANDS,
                src_access_mask: ACCESS_MEMORY_WRITE,
                dst_stage_mask: STAGE_ALL_COMMANDS,
                dst_access_mask: ACCESS_MEMORY_WRITE | ACCESS_MEMORY_READ,
                src_queue_family_index: 0,
                dst_queue_family_index: 0,
                range: Self::subresource_range(aspect),
            },
        )
    }

    /// The copy of the whole of `src` onto the whole of `dst`, scaled from
    /// the one size to the other.
    pub open spec fn spec_blit_image(
        src: vk::Image,
        src_size: Extent,
        dst: vk::Image,
        dst_size: Extent,
    ) -> Command {
        Command::Blit(
            ImageBlit {
                src,
                src_layout: LAYOUT_TRANSFER_SRC_OPTIMAL,
                src_extent: src_size,
                dst,
                dst_layout: LAYOUT_TRANSFER_DST_OPTIMAL,
                dst_extent: dst_size,
                aspect_mask: IMAGE_ASPECT_COLOR,
            },
        )
    }

    /// The copy of the whole of `src` onto the whole of `dst`.
    pub fn blit_image(src: vk::Image, src_size: Extent, dst: vk::Image, dst_size: Extent) -> (r:
        Command)
        ensures
            r == Self::spec_blit_image(src, src_size, dst, dst_size),
    {
        Command::Blit(
            ImageBlit {
                src,
                src_layout: LAYOUT_TRANSFER_SRC_OPTIMAL,
                src_extent: src_size,
                dst,
                dst_layout: LAYOUT_TRANSFER_DST_OPTIMAL,
                dst_extent: dst_size,
                aspect_mask: IMAGE_ASPECT_COLOR,
            },
        )
    }

    /// The parameters of a render target of the given size: four 16-bit
    /// float colour channels, copied from and to, stored to and rendered to.
    pub open spec fn spec_render_image(extent: Extent) -> ImageBuilder {
        ImageBuilder {
            format: FORMAT_R16G16B16A16_SFLOAT,
            usage: IMAGE_USAGE_TRANSFER_SRC | IMAGE_USAGE_TRANSFER_DST | IMAGE_USAGE_STORAGE
                | IMAGE_USAGE_COLOR_ATTACHMENT,
            extent,
            aspect_flags: IMAGE_ASPECT_COLOR,
        }
    }

    /// The parameters of a render target of the given size.
    pub fn create_render_image(extent: Extent) -> (r: ImageBuilder)
        ensures
            r == Self::spec_render_image(extent),
    {
        GpuImage::builder().format(FORMAT_R16G16B16A16_SFLOAT).extent(extent).usage(
            IMAGE_USAGE_TRANSFER_SRC | IMAGE_USAGE_TRANSFER_DST | IMAGE_USAGE_STORAGE
                | IMAGE_USAGE_COLOR_ATTACHMENT,
        ).aspect_flags(IMAGE_ASPECT_COLOR)
    }

    /// The commands that render the scene into the render target: the
    /// compute pipeline with its descriptor set, on enough work groups to
    /// cover every pixel.
    pub open spec fn spec_scene(g: GraphicsView) -> Seq<Command> {
        seq![
            Command::BindPipeline(g.pipeline.pipeline),
            Command::BindDescriptorSet {
                layout: g.pipeline_layout.layout,
                set: g.descriptor_set.set,
            },
            Command::Dispatch {
                x: spec_work_groups(g.render_target.extent.width),
                y: spec_work_groups(g.render_target.extent.height),
                z: 1,
            },
        ]
    }

    /// The commands of one frame that ends in the swapchain image `target`:
    /// the render target is made writable, the scene is rendered into it,
    /// it is copied onto the swapchain image, and that image is made
    /// presentable.
    pub open spec fn spec_frame_commands(g: GraphicsView, target: vk::Image) -> Seq<Command> {
        seq![
            Self::spec_transition_image(g.render_target.image, LAYOUT_UNDEFINED, LAYOUT_GENERAL),
        ] + Self::spec_scene(g) + seq![
            Self::spec_transition_image(
                g.render_target.image,
                LAYOUT_GENERAL,
                LAYOUT_TRANSFER_SRC_OPTIMAL,
            ),
            Self::spec_transition_image(target, LAYOUT_UNDEFINED, LAYOUT_TRANSFER_DST_OPTIMAL),
            Self::spec_blit_image(
                g.render_target.image,
                g.render_target.extent,
                target,
                g.swapchain.extent,
            ),
            Self::spec_transition_image(target, LAYOUT_TRANSFER_DST_OPTIMAL, LAYOUT_PRESENT_SRC),
        ]
    }

    /// Appends the commands that render the scene to `commands`.
    pub fn draw_scene(&self, commands: &mut Vec<Command>)
        ensures
            final(commands)@ == old(commands)@ + Self::spec_scene(self@),
    {
        commands.push(Command::BindPipeline(self.pipeline.pipeline));
        commands.push(
            Command::BindDescriptorSet {
                layout: self.pipeline_layout.layout,
                set: self.descriptor_set.set,
            },
        );
        commands.push(
            Command::Dispatch {
                x: work_groups(self.render_target.extent.width),
                y: work_groups(self.render_target.extent.height),
                z: 1,
            },
        );
        assert(commands@ =~= old(commands)@ + Self::spec_scene(self@));
    }

    /// The commands of one frame that ends in the swapchain image `target`.
    pub fn frame_commands(&self, target: vk::Image) -> (r: Vec<Command>)
        ensures
            r@ == Self::spec_frame_commands(self@, target),
    {
        let mut commands: Vec<Command> = Vec::new();
        commands.push(
            Self::transition_image(self.render_target.image, LAYOUT_UNDEFINED, LAYOUT_GENERAL),
        );
        self.draw_scene(&mut commands);
        commands.push(
            Self::transition_image(
                self.render_target.image,
                LAYOUT_GENERAL,
                LAYOUT_TRANSFER_SRC_OPTIMAL,
            ),
        );
        commands.push(
            Self::transition_image(target, LAYOUT_UNDEFINED, LAYOUT_TRANSFER_DST_OPTIMAL),
        );
        commands.push(
            Self::blit_image(
                self.render_target.image,
                self.render_target.extent,
                target,
                self.swapchain.extent(),
            ),
        );
        commands.push(
            Self::transition_image(target, LAYOUT_TRANSFER_DST_OPTIMAL, LAYOUT_PRESENT_SRC),
        );
        assert(commands@ =~= Self::spec_frame_commands(self@, target));
        commands
    }
}


/// One frame in progress, for the slot of the ring that became current when
/// it began. Each stage is named by what is going on.
#[derive(Debug)]
pub enum Draw {
    /// The slot's previous work is being waited for.
    Wait(usize, FrameOp),
    /// An image of the swapchain is being acquired.
    Acquire(usize, SwapchainAcquire),
    /// Recording is being opened.
    Begin(usize, SwapchainImage, FrameOp),
    /// The frame's commands are being recorded.
    Record(usize, SwapchainImage),
    /// Recording is being closed.
    End(usize, SwapchainImage, FrameOp),
    /// The recording is being submitted.
    Submit(usize, SwapchainImage, FrameOp),
    /// The image is being presented.
    Present(usize, SwapchainPresent),
}

impl View for Draw {
    type V = Draw;

    open spec fn view(&self) -> Draw {
        *self
    }
}

impl Draw {
    /// The slot with index `slot`, counted around the ring.
    pub open spec fn spec_slot(g: GraphicsView, slot: usize) -> FrameView {
        g.frames.frames[(slot % 2) as int]
    }

    /// The state `g` with the slot of index `slot` replaced by `frame`.
    pub open spec fn spec_with_slot(g: GraphicsView, slot: usize, frame: FrameView) -> GraphicsView {
        GraphicsView {
            frames: FramesView {
                frames: g.frames.frames.update((slot % 2) as int, frame),
                ..g.frames
            },
            ..g
        }
    }

    /// The acquisition that a frame of slot `slot` makes: the slot's own
    /// semaphore is signaled when the image is ready.
    pub open spec fn spec_acquisition(g: GraphicsView, slot: usize) -> SwapchainAcquire {
        SwapchainAcquire {
            on_acquire: Self::spec_slot(g, slot).swapchain_sema,
            present: g.present_family,
            graphics: g.graphics_family,
            stage: crate::swapchain::AcquireStage::Acquiring,
        }
    }

    /// A step of an operation on the slot, as a step of the frame: the
    /// frame goes on with `then` where the operation is done.
    pub open spec fn spec_lift(
        step: Stated<FrameOp, ()>,
        wrap: spec_fn(FrameOp) -> Draw,
        then: Stated<Draw, ()>,
    ) -> Stated<Draw, ()> {
        match step {
            Stated::Next(m, request) => Stated::Next(wrap(m), request),
            Stated::Done(_) => then,
            Stated::Failed(e) => Stated::Failed(e),
        }
    }

    /// A step of the acquisition, as a step of the frame: with the image in
    /// hand the frame opens the recording.
    pub open spec fn spec_acquired(
        step: Stated<SwapchainAcquire, SwapchainImage>,
        g: GraphicsView,
        slot: usize,
    ) -> Stated<Draw, ()> {
        match step {
            Stated::Next(m, request) => Stated::Next(Draw::Acquire(slot, m), request),
            Stated::Done(image) => Stated::Next(
                Draw::Begin(slot, image, FrameOp::ResetCommands),
                RequestView::Plain(Request::ResetCommandBuffer(Self::spec_slot(g, slot).main_cbuf)),
            ),
            Stated::Failed(e) => Stated::Failed(e),
        }
    }

    /// The presentation that ends a frame of slot `slot`: on the present
    /// queue, once the slot's render semaphore has been signaled.
    pub open spec fn spec_presentation(g: GraphicsView, slot: usize, image: SwapchainImage) -> Stated<
        Draw,
        (),
    > {
        match g.swapchain.inner {
            Some(live) => Stated::Next(
                Draw::Present(slot, SwapchainPresent {  }),
                RequestView::Plain(
                    Request::Present(
                        PresentInfo {
                            queue: g.queues.present,
                            swapchain: live,
                            image_index: image.index,
                            wait: Self::spec_slot(g, slot).render_sema,
                        },
                    ),
                ),
            ),
            None => Stated::Failed(Error::NoSwapchain),
        }
    }

    /// What follows from `reply` in this state, for the renderer `g`.
    ///
    /// A frame waits for its slot, acquires an image, opens the recording,
    /// records, closes the recording, submits it to the graphics queue and
    /// presents the image. It fails where any of these fails.
    pub open spec fn spec_advance(self, reply: Reply, g: GraphicsView) -> Stated<Draw, ()> {
        match self {
            Draw::Wait(slot, op) => Self::spec_lift(
                op.spec_advance(reply, Self::spec_slot(g, slot)),
                |m: FrameOp| Draw::Wait(slot, m),
                Self::spec_acquired(
                    Self::spec_acquisition(g, slot).spec_attempt(g.swapchain),
                    g,
                    slot,
                ),
            ),
            Draw::Acquire(slot, acquire) => Self::spec_acquired(
                acquire.spec_advance(reply, g.swapchain),
                g,
                slot,
            ),
            Draw::Begin(slot, image, op) => Self::spec_lift(
                op.spec_advance(reply, Self::spec_slot(g, slot)),
                |m: FrameOp| Draw::Begin(slot, image, m),
                Stated::Next(
                    Draw::Record(slot, image),
                    RequestView::Record {
                        command_buffer: Self::spec_slot(g, slot).main_cbuf,
                        commands: Graphics::spec_frame_commands(g, image.image),
                    },
                ),
            ),
            Draw::Record(slot, image) => match reply {
                Reply::Done => Stated::Next(
                    Draw::End(slot, image, FrameOp::End),
                    RequestView::Plain(
                        Request::EndCommandBuffer(Self::spec_slot(g, slot).main_cbuf),
                    ),
                ),
                reply => Stated::Failed(spec_refusal(reply)),
            },
            Draw::End(slot, image, op) => Self::spec_lift(
                op.spec_advance(reply, Self::spec_slot(g, slot)),
                |m: FrameOp| Draw::End(slot, image, m),
                Stated::Next(
                    Draw::Submit(slot, image, FrameOp::Submit),
                    RequestView::Plain(
                        Request::Submit(
                            Self::spec_slot(g, slot).spec_submit_info(g.queues.graphics),
                        ),
                    ),
                ),
            ),
            Draw::Submit(slot, image, op) => Self::spec_lift(
                op.spec_advance(reply, Self::spec_slot(g, slot)),
                |m: FrameOp| Draw::Submit(slot, image, m),
                Self::spec_presentation(g, slot, image),
            ),
            Draw::Present(slot, present) => match present.spec_advance(reply) {
                Stated::Next(m, request) => Stated::Next(Draw::Present(slot, m), request),
                Stated::Done(_) => Stated::Done(()),
                Stated::Failed(e) => Stated::Failed(e),
            },
        }
    }

    /// The renderer after `reply` in this state: an operation on the slot
    /// changes the slot, an acquisition or a presentation changes the
    /// swapchain, and nothing else changes.
    pub open spec fn spec_graphics_after(self, reply: Reply, g: GraphicsView) -> GraphicsView {
        match self {
            Draw::Wait(slot, op) => Self::spec_with_slot(
                g,
                slot,
                op.spec_frame_after(reply, Self::spec_slot(g, slot)),
            ),
            Draw::Acquire(slot, acquire) => GraphicsView {
                swapchain: acquire.spec_chain_after(reply, g.swapchain),
                ..g
            },
            Draw::Begin(slot, image, op) => Self::spec_with_slot(
                g,
                slot,
                op.spec_frame_after(reply, Self::spec_slot(g, slot)),
            ),
            Draw::Record(slot, image) => g,
            Draw::End(slot, image, op) => Self::spec_with_slot(
                g,
                slot,
                op.spec_frame_after(reply, Self::spec_slot(g, slot)),
            ),
            Draw::Submit(slot, image, op) => Self::spec_with_slot(
                g,
                slot,
                op.spec_frame_after(reply, Self::spec_slot(g, slot)),
            ),
            Draw::Present(slot, present) => GraphicsView {
                swapchain: present.spec_chain_after(reply, g.swapchain),
                ..g
            },
        }
    }

    /// Goes on after the acquisition has taken a step.
    fn acquired(
        step: Step<SwapchainAcquire, SwapchainImage>,
        graphics: &mut Graphics,
        slot: usize,
        Ghost(stated): Ghost<Stated<SwapchainAcquire, SwapchainImage>>,
    ) -> (r: Step<Draw, ()>)
        requires
            agrees(step, stated),
        ensures
            agrees(r, Self::spec_acquired(stated, old(graphics)@, slot)),
            final(graphics)@ == old(graphics)@,
    {
        proof {
            graphics.frames.lemma_ring();
        }
        match step {
            Step::Next(m, request) => Step::Next(Draw::Acquire(slot, m), request),
            Step::Done(image) => {
                let cbuf = graphics.frames.get(slot % 2).main_cbuf;
                assert(graphics@.frames.frames =~= old(graphics)@.frames.frames);
                Step::Next(
                    Draw::Begin(slot, image, FrameOp::ResetCommands),
                    Request::ResetCommandBuffer(cbuf),
                )
            },
            Step::Failed(e) => Step::Failed(e),
        }
    }

    /// Takes the reply to the pending request, updates the renderer, and
    /// says what comes next.
    pub fn advance(self, reply: Reply, graphics: &mut Graphics) -> (r: Step<Draw, ()>)
        ensures
            agrees(r, self.spec_advance(reply, old(graphics)@)),
            final(graphics)@ == self.spec_graphics_after(reply, old(graphics)@),
    {
        proof {
            graphics.frames.lemma_ring();
        }
        match self {
            Draw::Wait(slot, op) => {
                let frame = graphics.frames.get(slot % 2);
                let sema = frame.swapchain_sema;
                let step = op.advance(reply, frame);
                match step {
                    Step::Next(m, request) => Step::Next(Draw::Wait(slot, m), request),
                    Step::Done(_) => {
                        let ghost stated = Self::spec_acquisition(
                            old(graphics)@,
                            slot,
                        ).spec_attempt(graphics@.swapchain);
                        let attempt = graphics.swapchain.acquire(sema, &graphics.queue_families);
                        let r = Self::acquired(attempt, graphics, slot, Ghost(stated));
                        r
                    },
                    Step::Failed(e) => Step::Failed(e),
                }
            },
            Draw::Acquire(slot, acquire) => {
                let ghost stated = acquire.spec_advance(reply, graphics@.swapchain);
                let step = acquire.advance(reply, &mut graphics.swapchain);
                let ghost before = graphics@;
                let r = Self::acquired(step, graphics, slot, Ghost(stated));
                r
            },
            Draw::Begin(slot, image, op) => {
                let frame = graphics.frames.get(slot % 2);
                let cbuf = frame.main_cbuf;
                let step = op.advance(reply, frame);
                match step {
                    Step::Next(m, request) => Step::Next(Draw::Begin(slot, image, m), request),
                    Step::Done(_) => {
                        let commands = graphics.frame_commands(image.image);
                        Step::Next(
                            Draw::Record(slot, image),
                            Request::Record { command_buffer: cbuf, commands },
                        )
                    },
                    Step::Failed(e) => Step::Failed(e),
                }
            },
            Draw::Record(slot, image) => match reply {
                Reply::Done => {
                    let cbuf = graphics.frames.get(slot % 2).main_cbuf;
                    assert(graphics@.frames.frames =~= old(graphics)@.frames.frames);
                    Step::Next(Draw::End(slot, image, FrameOp::End), Request::EndCommandBuffer(cbuf))
                },
                reply => Step::Failed(refusal(reply)),
            },
            Draw::End(slot, image, op) => {
                let queue = graphics.queues.graphics;
                let frame = graphics.frames.get(slot % 2);
                let step = op.advance(reply, frame);
                match step {
                    Step::Next(m, request) => Step::Next(Draw::End(slot, image, m), request),
                    Step::Done(_) => {
                        let frame = graphics.frames.get(slot % 2);
                        let (_, request) = frame.submit(queue);
                        assert(graphics@.frames.frames =~= Self::spec_graphics_after(
                            self,
                            reply,
                            old(graphics)@,
                        ).frames.frames);
                        Step::Next(Draw::Submit(slot, image, FrameOp::Submit), request)
                    },
                    Step::Failed(e) => Step::Failed(e),
                }
            },
            Draw::Submit(slot, image, op) => {
                let queue = graphics.queues.present;
                let frame = graphics.frames.get(slot % 2);
                let sema = frame.render_sema;
                let step = op.advance(reply, frame);
                match step {
                    Step::Next(m, request) => Step::Next(Draw::Submit(slot, image, m), request),
                    Step::Done(_) => match graphics.swapchain.present(image, queue, sema) {
                        Ok((present, request)) => Step::Next(Draw::Present(slot, present), request),
                        Err(e) => Step::Failed(e),
                    },
                    Step::Failed(e) => Step::Failed(e),
                }
            },
            Draw::Present(slot, present) => match present.advance(reply, &mut graphics.swapchain) {
                Step::Next(m, request) => Step::Next(Draw::Present(slot, m), request),
                Step::Done(_) => Step::Done(()),
                Step::Failed(e) => Step::Failed(e),
            },
        }
    }
}

/// Within one frame the work is chained by the slot's own objects: the
/// semaphore that the acquisition signals is the one that the submission
/// waits for, the semaphore that the submission signals is the one that the
/// presentation waits for, and the fence that the submission signals is the
/// one that the next wait on the slot waits for.
pub proof fn lemma_frame_is_chained(g: GraphicsView, slot: usize, image: SwapchainImage)
    ensures
        Draw::spec_slot(g, slot).spec_submit_info(g.queues.graphics).wait == Some(
            crate::device::SemaphoreStage {
                semaphore: Draw::spec_acquisition(g, slot).on_acquire,
                stage_mask: crate::consts::STAGE_COLOR_ATTACHMENT_OUTPUT,
            },
        ),
        Draw::spec_presentation(g, slot, image) matches Stated::Next(
            _,
            RequestView::Plain(Request::Present(info)),
        ) ==> Draw::spec_slot(g, slot).spec_submit_info(g.queues.graphics).signal == Some(
            crate::device::SemaphoreStage {
                semaphore: info.wait,
                stage_mask: crate::consts::STAGE_ALL_GRAPHICS,
            },
        ) && info.queue == g.queues.present && info.image_index == image.index,
        Draw::spec_slot(g, slot).spec_submit_info(g.queues.graphics).fence == Draw::spec_slot(
            g,
            slot,
        ).render_fence,
{
}

impl Graphics {
    /// Starts a frame: the cursor advances to the next slot of the ring,
    /// the frame takes that slot, and the first request waits for the
    /// slot's previous work.
    pub fn draw(&mut self) -> (r: (Draw, Request))
        ensures
            r.0 == Draw::Wait(
                FramesInFlight::spec_next_index(old(self)@.frames.frame) as usize,
                FrameOp::WaitFence,
            ),
            r.1 == (Request::WaitForFence {
                fence: old(self)@.frames.frames[FramesInFlight::spec_next_index(
                    old(self)@.frames.frame,
                )].render_fence,
                timeout_ns: crate::consts::WAIT_TIMEOUT_NS,
            }),
            final(self)@ == (GraphicsView {
                frames: FramesView {
                    frame: FramesInFlight::spec_next_index(old(self)@.frames.frame),
                    ..old(self)@.frames
                },
                ..old(self)@
            }),
    {
        proof {
            self.frames.lemma_ring();
        }
        let (frame, slot) = self.frames.next();
        let (op, request) = frame.wait();
        assert(self@.frames.frames =~= old(self)@.frames.frames);
        (Draw::Wait(slot, op), request)
    }
}


/// The step by which the render target's sides grow, in pixels.
pub const RENDER_TARGET_MULTIPLES: u32 = 256;

/// `side` rounded up to the next multiple of the render target's step; a
/// side too long to be rounded up stays as it is.
pub open spec fn spec_round_up(side: u32) -> u32 {
    let over = side % RENDER_TARGET_MULTIPLES;
    if over == 0 || side - over + RENDER_TARGET_MULTIPLES > u32::MAX {
        side
    } else {
        (side - over + RENDER_TARGET_MULTIPLES) as u32
    }
}

/// Rounds `side` up to the next multiple of the render target's step.
pub fn round_up(side: u32) -> (r: u32)
    ensures
        r == spec_round_up(side),
{
    let over = side % RENDER_TARGET_MULTIPLES;
    if over == 0 || side - over > u32::MAX - RENDER_TARGET_MULTIPLES {
        side
    } else {
        side - over + RENDER_TARGET_MULTIPLES
    }
}

/// Whether a render target of size `target` still serves a surface of size
/// `surface`: it holds the surface's image at full resolution, and is not
/// wider than it by more than one step.
pub open spec fn spec_fits(target: Extent, surface: Extent) -> bool {
    target.width >= surface.width && target.height >= surface.height && target.width
        - surface.width <= RENDER_TARGET_MULTIPLES
}

/// The size of the render target that is made for a surface of size
/// `surface`.
pub open spec fn spec_target_extent(surface: Extent) -> Extent {
    Extent { width: spec_round_up(surface.width), height: spec_round_up(surface.height) }
}

/// A render target that has been made for a surface serves that surface:
/// resizing again to the same size replaces nothing.
pub proof fn lemma_new_target_fits(surface: Extent)
    ensures
        spec_fits(spec_target_extent(surface), surface),
{
}

/// A resize in progress.
#[derive(Debug)]
pub enum Resize {
    /// The swapchain is being recreated.
    Recreate(crate::swapchain::SwapchainRecreate),
    /// A new render target is being built.
    Target(crate::image::ImageBuild),
    /// The descriptor set is being pointed at the new render target.
    Rebind(crate::device::Completion),
}

impl View for Resize {
    type V = Resize;

    open spec fn view(&self) -> Resize {
        *self
    }
}

impl Resize {
    /// The write that points binding zero of the descriptor set at the
    /// render target `target`.
    pub open spec fn spec_rebind(g: GraphicsView, target: GpuImage) -> Seq<
        crate::device::DescriptorWrite,
    > {
        seq![
            crate::descriptor::DescriptorSetUpdateEntry::StorageImage(
                crate::device::ImageInfo { image_view: target.view, image_layout: LAYOUT_GENERAL },
            ).spec_fill(g.descriptor_set.set, 0),
        ]
    }

    /// What follows from `reply` in this state, for the renderer `g`.
    ///
    /// Once the swapchain has been recreated, a render target that still
    /// serves it ends the resize. Else a new one is built, sized for the
    /// new swapchain, and the descriptor set is pointed at it.
    pub open spec fn spec_advance(self, reply: Reply, g: GraphicsView) -> Stated<Resize, ()> {
        match self {
            Resize::Recreate(recreate) => match recreate.spec_advance(reply, g.swapchain) {
                Stated::Next(m, request) => Stated::Next(Resize::Recreate(m), request),
                Stated::Done(_) => {
                    let surface = recreate.spec_chain_after(reply, g.swapchain).extent;
                    if spec_fits(g.render_target.extent, surface) {
                        Stated::Done(())
                    } else {
                        Stated::Next(
                            Resize::Target(
                                crate::image::ImageBuild::Create(
                                    Graphics::spec_render_image(spec_target_extent(surface)),
                                ),
                            ),
                            RequestView::Plain(
                                Request::CreateImage(
                                    Graphics::spec_render_image(
                                        spec_target_extent(surface),
                                    ).spec_create_info(),
                                ),
                            ),
                        )
                    }
                },
                Stated::Failed(e) => Stated::Failed(e),
            },
            Resize::Target(build) => match build.spec_advance(reply) {
                Step::Next(m, request) => Stated::Next(
                    Resize::Target(m),
                    RequestView::Plain(request),
                ),
                Step::Done(target) => Stated::Next(
                    Resize::Rebind(crate::device::Completion {  }),
                    RequestView::UpdateDescriptorSets(Self::spec_rebind(g, target)),
                ),
                Step::Failed(e) => Stated::Failed(e),
            },
            Resize::Rebind(completion) => match completion.spec_advance(reply) {
                Step::Next(m, request) => Stated::Next(
                    Resize::Rebind(m),
                    RequestView::Plain(request),
                ),
                Step::Done(_) => Stated::Done(()),
                Step::Failed(e) => Stated::Failed(e),
            },
        }
    }

    /// The renderer after `reply` in this state.
    ///
    /// When the swapchain has been recreated and the render target no
    /// longer serves it, the objects of the old render target move to the
    /// deletion queue of the slot before the current one, behind what that
    /// queue holds: they live until that slot's work has been seen
    /// complete. The objects of the new render target are registered with
    /// the render target's own queue as they come into being.
    pub open spec fn spec_graphics_after(self, reply: Reply, g: GraphicsView) -> GraphicsView {
        match self {
            Resize::Recreate(recreate) => {
                let chain = recreate.spec_chain_after(reply, g.swapchain);
                if recreate.spec_advance(reply, g.swapchain) is Done && !spec_fits(
                    g.render_target.extent,
                    chain.extent,
                ) {
                    let slot = FramesInFlight::spec_previous_index(g.frames.frame);
                    GraphicsView {
                        swapchain: chain,
                        frames: FramesView {
                            frames: g.frames.frames.update(
                                slot,
                                FrameView {
                                    delete_queue: g.frames.frames[slot].delete_queue
                                        + g.render_target_delete_queue,
                                    ..g.frames.frames[slot]
                                },
                            ),
                            ..g.frames
                        },
                        render_target_delete_queue: Seq::empty(),
                        ..g
                    }
                } else {
                    GraphicsView { swapchain: chain, ..g }
                }
            },
            Resize::Target(build) => GraphicsView {
                render_target: match build.spec_advance(reply) {
                    Step::Done(target) => target,
                    _ => g.render_target,
                },
                render_target_delete_queue: g.render_target_delete_queue + build.spec_registered(
                    reply,
                ),
                ..g
            },
            Resize::Rebind(_) => g,
        }
    }

    /// Takes the reply to the pending request, updates the renderer, and
    /// says what comes next.
    pub fn advance(self, reply: Reply, graphics: &mut Graphics) -> (r: Step<Resize, ()>)
        ensures
            agrees(r, self.spec_advance(reply, old(graphics)@)),
            final(graphics)@ == self.spec_graphics_after(reply, old(graphics)@),
    {
        proof {
            graphics.frames.lemma_ring();
        }
        match self {
            Resize::Recreate(recreate) => match recreate.advance(reply, &mut graphics.swapchain) {
                Step::Next(m, request) => Step::Next(Resize::Recreate(m), request),
                Step::Done(_) => {
                    let target = graphics.render_target.extent;
                    let surface = graphics.swapchain.extent();
                    if target.width >= surface.width && target.height >= surface.height
                        && target.width - surface.width <= RENDER_TARGET_MULTIPLES {
                        return Step::Done(());
                    }
                    let (previous, slot) = graphics.frames.previous();
                    previous.delete_queue.append(&mut graphics.render_target_delete_queue);
                    let extent = Extent {
                        width: round_up(surface.width),
                        height: round_up(surface.height),
                    };
                    let (build, request) = Graphics::create_render_image(extent).build();
                    Step::Next(Resize::Target(build), request)
                },
                Step::Failed(e) => Step::Failed(e),
            },
            Resize::Target(build) => match build.advance(
                reply,
                &mut graphics.render_target_delete_queue,
            ) {
                Step::Next(m, request) => Step::Next(Resize::Target(m), request),
                Step::Done(target) => {
                    graphics.render_target = target;
                    let mut update = graphics.descriptor_set.update();
                    update.write(
                        0,
                        crate::descriptor::DescriptorSetUpdateEntry::storage_image(&target),
                    );
                    let ghost writes = update.spec_writes();
                    let (completion, request) = update.finish();
                    assert(writes =~= Self::spec_rebind(old(graphics)@, target));
                    Step::Next(Resize::Rebind(completion), request)
                },
                Step::Failed(e) => Step::Failed(e),
            },
            Resize::Rebind(completion) => match completion.advance(reply) {
                Step::Next(m, request) => Step::Next(Resize::Rebind(m), request),
                Step::Done(_) => Step::Done(()),
                Step::Failed(e) => Step::Failed(e),
            },
        }
    }
}

/// Resizing twice to the same size replaces the render target once at most:
/// where the render target serves the recreated swapchain, the resize ends
/// with the recreation, no deletion queue grows, and the render target
/// stays.
pub proof fn lemma_resize_replaces_nothing_that_fits(
    recreate: crate::swapchain::SwapchainRecreate,
    reply: Reply,
    g: GraphicsView,
)
    requires
        recreate.spec_advance(reply, g.swapchain) is Done,
        spec_fits(g.render_target.extent, recreate.spec_chain_after(reply, g.swapchain).extent),
    ensures
        Resize::Recreate(recreate).spec_advance(reply, g) is Done,
        Resize::Recreate(recreate).spec_graphics_after(reply, g).frames == g.frames,
        Resize::Recreate(recreate).spec_graphics_after(reply, g).render_target_delete_queue
            == g.render_target_delete_queue,
        Resize::Recreate(recreate).spec_graphics_after(reply, g).global_delete_queue
            == g.global_delete_queue,
        Resize::Recreate(recreate).spec_graphics_after(reply, g).render_target == g.render_target,
{
}

/// How a resize stands after a row of replies.
pub enum ResizeRun {
    /// Another request is pending.
    Running(Resize, GraphicsView),
    /// The resize has ended well.
    Done(GraphicsView),
    /// The resize has failed.
    Failed(Error, GraphicsView),
}

/// How the resize `resize` of the renderer `g` stands after the replies
/// `replies` have been taken one by one. Once the resize has ended, no
/// further reply is taken.
pub open spec fn spec_resize_run(resize: Resize, g: GraphicsView, replies: Seq<Reply>) -> ResizeRun
    decreases replies.len(),
{
    if replies.len() == 0 {
        ResizeRun::Running(resize, g)
    } else {
        match resize.spec_advance(replies[0], g) {
            Stated::Next(m, _) => spec_resize_run(
                m,
                resize.spec_graphics_after(replies[0], g),
                replies.drop_first(),
            ),
            Stated::Done(_) => ResizeRun::Done(resize.spec_graphics_after(replies[0], g)),
            Stated::Failed(e) => ResizeRun::Failed(e, resize.spec_graphics_after(replies[0], g)),
        }
    }
}

/// The replies of a device that recreates the swapchain without fault, up
/// to the new chain's handle: whether it became idle (`idle`), the size of
/// the window, the destruction of the old chain where there is one
/// (`live`), the formats, the present modes and the capabilities of the
/// surface, and the new chain.
pub open spec fn spec_recreation_replies(
    live: bool,
    idle: Reply,
    window: Extent,
    formats: Vec<crate::device::SurfaceFormat>,
    modes: Vec<i32>,
    caps: crate::device::SurfaceCapabilities,
    chain: vk::SwapchainKHR,
) -> Seq<Reply> {
    seq![idle] + (seq![Reply::Extent(window)] + ((if live {
        seq![Reply::Done]
    } else {
        Seq::<Reply>::empty()
    }) + (seq![Reply::SurfaceFormats(formats)] + (seq![Reply::PresentModes(modes)] + (seq![
        Reply::Capabilities(caps),
    ] + (seq![Reply::Swapchain(chain)] + Seq::<Reply>::empty()))))))
}

/// The replies of a device that builds a render target without fault and
/// takes the write that points the descriptor set at it.
pub open spec fn spec_target_replies(
    image: vk::Image,
    requirements: crate::device::MemoryRequirements,
    allocated: crate::device::Allocated,
    view: vk::ImageView,
) -> Seq<Reply> {
    seq![Reply::Image(image)] + (seq![Reply::Requirements(requirements)] + (seq![
        Reply::Allocated(allocated),
    ] + (seq![Reply::Done] + (seq![Reply::ImageView(view)] + (seq![Reply::Done] + Seq::<
        Reply,
    >::empty())))))
}

/// Taking a row of replies is taking the first and then the rest.
pub proof fn lemma_run_first(resize: Resize, g: GraphicsView, first: Reply, rest: Seq<Reply>)
    ensures
        spec_resize_run(resize, g, seq![first] + rest) == match resize.spec_advance(first, g) {
            Stated::Next(m, _) => spec_resize_run(m, resize.spec_graphics_after(first, g), rest),
            Stated::Done(_) => ResizeRun::Done(resize.spec_graphics_after(first, g)),
            Stated::Failed(e) => ResizeRun::Failed(e, resize.spec_graphics_after(first, g)),
        },
{
    assert((seq![first] + rest).drop_first() =~= rest);
    assert((seq![first] + rest)[0] == first);
}

/// Taking two rows of replies one after the other is taking the second
/// from where the first has led, unless the resize has ended before.
pub proof fn lemma_run_on(resize: Resize, g: GraphicsView, first: Seq<Reply>, then: Seq<Reply>)
    ensures
        spec_resize_run(resize, g, first + then) == match spec_resize_run(resize, g, first) {
            ResizeRun::Running(m, after) => spec_resize_run(m, after, then),
            ended => ended,
        },
    decreases first.len(),
{
    if first.len() == 0 {
        assert(first + then =~= then);
    } else {
        assert((first + then).drop_first() =~= first.drop_first() + then);
        assert((first + then)[0] == first[0]);
        match resize.spec_advance(first[0], g) {
            Stated::Next(m, _) => {
                lemma_run_on(m, resize.spec_graphics_after(first[0], g), first.drop_first(), then);
            },
            _ => {},
        }
    }
}

/// The creation of the new chain when a recreation without fault has come
/// to the reading of the chain's images: the chain has the extent of the
/// window, brought into the range that the surface admits.
pub open spec fn spec_recreated(
    g: GraphicsView,
    window: Extent,
    formats: Vec<crate::device::SurfaceFormat>,
    caps: crate::device::SurfaceCapabilities,
    chain: vk::SwapchainKHR,
) -> crate::swapchain::SwapchainBuild {
    crate::swapchain::SwapchainBuild {
        gpu: g.swapchain.gpu,
        surface: g.swapchain.surface,
        present: g.present_family,
        graphics: g.graphics_family,
        extent: window,
        stage: crate::swapchain::BuildStage::Images(
            crate::swapchain::spec_preferred_format(formats@),
            crate::swapchain::spec_clamp_extent(window, caps),
            chain,
        ),
    }
}

/// A recreation without fault leads to the reading of the new chain's
/// images, with the old chain gone and nothing else changed.
pub proof fn lemma_recreation_runs(
    g: GraphicsView,
    idle: Reply,
    window: Extent,
    formats: Vec<crate::device::SurfaceFormat>,
    modes: Vec<i32>,
    caps: crate::device::SurfaceCapabilities,
    chain: vk::SwapchainKHR,
)
    requires
        idle is Done || idle is Failed,
        formats@.len() > 0,
    ensures
        spec_resize_run(
            Resize::Recreate(
                crate::swapchain::SwapchainRecreate::WaitIdle(g.present_family, g.graphics_family),
            ),
            g,
            spec_recreation_replies(
                g.swapchain.inner is Some,
                idle,
                window,
                formats,
                modes,
                caps,
                chain,
            ),
        ) == ResizeRun::Running(
            Resize::Recreate(
                crate::swapchain::SwapchainRecreate::Build(
                    spec_recreated(g, window, formats, caps, chain),
                ),
            ),
            GraphicsView { swapchain: SwapchainView { inner: None, ..g.swapchain }, ..g },
        ),
{
    let p = g.present_family;
    let q = g.graphics_family;
    let live = g.swapchain.inner is Some;
    let gone = GraphicsView { swapchain: SwapchainView { inner: None, ..g.swapchain }, ..g };
    let format = crate::swapchain::spec_preferred_format(formats@);
    let mode = crate::swapchain::spec_preferred_present_mode(modes@);
    let extent = crate::swapchain::spec_clamp_extent(window, caps);
    let build = |stage: crate::swapchain::BuildStage|
        crate::swapchain::SwapchainBuild {
            gpu: g.swapchain.gpu,
            surface: g.swapchain.surface,
            present: p,
            graphics: q,
            extent: window,
            stage,
        };
    let r6 = seq![Reply::Swapchain(chain)] + Seq::<Reply>::empty();
    let r5 = seq![Reply::Capabilities(caps)] + r6;
    let r4 = seq![Reply::PresentModes(modes)] + r5;
    let r3 = seq![Reply::SurfaceFormats(formats)] + r4;
    let r2 = (if live {
        seq![Reply::Done]
    } else {
        Seq::<Reply>::empty()
    }) + r3;
    let r1 = seq![Reply::Extent(window)] + r2;
    let s0 = Resize::Recreate(crate::swapchain::SwapchainRecreate::WaitIdle(p, q));
    let s1 = Resize::Recreate(crate::swapchain::SwapchainRecreate::Size(p, q));
    let s2 = Resize::Recreate(crate::swapchain::SwapchainRecreate::Destroy(p, q, window));
    let s3 = Resize::Recreate(
        crate::swapchain::SwapchainRecreate::Build(build(crate::swapchain::BuildStage::Formats)),
    );
    let s4 = Resize::Recreate(
        crate::swapchain::SwapchainRecreate::Build(
            build(crate::swapchain::BuildStage::PresentModes(format)),
        ),
    );
    let s5 = Resize::Recreate(
        crate::swapchain::SwapchainRecreate::Build(
            build(crate::swapchain::BuildStage::Capabilities(format, mode)),
        ),
    );
    let s6 = Resize::Recreate(
        crate::swapchain::SwapchainRecreate::Build(
            build(crate::swapchain::BuildStage::Create(format, extent)),
        ),
    );
    let s7 = Resize::Recreate(
        crate::swapchain::SwapchainRecreate::Build(
            build(crate::swapchain::BuildStage::Images(format, extent, chain)),
        ),
    );
    assert(s7 == Resize::Recreate(
        crate::swapchain::SwapchainRecreate::Build(spec_recreated(g, window, formats, caps, chain)),
    ));
    // The last reply of the row is the new chain.
    lemma_run_first(s6, gone, Reply::Swapchain(chain), Seq::<Reply>::empty());
    assert(s6.spec_graphics_after(Reply::Swapchain(chain), gone) == gone);
    assert(spec_resize_run(s6, gone, r6) == ResizeRun::Running(s7, gone));
    lemma_run_first(s5, gone, Reply::Capabilities(caps), r6);
    assert(s5.spec_graphics_after(Reply::Capabilities(caps), gone) == gone);
    assert(spec_resize_run(s5, gone, r5) == ResizeRun::Running(s7, gone));
    lemma_run_first(s4, gone, Reply::PresentModes(modes), r5);
    assert(s4.spec_graphics_after(Reply::PresentModes(modes), gone) == gone);
    assert(spec_resize_run(s4, gone, r4) == ResizeRun::Running(s7, gone));
    lemma_run_first(s3, gone, Reply::SurfaceFormats(formats), r4);
    assert(s3.spec_graphics_after(Reply::SurfaceFormats(formats), gone) == gone);
    assert(spec_resize_run(s3, gone, r3) == ResizeRun::Running(s7, gone));
    if live {
        lemma_run_first(s2, gone, Reply::Done, r3);
        assert(s2.spec_graphics_after(Reply::Done, gone) == gone);
        assert(spec_resize_run(s2, gone, r2) == ResizeRun::Running(s7, gone));
        lemma_run_first(s1, g, Reply::Extent(window), r2);
        assert(s1.spec_graphics_after(Reply::Extent(window), g) == gone);
        assert(spec_resize_run(s1, g, r1) == ResizeRun::Running(s7, gone));
    } else {
        assert(r2 =~= r3);
        lemma_run_first(s1, g, Reply::Extent(window), r2);
        assert(s1.spec_graphics_after(Reply::Extent(window), g) == gone);
        assert(spec_resize_run(s1, g, r1) == ResizeRun::Running(s7, gone));
    }
    lemma_run_first(s0, g, idle, r1);
    assert(s0.spec_graphics_after(idle, g) == g);
}

/// Resizing again to the same size changes nothing but the swapchain
/// itself. Where the render target serves a swapchain of the extent that
/// the window and the surface give, as it does after a resize that has
/// ended well, a resize without fault ends with the recreation: the new
/// swapchain has that extent again, the render target stays, no slot's
/// deletion queue gets an entry, and the render target's queue and the
/// global queue hold what they held.
pub proof fn lemma_resize_again_is_quiet(
    g: GraphicsView,
    idle: Reply,
    window: Extent,
    formats: Vec<crate::device::SurfaceFormat>,
    modes: Vec<i32>,
    caps: crate::device::SurfaceCapabilities,
    chain: vk::SwapchainKHR,
    images: Vec<vk::Image>,
)
    requires
        idle is Done || idle is Failed,
        formats@.len() > 0,
        spec_fits(g.render_target.extent, crate::swapchain::spec_clamp_extent(window, caps)),
    ensures
        spec_resize_run(
            Resize::Recreate(
                crate::swapchain::SwapchainRecreate::WaitIdle(g.present_family, g.graphics_family),
            ),
            g,
            spec_recreation_replies(
                g.swapchain.inner is Some,
                idle,
                window,
                formats,
                modes,
                caps,
                chain,
            ) + seq![Reply::Images(images)],
        ) matches ResizeRun::Done(after) && after.swapchain.extent
            == crate::swapchain::spec_clamp_extent(window, caps) && !after.swapchain.stale()
            && after.render_target == g.render_target && after.frames == g.frames
            && after.render_target_delete_queue == g.render_target_delete_queue
            && after.global_delete_queue == g.global_delete_queue,
{
    let start = Resize::Recreate(
        crate::swapchain::SwapchainRecreate::WaitIdle(g.present_family, g.graphics_family),
    );
    let replies = spec_recreation_replies(
        g.swapchain.inner is Some,
        idle,
        window,
        formats,
        modes,
        caps,
        chain,
    );
    let gone = GraphicsView { swapchain: SwapchainView { inner: None, ..g.swapchain }, ..g };
    let reading = Resize::Recreate(
        crate::swapchain::SwapchainRecreate::Build(spec_recreated(g, window, formats, caps, chain)),
    );
    lemma_recreation_runs(g, idle, window, formats, modes, caps, chain);
    lemma_run_on(start, g, replies, seq![Reply::Images(images)]);
    assert(seq![Reply::Images(images)] =~= seq![Reply::Images(images)] + Seq::<Reply>::empty());
    lemma_run_first(reading, gone, Reply::Images(images), Seq::<Reply>::empty());
}

/// A resize that has ended well has settled: the swapchain has the extent
/// that the window and the surface give, and the render target serves it,
/// whether it has been replaced or not. Resizing again to the same size
/// therefore changes nothing, by `lemma_resize_again_is_quiet`.
pub proof fn lemma_resize_settles(
    g: GraphicsView,
    idle: Reply,
    window: Extent,
    formats: Vec<crate::device::SurfaceFormat>,
    modes: Vec<i32>,
    caps: crate::device::SurfaceCapabilities,
    chain: vk::SwapchainKHR,
    images: Vec<vk::Image>,
    image: vk::Image,
    requirements: crate::device::MemoryRequirements,
    allocated: crate::device::Allocated,
    view: vk::ImageView,
)
    requires
        idle is Done || idle is Failed,
        formats@.len() > 0,
    ensures
        spec_resize_run(
            Resize::Recreate(
                crate::swapchain::SwapchainRecreate::WaitIdle(g.present_family, g.graphics_family),
            ),
            g,
            (spec_recreation_replies(
                g.swapchain.inner is Some,
                idle,
                window,
                formats,
                modes,
                caps,
                chain,
            ) + seq![Reply::Images(images)]) + spec_target_replies(
                image,
                requirements,
                allocated,
                view,
            ),
        ) matches ResizeRun::Done(after) && after.swapchain.extent
            == crate::swapchain::spec_clamp_extent(window, caps) && !after.swapchain.stale()
            && spec_fits(
            after.render_target.extent,
            crate::swapchain::spec_clamp_extent(window, caps),
        ) && after.present_family == g.present_family && after.graphics_family
            == g.graphics_family,
{
    let start = Resize::Recreate(
        crate::swapchain::SwapchainRecreate::WaitIdle(g.present_family, g.graphics_family),
    );
    let replies = spec_recreation_replies(
        g.swapchain.inner is Some,
        idle,
        window,
        formats,
        modes,
        caps,
        chain,
    );
    let surface = crate::swapchain::spec_clamp_extent(window, caps);
    let gone = GraphicsView { swapchain: SwapchainView { inner: None, ..g.swapchain }, ..g };
    let reading = Resize::Recreate(
        crate::swapchain::SwapchainRecreate::Build(spec_recreated(g, window, formats, caps, chain)),
    );
    let target = spec_target_replies(image, requirements, allocated, view);
    lemma_recreation_runs(g, idle, window, formats, modes, caps, chain);
    lemma_run_on(start, g, replies, seq![Reply::Images(images)]);
    assert(seq![Reply::Images(images)] =~= seq![Reply::Images(images)] + Seq::<Reply>::empty());
    lemma_run_first(reading, gone, Reply::Images(images), Seq::<Reply>::empty());
    lemma_run_on(start, g, replies + seq![Reply::Images(images)], target);
    if !spec_fits(g.render_target.extent, surface) {
        let builder = Graphics::spec_render_image(spec_target_extent(surface));
        let made = reading.spec_graphics_after(Reply::Images(images), gone);
        let t5 = seq![Reply::Done] + Seq::<Reply>::empty();
        let t4 = seq![Reply::ImageView(view)] + t5;
        let t3 = seq![Reply::Done] + t4;
        let t2 = seq![Reply::Allocated(allocated)] + t3;
        let t1 = seq![Reply::Requirements(requirements)] + t2;
        let b0 = Resize::Target(crate::image::ImageBuild::Create(builder));
        let b1 = Resize::Target(crate::image::ImageBuild::Requirements(builder, image));
        let b2 = Resize::Target(crate::image::ImageBuild::Allocate(builder, image));
        let b3 = Resize::Target(crate::image::ImageBuild::Bind(builder, image));
        let b4 = Resize::Target(crate::image::ImageBuild::View(builder, image));
        let b5 = Resize::Rebind(crate::device::Completion {  });
        let m0 = made;
        let m1 = b0.spec_graphics_after(Reply::Image(image), m0);
        let m2 = b1.spec_graphics_after(Reply::Requirements(requirements), m1);
        let m3 = b2.spec_graphics_after(Reply::Allocated(allocated), m2);
        let m4 = b3.spec_graphics_after(Reply::Done, m3);
        let m5 = b4.spec_graphics_after(Reply::ImageView(view), m4);
        lemma_new_target_fits(surface);
        lemma_run_first(b5, m5, Reply::Done, Seq::<Reply>::empty());
        lemma_run_first(b4, m4, Reply::ImageView(view), t5);
        lemma_run_first(b3, m3, Reply::Done, t4);
        lemma_run_first(b2, m2, Reply::Allocated(allocated), t3);
        lemma_run_first(b1, m1, Reply::Requirements(requirements), t2);
        lemma_run_first(b0, m0, Reply::Image(image), t1);
        assert(m5.render_target.extent == spec_target_extent(surface));
        assert(m5.swapchain == made.swapchain);
    }
}

impl Graphics {
    /// Starts a resize: the swapchain is recreated first.
    pub fn resize(&self) -> (r: (Resize, Request))
        ensures
            r.0 == Resize::Recreate(
                crate::swapchain::SwapchainRecreate::WaitIdle(
                    self@.present_family,
                    self@.graphics_family,
                ),
            ),
            r.1 == Request::WaitIdle,
    {
        let (recreate, request) = self.swapchain.recreate(&self.queue_families);
        (Resize::Recreate(recreate), request)
    }
}


/// The request that destroys what a deletion queue holds, newest entry
/// first; nothing where the queue is empty.
pub open spec fn spec_flush_request(queue: Seq<DeletionEntry>) -> Seq<RequestView> {
    if queue.len() == 0 {
        Seq::empty()
    } else {
        seq![RequestView::Destroy(queue.reverse())]
    }
}

/// The request that `handle` stands for, where there is one.
pub open spec fn spec_optional(request: Option<Request>) -> Seq<RequestView> {
    match request {
        Some(request) => seq![RequestView::Plain(request)],
        None => Seq::empty(),
    }
}

/// The requests that shut the renderer `g` down, in their order.
///
/// The device finishes its work first. Then the deletion queues are
/// emptied: those of the slots, that of the render target, and the global
/// one last, since what it holds came first. Then the allocator, the
/// swapchain, the device, the surface and the debug messenger go, in the
/// reverse of the order in which they were made.
pub open spec fn spec_teardown(g: GraphicsView) -> Seq<RequestView> {
    seq![RequestView::Plain(Request::WaitIdle)] + spec_flush_request(
        g.frames.frames[0].delete_queue,
    ) + spec_flush_request(g.frames.frames[1].delete_queue) + spec_flush_request(
        g.render_target_delete_queue,
    ) + spec_flush_request(g.global_delete_queue) + seq![
        RequestView::Plain(Request::DestroyAllocator),
    ] + spec_optional(
        match g.swapchain.inner {
            Some(chain) => Some(Request::DestroySwapchain(chain)),
            None => None,
        },
    ) + seq![RequestView::Plain(Request::DestroyDevice)] + spec_optional(
        match g.surface.inner {
            Some(surface) => Some(Request::DestroySurface(surface)),
            None => None,
        },
    ) + spec_optional(
        match g.debug_utils.debug_messenger {
            Some(messenger) => Some(Request::DestroyDebugMessenger(messenger)),
            None => None,
        },
    )
}

/// The renderer `g` after its teardown: every deletion queue is empty, and
/// the swapchain, the surface and the debug messenger are gone. Nothing
/// else has changed.
pub open spec fn spec_torn_down(g: GraphicsView) -> GraphicsView {
    GraphicsView {
        frames: FramesView {
            frames: Seq::new(
                2,
                |i: int| FrameView { delete_queue: Seq::empty(), ..g.frames.frames[i] },
            ),
            ..g.frames
        },
        render_target_delete_queue: Seq::empty(),
        global_delete_queue: Seq::empty(),
        swapchain: SwapchainView { inner: None, ..g.swapchain },
        surface: Surface { inner: None },
        debug_utils: DebugUtils { debug_messenger: None },
        ..g
    }
}

/// The views of the requests of `plan`, one by one.
pub open spec fn spec_views(plan: Seq<Request>) -> Seq<RequestView> {
    Seq::new(plan.len(), |i: int| plan[i]@)
}

/// Appends the request that destroys what `queue` holds to `plan`, and
/// empties the queue.
fn flush_into(queue: &mut DeleteQueue, plan: &mut Vec<Request>)
    ensures
        final(queue)@ == Seq::<DeletionEntry>::empty(),
        spec_views(final(plan)@) == spec_views(old(plan)@) + spec_flush_request(old(queue)@),
{
    let entries = queue.flush();
    if entries.len() > 0 {
        plan.push(Request::Destroy(entries));
        assert(spec_views(plan@) =~= spec_views(old(plan)@) + spec_flush_request(old(queue)@));
    } else {
        assert(spec_views(plan@) =~= spec_views(old(plan)@) + spec_flush_request(old(queue)@));
    }
}

/// Appends `request` to `plan`, where there is one.
fn push_optional(request: Option<Request>, plan: &mut Vec<Request>)
    requires
        request matches Some(r) ==> r@ == RequestView::Plain(r),
    ensures
        spec_views(final(plan)@) == spec_views(old(plan)@) + spec_optional(request),
{
    match request {
        Some(request) => {
            plan.push(request);
            assert(spec_views(plan@) =~= spec_views(old(plan)@) + seq![
                RequestView::Plain(request),
            ]);
        },
        None => {
            assert(spec_views(plan@) =~= spec_views(old(plan)@) + Seq::<RequestView>::empty());
        },
    }
}

/// Appends a request that holds no list to `plan`.
fn push_plain(request: Request, plan: &mut Vec<Request>)
    requires
        request@ == RequestView::Plain(request),
    ensures
        spec_views(final(plan)@) == spec_views(old(plan)@) + seq![RequestView::Plain(request)],
{
    plan.push(request);
    assert(spec_views(plan@) =~= spec_views(old(plan)@) + seq![RequestView::Plain(request)]);
}

impl Graphics {
    /// Shuts the renderer down: the result holds the requests to perform,
    /// in their order. Afterwards every deletion queue is empty and the
    /// swapchain, the surface and the debug messenger are gone.
    pub fn teardown(&mut self) -> (r: Vec<Request>)
        ensures
            spec_views(r@) == spec_teardown(old(self)@),
            final(self)@ == spec_torn_down(old(self)@),
    {
        proof {
            self.frames.lemma_ring();
        }
        let mut plan: Vec<Request> = Vec::new();
        assert(spec_views(plan@) =~= Seq::<RequestView>::empty());
        push_plain(Request::WaitIdle, &mut plan);
        flush_into(&mut self.frames.get(0).delete_queue, &mut plan);
        flush_into(&mut self.frames.get(1).delete_queue, &mut plan);
        flush_into(&mut self.render_target_delete_queue, &mut plan);
        flush_into(&mut self.global_delete_queue, &mut plan);
        push_plain(Request::DestroyAllocator, &mut plan);
        let chain = self.swapchain.destroy();
        push_optional(chain, &mut plan);
        push_plain(Request::DestroyDevice, &mut plan);
        let surface = self.surface.destroy();
        push_optional(surface, &mut plan);
        let messenger = self.debug_utils.destroy();
        push_optional(messenger, &mut plan);
        assert(spec_views(plan@) =~= spec_teardown(old(self)@));
        assert(self@.frames.frames =~= spec_torn_down(old(self)@).frames.frames);
        assert(self@.render_target_delete_queue =~= Seq::<DeletionEntry>::empty());
        assert(self@.global_delete_queue =~= Seq::<DeletionEntry>::empty());
        plan
    }
}


/// A renderer of scenes on top of the core state.
pub struct Renderer<'a> {
    pub ctx: &'a Graphics,
}

impl<'a> Renderer<'a> {
    /// A renderer that draws with `ctx`.
    pub fn new(ctx: &'a Graphics) -> (r: Self)
        ensures
            r.ctx == ctx,
    {
        Renderer { ctx }
    }
}

} // verus!
