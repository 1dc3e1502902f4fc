//! Frames in flight: a ring of slots, each with its command buffer, its
//! synchronisation objects and its own deletion queue.

use crate::consts::COMMAND_POOL_RESET_COMMAND_BUFFER;
use crate::consts::STAGE_ALL_GRAPHICS;
use crate::consts::STAGE_COLOR_ATTACHMENT_OUTPUT;
use crate::consts::WAIT_TIMEOUT_NS;
use crate::delete_queue::DeleteQueue;
use crate::delete_queue::DeletionEntry;
use crate::device::agrees;
use crate::device::refusal;
use crate::device::spec_refusal;
use crate::device::CommandPoolCreateInfo;
use crate::device::Error;
use crate::device::Reply;
use crate::device::Request;
use crate::device::RequestView;
use crate::device::SemaphoreStage;
use crate::device::Stated;
use crate::device::Step;
use crate::device::SubmitInfo;
use crate::queues::QueueFamilies;
use ash::vk;
use vstd::prelude::*;

verus! {

/// Where a slot stands between the host and the device.
#[derive(Clone, Copy, Debug, PartialEq, Eq, Structural)]
pub enum SlotState {
    /// The host has seen the fence signaled: nothing of the slot is in use.
    Idle,
    /// The fence has been reset and the host is recording.
    Recording,
    /// Work has been submitted; the fence stays unsignaled until a wait
    /// observes the end of that work.
    Submitted,
}

/// One slot of the ring.
#[derive(Debug)]
pub struct FrameInFlight {
    pub command_pool: vk::CommandPool,
    pub main_cbuf: vk::CommandBuffer,
    /// Rendering waits on it for the swapchain image.
    pub swapchain_sema: vk::Semaphore,
    /// Presenting waits on it for the rendered image.
    pub render_sema: vk::Semaphore,
    /// The host waits on it for the frame to be complete.
    pub render_fence: vk::Fence,
    /// What is destroyed when the slot's work has next been seen complete.
    pub delete_queue: DeleteQueue,
    pub state: SlotState,
}

/// A slot as contracts see it: its deletion queue by the entries it holds.
pub struct FrameView {
    pub command_pool: vk::CommandPool,
    pub main_cbuf: vk::CommandBuffer,
    pub swapchain_sema: vk::Semaphore,
    pub render_sema: vk::Semaphore,
    pub render_fence: vk::Fence,
    pub delete_queue: Seq<DeletionEntry>,
    pub state: SlotState,
}

impl FrameView {
    /// The submission of the slot's recording to `queue`: it waits for the
    /// swapchain image at the colour output stage, and signals both the
    /// render semaphore and the fence when it completes.
    pub open spec fn spec_submit_info(self, queue: vk::Queue) -> SubmitInfo {
        SubmitInfo {
            queue,
            command_buffer: self.main_cbuf,
            wait: Some(
                SemaphoreStage {
                    semaphore: self.swapchain_sema,
                    stage_mask: STAGE_COLOR_ATTACHMENT_OUTPUT,
                },
            ),
            signal: Some(
                SemaphoreStage { semaphore: self.render_sema, stage_mask: STAGE_ALL_GRAPHICS },
            ),
            fence: self.render_fence,
        }
    }
}

impl View for FrameInFlight {
    type V = FrameView;

    open spec fn view(&self) -> FrameView {
        FrameView {
            command_pool: self.command_pool,
            main_cbuf: self.main_cbuf,
            swapchain_sema: self.swapchain_sema,
            render_sema: self.render_sema,
            render_fence: self.render_fence,
            delete_queue: self.delete_queue@,
            state: self.state,
        }
    }
}

/// The creation of a slot in progress, named by the request that is pending.
#[derive(Clone, Copy, Debug)]
pub enum FrameBuild {
    Pool,
    Buffers(vk::CommandPool),
    SwapchainSemaphore(vk::CommandPool, vk::CommandBuffer),
    RenderSemaphore(vk::CommandPool, vk::CommandBuffer, vk::Semaphore),
    Fence(vk::CommandPool, vk::CommandBuffer, vk::Semaphore, vk::Semaphore),
}

impl View for FrameBuild {
    type V = FrameBuild;

    open spec fn view(&self) -> FrameBuild {
        *self
    }
}

impl FrameBuild {
    /// What follows from `reply` in this state. The fence is created
    /// signaled, so that the first wait on the slot does not block.
    pub open spec fn spec_advance(self, reply: Reply) -> Stated<FrameBuild, FrameView> {
        match (self, reply) {
            (FrameBuild::Pool, Reply::CommandPool(pool)) => Stated::Next(
                FrameBuild::Buffers(pool),
                RequestView::Plain(Request::AllocateCommandBuffers { command_pool: pool, count: 1 }),
            ),
            (FrameBuild::Buffers(pool), Reply::CommandBuffers(buffers)) => if buffers@.len() > 0 {
                Stated::Next(
                    FrameBuild::SwapchainSemaphore(pool, buffers@[0]),
                    RequestView::Plain(Request::CreateSemaphore),
                )
            } else {
                Stated::Failed(Error::NoCommandBuffer)
            },
            (FrameBuild::SwapchainSemaphore(pool, cbuf), Reply::Semaphore(s)) => Stated::Next(
                FrameBuild::RenderSemaphore(pool, cbuf, s),
                RequestView::Plain(Request::CreateSemaphore),
            ),
            (FrameBuild::RenderSemaphore(pool, cbuf, s), Reply::Semaphore(r)) => Stated::Next(
                FrameBuild::Fence(pool, cbuf, s, r),
                RequestView::Plain(Request::CreateFence { signaled: true }),
            ),
            (FrameBuild::Fence(pool, cbuf, s, r), Reply::Fence(fence)) => Stated::Done(
                FrameView {
                    command_pool: pool,
                    main_cbuf: cbuf,
                    swapchain_sema: s,
                    render_sema: r,
                    render_fence: fence,
                    delete_queue: Seq::empty(),
                    state: SlotState::Idle,
                },
            ),
            (_, reply) => Stated::Failed(spec_refusal(reply)),
        }
    }

    /// The entries that `reply` adds to the deletion queue in this state.
    pub open spec fn spec_registered(self, reply: Reply) -> Seq<DeletionEntry> {
        match (self, reply) {
            (FrameBuild::Pool, Reply::CommandPool(pool)) => seq![DeletionEntry::CommandPool(pool)],
            (FrameBuild::SwapchainSemaphore(_, _), Reply::Semaphore(s)) => seq![
                DeletionEntry::Semaphore(s),
            ],
            (FrameBuild::RenderSemaphore(_, _, _), Reply::Semaphore(s)) => seq![
                DeletionEntry::Semaphore(s),
            ],
            (FrameBuild::Fence(_, _, _, _), Reply::Fence(fence)) => seq![DeletionEntry::Fence(fence)],
            _ => Seq::empty(),
        }
    }

    /// Takes the reply to the pending request, registers what was created
    /// with `queue`, and says what comes next.
    pub fn advance(self, reply: Reply, queue: &mut DeleteQueue) -> (r: Step<
        FrameBuild,
        FrameInFlight,
    >)
        ensures
            agrees(r, self.spec_advance(reply)),
            final(queue)@ == old(queue)@ + self.spec_registered(reply),
    {
        proof {
            assert(old(queue)@ + Seq::<DeletionEntry>::empty() =~= old(queue)@);
        }
        match (self, reply) {
            (FrameBuild::Pool, Reply::CommandPool(pool)) => {
                queue.push(pool);
                assert(queue@ =~= old(queue)@ + seq![DeletionEntry::CommandPool(pool)]);
                Step::Next(
                    FrameBuild::Buffers(pool),
                    Request::AllocateCommandBuffers { command_pool: pool, count: 1 },
                )
            },
            (FrameBuild::Buffers(pool), Reply::CommandBuffers(buffers)) => {
                if buffers.len() > 0 {
                    Step::Next(
                        FrameBuild::SwapchainSemaphore(pool, buffers[0]),
                        Request::CreateSemaphore,
                    )
                } else {
                    Step::Failed(Error::NoCommandBuffer)
                }
            },
            (FrameBuild::SwapchainSemaphore(pool, cbuf), Reply::Semaphore(s)) => {
                queue.push(s);
                assert(queue@ =~= old(queue)@ + seq![DeletionEntry::Semaphore(s)]);
                Step::Next(FrameBuild::RenderSemaphore(pool, cbuf, s), Request::CreateSemaphore)
            },
            (FrameBuild::RenderSemaphore(pool, cbuf, s), Reply::Semaphore(r)) => {
                queue.push(r);
                assert(queue@ =~= old(queue)@ + seq![DeletionEntry::Semaphore(r)]);
                Step::Next(
                    FrameBuild::Fence(pool, cbuf, s, r),
                    Request::CreateFence { signaled: true },
                )
            },
            (FrameBuild::Fence(pool, cbuf, s, r), Reply::Fence(fence)) => {
                queue.push(fence);
                assert(queue@ =~= old(queue)@ + seq![DeletionEntry::Fence(fence)]);
                Step::Done(
                    FrameInFlight {
                        command_pool: pool,
                        main_cbuf: cbuf,
                        swapchain_sema: s,
                        render_sema: r,
                        render_fence: fence,
                        delete_queue: DeleteQueue::new(),
                        state: SlotState::Idle,
                    },
                )
            },
            (_, reply) => Step::Failed(refusal(reply)),
        }
    }
}


impl FrameInFlight {
    /// The request that creates the command pool of a slot, for the
    /// graphics queue family.
    pub open spec fn spec_pool_request(graphics_family: u32) -> Request {
        Request::CreateCommandPool(
            CommandPoolCreateInfo {
                queue_family_index: graphics_family,
                flags: COMMAND_POOL_RESET_COMMAND_BUFFER,
            },
        )
    }

    /// Starts the creation of a slot whose commands go to the graphics queue
    /// family.
    pub fn new(queue_families: &QueueFamilies) -> (r: (FrameBuild, Request))
        ensures
            r.0 == FrameBuild::Pool,
            r.1 == FrameInFlight::spec_pool_request(queue_families.graphics),
    {
        (
            FrameBuild::Pool,
            Request::CreateCommandPool(
                CommandPoolCreateInfo {
                    queue_family_index: queue_families.graphics,
                    flags: COMMAND_POOL_RESET_COMMAND_BUFFER,
                },
            ),
        )
    }

    /// Starts the wait for the slot's previous work: the first request
    /// blocks on the fence, for one second at most.
    pub fn wait(&self) -> (r: (FrameOp, Request))
        ensures
            r.0 == FrameOp::WaitFence,
            r.1 == (Request::WaitForFence { fence: self.render_fence, timeout_ns: WAIT_TIMEOUT_NS }),
    {
        (
            FrameOp::WaitFence,
            Request::WaitForFence { fence: self.render_fence, timeout_ns: WAIT_TIMEOUT_NS },
        )
    }

    /// Starts recording: the first request resets the command buffer.
    pub fn begin(&self) -> (r: (FrameOp, Request))
        ensures
            r.0 == FrameOp::ResetCommands,
            r.1 == Request::ResetCommandBuffer(self.main_cbuf),
    {
        (FrameOp::ResetCommands, Request::ResetCommandBuffer(self.main_cbuf))
    }

    /// Ends recording.
    pub fn end(&self) -> (r: (FrameOp, Request))
        ensures
            r.0 == FrameOp::End,
            r.1 == Request::EndCommandBuffer(self.main_cbuf),
    {
        (FrameOp::End, Request::EndCommandBuffer(self.main_cbuf))
    }

    /// Starts the submission of the recording to `queue`.
    pub fn submit(&self, queue: vk::Queue) -> (r: (FrameOp, Request))
        ensures
            r.0 == FrameOp::Submit,
            r.1 == Request::Submit(self@.spec_submit_info(queue)),
    {
        (
            FrameOp::Submit,
            Request::Submit(
                SubmitInfo {
                    queue,
                    command_buffer: self.main_cbuf,
                    wait: Some(
                        SemaphoreStage {
                            semaphore: self.swapchain_sema,
                            stage_mask: STAGE_COLOR_ATTACHMENT_OUTPUT,
                        },
                    ),
                    signal: Some(
                        SemaphoreStage {
                            semaphore: self.render_sema,
                            stage_mask: STAGE_ALL_GRAPHICS,
                        },
                    ),
                    fence: self.render_fence,
                },
            ),
        )
    }
}

/// An operation on a slot in progress, named by the request that is pending.
#[derive(Clone, Copy, Debug, PartialEq, Eq, Structural)]
pub enum FrameOp {
    /// Waiting for the fence.
    WaitFence,
    /// Resetting the fence.
    ResetFence,
    /// Destroying what the slot's deletion queue held.
    Flush,
    /// Resetting the command buffer.
    ResetCommands,
    /// Beginning the recording.
    Begin,
    /// Ending the recording.
    End,
    /// Submitting the recording.
    Submit,
}

impl View for FrameOp {
    type V = FrameOp;

    open spec fn view(&self) -> FrameOp {
        *self
    }
}

impl FrameOp {
    /// What follows from `reply` in this state, for a slot that looks like
    /// `frame`. Once the fence has been seen signaled and reset, the slot's
    /// deletion queue is handed out for destruction, newest entry first.
    pub open spec fn spec_advance(self, reply: Reply, frame: FrameView) -> Stated<FrameOp, ()> {
        match (self, reply) {
            (FrameOp::WaitFence, Reply::Done) => Stated::Next(
                FrameOp::ResetFence,
                RequestView::Plain(Request::ResetFence(frame.render_fence)),
            ),
            (FrameOp::ResetFence, Reply::Done) => if frame.delete_queue.len() == 0 {
                Stated::Done(())
            } else {
                Stated::Next(FrameOp::Flush, RequestView::Destroy(frame.delete_queue.reverse()))
            },
            (FrameOp::Flush, Reply::Done) => Stated::Done(()),
            (FrameOp::ResetCommands, Reply::Done) => Stated::Next(
                FrameOp::Begin,
                RequestView::Plain(Request::BeginCommandBuffer(frame.main_cbuf)),
            ),
            (FrameOp::Begin, Reply::Done) => Stated::Done(()),
            (FrameOp::End, Reply::Done) => Stated::Done(()),
            (FrameOp::Submit, Reply::Done) => Stated::Done(()),
            (_, reply) => Stated::Failed(spec_refusal(reply)),
        }
    }

    /// The slot after `reply` in this state. Seeing the fence signaled makes
    /// the slot idle; resetting the fence opens the recording and empties
    /// the deletion queue; a submission leaves the slot submitted. Nothing
    /// else changes the slot, and a refusal changes nothing.
    pub open spec fn spec_frame_after(self, reply: Reply, frame: FrameView) -> FrameView {
        match (self, reply) {
            (FrameOp::WaitFence, Reply::Done) => FrameView { state: SlotState::Idle, ..frame },
            (FrameOp::ResetFence, Reply::Done) => FrameView {
                state: SlotState::Recording,
                delete_queue: Seq::empty(),
                ..frame
            },
            (FrameOp::Submit, Reply::Done) => FrameView { state: SlotState::Submitted, ..frame },
            _ => frame,
        }
    }

    /// Takes the reply to the pending request, updates the slot, and says
    /// what comes next.
    pub fn advance(self, reply: Reply, frame: &mut FrameInFlight) -> (r: Step<FrameOp, ()>)
        ensures
            agrees(r, self.spec_advance(reply, old(frame)@)),
            final(frame)@ == self.spec_frame_after(reply, old(frame)@),
    {
        match (self, reply) {
            (FrameOp::WaitFence, Reply::Done) => {
                frame.state = SlotState::Idle;
                Step::Next(FrameOp::ResetFence, Request::ResetFence(frame.render_fence))
            },
            (FrameOp::ResetFence, Reply::Done) => {
                frame.state = SlotState::Recording;
                let entries = frame.delete_queue.flush();
                if entries.len() == 0 {
                    Step::Done(())
                } else {
                    Step::Next(FrameOp::Flush, Request::Destroy(entries))
                }
            },
            (FrameOp::Flush, Reply::Done) => Step::Done(()),
            (FrameOp::ResetCommands, Reply::Done) => Step::Next(
                FrameOp::Begin,
                Request::BeginCommandBuffer(frame.main_cbuf),
            ),
            (FrameOp::Begin, Reply::Done) => Step::Done(()),
            (FrameOp::End, Reply::Done) => Step::Done(()),
            (FrameOp::Submit, Reply::Done) => {
                frame.state = SlotState::Submitted;
                Step::Done(())
            },
            (_, reply) => Step::Failed(refusal(reply)),
        }
    }
}


/// The number of slots in the ring.
pub const FRAMES_IN_FLIGHT: usize = 2;

/// A fixed ring of slots and the cursor that says which one is current.
#[derive(Debug)]
pub struct FramesInFlight {
    frame: usize,
    frames: [FrameInFlight; 2],
}

/// The ring as contracts see it.
pub struct FramesView {
    /// The index of the current slot.
    pub frame: int,
    pub frames: Seq<FrameView>,
}

impl View for FramesInFlight {
    type V = FramesView;

    closed spec fn view(&self) -> FramesView {
        FramesView {
            frame: (self.frame % 2) as int,
            frames: Seq::new(2, |i: int| self.frames@[i]@),
        }
    }
}

impl FramesInFlight {
    /// Starts the creation of the ring: the first request creates the
    /// command pool of the first slot.
    pub fn new(queue_families: &QueueFamilies) -> (r: (FramesBuild, Request))
        ensures
            r.0@ == FramesBuildView::First(FrameBuild::Pool, queue_families.graphics),
            r.1 == FrameInFlight::spec_pool_request(queue_families.graphics),
    {
        let (build, request) = FrameInFlight::new(queue_families);
        (FramesBuild::First(build, queue_families.graphics), request)
    }

    /// The index after `i` in the ring; from the last slot it wraps around
    /// to the first.
    pub open spec fn spec_next_index(i: int) -> int {
        (i + 1) % 2
    }

    /// The index before `i` in the ring; from the first slot it wraps around
    /// to the last.
    pub open spec fn spec_previous_index(i: int) -> int {
        (i + 2 - 1) % 2
    }

    /// Advancing wraps: two steps forth lead back to where they began, and a
    /// step back undoes a step forth.
    pub proof fn lemma_ring_wraps(i: int)
        requires
            0 <= i < 2,
        ensures
            0 <= Self::spec_next_index(i) < 2,
            0 <= Self::spec_previous_index(i) < 2,
            Self::spec_next_index(Self::spec_next_index(i)) == i,
            Self::spec_previous_index(Self::spec_next_index(i)) == i,
            Self::spec_next_index(Self::spec_previous_index(i)) == i,
    {
    }

    /// The cursor stays inside the ring, and the ring has its two slots.
    pub proof fn lemma_ring(&self)
        ensures
            0 <= self@.frame < 2,
            self@.frames.len() == 2,
    {
    }

    /// Advances the cursor to the next slot of the ring and hands out that
    /// slot, which is now the current one, with its index.
    pub fn next(&mut self) -> (r: (&mut FrameInFlight, usize))
        ensures
            r.1 == Self::spec_next_index(old(self)@.frame),
            final(self)@.frame == r.1,
            r.0@ == old(self)@.frames[r.1 as int],
            final(self)@.frames == old(self)@.frames.update(r.1 as int, final(r.0)@),
    {
        self.increment();
        let idx = self.frame % 2;
        (&mut self.frames[idx], idx)
    }

    /// The current slot with its index.
    pub fn current(&mut self) -> (r: (&mut FrameInFlight, usize))
        ensures
            r.1 == old(self)@.frame,
            r.0@ == old(self)@.frames[r.1 as int],
            final(self)@.frame == old(self)@.frame,
            final(self)@.frames == old(self)@.frames.update(r.1 as int, final(r.0)@),
    {
        let idx = self.frame % 2;
        (&mut self.frames[idx], idx)
    }

    /// The slot before the current one, with its index.
    pub fn previous(&mut self) -> (r: (&mut FrameInFlight, usize))
        ensures
            r.1 == Self::spec_previous_index(old(self)@.frame),
            r.0@ == old(self)@.frames[r.1 as int],
            final(self)@.frame == old(self)@.frame,
            final(self)@.frames == old(self)@.frames.update(r.1 as int, final(r.0)@),
    {
        let idx = (self.frame % 2 + 1) % 2;
        (&mut self.frames[idx], idx)
    }

    /// Makes the next slot of the ring the current one.
    pub fn increment(&mut self)
        ensures
            final(self)@.frame == Self::spec_next_index(old(self)@.frame),
            final(self)@.frames == old(self)@.frames,
    {
        self.frame = (self.frame % 2 + 1) % 2;
    }

    /// The slot with index `i`.
    pub fn get(&mut self, i: usize) -> (r: &mut FrameInFlight)
        requires
            i < FRAMES_IN_FLIGHT,
        ensures
            r@ == old(self)@.frames[i as int],
            final(self)@.frame == old(self)@.frame,
            final(self)@.frames == old(self)@.frames.update(i as int, final(r)@),
    {
        &mut self.frames[i]
    }
}


/// The creation of the ring in progress: its slots are created one after
/// the other, and all their objects are registered with one queue.
#[derive(Debug)]
pub enum FramesBuild {
    /// The first slot is being created, for this graphics queue family.
    First(FrameBuild, u32),
    /// The first slot exists and the second is being created.
    Second(FrameInFlight, FrameBuild),
}

/// The creation of the ring as contracts see it.
pub enum FramesBuildView {
    First(FrameBuild, u32),
    Second(FrameView, FrameBuild),
}

impl View for FramesBuild {
    type V = FramesBuildView;

    open spec fn view(&self) -> FramesBuildView {
        match *self {
            FramesBuild::First(build, family) => FramesBuildView::First(build, family),
            FramesBuild::Second(first, build) => FramesBuildView::Second(first@, build),
        }
    }
}

impl FramesBuild {
    /// What follows from `reply` in this state: the step of the slot that is
    /// being created, and when the second slot is done, the ring with the
    /// first slot current.
    pub open spec fn spec_advance(state: FramesBuildView, reply: Reply) -> Stated<
        FramesBuildView,
        FramesView,
    > {
        match state {
            FramesBuildView::First(build, family) => match build.spec_advance(reply) {
                Stated::Next(m, request) => Stated::Next(
                    FramesBuildView::First(m, family),
                    request,
                ),
                Stated::Done(first) => Stated::Next(
                    FramesBuildView::Second(first, FrameBuild::Pool),
                    RequestView::Plain(FrameInFlight::spec_pool_request(family)),
                ),
                Stated::Failed(e) => Stated::Failed(e),
            },
            FramesBuildView::Second(first, build) => match build.spec_advance(reply) {
                Stated::Next(m, request) => Stated::Next(
                    FramesBuildView::Second(first, m),
                    request,
                ),
                Stated::Done(second) => Stated::Done(
                    FramesView { frame: 0, frames: seq![first, second] },
                ),
                Stated::Failed(e) => Stated::Failed(e),
            },
        }
    }

    /// The entries that `reply` adds to the deletion queue in this state.
    pub open spec fn spec_registered(state: FramesBuildView, reply: Reply) -> Seq<DeletionEntry> {
        match state {
            FramesBuildView::First(build, _) => build.spec_registered(reply),
            FramesBuildView::Second(_, build) => build.spec_registered(reply),
        }
    }

    /// Takes the reply to the pending request, registers what was created
    /// with `queue`, and says what comes next.
    pub fn advance(self, reply: Reply, queue: &mut DeleteQueue) -> (r: Step<
        FramesBuild,
        FramesInFlight,
    >)
        ensures
            agrees(r, Self::spec_advance(self@, reply)),
            final(queue)@ == old(queue)@ + Self::spec_registered(self@, reply),
    {
        match self {
            FramesBuild::First(build, family) => match build.advance(reply, queue) {
                Step::Next(m, request) => Step::Next(FramesBuild::First(m, family), request),
                Step::Done(first) => Step::Next(
                    FramesBuild::Second(first, FrameBuild::Pool),
                    Request::CreateCommandPool(
                        CommandPoolCreateInfo {
                            queue_family_index: family,
                            flags: COMMAND_POOL_RESET_COMMAND_BUFFER,
                        },
                    ),
                ),
                Step::Failed(e) => Step::Failed(e),
            },
            FramesBuild::Second(first, build) => match build.advance(reply, queue) {
                Step::Next(m, request) => Step::Next(FramesBuild::Second(first, m), request),
                Step::Done(second) => {
                    let ring = FramesInFlight { frame: 0, frames: [first, second] };
                    assert(ring@.frames =~= seq![first@, second@]);
                    Step::Done(ring)
                },
                Step::Failed(e) => Step::Failed(e),
            },
        }
    }
}


/// A slot that has just been created is idle, with an empty deletion queue,
/// and the request that created its fence asked for a signaled fence: the
/// first wait on the slot finds the fence signaled.
pub proof fn lemma_new_slot_is_signaled(build: FrameBuild, reply: Reply)
    ensures
        build.spec_advance(reply) matches Stated::Done(slot) ==> slot.state == SlotState::Idle
            && slot.delete_queue.len() == 0,
        build.spec_advance(reply) matches Stated::Next(FrameBuild::Fence(_, _, _, _), request)
            ==> request == RequestView::Plain(Request::CreateFence { signaled: true }),
        build is Fence && reply is Fence ==> build.spec_advance(reply) is Done,
{
}

/// A submission that the device accepted leaves the slot submitted, and a
/// submitted slot becomes idle by nothing but a wait that saw the fence
/// signaled: until then the fence counts as unsignaled.
pub proof fn lemma_submitted_until_waited(op: FrameOp, reply: Reply, slot: FrameView)
    ensures
        FrameOp::Submit.spec_frame_after(Reply::Done, slot).state == SlotState::Submitted,
        slot.state == SlotState::Submitted && op.spec_frame_after(reply, slot).state
            == SlotState::Idle ==> op == FrameOp::WaitFence && reply is Done,
        op == FrameOp::WaitFence && reply is Done ==> op.spec_frame_after(reply, slot).state
            == SlotState::Idle,
{
}

} // verus!
