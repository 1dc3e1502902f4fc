//! Immediate submission: a command buffer of its own with a fence of its
//! own, for one-off work during which the host waits for the device.

use crate::consts::COMMAND_POOL_RESET_COMMAND_BUFFER;
use crate::consts::WAIT_TIMEOUT_NS;
use crate::delete_queue::DeletionEntry;
use crate::device::agrees;
use crate::device::refusal;
use crate::device::spec_refusal;
use crate::device::CommandPoolCreateInfo;
use crate::device::Error;
use crate::device::Reply;
use crate::device::Request;
use crate::device::RequestView;
use crate::device::Stated;
use crate::device::Step;
use crate::device::SubmitInfo;
use ash::vk;
use vstd::prelude::*;

verus! {

/// The objects of the immediate path. The queue is not owned.
#[derive(Clone, Copy, Debug)]
pub struct Immediate {
    pool: vk::CommandPool,
    cbuf: vk::CommandBuffer,
    fence: vk::Fence,
    queue: vk::Queue,
}

/// The immediate path as contracts see it.
pub struct ImmediateView {
    pub pool: vk::CommandPool,
    pub cbuf: vk::CommandBuffer,
    pub fence: vk::Fence,
    pub queue: vk::Queue,
}

impl View for Immediate {
    type V = ImmediateView;

    closed spec fn view(&self) -> ImmediateView {
        ImmediateView { pool: self.pool, cbuf: self.cbuf, fence: self.fence, queue: self.queue }
    }
}

/// The creation of the immediate path in progress, for a queue.
#[derive(Debug)]
pub enum ImmediateBuild {
    /// The command pool is being created.
    Pool(vk::Queue),
    /// The command buffer is being allocated.
    Buffers(vk::Queue, vk::CommandPool),
    /// The fence is being created.
    Fence(vk::Queue, vk::CommandPool, vk::CommandBuffer),
    /// The command pool has been made and the rest could not: the pool is
    /// being destroyed again, and then the creation has failed for the
    /// reason given.
    Abandon(Error),
}

impl View for ImmediateBuild {
    type V = ImmediateBuild;

    open spec fn view(&self) -> ImmediateBuild {
        *self
    }
}

impl ImmediateBuild {
    /// The step that gives up a creation after the command pool `pool` has
    /// been made: the pool is destroyed before the creation fails with `e`.
    pub open spec fn spec_abandon(pool: vk::CommandPool, e: Error) -> Stated<
        ImmediateBuild,
        ImmediateView,
    > {
        Stated::Next(
            ImmediateBuild::Abandon(e),
            RequestView::Destroy(seq![DeletionEntry::CommandPool(pool)]),
        )
    }

    /// What follows from `reply` in this state. The fence is created
    /// unsignaled: it is waited for only after a submission. The objects of
    /// the path are registered with no deletion queue, so a creation that
    /// fails destroys the command pool itself where it has made one.
    pub open spec fn spec_advance(self, reply: Reply) -> Stated<ImmediateBuild, ImmediateView> {
        match (self, reply) {
            (ImmediateBuild::Pool(queue), Reply::CommandPool(pool)) => Stated::Next(
                ImmediateBuild::Buffers(queue, pool),
                RequestView::Plain(Request::AllocateCommandBuffers { command_pool: pool, count: 1 }),
            ),
            (ImmediateBuild::Buffers(queue, pool), Reply::CommandBuffers(buffers)) => if buffers@.len()
                > 0 {
                Stated::Next(
                    ImmediateBuild::Fence(queue, pool, buffers@[0]),
                    RequestView::Plain(Request::CreateFence { signaled: false }),
                )
            } else {
                Self::spec_abandon(pool, Error::NoCommandBuffer)
            },
            (ImmediateBuild::Buffers(_, pool), reply) => Self::spec_abandon(
                pool,
                spec_refusal(reply),
            ),
            (ImmediateBuild::Fence(queue, pool, cbuf), Reply::Fence(fence)) => Stated::Done(
                ImmediateView { pool, cbuf, fence, queue },
            ),
            (ImmediateBuild::Fence(_, pool, _), reply) => Self::spec_abandon(
                pool,
                spec_refusal(reply),
            ),
            (ImmediateBuild::Abandon(e), _) => Stated::Failed(e),
            (_, reply) => Stated::Failed(spec_refusal(reply)),
        }
    }

    /// The step that gives up a creation after the command pool has been
    /// made.
    fn abandon(pool: vk::CommandPool, e: Error) -> (r: Step<ImmediateBuild, Immediate>)
        ensures
            agrees(r, Self::spec_abandon(pool, e)),
    {
        let mut entries: Vec<DeletionEntry> = Vec::new();
        entries.push(DeletionEntry::CommandPool(pool));
        assert(entries@ =~= seq![DeletionEntry::CommandPool(pool)]);
        Step::Next(ImmediateBuild::Abandon(e), Request::Destroy(entries))
    }

    /// Takes the reply to the pending request and says what comes next.
    pub fn advance(self, reply: Reply) -> (r: Step<ImmediateBuild, Immediate>)
        ensures
            agrees(r, self.spec_advance(reply)),
    {
        match (self, reply) {
            (ImmediateBuild::Pool(queue), Reply::CommandPool(pool)) => Step::Next(
                ImmediateBuild::Buffers(queue, pool),
                Request::AllocateCommandBuffers { command_pool: pool, count: 1 },
            ),
            (ImmediateBuild::Buffers(queue, pool), Reply::CommandBuffers(buffers)) => {
                if buffers.len() > 0 {
                    Step::Next(
                        ImmediateBuild::Fence(queue, pool, buffers[0]),
                        Request::CreateFence { signaled: false },
                    )
                } else {
                    Self::abandon(pool, Error::NoCommandBuffer)
                }
            },
            (ImmediateBuild::Buffers(_, pool), reply) => Self::abandon(pool, refusal(reply)),
            (ImmediateBuild::Fence(queue, pool, cbuf), Reply::Fence(fence)) => Step::Done(
                Immediate { pool, cbuf, fence, queue },
            ),
            (ImmediateBuild::Fence(_, pool, _), reply) => Self::abandon(pool, refusal(reply)),
            (ImmediateBuild::Abandon(e), _) => Step::Failed(e),
            (_, reply) => Step::Failed(refusal(reply)),
        }
    }
}

/// The stage of an immediate submission, named by the request that is
/// pending.
#[derive(Clone, Copy, Debug, PartialEq, Eq, Structural)]
pub enum ImmediateStage {
    ResetFence,
    ResetCommands,
    Begin,
    /// The caller is recording its commands.
    Record,
    End,
    Submit,
    /// The host is waiting for the device to finish.
    Wait,
}

/// An immediate submission in progress.
#[derive(Clone, Copy, Debug)]
pub struct ImmediateSubmit {
    pub path: Immediate,
    pub stage: ImmediateStage,
}

impl ImmediateSubmit {
    /// The submission of the recording: it waits for no semaphore and
    /// signals none, only the path's own fence.
    pub open spec fn spec_submit_info(path: ImmediateView) -> SubmitInfo {
        SubmitInfo {
            queue: path.queue,
            command_buffer: path.cbuf,
            wait: None,
            signal: None,
            fence: path.fence,
        }
    }

    /// The request that is pending at `stage`.
    pub open spec fn spec_request(path: ImmediateView, stage: ImmediateStage) -> Request {
        match stage {
            ImmediateStage::ResetFence => Request::ResetFence(path.fence),
            ImmediateStage::ResetCommands => Request::ResetCommandBuffer(path.cbuf),
            ImmediateStage::Begin => Request::BeginCommandBuffer(path.cbuf),
            ImmediateStage::Record => Request::RecordCaller(path.cbuf),
            ImmediateStage::End => Request::EndCommandBuffer(path.cbuf),
            ImmediateStage::Submit => Request::Submit(Self::spec_submit_info(path)),
            ImmediateStage::Wait => Request::WaitForFence {
                fence: path.fence,
                timeout_ns: WAIT_TIMEOUT_NS,
            },
        }
    }

    /// The stage after `stage`, or `None` after the last.
    pub open spec fn spec_following(stage: ImmediateStage) -> Option<ImmediateStage> {
        match stage {
            ImmediateStage::ResetFence => Some(ImmediateStage::ResetCommands),
            ImmediateStage::ResetCommands => Some(ImmediateStage::Begin),
            ImmediateStage::Begin => Some(ImmediateStage::Record),
            ImmediateStage::Record => Some(ImmediateStage::End),
            ImmediateStage::End => Some(ImmediateStage::Submit),
            ImmediateStage::Submit => Some(ImmediateStage::Wait),
            ImmediateStage::Wait => None,
        }
    }

    /// What follows from `reply` in this state: success moves on to the
    /// next stage, and ends the operation after the wait; anything else
    /// fails it where it stands.
    pub open spec fn spec_advance(self, reply: Reply) -> Step<ImmediateSubmit, ()> {
        match reply {
            Reply::Done => match Self::spec_following(self.stage) {
                Some(stage) => Step::Next(
                    ImmediateSubmit { path: self.path, stage },
                    Self::spec_request(self.path@, stage),
                ),
                None => Step::Done(()),
            },
            reply => Step::Failed(spec_refusal(reply)),
        }
    }

    /// The request that is pending at `stage`.
    fn request(path: &Immediate, stage: ImmediateStage) -> (r: Request)
        ensures
            r == Self::spec_request(path@, stage),
    {
        match stage {
            ImmediateStage::ResetFence => Request::ResetFence(path.fence),
            ImmediateStage::ResetCommands => Request::ResetCommandBuffer(path.cbuf),
            ImmediateStage::Begin => Request::BeginCommandBuffer(path.cbuf),
            ImmediateStage::Record => Request::RecordCaller(path.cbuf),
            ImmediateStage::End => Request::EndCommandBuffer(path.cbuf),
            ImmediateStage::Submit => Request::Submit(
                SubmitInfo {
                    queue: path.queue,
                    command_buffer: path.cbuf,
                    wait: None,
                    signal: None,
                    fence: path.fence,
                },
            ),
            ImmediateStage::Wait => Request::WaitForFence {
                fence: path.fence,
                timeout_ns: WAIT_TIMEOUT_NS,
            },
        }
    }

    /// Takes the reply to the pending request and says what comes next.
    pub fn advance(self, reply: Reply) -> (r: Step<ImmediateSubmit, ()>)
        ensures
            r == self.spec_advance(reply),
    {
        match reply {
            Reply::Done => {
                let following = match self.stage {
                    ImmediateStage::ResetFence => Some(ImmediateStage::ResetCommands),
                    ImmediateStage::ResetCommands => Some(ImmediateStage::Begin),
                    ImmediateStage::Begin => Some(ImmediateStage::Record),
                    ImmediateStage::Record => Some(ImmediateStage::End),
                    ImmediateStage::End => Some(ImmediateStage::Submit),
                    ImmediateStage::Submit => Some(ImmediateStage::Wait),
                    ImmediateStage::Wait => None,
                };
                match following {
                    Some(stage) => Step::Next(
                        ImmediateSubmit { path: self.path, stage },
                        Self::request(&self.path, stage),
                    ),
                    None => Step::Done(()),
                }
            },
            reply => Step::Failed(refusal(reply)),
        }
    }
}

impl Immediate {
    /// Starts the creation of the immediate path for `queue`, whose family
    /// is `queue_family`.
    pub fn new(queue: vk::Queue, queue_family: u32) -> (r: (ImmediateBuild, Request))
        ensures
            r.0 == ImmediateBuild::Pool(queue),
            r.1 == Request::CreateCommandPool(
                CommandPoolCreateInfo {
                    queue_family_index: queue_family,
                    flags: COMMAND_POOL_RESET_COMMAND_BUFFER,
                },
            ),
    {
        (
            ImmediateBuild::Pool(queue),
            Request::CreateCommandPool(
                CommandPoolCreateInfo {
                    queue_family_index: queue_family,
                    flags: COMMAND_POOL_RESET_COMMAND_BUFFER,
                },
            ),
        )
    }

    /// The request that destroys the path's objects: the fence, then the
    /// command pool.
    pub fn destroy(&self) -> (r: Request)
        ensures
            r@ == RequestView::Destroy(
                seq![DeletionEntry::Fence(self@.fence), DeletionEntry::CommandPool(self@.pool)],
            ),
    {
        let mut entries: Vec<DeletionEntry> = Vec::new();
        entries.push(DeletionEntry::Fence(self.fence));
        entries.push(DeletionEntry::CommandPool(self.pool));
        assert(entries@ =~= seq![
            DeletionEntry::Fence(self@.fence),
            DeletionEntry::CommandPool(self@.pool),
        ]);
        Request::Destroy(entries)
    }

    /// Starts a submission: the first request resets the fence. Between
    /// begin and end the caller records its commands.
    pub fn submit(&self) -> (r: (ImmediateSubmit, Request))
        ensures
            r.0 == (ImmediateSubmit { path: *self, stage: ImmediateStage::ResetFence }),
            r.1 == ImmediateSubmit::spec_request(self@, ImmediateStage::ResetFence),
    {
        (
            ImmediateSubmit { path: *self, stage: ImmediateStage::ResetFence },
            Request::ResetFence(self.fence),
        )
    }
}

} // verus!
