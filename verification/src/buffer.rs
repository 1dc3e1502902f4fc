//! Buffers: the builder, the steps of a build, and the finished wrapper.

use crate::delete_queue::DeleteQueue;
use crate::delete_queue::DeletionEntry;
use crate::device::refusal;
use crate::device::spec_refusal;
use crate::device::AllocationRequest;
use crate::device::BufferCreateInfo;
use crate::device::Reply;
use crate::device::Request;
use crate::device::Step;
use ash::vk;
use crate::device::MemoryLocation;
use vstd::prelude::*;

verus! {

/// A buffer on the device. The memory behind it belongs to the deletion queue
/// that the build registered it with; this value only refers to it.
#[derive(Clone, Copy, Debug)]
pub struct GpuBuffer {
    pub buffer: vk::Buffer,
    pub size: u64,
    /// Address of the host mapping of the buffer's memory, if it has one.
    pub ptr: Option<usize>,
}

impl GpuBuffer {
    /// Address and length in bytes of the host-visible view of the buffer, or
    /// `None` where its memory is not mapped. A buffer of size zero that is
    /// mapped has a view of length zero.
    pub fn mapped_range(&self) -> (r: Option<(usize, u64)>)
        ensures
            r == match self.ptr {
                Some(address) => Some((address, self.size)),
                None => None::<(usize, u64)>,
            },
    {
        match self.ptr {
            Some(address) => Some((address, self.size)),
            None => None,
        }
    }

    /// A builder with capacity zero, no usage and device-local memory.
    pub fn builder() -> (r: BufferBuilder)
        ensures
            r.capacity == 0,
            r.usage == 0,
            r.location == MemoryLocation::GpuOnly,
    {
        BufferBuilder { capacity: 0, usage: 0, location: MemoryLocation::GpuOnly }
    }
}

/// Parameters of a buffer that is yet to be built.
#[derive(Clone, Copy, Debug)]
pub struct BufferBuilder {
    pub capacity: usize,
    pub usage: u32,
    pub location: MemoryLocation,
}

impl BufferBuilder {
    /// Sets the size in bytes.
    pub fn capacity(&mut self, capacity: usize) -> (r: &mut Self)
        ensures
            *r == (BufferBuilder { capacity, ..*old(self) }),
            *final(self) == *final(r),
    {
        self.capacity = capacity;
        self
    }

    /// Sets the usage flags.
    pub fn usage(&mut self, usage: u32) -> (r: &mut Self)
        ensures
            *r == (BufferBuilder { usage, ..*old(self) }),
            *final(self) == *final(r),
    {
        self.usage = usage;
        self
    }

    /// Sets where the memory is to live.
    pub fn location(&mut self, location: MemoryLocation) -> (r: &mut Self)
        ensures
            *r == (BufferBuilder { location, ..*old(self) }),
            *final(self) == *final(r),
    {
        self.location = location;
        self
    }

    /// Starts a build: the first request creates the buffer itself.
    pub fn build(&self) -> (r: (BufferBuild, Request))
        ensures
            r.0 == BufferBuild::Create(*self),
            r.1 == Request::CreateBuffer(
                BufferCreateInfo { size: self.capacity as u64, usage: self.usage },
            ),
    {
        (
            BufferBuild::Create(*self),
            Request::CreateBuffer(
                BufferCreateInfo { size: self.capacity as u64, usage: self.usage },
            ),
        )
    }
}

/// A build in progress, named by the request that is pending.
#[derive(Clone, Copy, Debug)]
pub enum BufferBuild {
    /// The buffer is being created.
    Create(BufferBuilder),
    /// The buffer's memory requirements are being read.
    Requirements(BufferBuilder, vk::Buffer),
    /// Memory is being allocated.
    Allocate(BufferBuilder, vk::Buffer),
    /// The memory is being bound; afterwards the buffer is ready.
    Bind(GpuBuffer),
}

impl BufferBuild {
    /// What follows from `reply` in this state.
    pub open spec fn spec_advance(self, reply: Reply) -> Step<BufferBuild, GpuBuffer> {
        match (self, reply) {
            (BufferBuild::Create(b), Reply::Buffer(buffer)) => Step::Next(
                BufferBuild::Requirements(b, buffer),
                Request::BufferRequirements(buffer),
            ),
            (BufferBuild::Requirements(b, buffer), Reply::Requirements(requirements)) => Step::Next(
                BufferBuild::Allocate(b, buffer),
                Request::Allocate(
                    AllocationRequest { requirements, location: b.location, linear: true },
                ),
            ),
            (BufferBuild::Allocate(b, buffer), Reply::Allocated(a)) => Step::Next(
                BufferBuild::Bind(GpuBuffer { buffer, size: b.capacity as u64, ptr: a.mapped }),
                Request::BindBufferMemory { buffer, memory: a.memory, offset: a.offset },
            ),
            (BufferBuild::Bind(buffer), Reply::Done) => Step::Done(buffer),
            (_, reply) => Step::Failed(spec_refusal(reply)),
        }
    }

    /// The entries that `reply` adds to the deletion queue in this state:
    /// every object is registered as soon as it exists.
    pub open spec fn spec_registered(self, reply: Reply) -> Seq<DeletionEntry> {
        match (self, reply) {
            (BufferBuild::Create(_), Reply::Buffer(buffer)) => seq![DeletionEntry::Buffer(buffer)],
            (BufferBuild::Allocate(_, _), Reply::Allocated(a)) => seq![
                DeletionEntry::Allocation(a.allocation),
            ],
            _ => Seq::empty(),
        }
    }

    /// Takes the reply to the pending request, registers what was created
    /// with `queue`, and says what comes next.
    pub fn advance(self, reply: Reply, queue: &mut DeleteQueue) -> (r: Step<BufferBuild, GpuBuffer>)
        ensures
            r == self.spec_advance(reply),
            final(queue)@ == old(queue)@ + self.spec_registered(reply),
    {
        proof {
            assert(old(queue)@ + Seq::<DeletionEntry>::empty() =~= old(queue)@);
        }
        match (self, reply) {
            (BufferBuild::Create(b), Reply::Buffer(buffer)) => {
                queue.push(buffer);
                assert(queue@ =~= old(queue)@ + seq![DeletionEntry::Buffer(buffer)]);
                Step::Next(BufferBuild::Requirements(b, buffer), Request::BufferRequirements(buffer))
            },
            (BufferBuild::Requirements(b, buffer), Reply::Requirements(requirements)) => Step::Next(
                BufferBuild::Allocate(b, buffer),
                Request::Allocate(
                    AllocationRequest { requirements, location: b.location, linear: true },
                ),
            ),
            (BufferBuild::Allocate(b, buffer), Reply::Allocated(a)) => {
                let memory = a.memory;
                let offset = a.offset;
                let ptr = a.mapped;
                queue.push(a.allocation);
                assert(queue@ =~= old(queue)@ + seq![DeletionEntry::Allocation(a.allocation)]);
                Step::Next(
                    BufferBuild::Bind(GpuBuffer { buffer, size: b.capacity as u64, ptr }),
                    Request::BindBufferMemory { buffer, memory, offset },
                )
            },
            (BufferBuild::Bind(buffer), Reply::Done) => Step::Done(buffer),
            (_, reply) => Step::Failed(refusal(reply)),
        }
    }
}

} // verus!
