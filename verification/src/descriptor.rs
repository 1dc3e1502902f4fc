//! Descriptor sets: their layouts, the pools they come from, and the writes
//! that fill them.

use crate::consts::DESCRIPTOR_POOL_FREE_DESCRIPTOR_SET;
use crate::consts::DESCRIPTOR_TYPE_STORAGE_IMAGE;
use crate::consts::LAYOUT_GENERAL;
use crate::delete_queue::DeleteQueue;
use crate::delete_queue::DeletionEntry;
use crate::device::refusal;
use crate::device::spec_refusal;
use crate::device::Completion;
use crate::device::DescriptorPoolCreateInfo;
use crate::device::DescriptorWrite;
use crate::device::Error;
use crate::device::ImageInfo;
use crate::device::LayoutBinding;
use crate::device::PoolSize;
use crate::device::Reply;
use crate::device::Request;
use crate::device::RequestView;
use crate::device::Step;
use crate::image::GpuImage;
use ash::vk;
use vstd::prelude::*;

verus! {

/// A descriptor set that a pool has handed out.
#[derive(Clone, Copy, Debug)]
pub struct GpuDescriptorSet {
    pub set: vk::DescriptorSet,
}

impl GpuDescriptorSet {
    /// Starts a batch of writes into the set.
    pub fn update(&mut self) -> (r: DescriptorSetUpdate)
        ensures
            r.set == old(self).set,
            r.entries@.len() == 0,
            *final(self) == *old(self),
    {
        DescriptorSetUpdate { entries: Vec::new(), set: self.set }
    }
}

/// What a binding of a descriptor set is made to refer to.
#[derive(Clone, Copy, Debug)]
pub enum DescriptorSetUpdateEntry {
    StorageImage(ImageInfo),
}

impl DescriptorSetUpdateEntry {
    /// An image to store to, in the general layout.
    pub fn storage_image(image: &GpuImage) -> (r: Self)
        ensures
            r == DescriptorSetUpdateEntry::StorageImage(
                ImageInfo { image_view: image.view, image_layout: LAYOUT_GENERAL },
            ),
    {
        DescriptorSetUpdateEntry::StorageImage(
            ImageInfo { image_view: image.view, image_layout: LAYOUT_GENERAL },
        )
    }

    /// The write that puts this entry into binding `binding` of `set`: one
    /// descriptor, at array element zero.
    pub open spec fn spec_fill(self, set: vk::DescriptorSet, binding: u32) -> DescriptorWrite {
        match self {
            DescriptorSetUpdateEntry::StorageImage(image_info) => DescriptorWrite {
                dst_set: set,
                dst_binding: binding,
                dst_array_element: 0,
                descriptor_count: 1,
                descriptor_type: DESCRIPTOR_TYPE_STORAGE_IMAGE,
                image_info,
            },
        }
    }

    /// The write that puts this entry into binding `binding` of `set`.
    pub fn fill(&self, set: vk::DescriptorSet, binding: u32) -> (r: DescriptorWrite)
        ensures
            r == self.spec_fill(set, binding),
    {
        match *self {
            DescriptorSetUpdateEntry::StorageImage(image_info) => DescriptorWrite {
                dst_set: set,
                dst_binding: binding,
                dst_array_element: 0,
                descriptor_count: 1,
                descriptor_type: DESCRIPTOR_TYPE_STORAGE_IMAGE,
                image_info,
            },
        }
    }
}

/// A batch of writes into one descriptor set, gathered before it is sent.
#[derive(Debug)]
pub struct DescriptorSetUpdate {
    pub entries: Vec<(u32, DescriptorSetUpdateEntry)>,
    pub set: vk::DescriptorSet,
}

impl DescriptorSetUpdate {
    /// Adds the write of `entry` into binding `binding`.
    pub fn write(&mut self, binding: u32, entry: DescriptorSetUpdateEntry) -> (r: &mut Self)
        ensures
            r.entries@ == old(self).entries@.push((binding, entry)),
            r.set == old(self).set,
            *final(self) == *final(r),
    {
        self.entries.push((binding, entry));
        self
    }

    /// The writes of the batch, in the order in which they were added.
    pub open spec fn spec_writes(self) -> Seq<DescriptorWrite> {
        Seq::new(
            self.entries@.len(),
            |i: int| self.entries@[i].1.spec_fill(self.set, self.entries@[i].0),
        )
    }

    /// Ends the batch: the result is the one request that performs all its
    /// writes.
    pub fn finish(self) -> (r: (Completion, Request))
        ensures
            r.1@ == RequestView::UpdateDescriptorSets(self.spec_writes()),
    {
        let mut writes: Vec<DescriptorWrite> = Vec::new();
        let mut i: usize = 0;
        while i < self.entries.len()
            invariant
                i <= self.entries@.len(),
                writes@.len() == i,
                forall|j: int|
                    0 <= j < i ==> writes@[j] == self.entries@[j].1.spec_fill(
                        self.set,
                        self.entries@[j].0,
                    ),
            decreases self.entries@.len() - i,
        {
            let (binding, entry) = self.entries[i];
            writes.push(entry.fill(self.set, binding));
            i += 1;
        }
        assert(writes@ =~= self.spec_writes());
        (Completion {  }, Request::UpdateDescriptorSets(writes))
    }
}

/// The layout of a descriptor set.
#[derive(Clone, Copy, Debug)]
pub struct GpuDescriptorSetLayout {
    pub layout: vk::DescriptorSetLayout,
}

impl GpuDescriptorSetLayout {
    /// A builder without bindings.
    pub fn builder() -> (r: DescriptorSetLayoutBuilder)
        ensures
            r.bindings@.len() == 0,
    {
        DescriptorSetLayoutBuilder { bindings: Vec::new() }
    }
}

/// The bindings of a descriptor set layout that is yet to be built.
#[derive(Debug)]
pub struct DescriptorSetLayoutBuilder {
    pub bindings: Vec<LayoutBinding>,
}

impl DescriptorSetLayoutBuilder {
    /// Adds one descriptor of type `ty` at `binding`, for the shader stages
    /// `stages`.
    pub fn add_binding(self, binding: u32, ty: i32, stages: u32) -> (r: Self)
        ensures
            r.bindings@ == self.bindings@.push(
                LayoutBinding {
                    binding,
                    descriptor_type: ty,
                    descriptor_count: 1,
                    stage_flags: stages,
                },
            ),
    {
        let mut bindings = self.bindings;
        bindings.push(
            LayoutBinding { binding, descriptor_type: ty, descriptor_count: 1, stage_flags: stages },
        );
        DescriptorSetLayoutBuilder { bindings }
    }

    /// Starts the build: the one request creates the layout with the
    /// bindings in the order in which they were added.
    pub fn build(&self) -> (r: (LayoutBuild, Request))
        ensures
            r.1@ == RequestView::CreateDescriptorSetLayout(self.bindings@),
    {
        let mut bindings: Vec<LayoutBinding> = Vec::new();
        let mut i: usize = 0;
        while i < self.bindings.len()
            invariant
                i <= self.bindings@.len(),
                bindings@ == self.bindings@.subrange(0, i as int),
            decreases self.bindings@.len() - i,
        {
            bindings.push(self.bindings[i]);
            assert(bindings@ =~= self.bindings@.subrange(0, i + 1));
            i += 1;
        }
        assert(bindings@ =~= self.bindings@);
        (LayoutBuild {  }, Request::CreateDescriptorSetLayout(bindings))
    }
}

/// The build of a descriptor set layout in progress.
#[derive(Clone, Copy, Debug, PartialEq, Eq, Structural)]
pub struct LayoutBuild {}

impl LayoutBuild {
    /// What follows from `reply`.
    pub open spec fn spec_advance(self, reply: Reply) -> Step<LayoutBuild, GpuDescriptorSetLayout> {
        match reply {
            Reply::DescriptorSetLayout(layout) => Step::Done(GpuDescriptorSetLayout { layout }),
            reply => Step::Failed(spec_refusal(reply)),
        }
    }

    /// The entries that `reply` adds to the deletion queue.
    pub open spec fn spec_registered(self, reply: Reply) -> Seq<DeletionEntry> {
        match reply {
            Reply::DescriptorSetLayout(layout) => seq![DeletionEntry::DescriptorSetLayout(layout)],
            _ => Seq::empty(),
        }
    }

    /// Takes the reply to the request and registers the layout with `queue`.
    pub fn advance(self, reply: Reply, queue: &mut DeleteQueue) -> (r: Step<
        LayoutBuild,
        GpuDescriptorSetLayout,
    >)
        ensures
            r == self.spec_advance(reply),
            final(queue)@ == old(queue)@ + self.spec_registered(reply),
    {
        proof {
            assert(old(queue)@ + Seq::<DeletionEntry>::empty() =~= old(queue)@);
        }
        match reply {
            Reply::DescriptorSetLayout(layout) => {
                queue.push(layout);
                assert(queue@ =~= old(queue)@ + seq![DeletionEntry::DescriptorSetLayout(layout)]);
                Step::Done(GpuDescriptorSetLayout { layout })
            },
            reply => Step::Failed(refusal(reply)),
        }
    }
}

/// A pool that hands out descriptor sets.
#[derive(Clone, Copy, Debug)]
pub struct GpuDescriptorPool {
    pub pool: vk::DescriptorPool,
}

impl GpuDescriptorPool {
    /// A builder without sizes, for ten sets at most.
    pub fn builder() -> (r: DescriptorPoolBuilder)
        ensures
            r.sizes@.len() == 0,
            r.max_sets == 10,
    {
        DescriptorPoolBuilder { sizes: Vec::new(), max_sets: 10 }
    }

    /// The request that takes back every set of the pool.
    pub fn reset(&self) -> (r: (Completion, Request))
        ensures
            r.1 == Request::ResetDescriptorPool(self.pool),
    {
        (Completion {  }, Request::ResetDescriptorPool(self.pool))
    }

    /// Starts the allocation of one set of the given layout.
    pub fn allocate(&self, layout: &GpuDescriptorSetLayout) -> (r: (SetAllocation, Request))
        ensures
            r.1 == (Request::AllocateDescriptorSet {
                pool: self.pool,
                set_layout: layout.layout,
            }),
    {
        (
            SetAllocation {  },
            Request::AllocateDescriptorSet { pool: self.pool, set_layout: layout.layout },
        )
    }

    /// The request that gives `set` back to the pool.
    pub fn free(&self, set: GpuDescriptorSet) -> (r: (Completion, Request))
        ensures
            r.1 == (Request::FreeDescriptorSet { pool: self.pool, set: set.set }),
    {
        (Completion {  }, Request::FreeDescriptorSet { pool: self.pool, set: set.set })
    }
}

/// The allocation of a descriptor set in progress.
#[derive(Clone, Copy, Debug, PartialEq, Eq, Structural)]
pub struct SetAllocation {}

impl SetAllocation {
    /// What follows from `reply`: the first of the sets that came back.
    pub open spec fn spec_advance(self, reply: Reply) -> Step<SetAllocation, GpuDescriptorSet> {
        match reply {
            Reply::DescriptorSets(sets) => if sets@.len() > 0 {
                Step::Done(GpuDescriptorSet { set: sets@[0] })
            } else {
                Step::Failed(Error::EmptyReply)
            },
            reply => Step::Failed(spec_refusal(reply)),
        }
    }

    /// Takes the reply to the request and says how the allocation ended.
    pub fn advance(self, reply: Reply) -> (r: Step<SetAllocation, GpuDescriptorSet>)
        ensures
            r == self.spec_advance(reply),
    {
        match reply {
            Reply::DescriptorSets(sets) => {
                if sets.len() > 0 {
                    Step::Done(GpuDescriptorSet { set: sets[0] })
                } else {
                    Step::Failed(Error::EmptyReply)
                }
            },
            reply => Step::Failed(refusal(reply)),
        }
    }
}

/// The parameters of a descriptor pool that is yet to be built.
#[derive(Debug)]
pub struct DescriptorPoolBuilder {
    pub sizes: Vec<PoolSize>,
    pub max_sets: u32,
}

impl DescriptorPoolBuilder {
    /// Lets the pool hand out up to `max_count` descriptors of type `ty`.
    pub fn add_type_allocation(self, ty: i32, max_count: u32) -> (r: Self)
        ensures
            r.sizes@ == self.sizes@.push(
                PoolSize { descriptor_type: ty, descriptor_count: max_count },
            ),
            r.max_sets == self.max_sets,
    {
        let mut sizes = self.sizes;
        sizes.push(PoolSize { descriptor_type: ty, descriptor_count: max_count });
        DescriptorPoolBuilder { sizes, max_sets: self.max_sets }
    }

    /// Sets how many sets the pool can hand out.
    pub fn max_sets(self, max_sets: u32) -> (r: Self)
        ensures
            r.sizes@ == self.sizes@,
            r.max_sets == max_sets,
    {
        DescriptorPoolBuilder { sizes: self.sizes, max_sets }
    }

    /// Starts the build: the one request creates a pool whose sets can be
    /// freed one by one.
    pub fn build(&self) -> (r: (PoolBuild, Request))
        ensures
            r.1@ == (RequestView::CreateDescriptorPool {
                sizes: self.sizes@,
                max_sets: self.max_sets,
                flags: DESCRIPTOR_POOL_FREE_DESCRIPTOR_SET,
            }),
    {
        let mut sizes: Vec<PoolSize> = Vec::new();
        let mut i: usize = 0;
        while i < self.sizes.len()
            invariant
                i <= self.sizes@.len(),
                sizes@ == self.sizes@.subrange(0, i as int),
            decreases self.sizes@.len() - i,
        {
            sizes.push(self.sizes[i]);
            assert(sizes@ =~= self.sizes@.subrange(0, i + 1));
            i += 1;
        }
        assert(sizes@ =~= self.sizes@);
        (
            PoolBuild {  },
            Request::CreateDescriptorPool(
                DescriptorPoolCreateInfo {
                    sizes,
                    max_sets: self.max_sets,
                    flags: DESCRIPTOR_POOL_FREE_DESCRIPTOR_SET,
                },
            ),
        )
    }
}

/// The build of a descriptor pool in progress.
#[derive(Clone, Copy, Debug, PartialEq, Eq, Structural)]
pub struct PoolBuild {}

impl PoolBuild {
    /// What follows from `reply`.
    pub open spec fn spec_advance(self, reply: Reply) -> Step<PoolBuild, GpuDescriptorPool> {
        match reply {
            Reply::DescriptorPool(pool) => Step::Done(GpuDescriptorPool { pool }),
            reply => Step::Failed(spec_refusal(reply)),
        }
    }

    /// The entries that `reply` adds to the deletion queue.
    pub open spec fn spec_registered(self, reply: Reply) -> Seq<DeletionEntry> {
        match reply {
            Reply::DescriptorPool(pool) => seq![DeletionEntry::DescriptorPool(pool)],
            _ => Seq::empty(),
        }
    }

    /// Takes the reply to the request and registers the pool with `queue`.
    pub fn advance(self, reply: Reply, queue: &mut DeleteQueue) -> (r: Step<PoolBuild, GpuDescriptorPool>)
        ensures
            r == self.spec_advance(reply),
            final(queue)@ == old(queue)@ + self.spec_registered(reply),
    {
        proof {
            assert(old(queue)@ + Seq::<DeletionEntry>::empty() =~= old(queue)@);
        }
        match reply {
            Reply::DescriptorPool(pool) => {
                queue.push(pool);
                assert(queue@ =~= old(queue)@ + seq![DeletionEntry::DescriptorPool(pool)]);
                Step::Done(GpuDescriptorPool { pool })
            },
            reply => Step::Failed(refusal(reply)),
        }
    }
}

} // verus!
