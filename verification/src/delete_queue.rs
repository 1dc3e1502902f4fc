//! Deferred destruction: an ordered record of GPU objects that are destroyed
//! later, newest first.

use ash::vk;
use gpu_allocator::vulkan::Allocation;
use vstd::prelude::*;
use vstd::std_specs::convert::FromSpec;
use vstd::std_specs::convert::FromSpecImpl;

verus! {

/// One object that waits for its destruction.
#[must_use]
#[derive(Debug)]
pub enum DeletionEntry {
    Semaphore(vk::Semaphore),
    Fence(vk::Fence),
    CommandPool(vk::CommandPool),
    Image(vk::Image),
    ImageView(vk::ImageView),
    Allocation(Allocation),
    ShaderModule(vk::ShaderModule),
    DescriptorPool(vk::DescriptorPool),
    DescriptorSetLayout(vk::DescriptorSetLayout),
    Pipeline(vk::Pipeline),
    PipelineLayout(vk::PipelineLayout),
    Buffer(vk::Buffer),
}

impl From<vk::Semaphore> for DeletionEntry {
    fn from(value: vk::Semaphore) -> (r: Self) {
        DeletionEntry::Semaphore(value)
    }
}

impl FromSpecImpl<vk::Semaphore> for DeletionEntry {
    open spec fn obeys_from_spec() -> bool {
        true
    }

    open spec fn from_spec(value: vk::Semaphore) -> Self {
        DeletionEntry::Semaphore(value)
    }
}

impl From<vk::Fence> for DeletionEntry {
    fn from(value: vk::Fence) -> (r: Self) {
        DeletionEntry::Fence(value)
    }
}

impl FromSpecImpl<vk::Fence> for DeletionEntry {
    open spec fn obeys_from_spec() -> bool {
        true
    }

    open spec fn from_spec(value: vk::Fence) -> Self {
        DeletionEntry::Fence(value)
    }
}

impl From<vk::CommandPool> for DeletionEntry {
    fn from(value: vk::CommandPool) -> (r: Self) {
        DeletionEntry::CommandPool(value)
    }
}

impl FromSpecImpl<vk::CommandPool> for DeletionEntry {
    open spec fn obeys_from_spec() -> bool {
        true
    }

    open spec fn from_spec(value: vk::CommandPool) -> Self {
        DeletionEntry::CommandPool(value)
    }
}

impl From<vk::Image> for DeletionEntry {
    fn from(value: vk::Image) -> (r: Self) {
        DeletionEntry::Image(value)
    }
}

impl FromSpecImpl<vk::Image> for DeletionEntry {
    open spec fn obeys_from_spec() -> bool {
        true
    }

    open spec fn from_spec(value: vk::Image) -> Self {
        DeletionEntry::Image(value)
    }
}

impl From<vk::ImageView> for DeletionEntry {
    fn from(value: vk::ImageView) -> (r: Self) {
        DeletionEntry::ImageView(value)
    }
}

impl FromSpecImpl<vk::ImageView> for DeletionEntry {
    open spec fn obeys_from_spec() -> bool {
        true
    }

    open spec fn from_spec(value: vk::ImageView) -> Self {
        DeletionEntry::ImageView(value)
    }
}

impl From<Allocation> for DeletionEntry {
    fn from(value: Allocation) -> (r: Self) {
        DeletionEntry::Allocation(value)
    }
}

impl FromSpecImpl<Allocation> for DeletionEntry {
    open spec fn obeys_from_spec() -> bool {
        true
    }

    open spec fn from_spec(value: Allocation) -> Self {
        DeletionEntry::Allocation(value)
    }
}

impl From<vk::ShaderModule> for DeletionEntry {
    fn from(value: vk::ShaderModule) -> (r: Self) {
        DeletionEntry::ShaderModule(value)
    }
}

impl FromSpecImpl<vk::ShaderModule> for DeletionEntry {
    open spec fn obeys_from_spec() -> bool {
        true
    }

    open spec fn from_spec(value: vk::ShaderModule) -> Self {
        DeletionEntry::ShaderModule(value)
    }
}

impl From<vk::DescriptorPool> for DeletionEntry {
    fn from(value: vk::DescriptorPool) -> (r: Self) {
        DeletionEntry::DescriptorPool(value)
    }
}

impl FromSpecImpl<vk::DescriptorPool> for DeletionEntry {
    open spec fn obeys_from_spec() -> bool {
        true
    }

    open spec fn from_spec(value: vk::DescriptorPool) -> Self {
        DeletionEntry::DescriptorPool(value)
    }
}

impl From<vk::DescriptorSetLayout> for DeletionEntry {
    fn from(value: vk::DescriptorSetLayout) -> (r: Self) {
        DeletionEntry::DescriptorSetLayout(value)
    }
}

impl FromSpecImpl<vk::DescriptorSetLayout> for DeletionEntry {
    open spec fn obeys_from_spec() -> bool {
        true
    }

    open spec fn from_spec(value: vk::DescriptorSetLayout) -> Self {
        DeletionEntry::DescriptorSetLayout(value)
    }
}

impl From<vk::Pipeline> for DeletionEntry {
    fn from(value: vk::Pipeline) -> (r: Self) {
        DeletionEntry::Pipeline(value)
    }
}

impl FromSpecImpl<vk::Pipeline> for DeletionEntry {
    open spec fn obeys_from_spec() -> bool {
        true
    }

    open spec fn from_spec(value: vk::Pipeline) -> Self {
        DeletionEntry::Pipeline(value)
    }
}

impl From<vk::PipelineLayout> for DeletionEntry {
    fn from(value: vk::PipelineLayout) -> (r: Self) {
        DeletionEntry::PipelineLayout(value)
    }
}

impl FromSpecImpl<vk::PipelineLayout> for DeletionEntry {
    open spec fn obeys_from_spec() -> bool {
        true
    }

    open spec fn from_spec(value: vk::PipelineLayout) -> Self {
        DeletionEntry::PipelineLayout(value)
    }
}

impl From<vk::Buffer> for DeletionEntry {
    fn from(value: vk::Buffer) -> (r: Self) {
        DeletionEntry::Buffer(value)
    }
}

impl FromSpecImpl<vk::Buffer> for DeletionEntry {
    open spec fn obeys_from_spec() -> bool {
        true
    }

    open spec fn from_spec(value: vk::Buffer) -> Self {
        DeletionEntry::Buffer(value)
    }
}

/// Objects to destroy, in the order in which they were created. They are
/// destroyed in the reverse of that order, since a later object may depend on
/// an earlier one.
#[derive(Debug)]
pub struct DeleteQueue {
    inner: Vec<DeletionEntry>,
}

impl View for DeleteQueue {
    type V = Seq<DeletionEntry>;

    closed spec fn view(&self) -> Seq<DeletionEntry> {
        self.inner@
    }
}

impl DeleteQueue {
    /// An empty queue.
    pub fn new() -> (r: Self)
        ensures
            r@ == Seq::<DeletionEntry>::empty(),
    {
        DeleteQueue { inner: Vec::new() }
    }

    /// How many entries wait for their destruction.
    pub fn len(&self) -> (r: usize)
        ensures
            r == self@.len(),
    {
        self.inner.len()
    }

    /// Whether nothing waits for its destruction.
    pub fn is_empty(&self) -> (r: bool)
        ensures
            r == (self@.len() == 0),
    {
        self.inner.len() == 0
    }

    /// Gives the queue up without flushing it. Entries that it still holds
    /// are leaked: the result is their number, to be reported once, or
    /// `None` where the queue was empty and nothing is to report.
    pub fn discard(self) -> (r: Option<usize>)
        ensures
            r == if self@.len() == 0 {
                None
            } else {
                Some(self@.len() as usize)
            },
    {
        if self.inner.len() == 0 {
            None
        } else {
            Some(self.inner.len())
        }
    }

    /// Records `object` as the newest entry: the entry that `object`
    /// converts to is put behind what the queue holds.
    pub fn push<T>(&mut self, object: T) where DeletionEntry: From<T>
        ensures
            final(self)@.len() == old(self)@.len() + 1,
            final(self)@.drop_last() == old(self)@,
            call_ensures(<DeletionEntry as From<T>>::from, (object,), final(self)@.last()),
            <DeletionEntry as FromSpec<T>>::obeys_from_spec() ==> final(self)@ == old(self)@.push(
                <DeletionEntry as FromSpec<T>>::from_spec(object),
            ),
    {
        let entry: DeletionEntry = DeletionEntry::from(object);
        self.inner.push(entry);
        assert(self.inner@.drop_last() =~= old(self).inner@);
    }

    /// Moves every entry of `from` behind the entries of `self`, in their
    /// order, and leaves `from` empty.
    pub fn append(&mut self, from: &mut DeleteQueue)
        ensures
            final(self)@ == old(self)@ + old(from)@,
            final(from)@ == Seq::<DeletionEntry>::empty(),
    {
        self.inner.append(&mut from.inner);
    }

    /// Moves every entry into a queue of its own and leaves this one empty.
    pub fn take(&mut self) -> (r: DeleteQueue)
        ensures
            r@ == old(self)@,
            final(self)@ == Seq::<DeletionEntry>::empty(),
    {
        let mut taken = DeleteQueue::new();
        taken.append(self);
        assert(Seq::<DeletionEntry>::empty() + old(self)@ =~= old(self)@);
        taken
    }

    /// Empties the queue and hands out its entries in the order in which they
    /// are to be destroyed: the newest first.
    pub fn flush(&mut self) -> (r: Vec<DeletionEntry>)
        ensures
            r@ == old(self)@.reverse(),
            final(self)@ == Seq::<DeletionEntry>::empty(),
    {
        let mut out: Vec<DeletionEntry> = Vec::new();
        while self.inner.len() > 0
            invariant
                self.inner@.len() + out@.len() == old(self).inner@.len(),
                self.inner@ == old(self).inner@.subrange(0, self.inner@.len() as int),
                forall|i: int|
                    0 <= i < out@.len() ==> out@[i] == old(self).inner@[old(self).inner@.len() - 1
                        - i],
            decreases self.inner@.len(),
        {
            let entry = self.inner.pop();
            match entry {
                Some(e) => out.push(e),
                None => {},
            }
        }
        assert(out@ =~= old(self).inner@.reverse());
        assert(self.inner@ =~= Seq::<DeletionEntry>::empty());
        out
    }
}


/// The destruction of a list of objects in progress. Every object is handed
/// out once, in the order of the list, whether or not the destruction of an
/// earlier one failed.
#[derive(Debug)]
pub struct Destruction {
    /// What is yet to be destroyed, last to first.
    pending: Vec<DeletionEntry>,
    failures: usize,
}

/// A destruction as contracts see it.
pub struct DestructionView {
    /// What is yet to be destroyed, in the order of destruction.
    pub pending: Seq<DeletionEntry>,
    /// How many objects could not be destroyed.
    pub failures: nat,
}

impl View for Destruction {
    type V = DestructionView;

    closed spec fn view(&self) -> DestructionView {
        DestructionView { pending: self.pending@.reverse(), failures: self.failures as nat }
    }
}

impl Destruction {
    /// Starts the destruction of `entries`, first to last.
    pub fn new(entries: Vec<DeletionEntry>) -> (r: Self)
        ensures
            r@.pending == entries@,
            r@.failures == 0,
    {
        let mut rest = entries;
        let mut pending: Vec<DeletionEntry> = Vec::new();
        while rest.len() > 0
            invariant
                rest@.len() + pending@.len() == entries@.len(),
                rest@ == entries@.subrange(0, rest@.len() as int),
                forall|i: int|
                    0 <= i < pending@.len() ==> pending@[i] == entries@[entries@.len() - 1 - i],
            decreases rest@.len(),
        {
            match rest.pop() {
                Some(e) => pending.push(e),
                None => {},
            }
        }
        assert(pending@.reverse() =~= entries@);
        Destruction { pending, failures: 0 }
    }

    /// The next object to destroy, or `None` when all have been handed out.
    pub fn next(&mut self) -> (r: Option<DeletionEntry>)
        ensures
            final(self)@.failures == old(self)@.failures,
            match r {
                Some(entry) => old(self)@.pending.len() > 0 && entry == old(self)@.pending[0]
                    && final(self)@.pending == old(self)@.pending.drop_first(),
                None => old(self)@.pending.len() == 0 && final(self)@.pending.len() == 0,
            },
    {
        let entry = self.pending.pop();
        proof {
            if entry is Some {
                assert(self.pending@.reverse() =~= old(self).pending@.reverse().drop_first());
            } else {
                assert(self.pending@.reverse() =~= Seq::<DeletionEntry>::empty());
            }
        }
        entry
    }

    /// Takes note that the object handed out last could not be destroyed.
    /// The destruction of the rest goes on.
    pub fn failed(&mut self)
        ensures
            final(self)@.pending == old(self)@.pending,
            final(self)@.failures == if old(self)@.failures == usize::MAX {
                old(self)@.failures
            } else {
                old(self)@.failures + 1
            },
    {
        self.failures = self.failures.saturating_add(1);
    }

    /// How many objects could not be destroyed so far.
    pub fn failures(&self) -> (r: usize)
        ensures
            r == self@.failures,
    {
        self.failures
    }
}

/// The entries of a queue that held `start` after each of `pushed` has been
/// pushed onto it, first to last.
pub open spec fn spec_after_pushes(
    start: Seq<DeletionEntry>,
    pushed: Seq<DeletionEntry>,
) -> Seq<DeletionEntry>
    decreases pushed.len(),
{
    if pushed.len() == 0 {
        start
    } else {
        spec_after_pushes(start.push(pushed.first()), pushed.drop_first())
    }
}

/// Pushing entries one by one onto a queue puts them behind what it held, in
/// the order of the pushes.
pub proof fn lemma_pushes_append(start: Seq<DeletionEntry>, pushed: Seq<DeletionEntry>)
    ensures
        spec_after_pushes(start, pushed) == start + pushed,
    decreases pushed.len(),
{
    if pushed.len() == 0 {
        assert(start + pushed =~= start);
    } else {
        lemma_pushes_append(start.push(pushed.first()), pushed.drop_first());
        assert(start.push(pushed.first()) + pushed.drop_first() =~= start + pushed);
    }
}

/// Whatever is pushed onto an empty queue, a flush hands it out for
/// destruction in exactly the reverse order of the pushes: the entry at
/// place `i` of the destruction order is the one that was pushed `i` places
/// before the last.
pub proof fn lemma_flush_reverses_pushes(pushed: Seq<DeletionEntry>)
    ensures
        spec_after_pushes(Seq::empty(), pushed).reverse().len() == pushed.len(),
        forall|i: int|
            0 <= i < pushed.len() ==> #[trigger] spec_after_pushes(
                Seq::empty(),
                pushed,
            ).reverse()[i] == pushed[pushed.len() - 1 - i],
{
    lemma_pushes_append(Seq::empty(), pushed);
    assert(Seq::<DeletionEntry>::empty() + pushed =~= pushed);
}

/// After `append`, a flush destroys every entry that came from the other
/// queue before any entry that the queue held already, and each group in the
/// reverse of its own order.
pub proof fn lemma_append_then_flush(own: Seq<DeletionEntry>, other: Seq<DeletionEntry>)
    ensures
        (own + other).reverse() == other.reverse() + own.reverse(),
{
    assert((own + other).reverse() =~= other.reverse() + own.reverse());
}

} // verus!
