//! Command queue with fence synchronization and allocator/command-list
//! pooling.
//!
//! The queue multiplexes CPU-side recording against asynchronous GPU
//! execution. A command allocator is the scarce resource: once a recorded
//! batch is submitted, the allocator backing it must stay untouched until the
//! fence value tagged to that submission has completed on the device. A
//! command buffer, by contrast, is reusable as soon as it is returned.
//!
//! The queue here is the bookkeeping core: it decides which pooled allocator
//! may be reused, issues strictly increasing fence values, and records the
//! completions the device reports. The device calls themselves (creating
//! allocators and lists, submitting, signaling the hardware fence, blocking
//! on the fence event) are the caller's actions; allocators and command lists
//! are identified here by the order of their creation.

use vstd::prelude::*;

verus! {

use std::collections::VecDeque;

/// A monotonically increasing fence counter value. The queue issues these
/// strictly increasing; a value is "completed" once the device-reported
/// completed counter has reached it.
#[derive(Debug, Clone, Copy, Default, PartialEq, Eq, Structural)]
pub struct FenceValue {
    pub v: u64,
}

/// A pooled command allocator, tagged with the fence value of the submission
/// that last used it. It may be reset and reused only once that value has
/// completed.
#[derive(Debug, Clone, Copy)]
struct CommandAllocator {
    allocator: usize,
    fence_value: FenceValue,
}

/// An exclusively owned pairing of one command allocator and one command
/// list, checked out from the queue for a single recording/submission cycle.
/// Both are identified by creation order; the caller maps the identifiers to
/// the device objects it created for them.
pub struct Context {
    command_list: usize,
    allocator: usize,
}

/// Mathematical image of a [`Context`].
pub ghost struct CtxView {
    pub allocator: int,
    pub command_list: int,
}

impl View for Context {
    type V = CtxView;

    closed spec fn view(&self) -> CtxView {
        CtxView { allocator: self.allocator as int, command_list: self.command_list as int }
    }
}

impl Context {
    /// Identifier of the command list held by this context.
    pub fn command_list(&self) -> (r: usize)
        ensures
            r == self@.command_list,
    {
        self.command_list
    }

    /// Identifier of the command allocator held by this context.
    pub fn allocator(&self) -> (r: usize)
        ensures
            r == self@.allocator,
    {
        self.allocator
    }
}

/// Mathematical image of one pooled allocator.
pub ghost struct AllocatorView {
    pub id: int,
    pub fence_value: int,
}

/// Mathematical image of a [`Queue`]: the last signaled fence value, the last
/// observed device-completed value, the allocator pool in reuse order
/// (front = oldest), and the command-list pool, together with how many of
/// each have ever been created.
pub ghost struct QueueView {
    pub fence_value: int,
    pub completed_value: int,
    pub pool: Seq<AllocatorView>,
    pub allocator_count: int,
    pub list_pool: Seq<int>,
    pub command_list_count: int,
}

impl QueueView {
    /// Well-formedness: completion never runs ahead of signaling; pooled
    /// allocators carry already-signaled tags, in submission (hence
    /// nondecreasing) order, each pooled identifier issued exactly once;
    /// pooled command lists are likewise distinct issued identifiers.
    pub open spec fn wf(self) -> bool {
        &&& 0 <= self.completed_value <= self.fence_value
        &&& 0 <= self.allocator_count
        &&& 0 <= self.command_list_count
        &&& forall|i: int|
            0 <= i < self.pool.len() ==> 0 <= (#[trigger] self.pool[i]).id < self.allocator_count
                && 0 <= self.pool[i].fence_value <= self.fence_value
        &&& forall|i: int, j: int|
            0 <= i < j < self.pool.len() ==> (#[trigger] self.pool[i]).id != (
            #[trigger] self.pool[j]).id && self.pool[i].fence_value <= self.pool[j].fence_value
        &&& forall|i: int|
            0 <= i < self.list_pool.len() ==> 0 <= #[trigger] self.list_pool[i]
                < self.command_list_count
        &&& forall|i: int, j: int|
            0 <= i < j < self.list_pool.len() ==> self.list_pool[i] != self.list_pool[j]
    }

    /// A context is validly checked out of this queue: both identifiers were
    /// issued by it and neither currently sits in a pool.
    pub open spec fn valid_context(self, c: CtxView) -> bool {
        &&& 0 <= c.allocator < self.allocator_count
        &&& 0 <= c.command_list < self.command_list_count
        &&& forall|i: int| 0 <= i < self.pool.len() ==> (#[trigger] self.pool[i]).id != c.allocator
        &&& forall|i: int|
            0 <= i < self.list_pool.len() ==> #[trigger] self.list_pool[i] != c.command_list
    }

    /// Allocators created by this queue that are not sitting in the pool,
    /// i.e. are held by checked-out contexts.
    pub open spec fn live_allocators(self) -> int {
        self.allocator_count - self.pool.len()
    }

    /// The oldest pooled allocator is reusable: its tagged fence value has
    /// completed.
    pub open spec fn can_reuse_front(self) -> bool {
        self.pool.len() > 0 && self.pool[0].fence_value <= self.completed_value
    }

    /// Transition of `signal`: advance the fence counter by exactly one and
    /// return the new value.
    pub open spec fn signal_t(self) -> (QueueView, int) {
        (QueueView { fence_value: self.fence_value + 1, ..self }, self.fence_value + 1)
    }

    /// Transition of `request_command_ctx`: take the oldest pooled allocator
    /// if its fence has completed, else a brand-new one; pair it with a
    /// pooled command list if any, else a brand-new one.
    pub open spec fn request_t(self) -> (QueueView, CtxView) {
        let (pool, allocator, allocator_count) = if self.can_reuse_front() {
            (self.pool.drop_first(), self.pool[0].id, self.allocator_count)
        } else {
            (self.pool, self.allocator_count, self.allocator_count + 1)
        };
        let (list_pool, command_list, command_list_count) = if self.list_pool.len() > 0 {
            (self.list_pool.drop_first(), self.list_pool[0], self.command_list_count)
        } else {
            (self.list_pool, self.command_list_count, self.command_list_count + 1)
        };
        (
            QueueView { pool, allocator_count, list_pool, command_list_count, ..self },
            CtxView { allocator, command_list },
        )
    }

    /// Transition of `execute_commands`: the command list returns to its pool
    /// at once, the fence advances by one, and the allocator is pooled tagged
    /// with the newly signaled value.
    pub open spec fn execute_t(self, c: CtxView) -> (QueueView, int) {
        let fence_value = self.fence_value + 1;
        (
            QueueView {
                fence_value,
                pool: self.pool.push(AllocatorView { id: c.allocator, fence_value }),
                list_pool: self.list_pool.push(c.command_list),
                ..self
            },
            fence_value,
        )
    }

    /// Transition of `wait_fence`: a successful device wait guarantees
    /// completion up to the awaited value.
    pub open spec fn wait_t(self, v: int) -> QueueView {
        if v <= self.completed_value {
            self
        } else {
            QueueView { completed_value: v, ..self }
        }
    }

    /// Applies one fence-returning operation.
    pub open spec fn apply_op(self, op: QueueOp) -> (QueueView, int) {
        match op {
            QueueOp::Signal => self.signal_t(),
            QueueOp::Execute(c) => self.execute_t(c),
        }
    }

    /// The fence values returned by a sequence of `signal`/`execute`
    /// operations, in call order.
    pub open spec fn run_outputs(self, ops: Seq<QueueOp>) -> Seq<int>
        decreases ops.len(),
    {
        if ops.len() == 0 {
            Seq::empty()
        } else {
            let (q, v) = self.apply_op(ops[0]);
            seq![v] + q.run_outputs(ops.drop_first())
        }
    }

    /// The queue state after a sequence of `execute` operations.
    pub open spec fn apply_executes(self, cs: Seq<CtxView>) -> QueueView
        decreases cs.len(),
    {
        if cs.len() == 0 {
            self
        } else {
            self.execute_t(cs[0]).0.apply_executes(cs.drop_first())
        }
    }

    /// The queue state after a sequence of `wait_fence` operations.
    pub open spec fn apply_waits(self, vs: Seq<int>) -> QueueView
        decreases vs.len(),
    {
        if vs.len() == 0 {
            self
        } else {
            self.wait_t(vs[0]).apply_waits(vs.drop_first())
        }
    }
}

/// One queue operation that returns a fence value.
pub ghost enum QueueOp {
    Signal,
    Execute(CtxView),
}

/// Law (fence monotonicity): over any sequence of `signal`/`execute`
/// operations, the i-th returned fence value is the starting fence value
/// plus i + 1, so the returned values are strictly increasing by exactly one
/// per call.
pub proof fn lemma_fence_values_strictly_increase(q: QueueView, ops: Seq<QueueOp>, i: int)
    requires
        0 <= i < ops.len(),
    ensures
        q.run_outputs(ops).len() == ops.len(),
        q.run_outputs(ops)[i] == q.fence_value + i + 1,
    decreases ops.len(),
{
    lemma_run_outputs_len(q, ops);
    let (q2, v) = q.apply_op(ops[0]);
    if i > 0 {
        lemma_fence_values_strictly_increase(q2, ops.drop_first(), i - 1);
    }
}

/// Law (fence monotonicity, consecutive form): each returned fence value
/// exceeds its predecessor by exactly one.
pub proof fn lemma_fence_values_successive(q: QueueView, ops: Seq<QueueOp>, i: int)
    requires
        0 < i < ops.len(),
    ensures
        q.run_outputs(ops)[i] == q.run_outputs(ops)[i - 1] + 1,
{
    lemma_fence_values_strictly_increase(q, ops, i);
    lemma_fence_values_strictly_increase(q, ops, i - 1);
}

proof fn lemma_run_outputs_len(q: QueueView, ops: Seq<QueueOp>)
    ensures
        q.run_outputs(ops).len() == ops.len(),
    decreases ops.len(),
{
    if ops.len() > 0 {
        lemma_run_outputs_len(q.apply_op(ops[0]).0, ops.drop_first());
    }
}

/// Law (allocator reuse safety): a pooled allocator whose tagged fence value
/// has not yet completed is never the one handed out by
/// `request_command_ctx`.
pub proof fn lemma_allocator_reuse_safety(q: QueueView, i: int)
    requires
        q.wf(),
        0 <= i < q.pool.len(),
        q.pool[i].fence_value > q.completed_value,
    ensures
        q.request_t().1.allocator != q.pool[i].id,
{
    if q.can_reuse_front() {
        assert(i != 0);
    }
}

/// Law (context pool bound): from a queue with exactly N contexts checked
/// out, N `execute` calls followed by any number of waits leave no live
/// (non-pooled) allocator.
pub proof fn lemma_pool_drained_after_executes_and_waits(
    q: QueueView,
    cs: Seq<CtxView>,
    vs: Seq<int>,
)
    requires
        q.live_allocators() == cs.len(),
    ensures
        q.apply_executes(cs).apply_waits(vs).live_allocators() == 0,
{
    lemma_executes_reduce_live(q, cs);
    lemma_waits_preserve_live(q.apply_executes(cs), vs);
}

proof fn lemma_executes_reduce_live(q: QueueView, cs: Seq<CtxView>)
    ensures
        q.apply_executes(cs).live_allocators() == q.live_allocators() - cs.len(),
    decreases cs.len(),
{
    if cs.len() > 0 {
        lemma_executes_reduce_live(q.execute_t(cs[0]).0, cs.drop_first());
    }
}

proof fn lemma_waits_preserve_live(q: QueueView, vs: Seq<int>)
    ensures
        q.apply_waits(vs).live_allocators() == q.live_allocators(),
    decreases vs.len(),
{
    if vs.len() > 0 {
        lemma_waits_preserve_live(q.wait_t(vs[0]), vs.drop_first());
    }
}

/// The command queue core: issues fence values, pools allocators keyed by
/// the fence value that must complete before their reuse is safe, and pools
/// command lists for immediate reuse.
pub struct Queue {
    fence_value: u64,
    completed_value: u64,
    allocators: VecDeque<CommandAllocator>,
    allocator_count: usize,
    command_lists: VecDeque<usize>,
    command_list_count: usize,
}

impl View for Queue {
    type V = QueueView;

    closed spec fn view(&self) -> QueueView {
        QueueView {
            fence_value: self.fence_value as int,
            completed_value: self.completed_value as int,
            pool: Seq::new(
                self.allocators@.len(),
                |i: int|
                    AllocatorView {
                        id: self.allocators@[i].allocator as int,
                        fence_value: self.allocators@[i].fence_value.v as int,
                    },
            ),
            allocator_count: self.allocator_count as int,
            list_pool: Seq::new(self.command_lists@.len(), |i: int| self.command_lists@[i] as int),
            command_list_count: self.command_list_count as int,
        }
    }
}

impl Queue {
    /// A fresh queue: no fence value signaled yet, nothing pooled, nothing
    /// created.
    pub fn build() -> (q: Queue)
        ensures
            q@ == (QueueView {
                fence_value: 0,
                completed_value: 0,
                pool: Seq::empty(),
                allocator_count: 0,
                list_pool: Seq::empty(),
                command_list_count: 0,
            }),
            q@.wf(),
    {
        let q = Queue {
            fence_value: 0,
            completed_value: 0,
            allocators: VecDeque::new(),
            allocator_count: 0,
            command_lists: VecDeque::new(),
            command_list_count: 0,
        };
        proof {
            assert(q@.pool =~= Seq::<AllocatorView>::empty());
            assert(q@.list_pool =~= Seq::<int>::empty());
            assert(q@ =~= (QueueView {
                fence_value: 0,
                completed_value: 0,
                pool: Seq::empty(),
                allocator_count: 0,
                list_pool: Seq::empty(),
                command_list_count: 0,
            }));
        }
        q
    }

    /// Checks a ready-to-record context out of the queue. Reuses the oldest
    /// pooled allocator only if its tagged fence value has completed;
    /// otherwise a brand-new allocator identifier is issued. A pooled command
    /// list is reused whenever one is available. Never blocks.
    ///
    /// Every context previously checked out and not yet executed stays
    /// validly checked out, and shares nothing with the new context.
    pub fn request_command_ctx(&mut self) -> (r: Context)
        requires
            old(self)@.wf(),
            old(self)@.allocator_count < usize::MAX,
            old(self)@.command_list_count < usize::MAX,
        ensures
            final(self)@ =~= old(self)@.request_t().0,
            r@ == old(self)@.request_t().1,
            final(self)@.wf(),
            final(self)@.valid_context(r@),
            forall|c: CtxView|
                old(self)@.valid_context(c) ==> final(self)@.valid_context(c) && c.allocator
                    != r@.allocator && c.command_list != r@.command_list,
    {
        let ghost pre = self@;
        let allocator: usize;
        if self.allocators.len() > 0 && self.allocators[0].fence_value.v <= self.completed_value {
            let entry = self.allocators.pop_front().unwrap();
            allocator = entry.allocator;
        } else {
            allocator = self.allocator_count;
            self.allocator_count = self.allocator_count + 1;
        }
        let command_list: usize;
        if self.command_lists.len() > 0 {
            command_list = self.command_lists.pop_front().unwrap();
        } else {
            command_list = self.command_list_count;
            self.command_list_count = self.command_list_count + 1;
        }
        let r = Context { command_list, allocator };
        proof {
            assert(self@.pool =~= pre.request_t().0.pool);
            assert(self@.list_pool =~= pre.request_t().0.list_pool);
            assert(self@ =~= pre.request_t().0);
        }
        r
    }

    /// Returns the executed context's command list to the pool at once (a
    /// closed, submitted list may be reset as soon as the device starts on
    /// it), signals the next fence value, and pools the allocator tagged with
    /// that value: the allocator must stay untouched until it completes.
    /// The submission of the closed list to the device is the caller's
    /// action. Advances the fence counter by exactly one.
    pub fn execute_commands(&mut self, context: Context) -> (r: FenceValue)
        requires
            old(self)@.wf(),
            old(self)@.valid_context(context@),
            old(self)@.fence_value < u64::MAX,
        ensures
            final(self)@ =~= old(self)@.execute_t(context@).0,
            r.v == old(self)@.execute_t(context@).1,
            r.v == old(self)@.fence_value + 1,
            final(self)@.wf(),
            forall|c: CtxView|
                old(self)@.valid_context(c) && c.allocator != context@.allocator
                    && c.command_list != context@.command_list ==> final(self)@.valid_context(c),
    {
        let ghost pre = self@;
        self.command_lists.push_back(context.command_list);
        let fence_value = self.signal();
        self.allocators.push_back(CommandAllocator { allocator: context.allocator, fence_value });
        proof {
            assert(self@.pool =~= pre.execute_t(context@).0.pool);
            assert(self@.list_pool =~= pre.execute_t(context@).0.list_pool);
            assert(self@ =~= pre.execute_t(context@).0);
        }
        fence_value
    }

    /// Advances the fence counter by exactly one and returns the new value;
    /// the caller submits the matching signal to the device queue.
    pub fn signal(&mut self) -> (r: FenceValue)
        requires
            old(self)@.fence_value < u64::MAX,
        ensures
            final(self)@ =~= old(self)@.signal_t().0,
            r.v == old(self)@.signal_t().1,
            r.v == old(self)@.fence_value + 1,
            old(self)@.wf() ==> final(self)@.wf(),
    {
        self.fence_value = self.fence_value + 1;
        let r = FenceValue { v: self.fence_value };
        proof {
            assert(self@ =~= old(self)@.signal_t().0);
        }
        r
    }

    /// Whether the given fence value has completed, going by the latest
    /// completion observed from the device.
    pub fn is_fence_completed(&self, fence_value: FenceValue) -> (r: bool)
        ensures
            r == (fence_value.v <= self@.completed_value),
    {
        fence_value.v <= self.completed_value
    }

    /// Records a device-reported completed counter. Completion is monotonic
    /// and never runs ahead of what was signaled.
    pub fn update_completed(&mut self, observed: u64)
        requires
            old(self)@.wf(),
            old(self)@.completed_value <= observed <= old(self)@.fence_value,
        ensures
            final(self)@ =~= old(self)@.wait_t(observed as int),
            final(self)@.completed_value == observed,
            final(self)@.wf(),
    {
        self.completed_value = observed;
        proof {
            assert(self@ =~= old(self)@.wait_t(observed as int));
        }
    }

    /// Records the outcome of blocking until `fence_value` completes: when
    /// the device wait returns, every value up to it has completed. The
    /// blocking wait on the fence event is the caller's action; it is a
    /// no-op when the value has already completed. Only signaled values can
    /// be awaited.
    pub fn wait_fence(&mut self, fence_value: FenceValue)
        requires
            old(self)@.wf(),
            fence_value.v <= old(self)@.fence_value,
        ensures
            final(self)@ =~= old(self)@.wait_t(fence_value.v as int),
            final(self)@.completed_value >= fence_value.v,
            final(self)@.wf(),
    {
        if self.completed_value < fence_value.v {
            self.completed_value = fence_value.v;
        }
        proof {
            assert(self@ =~= old(self)@.wait_t(fence_value.v as int));
        }
    }

    /// Number of allocators currently resting in the pool.
    pub fn pooled_allocator_count(&self) -> (r: usize)
        ensures
            r == self@.pool.len(),
    {
        self.allocators.len()
    }

    /// Number of allocators this queue has ever created.
    pub fn created_allocator_count(&self) -> (r: usize)
        ensures
            r == self@.allocator_count,
    {
        self.allocator_count
    }

    /// Signal then wait: guarantees no GPU work is in flight afterwards.
    /// Used on shutdown before device resources are destroyed.
    pub fn flush(&mut self)
        requires
            old(self)@.wf(),
            old(self)@.fence_value < u64::MAX,
        ensures
            final(self)@.fence_value == old(self)@.fence_value + 1,
            final(self)@.completed_value == final(self)@.fence_value,
            final(self)@.pool == old(self)@.pool,
            final(self)@.allocator_count == old(self)@.allocator_count,
            final(self)@.list_pool == old(self)@.list_pool,
            final(self)@.command_list_count == old(self)@.command_list_count,
            final(self)@.wf(),
    {
        let v = self.signal();
        self.wait_fence(v);
    }
}

} // verus!
