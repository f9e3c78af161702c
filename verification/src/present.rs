//! Frame pacing: keeps the CPU from overwriting a frame buffer the GPU may
//! still be presenting from.
//!
//! One fence value is remembered per frame buffer: the value signaled when
//! that buffer's frame was submitted. Before recording into a buffer again,
//! the queue waits on the value remembered for it, so the CPU runs at most
//! the buffer count ahead of the GPU. The swap chain's present call and its
//! report of the next back-buffer index are the caller's device actions,
//! made between submitting a frame and advancing to the next.

use vstd::prelude::*;

verus! {

use crate::command::{Context, FenceValue, Queue, QueueView};

/// Number of swap-chain frame buffers the renderer cycles through.
pub const FRAME_BUFFER_COUNT: usize = 3;

/// Mathematical image of a [`Presenter`]: the fence value remembered for
/// each frame buffer and the index of the buffer being recorded.
pub ghost struct PresenterView {
    pub frame_fences: Seq<int>,
    pub back_buffer_index: int,
}

impl PresenterView {
    /// Well-formedness: one remembered fence per frame buffer, and a valid
    /// current index.
    pub open spec fn wf(self) -> bool {
        &&& self.frame_fences.len() == FRAME_BUFFER_COUNT
        &&& 0 <= self.back_buffer_index < FRAME_BUFFER_COUNT
    }

    /// Every remembered fence value has been signaled on the given queue, so
    /// it can be waited on.
    pub open spec fn fences_signaled(self, q: QueueView) -> bool {
        forall|i: int|
            0 <= i < self.frame_fences.len() ==> 0 <= #[trigger] self.frame_fences[i]
                <= q.fence_value
    }
}

/// Per-frame-buffer fence bookkeeping around a command queue.
pub struct Presenter {
    frame_fences: Vec<FenceValue>,
    back_buffer_index: usize,
}

impl View for Presenter {
    type V = PresenterView;

    closed spec fn view(&self) -> PresenterView {
        PresenterView {
            frame_fences: Seq::new(
                self.frame_fences@.len(),
                |i: int| self.frame_fences@[i].v as int,
            ),
            back_buffer_index: self.back_buffer_index as int,
        }
    }
}

impl Presenter {
    /// A fresh presenter starting at the swap chain's current back-buffer
    /// index, with nothing submitted yet.
    pub fn build(back_buffer_index: usize) -> (p: Presenter)
        requires
            back_buffer_index < FRAME_BUFFER_COUNT,
        ensures
            p@.wf(),
            p@.back_buffer_index == back_buffer_index,
            forall|i: int| 0 <= i < FRAME_BUFFER_COUNT ==> #[trigger] p@.frame_fences[i] == 0,
    {
        let mut frame_fences: Vec<FenceValue> = Vec::new();
        while frame_fences.len() < FRAME_BUFFER_COUNT
            invariant
                frame_fences@.len() <= FRAME_BUFFER_COUNT,
                forall|i: int|
                    0 <= i < frame_fences@.len() ==> (#[trigger] frame_fences@[i]).v == 0,
            decreases FRAME_BUFFER_COUNT - frame_fences@.len(),
        {
            frame_fences.push(FenceValue { v: 0 });
        }
        Presenter { frame_fences, back_buffer_index }
    }

    /// The index of the frame buffer currently being recorded.
    pub fn back_buffer_index(&self) -> (r: usize)
        ensures
            r == self@.back_buffer_index,
    {
        self.back_buffer_index
    }

    /// Submits the current frame's context and remembers the fence value it
    /// signals for the current frame buffer. The caller presents the swap
    /// chain afterwards.
    pub fn submit_frame(&mut self, queue: &mut Queue, context: Context) -> (r: FenceValue)
        requires
            old(self)@.wf(),
            old(self)@.fences_signaled(old(queue)@),
            old(queue)@.wf(),
            old(queue)@.valid_context(context@),
            old(queue)@.fence_value < u64::MAX,
        ensures
            final(self)@.wf(),
            final(self)@.back_buffer_index == old(self)@.back_buffer_index,
            final(self)@.frame_fences =~= old(self)@.frame_fences.update(
                old(self)@.back_buffer_index,
                old(queue)@.fence_value + 1,
            ),
            r.v == old(queue)@.fence_value + 1,
            final(queue)@ == old(queue)@.execute_t(context@).0,
            final(queue)@.wf(),
            final(self)@.fences_signaled(final(queue)@),
    {
        let fence_value = queue.execute_commands(context);
        self.frame_fences[self.back_buffer_index] = fence_value;
        fence_value
    }

    /// Moves on to the frame buffer the swap chain reports as next: signals
    /// a fence for the frame just presented, remembers it for the current
    /// buffer, and waits until the value remembered for the next buffer has
    /// completed — only then is that buffer safe to record into.
    pub fn advance_frame(&mut self, queue: &mut Queue, next_back_buffer_index: usize)
        requires
            old(self)@.wf(),
            old(self)@.fences_signaled(old(queue)@),
            next_back_buffer_index < FRAME_BUFFER_COUNT,
            old(queue)@.wf(),
            old(queue)@.fence_value < u64::MAX,
        ensures
            final(self)@.wf(),
            final(self)@.back_buffer_index == next_back_buffer_index,
            final(self)@.frame_fences =~= old(self)@.frame_fences.update(
                old(self)@.back_buffer_index,
                old(queue)@.fence_value + 1,
            ),
            final(queue)@ == old(queue)@.signal_t().0.wait_t(
                final(self)@.frame_fences[next_back_buffer_index as int],
            ),
            final(queue)@.completed_value
                >= final(self)@.frame_fences[next_back_buffer_index as int],
            final(queue)@.fence_value == old(queue)@.fence_value + 1,
            final(queue)@.wf(),
            final(self)@.fences_signaled(final(queue)@),
    {
        let fence_value = queue.signal();
        self.frame_fences[self.back_buffer_index] = fence_value;
        let target = self.frame_fences[next_back_buffer_index];
        proof {
            assert(old(self)@.frame_fences[next_back_buffer_index as int] <= old(
                queue,
            )@.fence_value);
            if next_back_buffer_index as int == old(self)@.back_buffer_index {
                assert(target.v == fence_value.v);
            } else {
                assert(target.v == old(self)@.frame_fences[next_back_buffer_index as int]);
            }
        }
        queue.wait_fence(target);
        self.back_buffer_index = next_back_buffer_index;
    }
}

} // verus!
