//! The command queue: fence monotonicity, allocator reuse safety, and the
//! pool rebound after executes and waits.

use render_core::command::{FenceValue, Queue};

#[test]
fn fence_values_increase_by_exactly_one() {
    let mut queue = Queue::build();

    let ctx = queue.request_command_ctx();
    let v1 = queue.execute_commands(ctx);
    assert_eq!(v1.v, 1);

    let v2 = queue.signal();
    assert_eq!(v2.v, 2);

    let ctx = queue.request_command_ctx();
    let v3 = queue.execute_commands(ctx);
    assert_eq!(v3.v, 3);

    let v4 = queue.signal();
    assert_eq!(v4.v, 4);
}

#[test]
fn pending_allocator_is_not_reused() {
    let mut queue = Queue::build();

    // First context creates allocator 0; executing pools it tagged with
    // fence value 1, which has not completed.
    let ctx = queue.request_command_ctx();
    assert_eq!(ctx.allocator(), 0);
    let v1 = queue.execute_commands(ctx);
    assert_eq!(v1.v, 1);

    // The completed counter is still 0, so allocator 0 must stay pooled and
    // a brand-new allocator 1 is created instead.
    assert!(!queue.is_fence_completed(v1));
    let ctx = queue.request_command_ctx();
    assert_eq!(ctx.allocator(), 1);
    let v2 = queue.execute_commands(ctx);
    assert_eq!(v2.v, 2);

    // Once the wait records completion up to 2, the oldest pooled allocator
    // (allocator 0, tagged 1) becomes reusable.
    queue.wait_fence(v2);
    assert!(queue.is_fence_completed(v1));
    let ctx = queue.request_command_ctx();
    assert_eq!(ctx.allocator(), 0);
    let _ = queue.execute_commands(ctx);
}

#[test]
fn completed_allocator_is_reused() {
    let mut queue = Queue::build();

    let ctx = queue.request_command_ctx();
    let v = queue.execute_commands(ctx);
    queue.wait_fence(v);

    // The tagged fence has completed: the same allocator comes back out.
    let ctx = queue.request_command_ctx();
    assert_eq!(ctx.allocator(), 0);
    assert_eq!(queue.created_allocator_count(), 1);
    let _ = queue.execute_commands(ctx);
}

#[test]
fn command_list_is_reused_immediately() {
    let mut queue = Queue::build();

    let ctx = queue.request_command_ctx();
    assert_eq!(ctx.command_list(), 0);
    let v = queue.execute_commands(ctx);

    // The command list returns to its pool on execute, independent of fence
    // completion; the allocator does not.
    assert!(!queue.is_fence_completed(v));
    let ctx = queue.request_command_ctx();
    assert_eq!(ctx.command_list(), 0);
    assert_eq!(ctx.allocator(), 1);
    let _ = queue.execute_commands(ctx);
}

#[test]
fn pool_holds_every_allocator_after_executes_and_waits() {
    let mut queue = Queue::build();

    // Check out three contexts at once: three live allocators.
    let c1 = queue.request_command_ctx();
    let c2 = queue.request_command_ctx();
    let c3 = queue.request_command_ctx();
    assert_eq!(queue.created_allocator_count(), 3);
    assert_eq!(queue.pooled_allocator_count(), 0);

    // Three executes followed by three waits: no live allocator remains.
    let v1 = queue.execute_commands(c1);
    let v2 = queue.execute_commands(c2);
    let v3 = queue.execute_commands(c3);
    queue.wait_fence(v1);
    queue.wait_fence(v2);
    queue.wait_fence(v3);
    assert_eq!(
        queue.created_allocator_count() - queue.pooled_allocator_count(),
        0
    );
}

#[test]
fn wait_fence_is_noop_when_already_completed() {
    let mut queue = Queue::build();
    let v = queue.signal();
    queue.wait_fence(v);
    assert!(queue.is_fence_completed(v));
    queue.wait_fence(FenceValue { v: 0 });
    assert!(queue.is_fence_completed(v));
}

#[test]
fn flush_completes_all_signaled_work() {
    let mut queue = Queue::build();
    let ctx = queue.request_command_ctx();
    let v = queue.execute_commands(ctx);
    assert!(!queue.is_fence_completed(v));
    queue.flush();
    assert!(queue.is_fence_completed(v));
}

#[test]
fn update_completed_unblocks_reuse() {
    let mut queue = Queue::build();
    let ctx = queue.request_command_ctx();
    let v = queue.execute_commands(ctx);

    // The device reports completion up to v: the pooled allocator becomes
    // reusable without a blocking wait.
    queue.update_completed(v.v);
    let ctx = queue.request_command_ctx();
    assert_eq!(ctx.allocator(), 0);
    let _ = queue.execute_commands(ctx);
}
