//! Frame pacing and startup configuration.

use render_core::command::{FenceValue, Queue};
use render_core::present::Presenter;
use render_core::{parse_args, Config};

#[test]
fn advancing_waits_on_the_next_buffers_prior_fence() {
    let mut queue = Queue::build();
    let mut presenter = Presenter::build(0);

    // Frame on buffer 0.
    let ctx = queue.request_command_ctx();
    let v1 = presenter.submit_frame(&mut queue, ctx);
    assert_eq!(v1.v, 1);
    presenter.advance_frame(&mut queue, 1);
    assert_eq!(presenter.back_buffer_index(), 1);

    // Frame on buffer 1.
    let ctx = queue.request_command_ctx();
    let v2 = presenter.submit_frame(&mut queue, ctx);
    assert_eq!(v2.v, 3);
    presenter.advance_frame(&mut queue, 2);
    assert_eq!(presenter.back_buffer_index(), 2);

    // Cycling back to buffer 0 waits on the fence remembered for it (the
    // value signaled after buffer 0's present), so that frame's work is
    // certainly complete — while frame B, two buffers ahead, need not be.
    let ctx = queue.request_command_ctx();
    let _ = presenter.submit_frame(&mut queue, ctx);
    presenter.advance_frame(&mut queue, 0);
    assert!(queue.is_fence_completed(v1));
    assert!(queue.is_fence_completed(FenceValue { v: 2 }));
    assert!(!queue.is_fence_completed(v2));
}

#[test]
fn config_reports_the_fixed_startup_values() {
    let config = parse_args(Vec::new());
    assert_eq!(config.client_width(), 1280);
    assert_eq!(config.client_height(), 720);
    assert!(config.debug_layer_enabled());
    assert!(config.gpu_validation_enabled());
}

#[test]
fn gpu_validation_implies_the_debug_layer() {
    let config = Config {
        client_width: 640,
        client_height: 480,
        debug_layer_enabled: false,
        gpu_validation_enabled: true,
    };
    assert!(config.debug_layer_enabled());

    let config = Config {
        client_width: 640,
        client_height: 480,
        debug_layer_enabled: false,
        gpu_validation_enabled: false,
    };
    assert!(!config.debug_layer_enabled());
}
