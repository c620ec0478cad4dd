use canvas_bridge::helper::{RedrawOutcome, WindowHelperWeb};

#[test]
fn request_before_configuration_is_ignored() {
    let mut helper = WindowHelperWeb::new();
    assert_eq!(helper.request_redraw(), RedrawOutcome::NotConfigured);
    assert_eq!(helper.request_redraw(), RedrawOutcome::NotConfigured);
}

#[test]
fn many_requests_between_two_draws_request_one_frame() {
    let mut helper = WindowHelperWeb::new();
    helper.set_redraw_request_action();
    let mut frames_requested = 0;
    for _ in 0..10 {
        if helper.request_redraw() == RedrawOutcome::FrameRequested {
            frames_requested += 1;
        }
    }
    assert_eq!(frames_requested, 1);
}

#[test]
fn request_inside_draw_schedules_one_new_frame() {
    let mut helper = WindowHelperWeb::new();
    helper.set_redraw_request_action();
    assert_eq!(helper.request_redraw(), RedrawOutcome::FrameRequested);

    // The frame callback fires: the pending flag is cleared before the draw
    // notification is delivered.
    assert!(helper.clear_redraw_pending_flag());

    // The handler asks for a redraw from inside its draw notification:
    // exactly one new frame, not zero and not two.
    assert_eq!(helper.request_redraw(), RedrawOutcome::FrameRequested);
    assert_eq!(helper.request_redraw(), RedrawOutcome::AlreadyPending);
}

#[test]
fn clearing_without_pending_frame_reports_none() {
    let mut helper = WindowHelperWeb::new();
    helper.set_redraw_request_action();
    assert!(!helper.clear_redraw_pending_flag());
}

#[test]
fn termination_disarms_the_scheduler() {
    let mut helper = WindowHelperWeb::new();
    helper.set_redraw_request_action();
    helper.set_terminate_loop_action();
    assert_eq!(helper.request_redraw(), RedrawOutcome::FrameRequested);

    assert!(helper.terminate_loop());
    assert_eq!(helper.request_redraw(), RedrawOutcome::NotConfigured);

    // The termination action runs at most once.
    assert!(!helper.terminate_loop());
}
