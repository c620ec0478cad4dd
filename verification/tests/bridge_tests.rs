use canvas_bridge::bridge::{
    EventLoopSendError, MouseButton, ResizePlan, WebCanvasImpl, mouse_button_from_event,
};
use canvas_bridge::dimen::Vector2;
use canvas_bridge::dispatcher::SendEffect;
use canvas_bridge::helper::{
    FullscreenDirective, PointerGrabDirective, RedrawOutcome, WebCursorType, WindowFullscreenMode,
};
use canvas_bridge::registry::SubscriptionKind;
use canvas_bridge::scale::ScaleFactor;

fn fresh_bridge() -> WebCanvasImpl<i32> {
    let (bridge, _info) = WebCanvasImpl::new(Vector2::new(800u32, 600u32), ScaleFactor::identity());
    bridge
}

#[test]
fn startup_reports_device_pixel_size() {
    let (bridge, info) =
        WebCanvasImpl::<i32>::new(Vector2::new(800u32, 600u32), ScaleFactor::from_ratio(2, 1));
    assert_eq!(info.viewport_size_pixels, Vector2::new(1600u32, 1200u32));
    assert_eq!(info.scale_factor, ScaleFactor::from_ratio(2, 1));
    assert!(bridge.initial_draw_due());
}

#[test]
fn termination_during_startup_suppresses_the_initial_draw() {
    let mut bridge = fresh_bridge();
    bridge.terminate_loop();
    assert!(!bridge.initial_draw_due());
}

#[test]
fn resize_recomputes_the_backing_store() {
    let mut bridge = fresh_bridge();
    let plan = bridge.on_native_resize(Vector2::new(800u32, 600u32), ScaleFactor::from_ratio(2, 1));
    assert_eq!(plan, Some(ResizePlan { backing_size: Vector2::new(1600u32, 1200u32) }));

    let plan = bridge.on_native_resize(Vector2::new(801u32, 601u32), ScaleFactor::from_ratio(3, 2));
    assert_eq!(plan, Some(ResizePlan { backing_size: Vector2::new(1202u32, 902u32) }));
}

#[test]
fn button_ordinals_map_to_named_buttons() {
    assert_eq!(mouse_button_from_event(0), Some(MouseButton::Left));
    assert_eq!(mouse_button_from_event(1), Some(MouseButton::Middle));
    assert_eq!(mouse_button_from_event(2), Some(MouseButton::Right));
    assert_eq!(mouse_button_from_event(5), Some(MouseButton::Other(5)));
}

#[test]
fn button_events_route_through_the_bridge() {
    let mut bridge = fresh_bridge();
    assert_eq!(bridge.on_native_mouse_down(0), Some(MouseButton::Left));
    assert_eq!(bridge.on_native_mouse_up(2), Some(MouseButton::Right));
    assert_eq!(bridge.on_native_mouse_down(5), Some(MouseButton::Other(5)));
}

#[test]
fn pointer_moves_report_offsets_until_lock_then_deltas() {
    let mut bridge = fresh_bridge();
    let offset = Vector2::new(40, 30);
    let movement = Vector2::new(-2, 7);

    // Lock inactive: offset from the surface origin.
    assert_eq!(bridge.on_native_mouse_move(offset, movement), Some(offset));

    // The native lock-acquired notification arrives.
    assert_eq!(bridge.on_pointer_lock_change(true), Some(true));

    // Immediately afterwards, moves report raw deltas.
    assert_eq!(bridge.on_native_mouse_move(offset, movement), Some(movement));

    // Lock released: offsets again.
    assert_eq!(bridge.on_pointer_lock_change(false), Some(false));
    assert_eq!(bridge.on_native_mouse_move(offset, movement), Some(offset));
}

#[test]
fn fullscreen_changes_are_mirrored_and_notified() {
    let mut bridge = fresh_bridge();
    assert_eq!(bridge.on_fullscreen_change(true), Some(true));
    assert_eq!(bridge.on_fullscreen_change(false), Some(false));
}

#[test]
fn frame_callback_delivers_draw_and_clears_pending() {
    let mut bridge = fresh_bridge();
    bridge.helper.set_redraw_request_action();
    assert_eq!(bridge.helper.request_redraw(), RedrawOutcome::FrameRequested);
    assert!(bridge.frame_fired());
    // The flag was cleared before delivery: a request from inside the draw
    // notification schedules a new frame.
    assert_eq!(bridge.helper.request_redraw(), RedrawOutcome::FrameRequested);
}

#[test]
fn posted_events_flow_through_the_flush() {
    let mut bridge = fresh_bridge();
    assert_eq!(bridge.post_user_event(10), Ok(SendEffect::ScheduleFlush));
    assert_eq!(bridge.post_user_event(20), Ok(SendEffect::FlushAlreadyScheduled));
    let batch = bridge.flush_fired().expect("flush should deliver");
    assert_eq!(batch, vec![10, 20]);
}

#[test]
fn termination_quiesces_everything() {
    let mut bridge = fresh_bridge();
    bridge.helper.set_redraw_request_action();
    bridge.registry.add(SubscriptionKind::ContextMenu);
    bridge.registry.add(SubscriptionKind::Resize);
    bridge.registry.add(SubscriptionKind::KeyDown);

    // An event and a frame are outstanding when termination begins.
    assert_eq!(bridge.post_user_event(1), Ok(SendEffect::ScheduleFlush));
    assert_eq!(bridge.helper.request_redraw(), RedrawOutcome::FrameRequested);

    let removed = bridge.terminate_loop();
    assert_eq!(removed.len(), 3);
    assert_eq!(bridge.registry.len(), 0);

    // Callbacks the host had already scheduled fire afterwards: nothing is
    // delivered and nothing changes.
    assert!(!bridge.frame_fired());
    assert_eq!(bridge.flush_fired(), None);
    assert_eq!(bridge.on_native_resize(Vector2::new(10u32, 10u32), ScaleFactor::identity()), None);
    assert_eq!(bridge.on_pointer_lock_change(true), None);
    assert_eq!(bridge.on_fullscreen_change(true), None);
    assert_eq!(bridge.on_native_mouse_move(Vector2::new(1, 1), Vector2::new(1, 1)), None);
    assert_eq!(bridge.on_native_mouse_down(0), None);
    assert_eq!(bridge.on_native_key_down("KeyA"), None);
    assert_eq!(
        bridge.post_user_event(2),
        Err(EventLoopSendError::EventLoopNoLongerExists)
    );
    assert_eq!(bridge.helper.request_redraw(), RedrawOutcome::NotConfigured);

    // Termination is safe to repeat: nothing is left to remove.
    let removed_again = bridge.terminate_loop();
    assert!(removed_again.is_empty());
}

#[test]
fn facade_operations_return_their_directives() {
    let bridge = fresh_bridge();
    assert_eq!(bridge.helper.set_cursor_visible(true), WebCursorType::Auto);
    assert_eq!(bridge.helper.set_cursor_visible(false), WebCursorType::Hidden);
    assert_eq!(
        bridge.helper.set_cursor_grab(true),
        Ok(PointerGrabDirective::RequestLock)
    );
    assert_eq!(
        bridge.helper.set_cursor_grab(false),
        Ok(PointerGrabDirective::ExitLock)
    );
    assert_eq!(
        bridge.helper.set_fullscreen_mode(WindowFullscreenMode::Windowed),
        FullscreenDirective::ExitFullscreen
    );
    assert_eq!(
        bridge.helper.set_fullscreen_mode(WindowFullscreenMode::FullscreenBorderless),
        FullscreenDirective::RequestFullscreen
    );
    let directive = bridge.helper.set_title("my window");
    assert_eq!(directive.title, "my window");
}

#[test]
fn icon_assignment_reports_an_unsupported_operation() {
    let bridge = fresh_bridge();
    let result = bridge
        .helper
        .set_icon_from_rgba_pixels(vec![0, 0, 0, 0], Vector2::new(1u32, 1u32));
    let error = result.expect_err("icon assignment is unsupported");
    assert_eq!(error.text, "Cannot set icon for WebCanvas");
}

#[test]
fn size_and_position_calls_are_accepted_no_ops() {
    let bridge = fresh_bridge();
    bridge.helper.set_resizable(false);
    bridge.helper.set_size_pixels(Vector2::new(640u32, 480u32));
    bridge.helper.set_position_pixels(Vector2::new(-5, 12));
}

#[test]
fn sender_capability_requires_the_posting_action() {
    let mut bridge = fresh_bridge();
    bridge.helper.set_post_user_event_action();
    let token = bridge.helper.create_user_event_sender();
    assert!(token.bound);
}
