//! The window-control facade and the redraw-coalescing scheduler.
//!
//! `WindowHelperWeb` is the handler's only window-manipulation surface. It
//! owns the scheduler state: whether a frame callback is currently pending,
//! and which host-backed actions have been configured. It never talks to the
//! host itself; each operation returns a directive that the unverified host
//! layer performs, so every decision here is checked.
//!
//! Reentrancy rule: the pending flag is cleared *before* the draw
//! notification is delivered, so a redraw request made from inside a draw
//! notification schedules a new frame instead of being swallowed.

use vstd::prelude::*;

use crate::dimen::Vector2;

verus! {

/// The scheduler and wiring state of the helper, as a mathematical value.
pub ghost struct HelperModel {
    /// A frame callback is outstanding: further redraw requests coalesce.
    pub redraw_pending: bool,
    /// The host's frame-timing primitive has been wired up.
    pub redraw_action_configured: bool,
    /// The custom-event posting action has been wired up.
    pub post_action_configured: bool,
    /// The termination action is still available (it runs at most once).
    pub terminate_action_available: bool,
}

/// What a redraw request decided.
#[derive(Clone, Copy, Debug, PartialEq, Eq, Structural)]
pub enum RedrawOutcome {
    /// Ask the host for a frame callback and record the pending token.
    FrameRequested,
    /// A frame is already pending; the request coalesces into it.
    AlreadyPending,
    /// No frame-request action is configured yet; log a warning and ignore.
    NotConfigured,
}

/// The cursor style the host should apply to the surface.
#[derive(Clone, Copy, Debug, PartialEq, Eq, Structural)]
pub enum WebCursorType {
    /// The default visible cursor.
    Auto,
    /// No cursor is shown.
    Hidden,
}

/// The pointer-capture call the host should make.
#[derive(Clone, Copy, Debug, PartialEq, Eq, Structural)]
pub enum PointerGrabDirective {
    /// Request pointer lock on the surface.
    RequestLock,
    /// Exit pointer lock on the document.
    ExitLock,
}

/// The fullscreen modes a caller can ask for.
#[derive(Clone, Copy, Debug, PartialEq, Eq, Structural)]
pub enum WindowFullscreenMode {
    Windowed,
    FullscreenBorderless,
}

/// The fullscreen call the host should make.
#[derive(Clone, Copy, Debug, PartialEq, Eq, Structural)]
pub enum FullscreenDirective {
    /// Exit fullscreen on the document.
    ExitFullscreen,
    /// Request fullscreen on the surface.
    RequestFullscreen,
}

/// An instruction to set the document title.
pub struct TitleDirective {
    pub title: String,
}

/// A recoverable error reported to the caller of a facade operation.
#[derive(Clone, Copy, Debug, PartialEq, Eq)]
pub struct ErrorMessage {
    pub text: &'static str,
}

/// A capability witness handed out once the custom-event posting action is
/// wired up; the host layer binds it to the dispatcher's enqueue action.
#[derive(Clone, Copy, Debug, PartialEq, Eq, Structural)]
pub struct UserEventSenderToken {
    pub bound: bool,
}

/// The state after a redraw request.
pub open spec fn request_redraw_transition(m: HelperModel) -> HelperModel {
    if m.redraw_action_configured && !m.redraw_pending {
        HelperModel { redraw_pending: true, ..m }
    } else {
        m
    }
}

/// Whether a redraw request in state `m` asks the host for a frame.
pub open spec fn request_redraw_requests_frame(m: HelperModel) -> bool {
    m.redraw_action_configured && !m.redraw_pending
}

/// The state after the pending flag is cleared (right before a draw
/// notification is delivered).
pub open spec fn clear_pending_transition(m: HelperModel) -> HelperModel {
    HelperModel { redraw_pending: false, ..m }
}

/// The state after termination: nothing pending, no frame-request action,
/// the termination action consumed.
pub open spec fn terminate_transition(m: HelperModel) -> HelperModel {
    HelperModel {
        redraw_pending: false,
        redraw_action_configured: false,
        terminate_action_available: false,
        ..m
    }
}

/// The state after `n` consecutive redraw requests.
pub open spec fn after_redraw_requests(m: HelperModel, n: nat) -> HelperModel
    decreases n,
{
    if n == 0 {
        m
    } else {
        request_redraw_transition(after_redraw_requests(m, (n - 1) as nat))
    }
}

/// How many of `n` consecutive redraw requests ask the host for a frame.
pub open spec fn frames_requested(m: HelperModel, n: nat) -> nat
    decreases n,
{
    if n == 0 {
        0
    } else {
        frames_requested(m, (n - 1) as nat) + (if request_redraw_requests_frame(
            after_redraw_requests(m, (n - 1) as nat),
        ) {
            1nat
        } else {
            0nat
        })
    }
}

/// Law: any number `n >= 1` of redraw requests made between two delivered
/// draws — that is, starting with no frame pending and the frame-request
/// action configured — asks the host for exactly one frame.
pub proof fn lemma_redraw_coalescing(m: HelperModel, n: nat)
    requires
        m.redraw_action_configured,
        !m.redraw_pending,
        n >= 1,
    ensures
        frames_requested(m, n) == 1,
        after_redraw_requests(m, n).redraw_pending,
        after_redraw_requests(m, n).redraw_action_configured,
    decreases n,
{
    if n == 1 {
        assert(after_redraw_requests(m, 0) == m);
        assert(frames_requested(m, 0) == 0);
    } else {
        lemma_redraw_coalescing(m, (n - 1) as nat);
    }
}

/// Law: a redraw request issued from inside a draw notification schedules
/// exactly one new frame. The pending flag is cleared before the draw
/// notification is delivered, so the `n >= 1` requests the handler makes
/// during the notification start from a cleared flag and request one frame.
pub proof fn lemma_redraw_inside_draw(m: HelperModel, n: nat)
    requires
        m.redraw_action_configured,
        n >= 1,
    ensures
        frames_requested(clear_pending_transition(m), n) == 1,
{
    lemma_redraw_coalescing(clear_pending_transition(m), n);
}

/// The handler-facing window facade and redraw scheduler.
pub struct WindowHelperWeb {
    redraw_pending: bool,
    redraw_action_configured: bool,
    post_action_configured: bool,
    terminate_action_available: bool,
}

impl View for WindowHelperWeb {
    type V = HelperModel;

    closed spec fn view(&self) -> HelperModel {
        HelperModel {
            redraw_pending: self.redraw_pending,
            redraw_action_configured: self.redraw_action_configured,
            post_action_configured: self.post_action_configured,
            terminate_action_available: self.terminate_action_available,
        }
    }
}

impl WindowHelperWeb {
    /// A fresh helper: nothing pending, no actions configured.
    pub fn new() -> (r: WindowHelperWeb)
        ensures
            !r@.redraw_pending,
            !r@.redraw_action_configured,
            !r@.post_action_configured,
            !r@.terminate_action_available,
    {
        WindowHelperWeb {
            redraw_pending: false,
            redraw_action_configured: false,
            post_action_configured: false,
            terminate_action_available: false,
        }
    }

    /// Record that the host's frame-timing primitive has been wired up.
    pub fn set_redraw_request_action(&mut self)
        ensures
            final(self)@ == (HelperModel { redraw_action_configured: true, ..old(self)@ }),
    {
        self.redraw_action_configured = true;
    }

    /// Record that the custom-event posting action has been wired up.
    pub fn set_post_user_event_action(&mut self)
        ensures
            final(self)@ == (HelperModel { post_action_configured: true, ..old(self)@ }),
    {
        self.post_action_configured = true;
    }

    /// Record that a termination action is available to run once.
    pub fn set_terminate_loop_action(&mut self)
        ensures
            final(self)@ == (HelperModel { terminate_action_available: true, ..old(self)@ }),
    {
        self.terminate_action_available = true;
    }

    /// Clear the pending-frame flag. Called exactly once, immediately before
    /// the draw notification for a fulfilled frame is delivered, so a redraw
    /// request made during that draw schedules a new frame. Returns whether a
    /// token was outstanding, so the host layer can mark it fulfilled.
    pub fn clear_redraw_pending_flag(&mut self) -> (was_pending: bool)
        ensures
            final(self)@ == clear_pending_transition(old(self)@),
            was_pending == old(self)@.redraw_pending,
    {
        let was_pending = self.redraw_pending;
        self.redraw_pending = false;
        was_pending
    }

    /// Ask for a redraw. Coalescing: if a frame is already pending, the
    /// request is a no-op; if no frame-request action is configured, the
    /// request is ignored (the host layer logs a warning); otherwise exactly
    /// one frame is requested from the host and recorded as pending.
    pub fn request_redraw(&mut self) -> (r: RedrawOutcome)
        ensures
            final(self)@ == request_redraw_transition(old(self)@),
            r == RedrawOutcome::FrameRequested <==> request_redraw_requests_frame(old(self)@),
            r == RedrawOutcome::NotConfigured <==> !old(self)@.redraw_action_configured,
            r == RedrawOutcome::AlreadyPending <==> (old(self)@.redraw_action_configured
                && old(self)@.redraw_pending),
    {
        if !self.redraw_action_configured {
            RedrawOutcome::NotConfigured
        } else if self.redraw_pending {
            RedrawOutcome::AlreadyPending
        } else {
            self.redraw_pending = true;
            RedrawOutcome::FrameRequested
        }
    }

    /// Terminate: drop any pending frame, remove the frame-request action so
    /// no further frames are scheduled, and consume the termination action.
    /// Returns whether the termination action should now run (it runs at
    /// most once; later calls find it consumed).
    pub fn terminate_loop(&mut self) -> (run_action: bool)
        ensures
            final(self)@ == terminate_transition(old(self)@),
            run_action == old(self)@.terminate_action_available,
    {
        self.redraw_pending = false;
        self.redraw_action_configured = false;
        let run_action = self.terminate_action_available;
        self.terminate_action_available = false;
        run_action
    }

    /// Icon assignment is not supported by this hosting environment; it
    /// fails with a descriptive error rather than pretending success.
    pub fn set_icon_from_rgba_pixels(&self, _data: Vec<u8>, _size: Vector2<u32>) -> (r: Result<
        (),
        ErrorMessage,
    >)
        ensures
            r matches Err(e) && e.text@ == "Cannot set icon for WebCanvas"@,
    {
        Err(ErrorMessage { text: "Cannot set icon for WebCanvas" })
    }

    /// The cursor style the host should apply: the default cursor when the
    /// cursor is visible, none when it is hidden.
    pub fn set_cursor_visible(&self, visible: bool) -> (r: WebCursorType)
        ensures
            r == (if visible {
                WebCursorType::Auto
            } else {
                WebCursorType::Hidden
            }),
    {
        if visible {
            WebCursorType::Auto
        } else {
            WebCursorType::Hidden
        }
    }

    /// Pointer capture is fire-and-forget: grabbing requests pointer lock on
    /// the surface, releasing exits pointer lock on the document. The actual
    /// state change is confirmed asynchronously by the native change
    /// notification, not by this call's success.
    pub fn set_cursor_grab(&self, grabbed: bool) -> (r: Result<PointerGrabDirective, ErrorMessage>)
        ensures
            r == Ok::<PointerGrabDirective, ErrorMessage>(
                if grabbed {
                    PointerGrabDirective::RequestLock
                } else {
                    PointerGrabDirective::ExitLock
                },
            ),
    {
        if grabbed {
            Ok(PointerGrabDirective::RequestLock)
        } else {
            Ok(PointerGrabDirective::ExitLock)
        }
    }

    /// The embedded surface has no control over its own resizability: the
    /// call is accepted and defined as a no-op.
    pub fn set_resizable(&self, _resizable: bool) {
    }

    /// Instruct the host to set the document title.
    pub fn set_title(&self, title: &str) -> (r: TitleDirective)
        ensures
            r.title@ == title@,
    {
        TitleDirective { title: title.to_owned() }
    }

    /// Entering fullscreen requests it on the surface; leaving exits it on
    /// the document.
    pub fn set_fullscreen_mode(&self, mode: WindowFullscreenMode) -> (r: FullscreenDirective)
        ensures
            r == (match mode {
                WindowFullscreenMode::Windowed => FullscreenDirective::ExitFullscreen,
                WindowFullscreenMode::FullscreenBorderless => FullscreenDirective::RequestFullscreen,
            }),
    {
        match mode {
            WindowFullscreenMode::Windowed => FullscreenDirective::ExitFullscreen,
            WindowFullscreenMode::FullscreenBorderless => FullscreenDirective::RequestFullscreen,
        }
    }

    /// The embedded surface has no control over its own size: the call is
    /// accepted and defined as a no-op.
    pub fn set_size_pixels(&self, _size: Vector2<u32>) {
    }

    /// The embedded surface has no control over its own placement: the call
    /// is accepted and defined as a no-op.
    pub fn set_position_pixels(&self, _position: Vector2<i32>) {
    }

    /// Hand out a capability bound to the custom-event posting action. The
    /// posting action must have been wired up first.
    pub fn create_user_event_sender(&self) -> (r: UserEventSenderToken)
        requires
            self@.post_action_configured,
        ensures
            r.bound,
    {
        UserEventSenderToken { bound: true }
    }
}

} // verus!
