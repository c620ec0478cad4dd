//! The surface bridge: composition root and native-event router.
//!
//! The bridge owns the helper, the custom-event dispatcher and the
//! subscription registry, and routes each native event to a handler
//! notification. It is a state machine over plain values: the unverified
//! host layer reads native events, feeds them in here, and performs the
//! returned directives (resizing the backing store, delivering handler
//! notifications, scheduling callbacks). Every routing decision — including
//! the guarantee that a terminated bridge delivers nothing further — is
//! checked here.

use vstd::prelude::*;

use crate::dimen::Vector2;
use crate::dispatcher::{
    DispatcherModel,
    SendEffect,
    UserEventSenderWeb,
    flush_batch,
    flush_transition,
    send_schedules_flush,
    send_transition,
};
use crate::helper::{HelperModel, WindowHelperWeb, clear_pending_transition, terminate_transition};
use crate::keymap::{VirtualKeyCode, key_code_from_web, key_code_spec, scan_code_spec};
use crate::registry::{RegistryModel, Subscription, SubscriptionRegistry};
use crate::scale::{ScaleFactor, round_scaled, unscaled_len};

verus! {

/// A pointer button, mapped from the native button ordinal.
#[derive(Clone, Copy, Debug, PartialEq, Eq, Structural)]
pub enum MouseButton {
    Left,
    Middle,
    Right,
    /// Any ordinal outside the three named buttons, carrying that ordinal.
    Other(u16),
}

/// The button a native ordinal stands for: 0, 1 and 2 are the named
/// buttons; every other ordinal maps to `Other` carrying it.
pub open spec fn mouse_button_spec(ordinal: i16) -> Option<MouseButton> {
    if ordinal == 0 {
        Some(MouseButton::Left)
    } else if ordinal == 1 {
        Some(MouseButton::Middle)
    } else if ordinal == 2 {
        Some(MouseButton::Right)
    } else {
        Some(MouseButton::Other(ordinal as u16))
    }
}

/// Map a native button ordinal to a pointer button.
pub fn mouse_button_from_event(ordinal: i16) -> (r: Option<MouseButton>)
    requires
        ordinal >= 0,
    ensures
        r == mouse_button_spec(ordinal),
{
    if ordinal == 0 {
        Some(MouseButton::Left)
    } else if ordinal == 1 {
        Some(MouseButton::Middle)
    } else if ordinal == 2 {
        Some(MouseButton::Right)
    } else {
        Some(MouseButton::Other(ordinal as u16))
    }
}

/// Sending a custom event can fail only once the event loop is gone.
#[derive(Clone, Copy, Debug, PartialEq, Eq, Structural)]
pub enum EventLoopSendError {
    EventLoopNoLongerExists,
}

/// What a native key press routes to.
#[derive(Clone, Copy, Debug, PartialEq, Eq, Structural)]
pub enum KeyDownOutcome {
    /// Deliver one key-down notification with the virtual key code and its
    /// scan code.
    Deliver(VirtualKeyCode, u32),
    /// The identifier is not in the translation table: no notification; the
    /// host layer logs a warning.
    UnknownKey,
    /// The identifier is known but has no scan code, and the handler
    /// contract requires both together: no notification; the host layer
    /// logs a warning.
    MissingScanCode,
}

/// The outcome a native key press with identifier `code` routes to.
pub open spec fn key_down_outcome_spec(code: Seq<char>) -> KeyDownOutcome {
    match key_code_spec(code) {
        Option::None => KeyDownOutcome::UnknownKey,
        Option::Some(key) => match scan_code_spec(key) {
            Option::None => KeyDownOutcome::MissingScanCode,
            Option::Some(scan) => KeyDownOutcome::Deliver(key, scan),
        },
    }
}

/// What the startup notification carries to the handler.
#[derive(Clone, Copy, Debug, PartialEq, Eq)]
pub struct WindowStartupInfo {
    /// The initial backing-store size in device pixels.
    pub viewport_size_pixels: Vector2<u32>,
    /// The environment's pixel density.
    pub scale_factor: ScaleFactor,
}

/// What a surface resize routes to: the host layer resizes the backing
/// store to `backing_size`, delivers one resize notification carrying it,
/// and then delivers one draw notification — in that order, in the same
/// turn.
#[derive(Clone, Copy, Debug, PartialEq, Eq)]
pub struct ResizePlan {
    pub backing_size: Vector2<u32>,
}

/// The whole bridge state as a mathematical value.
pub ghost struct BridgeModel<E> {
    pub helper: HelperModel,
    pub dispatcher: DispatcherModel<E>,
    pub registry: RegistryModel,
    /// Mirror of the native pointer-lock state, written only by the native
    /// change notification.
    pub pointer_locked: bool,
    /// Mirror of the native fullscreen state, written only by the native
    /// change notification.
    pub fullscreen_active: bool,
    /// One-way flag: once set, no further redraw, flush or native-event
    /// routing may change observable state.
    pub terminated: bool,
    /// The pixel density of the most recent size computation.
    pub density: ScaleFactor,
}

/// The backing-store size in device pixels for a scaled size and a density.
pub open spec fn backing_size_spec(scaled: Vector2<u32>, density: ScaleFactor) -> Vector2<u32> {
    Vector2 {
        x: round_scaled(scaled.x as nat, density.num as nat, density.den as nat) as u32,
        y: round_scaled(scaled.y as nat, density.num as nat, density.den as nat) as u32,
    }
}

/// Both rounded sides of a scaled size fit the backing store's pixel type.
pub open spec fn backing_size_fits(scaled: Vector2<u32>, density: ScaleFactor) -> bool {
    round_scaled(scaled.x as nat, density.num as nat, density.den as nat) <= u32::MAX
        && round_scaled(scaled.y as nat, density.num as nat, density.den as nat) <= u32::MAX
}

/// The state after a native resize: the current density is replaced; a
/// terminated bridge is unchanged.
pub open spec fn resize_transition<E>(
    m: BridgeModel<E>,
    scaled: Vector2<u32>,
    density: ScaleFactor,
) -> BridgeModel<E> {
    if m.terminated {
        m
    } else {
        BridgeModel { density, ..m }
    }
}

/// What a native resize routes to; a terminated bridge routes nothing.
pub open spec fn resize_output<E>(
    m: BridgeModel<E>,
    scaled: Vector2<u32>,
    density: ScaleFactor,
) -> Option<ResizePlan> {
    if m.terminated {
        None
    } else {
        Some(ResizePlan { backing_size: backing_size_spec(scaled, density) })
    }
}

/// The state after a native pointer-lock change notification.
pub open spec fn pointer_lock_transition<E>(m: BridgeModel<E>, locked: bool) -> BridgeModel<E> {
    if m.terminated {
        m
    } else {
        BridgeModel { pointer_locked: locked, ..m }
    }
}

/// The grab-status notification a pointer-lock change routes to.
pub open spec fn pointer_lock_output<E>(m: BridgeModel<E>, locked: bool) -> Option<bool> {
    if m.terminated {
        None
    } else {
        Some(locked)
    }
}

/// The state after a native fullscreen change notification.
pub open spec fn fullscreen_transition<E>(m: BridgeModel<E>, active: bool) -> BridgeModel<E> {
    if m.terminated {
        m
    } else {
        BridgeModel { fullscreen_active: active, ..m }
    }
}

/// The fullscreen-status notification a fullscreen change routes to.
pub open spec fn fullscreen_output<E>(m: BridgeModel<E>, active: bool) -> Option<bool> {
    if m.terminated {
        None
    } else {
        Some(active)
    }
}

/// The position a pointer move reports: raw movement deltas while pointer
/// lock is active, offset from the surface origin otherwise.
pub open spec fn mouse_move_report<E>(
    m: BridgeModel<E>,
    offset: Vector2<i32>,
    movement: Vector2<i32>,
) -> Option<Vector2<i32>> {
    if m.terminated {
        None
    } else if m.pointer_locked {
        Some(movement)
    } else {
        Some(offset)
    }
}

/// The button notification a native button event routes to.
pub open spec fn mouse_button_output<E>(m: BridgeModel<E>, ordinal: i16) -> Option<MouseButton> {
    if m.terminated {
        None
    } else {
        mouse_button_spec(ordinal)
    }
}

/// The outcome a native key press routes to; a terminated bridge routes
/// nothing.
pub open spec fn key_down_output<E>(m: BridgeModel<E>, code: Seq<char>) -> Option<KeyDownOutcome> {
    if m.terminated {
        None
    } else {
        Some(key_down_outcome_spec(code))
    }
}

/// The state after the host's frame callback fires: the pending flag is
/// cleared before the draw notification is delivered.
pub open spec fn frame_fired_transition<E>(m: BridgeModel<E>) -> BridgeModel<E> {
    if m.terminated {
        m
    } else {
        BridgeModel { helper: clear_pending_transition(m.helper), ..m }
    }
}

/// Whether the frame callback delivers a draw notification.
pub open spec fn frame_fired_output<E>(m: BridgeModel<E>) -> bool {
    !m.terminated
}

/// The state after the deferred flush callback fires.
pub open spec fn flush_fired_transition<E>(m: BridgeModel<E>) -> BridgeModel<E> {
    if m.terminated {
        m
    } else {
        BridgeModel { dispatcher: flush_transition(m.dispatcher), ..m }
    }
}

/// The batch the flush callback delivers; a terminated bridge delivers
/// none.
pub open spec fn flush_fired_output<E>(m: BridgeModel<E>) -> Option<Seq<E>> {
    if m.terminated {
        None
    } else {
        Some(flush_batch(m.dispatcher))
    }
}

/// The state after a custom event is posted.
pub open spec fn post_event_transition<E>(m: BridgeModel<E>, event: E) -> BridgeModel<E> {
    if m.terminated {
        m
    } else {
        BridgeModel { dispatcher: send_transition(m.dispatcher, event), ..m }
    }
}

/// The state after termination: the one-way flag is set, the scheduler is
/// cleared and disarmed, and the subscription collection is emptied.
pub open spec fn terminate_loop_transition<E>(m: BridgeModel<E>) -> BridgeModel<E> {
    BridgeModel {
        terminated: true,
        helper: terminate_transition(m.helper),
        registry: RegistryModel { subscriptions: Seq::empty(), next_id: m.registry.next_id },
        ..m
    }
}

/// The surface bridge.
pub struct WebCanvasImpl<E> {
    pub helper: WindowHelperWeb,
    pub dispatcher: UserEventSenderWeb<E>,
    pub registry: SubscriptionRegistry,
    pointer_locked: bool,
    fullscreen_active: bool,
    terminated: bool,
    density: ScaleFactor,
}

impl<E> View for WebCanvasImpl<E> {
    type V = BridgeModel<E>;

    closed spec fn view(&self) -> BridgeModel<E> {
        BridgeModel {
            helper: self.helper@,
            dispatcher: self.dispatcher@,
            registry: self.registry@,
            pointer_locked: self.pointer_locked,
            fullscreen_active: self.fullscreen_active,
            terminated: self.terminated,
            density: self.density,
        }
    }
}

impl<E> WebCanvasImpl<E> {
    /// Begin attaching to a surface whose initial size (in scaled units) and
    /// pixel density are given. Computes the initial backing-store size —
    /// `round(scaled * density)` per side — which the host layer applies to
    /// the surface and hands to the renderer, and returns the startup
    /// notification to deliver to the handler once the listeners are wired.
    pub fn new(scaled_size: Vector2<u32>, density: ScaleFactor) -> (r: (
        WebCanvasImpl<E>,
        WindowStartupInfo,
    ))
        requires
            density.wf(),
            backing_size_fits(scaled_size, density),
        ensures
            !r.0@.terminated,
            !r.0@.pointer_locked,
            !r.0@.fullscreen_active,
            r.0@.density == density,
            r.0@.helper == (HelperModel {
                redraw_pending: false,
                redraw_action_configured: false,
                post_action_configured: false,
                terminate_action_available: false,
            }),
            r.0@.dispatcher.queue == Seq::<E>::empty(),
            !r.0@.dispatcher.flush_scheduled,
            r.0@.registry.subscriptions == Seq::<Subscription>::empty(),
            r.1.viewport_size_pixels == backing_size_spec(scaled_size, density),
            r.1.scale_factor == density,
    {
        let width = unscaled_len(scaled_size.x, density);
        let height = unscaled_len(scaled_size.y, density);
        let bridge = WebCanvasImpl {
            helper: WindowHelperWeb::new(),
            dispatcher: UserEventSenderWeb::new(),
            registry: SubscriptionRegistry::new(),
            pointer_locked: false,
            fullscreen_active: false,
            terminated: false,
            density,
        };
        let info = WindowStartupInfo {
            viewport_size_pixels: Vector2 { x: width, y: height },
            scale_factor: density,
        };
        (bridge, info)
    }

    /// Whether the initial draw notification is still due: it is delivered
    /// once after the startup notification, unless the handler requested
    /// termination during startup.
    pub fn initial_draw_due(&self) -> (r: bool)
        ensures
            r == !self@.terminated,
    {
        !self.terminated
    }

    /// Route a native surface resize: recompute the backing-store size from
    /// the new scaled size and the current density, remember the density,
    /// and instruct the host layer to resize the store, notify resize, and
    /// force one draw in the same turn. A terminated bridge routes nothing.
    pub fn on_native_resize(&mut self, scaled_size: Vector2<u32>, density: ScaleFactor) -> (r:
        Option<ResizePlan>)
        requires
            density.wf(),
            backing_size_fits(scaled_size, density),
        ensures
            final(self)@ == resize_transition(old(self)@, scaled_size, density),
            r == resize_output(old(self)@, scaled_size, density),
    {
        if self.terminated {
            return None;
        }
        let width = unscaled_len(scaled_size.x, density);
        let height = unscaled_len(scaled_size.y, density);
        self.density = density;
        Some(ResizePlan { backing_size: Vector2 { x: width, y: height } })
    }

    /// Route a native pointer-lock change: mirror the new state and notify
    /// the handler of the grab-status change. A terminated bridge routes
    /// nothing.
    pub fn on_pointer_lock_change(&mut self, locked: bool) -> (r: Option<bool>)
        ensures
            final(self)@ == pointer_lock_transition(old(self)@, locked),
            r == pointer_lock_output(old(self)@, locked),
    {
        if self.terminated {
            return None;
        }
        self.pointer_locked = locked;
        Some(locked)
    }

    /// Route a native fullscreen change: mirror the new state and notify the
    /// handler of the fullscreen-status change. A terminated bridge routes
    /// nothing.
    pub fn on_fullscreen_change(&mut self, active: bool) -> (r: Option<bool>)
        ensures
            final(self)@ == fullscreen_transition(old(self)@, active),
            r == fullscreen_output(old(self)@, active),
    {
        if self.terminated {
            return None;
        }
        self.fullscreen_active = active;
        Some(active)
    }

    /// Route a native pointer move: report raw movement deltas while
    /// pointer lock is active, the offset from the surface origin
    /// otherwise. A terminated bridge routes nothing.
    pub fn on_native_mouse_move(&mut self, offset: Vector2<i32>, movement: Vector2<i32>) -> (r:
        Option<Vector2<i32>>)
        ensures
            *final(self) == *old(self),
            r == mouse_move_report(old(self)@, offset, movement),
    {
        if self.terminated {
            return None;
        }
        if self.pointer_locked {
            Some(movement)
        } else {
            Some(offset)
        }
    }

    /// Route a native button press. A terminated bridge routes nothing.
    pub fn on_native_mouse_down(&mut self, ordinal: i16) -> (r: Option<MouseButton>)
        requires
            ordinal >= 0,
        ensures
            *final(self) == *old(self),
            r == mouse_button_output(old(self)@, ordinal),
    {
        if self.terminated {
            return None;
        }
        mouse_button_from_event(ordinal)
    }

    /// Route a native button release. A terminated bridge routes nothing.
    pub fn on_native_mouse_up(&mut self, ordinal: i16) -> (r: Option<MouseButton>)
        requires
            ordinal >= 0,
        ensures
            *final(self) == *old(self),
            r == mouse_button_output(old(self)@, ordinal),
    {
        if self.terminated {
            return None;
        }
        mouse_button_from_event(ordinal)
    }

    /// Route a native key press: translate the physical-key identifier and
    /// derive its scan code; the notification is delivered only when both
    /// are available, and dropped with a warning otherwise. A terminated
    /// bridge routes nothing.
    pub fn on_native_key_down(&mut self, code: &str) -> (r: Option<KeyDownOutcome>)
        ensures
            *final(self) == *old(self),
            r == key_down_output(old(self)@, code@),
    {
        if self.terminated {
            return None;
        }
        match key_code_from_web(code) {
            Option::None => Some(KeyDownOutcome::UnknownKey),
            Option::Some(key) => match key.get_scan_code() {
                Option::None => Some(KeyDownOutcome::MissingScanCode),
                Option::Some(scan) => Some(KeyDownOutcome::Deliver(key, scan)),
            },
        }
    }

    /// The host's frame callback fired. Clears the pending flag first —
    /// before the draw notification is delivered — and says whether to
    /// deliver it; a terminated bridge delivers nothing, even for a frame
    /// the host had already scheduled.
    pub fn frame_fired(&mut self) -> (deliver_draw: bool)
        ensures
            final(self)@ == frame_fired_transition(old(self)@),
            deliver_draw == frame_fired_output(old(self)@),
    {
        if self.terminated {
            return false;
        }
        let _was_pending = self.helper.clear_redraw_pending_flag();
        true
    }

    /// The deferred flush callback fired. Clears the scheduled-flush flag
    /// and swaps the queue out before delivery, and returns the batch to
    /// deliver in submission order; a terminated bridge delivers nothing,
    /// even for a flush the host had already scheduled.
    pub fn flush_fired(&mut self) -> (r: Option<Vec<E>>)
        ensures
            final(self)@ == flush_fired_transition(old(self)@),
            r is Some <==> flush_fired_output(old(self)@) is Some,
            r matches Some(batch) ==> Some(batch@) == flush_fired_output(old(self)@),
    {
        if self.terminated {
            return None;
        }
        Some(self.dispatcher.begin_flush())
    }

    /// Post one custom event: enqueued in submission order, and the first
    /// post since the last flush asks the host layer to schedule the one
    /// deferred flush callback. Once the bridge is terminated, posting
    /// reports that the event loop no longer exists.
    pub fn post_user_event(&mut self, event: E) -> (r: Result<SendEffect, EventLoopSendError>)
        ensures
            final(self)@ == post_event_transition(old(self)@, event),
            old(self)@.terminated <==> r == Err::<SendEffect, EventLoopSendError>(
                EventLoopSendError::EventLoopNoLongerExists,
            ),
            !old(self)@.terminated ==> r == Ok::<SendEffect, EventLoopSendError>(
                if send_schedules_flush(old(self)@.dispatcher) {
                    SendEffect::ScheduleFlush
                } else {
                    SendEffect::FlushAlreadyScheduled
                },
            ),
    {
        if self.terminated {
            return Err(EventLoopSendError::EventLoopNoLongerExists);
        }
        Ok(self.dispatcher.send_event(event))
    }

    /// Terminate: flip the one-way flag, clear the redraw scheduler's
    /// pending state and frame-request action, and empty the subscription
    /// collection in one operation. The removed subscriptions are returned
    /// so the host layer unregisters every listener before this turn ends.
    /// Safe to repeat: a second call removes nothing.
    pub fn terminate_loop(&mut self) -> (removed: Vec<Subscription>)
        ensures
            final(self)@ == terminate_loop_transition(old(self)@),
            removed@ == old(self)@.registry.subscriptions,
    {
        self.terminated = true;
        let _run_action = self.helper.terminate_loop();
        self.registry.terminate()
    }
}

/// Law: termination quiesces the bridge. After `terminate_loop`, the
/// one-way flag is set, every subscription is gone, and no native event,
/// frame callback, flush callback, redraw request or posted event changes
/// state or produces a notification — even when the host fires a callback
/// it had already scheduled.
pub proof fn lemma_termination_quiesces<E>(
    m: BridgeModel<E>,
    scaled: Vector2<u32>,
    density: ScaleFactor,
    offset: Vector2<i32>,
    movement: Vector2<i32>,
    ordinal: i16,
    code: Seq<char>,
    locked: bool,
    active: bool,
    event: E,
)
    ensures
        ({
            let t = terminate_loop_transition(m);
            &&& t.terminated
            &&& t.registry.subscriptions == Seq::<Subscription>::empty()
            &&& resize_transition(t, scaled, density) == t
            &&& resize_output(t, scaled, density) is None
            &&& pointer_lock_transition(t, locked) == t
            &&& pointer_lock_output(t, locked) is None
            &&& fullscreen_transition(t, active) == t
            &&& fullscreen_output(t, active) is None
            &&& mouse_move_report(t, offset, movement) is None
            &&& mouse_button_output(t, ordinal) is None
            &&& key_down_output(t, code) is None
            &&& frame_fired_transition(t) == t
            &&& !frame_fired_output(t)
            &&& flush_fired_transition(t) == t
            &&& flush_fired_output(t) is None
            &&& post_event_transition(t, event) == t
            &&& !crate::helper::request_redraw_requests_frame(t.helper)
            &&& terminate_loop_transition(t) == t
        }),
{
}

/// Law: a redraw request issued from inside the draw notification that a
/// frame callback delivers schedules exactly one new frame — not zero and
/// not two. The frame callback clears the pending flag before the draw
/// notification is delivered, so the `n >= 1` requests the handler makes
/// during that notification start from a cleared flag.
pub proof fn lemma_redraw_during_delivered_draw<E>(m: BridgeModel<E>, n: nat)
    requires
        !m.terminated,
        m.helper.redraw_action_configured,
        n >= 1,
    ensures
        crate::helper::frames_requested(frame_fired_transition(m).helper, n) == 1,
{
    crate::helper::lemma_redraw_inside_draw(m.helper, n);
}

/// Law: pointer-move reporting. While pointer lock is inactive, the
/// reported position is the offset from the surface origin; immediately
/// after a lock-acquired notification, reports are the raw movement deltas,
/// and after a lock-released notification they are offsets again.
pub proof fn lemma_pointer_move_reporting<E>(
    m: BridgeModel<E>,
    offset: Vector2<i32>,
    movement: Vector2<i32>,
)
    requires
        !m.terminated,
    ensures
        !m.pointer_locked ==> mouse_move_report(m, offset, movement) == Some(offset),
        m.pointer_locked ==> mouse_move_report(m, offset, movement) == Some(movement),
        mouse_move_report(pointer_lock_transition(m, true), offset, movement) == Some(movement),
        mouse_move_report(pointer_lock_transition(m, false), offset, movement) == Some(offset),
{
}

} // verus!
