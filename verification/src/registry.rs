//! The event subscription registry.
//!
//! During setup the surface bridge registers a number of native event
//! listeners; the registry owns their handles as one collection. Termination
//! clears the whole collection in one operation — every listener is
//! unregistered before it returns — and is safe to repeat: a second call
//! finds the collection empty and is a no-op.
//!
//! The host layer keeps the real listener objects keyed by the identifiers
//! handed out here; when `terminate` returns the removed entries, it drops
//! each corresponding listener.

use vstd::prelude::*;

verus! {

/// Which native event a subscription listens for.
#[derive(Clone, Copy, Debug, PartialEq, Eq, Structural)]
pub enum SubscriptionKind {
    /// Context-menu suppression on the surface.
    ContextMenu,
    /// Surface resize.
    Resize,
    /// Pointer-lock state change on the document.
    PointerLockChange,
    /// Fullscreen state change on the document.
    FullscreenChange,
    /// Pointer movement over the surface.
    MouseMove,
    /// Pointer button press on the surface.
    MouseDown,
    /// Pointer button release on the surface.
    MouseUp,
    /// Key press while the surface has focus.
    KeyDown,
}

/// One active native event registration.
#[derive(Clone, Copy, Debug, PartialEq, Eq, Structural)]
pub struct Subscription {
    /// Identifier under which the host layer keeps the listener object.
    pub id: u64,
    pub kind: SubscriptionKind,
}

/// The registry state as a mathematical value.
pub ghost struct RegistryModel {
    /// Active subscriptions, in registration order.
    pub subscriptions: Seq<Subscription>,
    /// The identifier the next registration will receive.
    pub next_id: nat,
}

/// The registry of all native event subscriptions.
pub struct SubscriptionRegistry {
    subscriptions: Vec<Subscription>,
    next_id: u64,
}

impl View for SubscriptionRegistry {
    type V = RegistryModel;

    closed spec fn view(&self) -> RegistryModel {
        RegistryModel { subscriptions: self.subscriptions@, next_id: self.next_id as nat }
    }
}

impl SubscriptionRegistry {
    /// A fresh registry with no subscriptions.
    pub fn new() -> (r: SubscriptionRegistry)
        ensures
            r@.subscriptions == Seq::<Subscription>::empty(),
            r@.next_id == 0,
    {
        SubscriptionRegistry { subscriptions: Vec::new(), next_id: 0 }
    }

    /// Record one newly created subscription and hand out the identifier
    /// under which the host layer should keep its listener object.
    pub fn add(&mut self, kind: SubscriptionKind) -> (id: u64)
        requires
            old(self)@.next_id < u64::MAX,
        ensures
            id == old(self)@.next_id,
            final(self)@.subscriptions == old(self)@.subscriptions.push(Subscription { id, kind }),
            final(self)@.next_id == old(self)@.next_id + 1,
    {
        let id = self.next_id;
        self.subscriptions.push(Subscription { id, kind });
        self.next_id = self.next_id + 1;
        id
    }

    /// Whether another subscription can still be recorded: the identifier
    /// space is not exhausted.
    pub fn can_add(&self) -> (r: bool)
        ensures
            r == (self@.next_id < u64::MAX),
    {
        self.next_id < u64::MAX
    }

    /// How many subscriptions are active.
    pub fn len(&self) -> (r: usize)
        ensures
            r == self@.subscriptions.len(),
    {
        self.subscriptions.len()
    }

    /// Clear the whole collection in one operation and return every removed
    /// subscription, so the host layer unregisters each listener before
    /// anything else runs. A repeated call finds the collection empty and
    /// removes nothing: termination is safe to repeat.
    pub fn terminate(&mut self) -> (removed: Vec<Subscription>)
        ensures
            removed@ == old(self)@.subscriptions,
            final(self)@.subscriptions == Seq::<Subscription>::empty(),
            final(self)@.next_id == old(self)@.next_id,
    {
        let mut removed: Vec<Subscription> = Vec::new();
        core::mem::swap(&mut removed, &mut self.subscriptions);
        removed
    }
}

} // verus!
