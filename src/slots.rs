//! The per-connection table of callbacks, one slot for each kind of event.
use vstd::prelude::*;

verus! {

/// The events for which a connection may hold a callback.
#[derive(Clone, Copy, Debug, PartialEq, Eq, Structural)]
pub enum EventKind {
    HeaderReceived,
    HeadersRead,
    Response,
    RequestComplete,
    ConnectionClosed,
}

/// One slot of the table.
pub enum Slot<C> {
    /// No callback: the host must not be registered for this event.
    Empty,
    /// A callback waits for its event.
    Ready(C),
    /// The callback is running: it was lent out for one invocation and has
    /// not been handed back yet.
    Running,
}

impl<C> Slot<C> {
    /// The slot holds a callback, waiting or running.
    pub open spec fn occupied(self) -> bool {
        !(self is Empty)
    }
}

/// The slot that a callback setter leaves behind.
pub open spec fn slot_of<C>(callback: Option<C>) -> Slot<C> {
    match callback {
        Some(c) => Slot::Ready(c),
        None => Slot::Empty,
    }
}

/// One slot per kind of event.
pub struct CallbackSlots<C> {
    header_received: Slot<C>,
    headers_read: Slot<C>,
    response: Slot<C>,
    request_complete: Slot<C>,
    connection_closed: Slot<C>,
}

impl<C> CallbackSlots<C> {
    /// The slot for events of `kind`.
    pub closed spec fn slot(&self, kind: EventKind) -> Slot<C> {
        match kind {
            EventKind::HeaderReceived => self.header_received,
            EventKind::HeadersRead => self.headers_read,
            EventKind::Response => self.response,
            EventKind::RequestComplete => self.request_complete,
            EventKind::ConnectionClosed => self.connection_closed,
        }
    }

    /// `self` and `other` agree on every slot but that of `kind`.
    pub open spec fn same_except(&self, other: &Self, kind: EventKind) -> bool {
        forall|k: EventKind| k != kind ==> #[trigger] self.slot(k) == other.slot(k)
    }

    /// A table with every slot empty.
    pub fn new() -> (r: Self)
        ensures
            forall|k: EventKind| #[trigger] r.slot(k) is Empty,
    {
        CallbackSlots {
            header_received: Slot::Empty,
            headers_read: Slot::Empty,
            response: Slot::Empty,
            request_complete: Slot::Empty,
            connection_closed: Slot::Empty,
        }
    }

    fn slot_mut(&mut self, kind: EventKind) -> (r: &mut Slot<C>)
        ensures
            *r == old(self).slot(kind),
            final(self).slot(kind) == *final(r),
            final(self).same_except(old(self), kind),
    {
        match kind {
            EventKind::HeaderReceived => &mut self.header_received,
            EventKind::HeadersRead => &mut self.headers_read,
            EventKind::Response => &mut self.response,
            EventKind::RequestComplete => &mut self.request_complete,
            EventKind::ConnectionClosed => &mut self.connection_closed,
        }
    }

    /// Puts `callback` in the slot of `kind`, dropping what was there, and
    /// tells whether the host must now be registered for that event.
    pub fn set(&mut self, kind: EventKind, callback: Option<C>) -> (registered: bool)
        ensures
            final(self).slot(kind) == slot_of(callback),
            final(self).same_except(old(self), kind),
            registered == callback is Some,
            registered == final(self).slot(kind).occupied(),
    {
        let registered = callback.is_some();
        let slot = self.slot_mut(kind);
        *slot = match callback {
            Some(c) => Slot::Ready(c),
            None => Slot::Empty,
        };
        registered
    }

    /// Lends out the waiting callback of `kind`, marking the slot as running;
    /// `None`, and nothing changed, where no callback waits.
    pub fn begin(&mut self, kind: EventKind) -> (r: Option<C>)
        ensures
            match old(self).slot(kind) {
                Slot::Ready(c) => r == Some(c) && final(self).slot(kind) is Running,
                _ => r is None && final(self).slot(kind) == old(self).slot(kind),
            },
            final(self).same_except(old(self), kind),
            final(self).slot(kind).occupied() == old(self).slot(kind).occupied(),
    {
        let slot = self.slot_mut(kind);
        let mut taken: Slot<C> = Slot::Running;
        std::mem::swap(slot, &mut taken);
        match taken {
            Slot::Ready(c) => Some(c),
            other => {
                *slot = other;
                None
            },
        }
    }

    fn slot_ref(&self, kind: EventKind) -> (r: &Slot<C>)
        ensures
            *r == self.slot(kind),
    {
        match kind {
            EventKind::HeaderReceived => &self.header_received,
            EventKind::HeadersRead => &self.headers_read,
            EventKind::Response => &self.response,
            EventKind::RequestComplete => &self.request_complete,
            EventKind::ConnectionClosed => &self.connection_closed,
        }
    }

    /// Whether a callback of `kind` waits for its event.
    pub fn is_ready(&self, kind: EventKind) -> (r: bool)
        ensures
            r == self.slot(kind) is Ready,
    {
        match self.slot_ref(kind) {
            Slot::Ready(_) => true,
            _ => false,
        }
    }

    /// Whether the callback of `kind` is lent out.
    pub fn is_running(&self, kind: EventKind) -> (r: bool)
        ensures
            r == self.slot(kind) is Running,
    {
        match self.slot_ref(kind) {
            Slot::Running => true,
            _ => false,
        }
    }

    /// Takes back a callback lent out by `begin`. Where the slot was set
    /// while the callback ran, the new setting stands and the callback is dropped.
    pub fn finish(&mut self, kind: EventKind, callback: C)
        ensures
            old(self).slot(kind) is Running ==> final(self).slot(kind) == Slot::Ready(callback),
            !(old(self).slot(kind) is Running) ==> final(self).slot(kind) == old(self).slot(kind),
            final(self).same_except(old(self), kind),
            final(self).slot(kind).occupied() == old(self).slot(kind).occupied(),
    {
        let slot = self.slot_mut(kind);
        if let Slot::Running = slot {
            *slot = Slot::Ready(callback);
        }
    }
}

} // verus!
