use vstd::prelude::*;

verus! {

/// The backend events an application can register a handler for.
#[derive(Clone, Copy, Debug, PartialEq, Eq, Structural)]
pub enum EventKind {
    Open,
    Close,
    Frame,
    Error,
}

impl EventKind {
    pub open spec fn spec_name(self) -> Seq<char> {
        match self {
            EventKind::Open => "open"@,
            EventKind::Close => "close"@,
            EventKind::Frame => "frame"@,
            EventKind::Error => "error"@,
        }
    }

    /// The name under which the backend knows the event.
    pub fn name(&self) -> (r: &'static str)
        ensures
            r@ == self.spec_name(),
    {
        match self {
            EventKind::Open => "open",
            EventKind::Close => "close",
            EventKind::Frame => "frame",
            EventKind::Error => "error",
        }
    }
}

/// Which events have a handler registered on a connection context.
#[derive(Clone, Copy, Debug, PartialEq, Eq, Structural)]
pub struct EventTable {
    pub open: bool,
    pub close: bool,
    pub frame: bool,
    pub error: bool,
}

impl EventTable {
    pub open spec fn spec_registered(self, kind: EventKind) -> bool {
        match kind {
            EventKind::Open => self.open,
            EventKind::Close => self.close,
            EventKind::Frame => self.frame,
            EventKind::Error => self.error,
        }
    }

    /// The table after a registration of `kind` that succeeded (`ok`) or not.
    pub open spec fn after(self, kind: EventKind, ok: bool) -> EventTable {
        match kind {
            EventKind::Open => EventTable { open: ok, ..self },
            EventKind::Close => EventTable { close: ok, ..self },
            EventKind::Frame => EventTable { frame: ok, ..self },
            EventKind::Error => EventTable { error: ok, ..self },
        }
    }

    pub fn empty() -> (t: EventTable)
        ensures
            forall|k: EventKind| !t.spec_registered(k),
    {
        EventTable { open: false, close: false, frame: false, error: false }
    }

    /// Whether the backend will deliver `kind` to its handler.
    pub fn registered(&self, kind: EventKind) -> (r: bool)
        ensures
            r == self.spec_registered(kind),
    {
        match kind {
            EventKind::Open => self.open,
            EventKind::Close => self.close,
            EventKind::Frame => self.frame,
            EventKind::Error => self.error,
        }
    }

    /// Records the outcome of one registration.
    pub fn record(&mut self, kind: EventKind, ok: bool)
        ensures
            *final(self) == old(self).after(kind, ok),
    {
        match kind {
            EventKind::Open => self.open = ok,
            EventKind::Close => self.close = ok,
            EventKind::Frame => self.frame = ok,
            EventKind::Error => self.error = ok,
        }
    }

    /// A registration decides for its own event only: one that fails
    /// leaves every other event's handler as it was.
    pub proof fn lemma_registration_isolated(self, kind: EventKind, ok: bool, other: EventKind)
        ensures
            self.after(kind, ok).spec_registered(kind) == ok,
            other != kind ==> self.after(kind, ok).spec_registered(other)
                == self.spec_registered(other),
    {
    }
}

/// The registration order: open, close, frame, error.
pub open spec fn next_event(kind: EventKind) -> Option<EventKind> {
    match kind {
        EventKind::Open => Some(EventKind::Close),
        EventKind::Close => Some(EventKind::Frame),
        EventKind::Frame => Some(EventKind::Error),
        EventKind::Error => None,
    }
}

/// The event registered after `kind`, if any.
pub fn following_event(kind: EventKind) -> (r: Option<EventKind>)
    ensures
        r == next_event(kind),
{
    match kind {
        EventKind::Open => Some(EventKind::Close),
        EventKind::Close => Some(EventKind::Frame),
        EventKind::Frame => Some(EventKind::Error),
        EventKind::Error => None,
    }
}

/// Registering the four events in order, each with its own outcome, leaves
/// exactly the successful ones registered, whichever of them failed.
pub proof fn lemma_four_registrations(t: EventTable, o: bool, c: bool, f: bool, e: bool)
    ensures
        ({
            let r = t.after(EventKind::Open, o).after(EventKind::Close, c).after(
                EventKind::Frame,
                f,
            ).after(EventKind::Error, e);
            r.spec_registered(EventKind::Open) == o && r.spec_registered(EventKind::Close) == c
                && r.spec_registered(EventKind::Frame) == f && r.spec_registered(EventKind::Error)
                == e
        }),
{
}

} // verus!
