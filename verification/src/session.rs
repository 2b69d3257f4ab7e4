use vstd::prelude::*;

verus! {

/// The lifecycle of a session's one interception context.
#[derive(Clone, Copy, Debug, PartialEq, Eq, Structural)]
pub enum ContextState {
    /// No context exists; one may be created.
    Absent,
    /// Created but not yet streaming.
    Created,
    /// Streaming intercepted records to the registered callback.
    Enabled,
    /// Disabled again; still to be freed, exactly once.
    Disabled,
}

/// The lifecycle model of one display connection.  The caller keeps it
/// beside the live connection handle and steps it with every lifecycle
/// call, so the session rules — at most one interception context alive, a
/// context enabled only once created, teardown as disable then free and
/// exactly once each, the connection closed only with no context left —
/// are checked at every call instead of remembered.
pub struct SessionModel {
    pub connected: bool,
    pub ctx: ContextState,
}

impl SessionModel {
    /// Only a live connection can hold a context.
    pub open spec fn inv(self) -> bool {
        !self.connected ==> self.ctx == ContextState::Absent
    }

    /// A connection was just opened: no context yet.
    pub fn open() -> (r: SessionModel)
        ensures
            r.connected,
            r.ctx == ContextState::Absent,
            r.inv(),
    {
        SessionModel { connected: true, ctx: ContextState::Absent }
    }

    /// Allocate the one interception context.  Creating a second while one
    /// is live is the error the model exists to rule out, so creation
    /// demands that none exists.
    pub fn create_context(&mut self)
        requires
            old(self).connected,
            old(self).ctx == ContextState::Absent,
        ensures
            *final(self) == (SessionModel { ctx: ContextState::Created, ..*old(self) }),
            final(self).inv(),
    {
        self.ctx = ContextState::Created;
    }

    /// Register the asynchronous callback and start the stream.
    pub fn enable_context(&mut self)
        requires
            old(self).connected,
            old(self).ctx == ContextState::Created,
        ensures
            *final(self) == (SessionModel { ctx: ContextState::Enabled, ..*old(self) }),
            final(self).inv(),
    {
        self.ctx = ContextState::Enabled;
    }

    /// First half of teardown; must come before the free, and only once.
    pub fn disable_context(&mut self)
        requires
            old(self).connected,
            old(self).ctx == ContextState::Enabled,
        ensures
            *final(self) == (SessionModel { ctx: ContextState::Disabled, ..*old(self) }),
            final(self).inv(),
    {
        self.ctx = ContextState::Disabled;
    }

    /// Second half of teardown: the context is gone and a new one may be
    /// created.
    pub fn free_context(&mut self)
        requires
            old(self).connected,
            old(self).ctx == ContextState::Disabled,
        ensures
            *final(self) == (SessionModel { ctx: ContextState::Absent, ..*old(self) }),
            final(self).inv(),
    {
        self.ctx = ContextState::Absent;
    }

    /// Release the connection.  The model is consumed: no call can follow,
    /// and a live context would be leaked, so none may be left.
    pub fn close(self)
        requires
            self.connected,
            self.ctx == ContextState::Absent,
    {
    }
}

} // verus!
