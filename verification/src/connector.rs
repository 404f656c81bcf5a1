//! The backend connector's address state.
//!
//! The connector decides which address each attempt against the log store
//! dispatches to, in one of two modes: a single long-lived shared
//! connection that failover refreshes in place, or a fresh connection per
//! attempt at the failover cursor's current candidate. The transport handle
//! itself lives with the caller's environment; this state machine fixes the
//! target of every attempt and the swap-or-keep decision of every refresh.

use crate::cursor::FailoverCursor;
use vstd::prelude::*;

verus! {

/// How the facade manages its connection to the log store.
#[derive(Debug, Clone, Copy, PartialEq, Eq, Structural)]
pub enum ConnectionMode {
    /// One long-lived connection shared by all operations, replaced
    /// wholesale on refresh. Cheap per attempt; needs exclusive access.
    Shared,
    /// A fresh connection per attempt at the cursor's current candidate.
    /// No shared mutable state; preferred under frequent address churn.
    PerAttempt,
}

/// The verified state of the backend connector: its mode and, in shared
/// mode, the address its live connection was built against.
#[derive(Debug, Clone)]
pub struct BackendConnector {
    mode: ConnectionMode,
    current: Option<String>,
}

impl BackendConnector {
    pub closed spec fn mode(&self) -> ConnectionMode {
        self.mode
    }

    /// The address of the live shared connection, if the mode has one.
    pub closed spec fn current_address(&self) -> Option<String> {
        self.current
    }

    /// Shared mode always holds a live connection address; per-attempt mode
    /// never does.
    pub closed spec fn well_formed(&self) -> bool {
        match self.mode {
            ConnectionMode::Shared => self.current is Some,
            ConnectionMode::PerAttempt => self.current is None,
        }
    }

    /// A shared-mode connector whose first connection targets `initial`.
    pub fn new_shared(initial: String) -> (r: BackendConnector)
        ensures
            r.well_formed(),
            r.mode() == ConnectionMode::Shared,
            r.current_address() == Some(initial),
    {
        BackendConnector { mode: ConnectionMode::Shared, current: Some(initial) }
    }

    /// A per-attempt-mode connector; it never owns a live connection.
    pub fn new_per_attempt() -> (r: BackendConnector)
        ensures
            r.well_formed(),
            r.mode() == ConnectionMode::PerAttempt,
    {
        BackendConnector { mode: ConnectionMode::PerAttempt, current: None }
    }

    /// The address the next attempt must dispatch to: the shared
    /// connection's address in shared mode, the cursor's current candidate
    /// in per-attempt mode.
    pub fn attempt_address(&self, cursor: &FailoverCursor) -> (a: String)
        requires
            self.well_formed(),
            cursor.well_formed(),
        ensures
            self.mode() == ConnectionMode::Shared ==> Some(a) == self.current_address(),
            self.mode() == ConnectionMode::PerAttempt ==> a
                == cursor.addresses()[cursor.position()],
    {
        match self.mode {
            ConnectionMode::Shared => match &self.current {
                Some(addr) => addr.clone(),
                None => unreached(),
            },
            ConnectionMode::PerAttempt => cursor.current().clone(),
        }
    }

    /// Applies the outcome of constructing a fresh connection against
    /// `new_address` (the construction itself is the environment's work).
    /// On success the new connection replaces the previous one wholesale;
    /// on failure the previous connection is left untouched and the
    /// construction error is handed back to the caller, never swallowed.
    pub fn apply_refresh(&mut self, new_address: String, construction: Result<(), String>) -> (r:
        Result<(), String>)
        requires
            old(self).well_formed(),
            old(self).mode() == ConnectionMode::Shared,
        ensures
            final(self).well_formed(),
            final(self).mode() == old(self).mode(),
            construction is Ok ==> final(self).current_address() == Some(new_address) && r is Ok,
            construction matches Err(e) ==> final(self).current_address() == old(
                self,
            ).current_address() && r == Err::<(), String>(e),
    {
        match construction {
            Ok(_) => {
                self.current = Some(new_address);
                Ok(())
            },
            Err(e) => Err(e),
        }
    }
}

} // verus!
