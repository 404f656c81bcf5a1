//! Error taxonomy of the facade.
//!
//! Backend attempts fail with a [`BackendError`]; only the `Unavailable`
//! class is recoverable (it triggers failover rotation and a retry). All
//! client-facing outcomes are expressed in the [`FacadeError`] taxonomy.

use vstd::prelude::*;

verus! {

/// An error reported by one attempt against a backend instance.
#[derive(Debug, Clone, PartialEq, Eq)]
pub enum BackendError {
    /// The target instance was unreachable or refused the connection.
    /// Recoverable: warrants rotation to another candidate and a retry.
    Unavailable(String),
    /// Any other backend-reported failure. Terminal: never retried.
    Other(String),
}

/// A terminal, client-facing failure of a whole logical operation.
#[derive(Debug, Clone, PartialEq, Eq)]
pub enum FacadeError {
    /// Malformed client input; never retried.
    BadRequest,
    /// A target instance was unreachable (surfaced before any retry ran).
    Unavailable(String),
    /// A backend reported a non-recoverable failure.
    OtherBackendError(String),
    /// Discovery produced no candidate addresses.
    DiscoveryFailure,
    /// Every retry attempt against every rotation failed.
    ExhaustedRetries(String),
}

/// The best-effort message a terminal failure surfaces to the client: the
/// backend's own text where one was carried, a fixed description otherwise.
pub open spec fn error_text_spec(e: FacadeError) -> Seq<char> {
    match e {
        FacadeError::BadRequest => "missing message parameter"@,
        FacadeError::Unavailable(m) => m@,
        FacadeError::OtherBackendError(m) => m@,
        FacadeError::DiscoveryFailure => "no backend instances discovered"@,
        FacadeError::ExhaustedRetries(m) => m@,
    }
}

impl FacadeError {
    /// Renders the failure for the client's response body. No backend stack
    /// detail beyond the error's textual message is exposed.
    pub fn text(&self) -> (t: String)
        ensures
            t@ == error_text_spec(*self),
    {
        match self {
            FacadeError::BadRequest => "missing message parameter".to_owned(),
            FacadeError::Unavailable(m) => m.clone(),
            FacadeError::OtherBackendError(m) => m.clone(),
            FacadeError::DiscoveryFailure => "no backend instances discovered".to_owned(),
            FacadeError::ExhaustedRetries(m) => m.clone(),
        }
    }
}

/// Whether `e` is recoverable: exactly the `Unavailable` class.
pub open spec fn is_recoverable_spec(e: BackendError) -> bool {
    e is Unavailable
}

/// Classifies a backend error: only `Unavailable` warrants retry/rotation.
pub fn is_recoverable(e: &BackendError) -> (r: bool)
    ensures
        r == is_recoverable_spec(*e),
{
    match e {
        BackendError::Unavailable(_) => true,
        BackendError::Other(_) => false,
    }
}

} // verus!
