//! The facade's two client-facing operations, as verified decision steps.
//!
//! The ingest operation validates the client's `message` parameter, mints a
//! record under a fresh identifier, and prepares the failover state for the
//! log-store append. The aggregate-view operation consults the message
//! source once (no retry — its failure is surfaced directly) and, only if
//! that succeeded, retries the log-store read with the same failover policy
//! as ingest, composing message text and log text into one body. The
//! network attempts themselves live with the caller's environment; every
//! decision between them is here, with a contract.

use crate::cursor::{AddressSet, FailoverCursor};
use crate::errors::{error_text_spec, BackendError, FacadeError};
use crate::retry::{RetryExecutor, RetryPolicy};
use vstd::prelude::*;
use vstd::string::StringExecFns;

verus! {

/// The retry policy both operations use against the log store: after a
/// failed attempt, up to 3 retries, half a second apart.
pub open spec fn facade_policy_spec() -> RetryPolicy {
    RetryPolicy { max_attempts: 3, delay_ms: 500 }
}

/// Builds the policy of [`facade_policy_spec`].
pub fn facade_retry_policy() -> (p: RetryPolicy)
    ensures
        p == facade_policy_spec(),
{
    RetryPolicy { max_attempts: 3, delay_ms: 500 }
}

/// One log entry ready for ingest: the client's message under a fresh
/// 36-character identifier.
#[derive(Debug, Clone, PartialEq, Eq)]
pub struct LogRecord {
    pub uuid: String,
    pub message: String,
}

/// Relies on uuid::Uuid::new_v4 rendered through its Display form: a fresh
/// random identifier as 36 hyphenated lower-case hexadecimal characters.
/// The value depends on fresh randomness, so only its length is promised.
#[verifier::external_body]
fn fresh_uuid() -> (r: String)
    ensures
        r@.len() == 36,
{
    uuid::Uuid::new_v4().to_string()
}

/// Validates the ingest request: a missing `message` parameter is rejected
/// at once as a bad request — before any identifier is minted and before
/// any backend (discovery included) is contacted. A present message is
/// wrapped into a record under a fresh identifier.
pub fn validate_ingest(message: Option<String>) -> (r: Result<LogRecord, FacadeError>)
    ensures
        message is None ==> r == Err::<LogRecord, FacadeError>(FacadeError::BadRequest),
        message matches Some(m) ==> (r matches Ok(rec) && rec.message == m && rec.uuid@.len()
            == 36),
{
    match message {
        None => Err(FacadeError::BadRequest),
        Some(m) => Ok(LogRecord { uuid: fresh_uuid(), message: m }),
    }
}

/// Prepares the failover state for one logical operation against the log
/// store: a cursor at the first resolved candidate and a fresh retry engine
/// under the facade policy. An empty candidate set fails at once — the
/// operation treats it as "service unavailable" and never indexes it.
pub fn begin_dispatch(addrs: AddressSet) -> (r: Result<
    (FailoverCursor, RetryExecutor),
    FacadeError,
>)
    ensures
        addrs@.len() == 0 ==> r == Err::<(FailoverCursor, RetryExecutor), FacadeError>(
            FacadeError::DiscoveryFailure,
        ),
        addrs@.len() > 0 ==> (r matches Ok(p) && p.0.well_formed() && p.0.addresses() == addrs@
            && p.0.position() == 0 && p.1.policy() == facade_policy_spec() && p.1.failures() == 0),
{
    match FailoverCursor::new(addrs) {
        Err(_) => Err(FacadeError::DiscoveryFailure),
        Ok(cursor) => Ok((cursor, RetryExecutor::new(facade_retry_policy()))),
    }
}

/// Maps a terminal retry outcome into the client-facing taxonomy: a
/// backend still unavailable at the end means every rotation was exhausted;
/// any other backend failure was terminal in itself.
pub fn conclude_retry<T>(outcome: Result<T, BackendError>) -> (r: Result<T, FacadeError>)
    ensures
        outcome matches Ok(v) ==> (r matches Ok(x) && x == v),
        outcome matches Err(BackendError::Unavailable(m)) ==> r == Err::<T, FacadeError>(
            FacadeError::ExhaustedRetries(m),
        ),
        outcome matches Err(BackendError::Other(m)) ==> r == Err::<T, FacadeError>(
            FacadeError::OtherBackendError(m),
        ),
{
    match outcome {
        Ok(v) => Ok(v),
        Err(BackendError::Unavailable(m)) => Err(FacadeError::ExhaustedRetries(m)),
        Err(BackendError::Other(m)) => Err(FacadeError::OtherBackendError(m)),
    }
}

/// The HTTP status an operation outcome maps to: 200 on success, 500 on
/// any terminal failure (a bad request included: the facade's external
/// contract keeps a missing parameter at 500).
pub fn response_status<T>(r: &Result<T, FacadeError>) -> (s: u16)
    ensures
        *r is Ok <==> s == 200,
        *r is Err <==> s == 500,
{
    match r {
        Ok(_) => 200,
        Err(_) => 500,
    }
}

/// The aggregate view's first step: the message source was consulted once,
/// with no retry. Its failure is terminal — the response is status 500
/// with the fetch error's text as the body, and the log store is then
/// never queried. Its success hands the message text on to the log fetch.
pub fn after_message_fetch(message: Result<String, String>) -> (r: Result<String, (u16, String)>)
    ensures
        message matches Ok(m) ==> r == Ok::<String, (u16, String)>(m),
        message matches Err(e) ==> r == Err::<String, (u16, String)>((500u16, e)),
{
    match message {
        Ok(m) => Ok(m),
        Err(e) => Err((500, e)),
    }
}

/// Composes the aggregate view's body: the message text, a line break, the
/// log text — message before logs.
pub fn compose_view(message: String, logs: String) -> (r: String)
    ensures
        r@ == message@ + "\n"@ + logs@,
{
    message.concat("\n").concat(logs.as_str())
}

/// The aggregate view's final step, once the message text is in hand: on
/// log-store success, status 200 with the composed body; on log-store
/// failure, status 500 with that failure's text as the body.
pub fn aggregate_response(message: String, logs: Result<String, FacadeError>) -> (r: (
    u16,
    String,
))
    ensures
        logs matches Ok(l) ==> r.0 == 200 && r.1@ == message@ + "\n"@ + l@,
        logs matches Err(e) ==> r.0 == 500 && r.1@ == error_text_spec(e),
{
    match logs {
        Ok(l) => (200, compose_view(message, l)),
        Err(e) => (500, e.text()),
    }
}

} // verus!
