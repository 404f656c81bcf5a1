use failover_facade::address_book::addresses_from_table;
use failover_facade::connector::BackendConnector;
use failover_facade::cursor::AddressSet;
use failover_facade::errors::{BackendError, FacadeError};
use failover_facade::handlers::{
    aggregate_response, after_message_fetch, begin_dispatch, compose_view, conclude_retry,
    facade_retry_policy, response_status, validate_ingest,
};
use failover_facade::retry::execute;

fn table(entries: &[(&str, &str)]) -> Option<Vec<(String, String)>> {
    Some(entries.iter().map(|(id, addr)| (id.to_string(), addr.to_string())).collect())
}

#[test]
fn discovery_failure_yields_empty_address_set() {
    let set = addresses_from_table(None);
    assert!(set.is_empty());
}

#[test]
fn discovery_table_maps_to_addresses_in_order() {
    let set = addresses_from_table(table(&[("0", "10.0.0.1:9000"), ("1", "10.0.0.2:9000")]));
    assert_eq!(set.len(), 2);
    let cursor = begin_dispatch(set).unwrap().0;
    assert_eq!(cursor.current().as_str(), "10.0.0.1:9000");
}

#[test]
fn ingest_without_message_is_a_bad_request() {
    // No record is minted and no backend work is prepared.
    let r = validate_ingest(None);
    assert_eq!(r, Err(FacadeError::BadRequest));
}

#[test]
fn ingest_message_gets_a_fresh_36_char_identifier() {
    let first = validate_ingest(Some("hello".to_string())).unwrap();
    let second = validate_ingest(Some("hello".to_string())).unwrap();
    assert_eq!(first.message, "hello");
    assert_eq!(first.uuid.len(), 36);
    assert_eq!(second.uuid.len(), 36);
    assert_ne!(first.uuid, second.uuid, "identifiers must be fresh per record");
}

#[test]
fn empty_address_set_fails_before_any_dispatch() {
    let r = begin_dispatch(AddressSet::empty());
    assert!(matches!(r, Err(FacadeError::DiscoveryFailure)));
}

#[test]
fn failover_scenario_second_candidate_succeeds() {
    // Discovery returns two logging instances; the first attempt is met by
    // an unavailable instance, the cursor rotates, and the second attempt
    // succeeds: overall success with exactly one rotation recorded.
    let set = addresses_from_table(table(&[("0", "10.0.0.1:9000"), ("1", "10.0.0.2:9000")]));
    let (mut cursor, engine) = begin_dispatch(set).unwrap();
    drop(engine);
    assert_eq!(cursor.current().as_str(), "10.0.0.1:9000");
    let outcomes: Vec<Result<(), BackendError>> = vec![
        Err(BackendError::Unavailable("connection refused".to_string())),
        Ok(()),
    ];
    let (result, rotations) = execute(facade_retry_policy(), outcomes, &mut cursor);
    assert_eq!(result, Ok(()));
    assert_eq!(rotations, 1);
    assert_eq!(cursor.current().as_str(), "10.0.0.2:9000");
    let concluded = conclude_retry(result);
    assert_eq!(response_status(&concluded), 200);
}

#[test]
fn exhausted_retries_surface_the_last_error() {
    let outcome: Result<(), BackendError> =
        Err(BackendError::Unavailable("no route".to_string()));
    let concluded = conclude_retry(outcome);
    assert_eq!(concluded, Err(FacadeError::ExhaustedRetries("no route".to_string())));
    assert_eq!(response_status(&concluded), 500);
    assert_eq!(concluded.unwrap_err().text(), "no route");
}

#[test]
fn other_backend_error_is_terminal() {
    let outcome: Result<String, BackendError> =
        Err(BackendError::Other("corrupt entry".to_string()));
    let concluded = conclude_retry(outcome);
    assert_eq!(concluded, Err(FacadeError::OtherBackendError("corrupt entry".to_string())));
}

#[test]
fn error_texts_per_variant() {
    assert_eq!(FacadeError::BadRequest.text(), "missing message parameter");
    assert_eq!(FacadeError::DiscoveryFailure.text(), "no backend instances discovered");
    assert_eq!(FacadeError::Unavailable("down".to_string()).text(), "down");
}

#[test]
fn message_source_failure_short_circuits_the_view() {
    // The message source is consulted before the log store: its failure is
    // the whole response (status 500, body equal to the fetch error text)
    // and the log store is never queried.
    let r = after_message_fetch(Err("message source unreachable".to_string()));
    assert_eq!(r, Err((500, "message source unreachable".to_string())));
}

#[test]
fn message_source_success_hands_the_text_on() {
    let r = after_message_fetch(Ok("breaking news".to_string()));
    assert_eq!(r, Ok("breaking news".to_string()));
}

#[test]
fn view_composes_message_then_logs() {
    let body = compose_view("breaking news".to_string(), "log a\nlog b".to_string());
    assert_eq!(body, "breaking news\nlog a\nlog b");
}

#[test]
fn aggregate_response_on_success_and_failure() {
    let ok = aggregate_response(
        "msg".to_string(),
        Ok("logs".to_string()),
    );
    assert_eq!(ok, (200, "msg\nlogs".to_string()));
    let err = aggregate_response(
        "msg".to_string(),
        Err(FacadeError::ExhaustedRetries("backend gone".to_string())),
    );
    assert_eq!(err, (500, "backend gone".to_string()));
}

#[test]
fn shared_connector_refresh_swaps_only_on_success() {
    let mut connector = BackendConnector::new_shared("10.0.0.1:9000".to_string());
    let set = addresses_from_table(table(&[("0", "10.0.0.1:9000"), ("1", "10.0.0.2:9000")]));
    let cursor = begin_dispatch(set).unwrap().0;
    assert_eq!(connector.attempt_address(&cursor), "10.0.0.1:9000");

    // a failed construction leaves the previous connection untouched
    let failed = connector.apply_refresh("10.0.0.2:9000".to_string(), Err("refused".to_string()));
    assert_eq!(failed, Err("refused".to_string()));
    assert_eq!(connector.attempt_address(&cursor), "10.0.0.1:9000");

    // a successful construction replaces it wholesale
    let swapped = connector.apply_refresh("10.0.0.2:9000".to_string(), Ok(()));
    assert_eq!(swapped, Ok(()));
    assert_eq!(connector.attempt_address(&cursor), "10.0.0.2:9000");
}

#[test]
fn per_attempt_connector_follows_the_cursor() {
    let connector = BackendConnector::new_per_attempt();
    let set = addresses_from_table(table(&[("0", "10.0.0.1:9000"), ("1", "10.0.0.2:9000")]));
    let (mut cursor, _engine) = begin_dispatch(set).unwrap();
    assert_eq!(connector.attempt_address(&cursor), "10.0.0.1:9000");
    cursor.advance();
    assert_eq!(connector.attempt_address(&cursor), "10.0.0.2:9000");
}

#[test]
fn facade_policy_matches_the_configured_constants() {
    let policy = facade_retry_policy();
    assert_eq!(policy.max_attempts, 3);
    assert_eq!(policy.delay_ms, 500);
}
