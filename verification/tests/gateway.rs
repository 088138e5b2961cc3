use gql_gateway::bridge::{step, BridgeEvent, BridgeState};
use gql_gateway::request::GraphQLRequest;
use gql_gateway::response::{
    graphiql_body, json_escape, raw_error_body, raw_response_body, structured_body, GRAPHIQL_PAGE,
};

fn drive(events: Vec<BridgeEvent>) -> Result<String, String> {
    let mut state = BridgeState::start();
    for event in events {
        state = step(state, event);
    }
    assert!(state.is_done());
    state.into_result().unwrap()
}

#[test]
fn successful_query_returns_payload_verbatim() {
    let payload = "{\"data\":{\"me\":{\"name\":\"A\"}}}";
    let result = drive(vec![
        BridgeEvent::ParseSucceeded,
        BridgeEvent::ListenerLocked,
        BridgeEvent::ListenStarted,
        BridgeEvent::CompletionReceived,
        BridgeEvent::ValueReceived(String::from(payload)),
    ]);
    assert_eq!(result, Ok(String::from(payload)));
}

#[test]
fn parse_failure_is_immediate_error() {
    let mut state = BridgeState::start();
    state = step(
        state,
        BridgeEvent::ParseFailed(String::from("syntax error: unbalanced braces")),
    );
    // The run is already finished: no later state ever asks for a listener.
    assert!(state.is_done());
    assert_eq!(
        state.into_result().unwrap(),
        Err(String::from("syntax error: unbalanced braces"))
    );
}

#[test]
fn run_is_not_done_before_completion() {
    let mut state = BridgeState::start();
    state = step(state, BridgeEvent::ParseSucceeded);
    assert!(!state.is_done());
    assert!(state.into_result().is_none());
}

#[test]
fn lock_failure_is_wrapped_error() {
    let result = drive(vec![
        BridgeEvent::ParseSucceeded,
        BridgeEvent::ListenerLockFailed(String::from("poisoned lock: another task failed inside")),
    ]);
    assert_eq!(
        result,
        Err(String::from("error code: poisoned lock: another task failed inside"))
    );
}

#[test]
fn listen_failure_is_verbatim_error() {
    let result = drive(vec![
        BridgeEvent::ParseSucceeded,
        BridgeEvent::ListenerLocked,
        BridgeEvent::ListenFailed(String::from("subscription rejected")),
    ]);
    assert_eq!(result, Err(String::from("subscription rejected")));
}

#[test]
fn closed_completion_channel_is_wrapped_error() {
    let result = drive(vec![
        BridgeEvent::ParseSucceeded,
        BridgeEvent::ListenerLocked,
        BridgeEvent::ListenStarted,
        BridgeEvent::CompletionChannelClosed(String::from(
            "receiving on an empty and disconnected channel",
        )),
    ]);
    assert_eq!(
        result,
        Err(String::from(
            "Error receiving message: receiving on an empty and disconnected channel"
        ))
    );
}

#[test]
fn closed_value_channel_is_wrapped_error() {
    let result = drive(vec![
        BridgeEvent::ParseSucceeded,
        BridgeEvent::ListenerLocked,
        BridgeEvent::ListenStarted,
        BridgeEvent::CompletionReceived,
        BridgeEvent::ValueChannelClosed(String::from(
            "receiving on an empty and disconnected channel",
        )),
    ]);
    assert_eq!(
        result,
        Err(String::from(
            "Error receiving message: receiving on an empty and disconnected channel"
        ))
    );
}

#[test]
fn interleaved_runs_do_not_cross_deliver() {
    // Two runs advanced turn and turn about, each over its own events: each
    // caller sees exactly the payload its own listener delivered.
    let mut first = BridgeState::start();
    let mut second = BridgeState::start();
    first = step(first, BridgeEvent::ParseSucceeded);
    second = step(second, BridgeEvent::ParseSucceeded);
    first = step(first, BridgeEvent::ListenerLocked);
    second = step(second, BridgeEvent::ListenerLocked);
    first = step(first, BridgeEvent::ListenStarted);
    second = step(second, BridgeEvent::ListenStarted);
    second = step(second, BridgeEvent::CompletionReceived);
    first = step(first, BridgeEvent::CompletionReceived);
    second = step(second, BridgeEvent::ValueReceived(String::from("{\"id\":2}")));
    first = step(first, BridgeEvent::ValueReceived(String::from("{\"id\":1}")));
    assert_eq!(first.into_result().unwrap(), Ok(String::from("{\"id\":1}")));
    assert_eq!(second.into_result().unwrap(), Ok(String::from("{\"id\":2}")));
}

#[test]
fn omitted_fields_default_to_empty_strings() {
    let request = GraphQLRequest::from_parts(String::from("{me{name}}"), None, None);
    assert_eq!(request.query, "{me{name}}");
    assert_eq!(request.variables, "");
    assert_eq!(request.operation_name, "");
}

#[test]
fn provided_fields_are_kept() {
    let request = GraphQLRequest::from_parts(
        String::from("query Q($a:Int){n(a:$a)}"),
        Some(String::from("{\"a\":1}")),
        Some(String::from("Q")),
    );
    assert_eq!(request.query, "query Q($a:Int){n(a:$a)}");
    assert_eq!(request.variables, "{\"a\":1}");
    assert_eq!(request.operation_name, "Q");
}

#[test]
fn get_and_post_decodings_build_identical_requests() {
    // A GET that omits the optional parameters and a POST body that spells
    // them out as empty strings denote the same logical input.
    let from_get = GraphQLRequest::from_parts(String::from("{me{name}}"), None, None);
    let from_post = GraphQLRequest::from_parts(
        String::from("{me{name}}"),
        Some(String::new()),
        Some(String::new()),
    );
    assert_eq!(from_get.query, from_post.query);
    assert_eq!(from_get.variables, from_post.variables);
    assert_eq!(from_get.operation_name, from_post.operation_name);
}

#[test]
fn equal_outcomes_give_byte_identical_bodies() {
    let get_outcome: Result<String, String> = Ok(String::from("{\"data\":{\"n\":1}}"));
    let post_outcome: Result<String, String> = Ok(String::from("{\"data\":{\"n\":1}}"));
    assert_eq!(
        raw_response_body(get_outcome).into_bytes(),
        raw_response_body(post_outcome).into_bytes()
    );
    let get_err: Result<String, String> = Err(String::from("boom"));
    let post_err: Result<String, String> = Err(String::from("boom"));
    assert_eq!(
        raw_response_body(get_err).into_bytes(),
        raw_response_body(post_err).into_bytes()
    );
}

#[test]
fn raw_success_is_payload_verbatim() {
    let body = raw_response_body(Ok(String::from("{\"data\":{\"n\":1}}")));
    assert_eq!(body, "{\"data\":{\"n\":1}}");
}

#[test]
fn raw_error_is_minimal_errors_object() {
    let body = raw_response_body(Err(String::from("engine down")));
    assert_eq!(body, "{\"errors\":[\"engine down\"]}");
}

#[test]
fn raw_error_with_quote_is_substituted_literally() {
    // Regression guard for the documented fragility: an embedded double
    // quote is not escaped, so the wrapper is not valid JSON here.
    let body = raw_error_body("bad \"quote\" inside");
    assert_eq!(body, "{\"errors\":[\"bad \"quote\" inside\"]}");
}

#[test]
fn structured_success_wraps_payload_in_data() {
    let body = structured_body(Ok(String::from("{\"me\":{\"name\":\"A\"}}")));
    assert_eq!(body, "{\"data\":{\"me\":{\"name\":\"A\"}},\"errors\":null}");
}

#[test]
fn structured_failure_wraps_escaped_error() {
    let body = structured_body(Err(String::from("bad \"quote\" inside")));
    assert_eq!(body, "{\"data\":null,\"errors\":[\"bad \\\"quote\\\" inside\"]}");
}

#[test]
fn structured_empty_error_still_has_both_keys() {
    let body = structured_body(Err(String::new()));
    assert_eq!(body, "{\"data\":null,\"errors\":[\"\"]}");
}

#[test]
fn json_escape_leaves_plain_text_alone() {
    assert_eq!(json_escape("plain text 123"), "plain text 123");
    assert_eq!(json_escape(""), "");
}

#[test]
fn json_escape_handles_quotes_and_backslashes() {
    assert_eq!(json_escape("a\"b"), "a\\\"b");
    assert_eq!(json_escape("a\\b"), "a\\\\b");
}

#[test]
fn json_escape_handles_named_controls() {
    assert_eq!(json_escape("a\nb\tc\rd"), "a\\nb\\tc\\rd");
}

#[test]
fn json_escape_handles_other_controls() {
    assert_eq!(json_escape("\u{1}"), "\\u0001");
    assert_eq!(json_escape("x\u{1f}y"), "x\\u001fy");
}

#[test]
fn graphiql_page_ignores_query_parameters() {
    let plain = graphiql_body("");
    let with_params = graphiql_body("query=%7Bme%7D&operationName=Q");
    assert_eq!(plain, with_params);
    assert_eq!(plain, GRAPHIQL_PAGE);
}
