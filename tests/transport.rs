use xrpl::adapter::{filter_step, is_kind, BusEvent, FilterStep};
use xrpl::error::XrplError;
use xrpl::response::{api_error, check_response, XrplResponse};
use xrpl::socket::{
    Completion, Inbound, LinkAction, LinkEvent, Phase, SocketState, REQUEST_TIMEOUT_MS,
};
use xrpl::subscriptions::{AccountTransactionsSubscription, LedgerSubscription, LedgerUnsubscription};

fn request(state: &mut SocketState<&'static str>, label: &'static str) -> (u64, String) {
    state.begin_request(r#"{"command":"ping"}"#, label, false).expect("registered")
}

fn replay_all<H>(state: &mut SocketState<H>) -> Vec<String> {
    let mut frames = Vec::new();
    while let Some(frame) = state.next_replay() {
        frames.push(frame);
    }
    frames
}

fn connect<H>(state: &mut SocketState<H>) -> Vec<String> {
    assert!(state.connect_started(false));
    state.connected();
    replay_all(state)
}

fn json(text: &str) -> serde_json::Value {
    serde_json::from_str(text).unwrap()
}

#[test]
fn unanswered_request_times_out_after_the_deadline() {
    let mut state = SocketState::new();
    for _ in 0..6 {
        request(&mut state, "earlier");
    }
    let (id, text) = request(&mut state, "ping");
    assert_eq!(id, 7);
    assert_eq!(json(&text)["id"], 7);
    assert_eq!(json(&text)["command"], "ping");
    assert_eq!(state.settle(7, Completion::Expired), Err(XrplError::Timeout(30000)));
    assert_eq!(REQUEST_TIMEOUT_MS, 30000);
    assert_eq!(state.outstanding(), 6);
    // A late response is published, never handed to anyone else.
    match state.dispatch(r#"{"id":7,"type":"response"}"#.to_string()) {
        Inbound::Publish(_) => {}
        _ => panic!("late response must not fulfill anything"),
    }
}

#[test]
fn responses_out_of_order_reach_their_own_callers() {
    let mut state = SocketState::new();
    let (first, _) = request(&mut state, "first");
    let (second, _) = request(&mut state, "second");
    assert_eq!((first, second), (1, 2));
    match state.dispatch(r#"{"id":2,"status":"success","result":{}}"#.to_string()) {
        Inbound::Fulfill(h, text) => {
            assert_eq!(h, "second");
            assert_eq!(json(&text)["id"], 2);
        }
        _ => panic!("expected the second request to be fulfilled"),
    }
    match state.dispatch(r#"{"id":1,"status":"success","result":{}}"#.to_string()) {
        Inbound::Fulfill(h, _) => assert_eq!(h, "first"),
        _ => panic!("expected the first request to be fulfilled"),
    }
    assert_eq!(state.outstanding(), 0);
}

#[test]
fn drop_releases_outstanding_requests_as_disconnected() {
    let mut state = SocketState::new();
    assert!(connect(&mut state).is_empty());
    for _ in 0..5 {
        request(&mut state, "r");
    }
    let (released, delay) = state.connection_lost();
    assert_eq!(released.len(), 5);
    assert!(released.contains_key(&5));
    assert_eq!(delay, 1);
    assert_eq!(state.outstanding(), 0);
    assert_eq!(state.phase(), Phase::Disconnected);
    assert_eq!(state.settle(5, Completion::Dropped), Err(XrplError::Disconnected));
}

#[test]
fn backoff_doubles_to_the_ceiling_and_resets() {
    let mut state: SocketState<()> = SocketState::new();
    let delays: Vec<u64> = (0..7).map(|_| state.reconnect_step(false).unwrap()).collect();
    assert_eq!(delays, vec![1, 2, 4, 8, 16, 30, 30]);
    connect(&mut state);
    assert_eq!(state.backoff_secs(), 1);
    assert!(state.is_connected());
}

#[test]
fn subscriptions_are_replayed_after_reconnect() {
    let mut state: SocketState<()> = SocketState::new();
    let ledger = LedgerSubscription.to_value();
    let accounts =
        AccountTransactionsSubscription::new(vec!["rAccount".to_string()]).to_value();
    state.track(ledger.clone());
    state.track(accounts.clone());
    state.track(ledger.clone());
    connect(&mut state);
    state.connection_lost();
    state.reconnect_step(false);
    assert_eq!(connect(&mut state), vec![ledger.clone(), accounts.clone(), ledger.clone()]);
    assert!(state.untrack(&ledger));
    assert_eq!(connect(&mut state), vec![accounts, ledger]);
    assert!(!state.untrack(&"other".to_string()));
}

#[test]
fn send_after_outbound_closure_fails_at_once() {
    let mut state = SocketState::new();
    let r = state.begin_request(r#"{"command":"ping"}"#, "late", true);
    assert_eq!(r, Err(XrplError::Disconnected));
    assert_eq!(state.outstanding(), 0);
}

#[test]
fn payload_that_is_not_an_object_is_refused() {
    let mut state = SocketState::new();
    let r = state.begin_request("[1,2]", "x", false);
    assert!(matches!(r, Err(XrplError::ParseError(_))));
    assert_eq!(state.outstanding(), 0);
}

#[test]
fn inbound_frames_are_routed() {
    let mut state: SocketState<u8> = SocketState::new();
    assert!(matches!(state.dispatch("not json".to_string()), Inbound::Discard));
    match state.dispatch(r#"{"type":"ledgerClosed"}"#.to_string()) {
        Inbound::Publish(t) => assert_eq!(t, r#"{"type":"ledgerClosed"}"#),
        _ => panic!("push message must be published"),
    }
}

#[test]
fn push_reaches_only_the_subscriber_of_its_kind() {
    let push = r#"{"type":"ledgerClosed","ledger_index":5}"#;
    let ledger = filter_step(BusEvent::Message(push.to_string()), LedgerSubscription::message_type());
    let tx = filter_step(BusEvent::Message(push.to_string()), "transaction");
    assert_eq!(ledger, FilterStep::Forward(push.to_string()));
    assert_eq!(tx, FilterStep::Skip);
}

#[test]
fn malformed_or_lagging_input_keeps_the_stream_open() {
    assert_eq!(filter_step(BusEvent::Message("{oops".to_string()), "ledgerClosed"), FilterStep::Skip);
    assert_eq!(filter_step(BusEvent::Message("[]".to_string()), "ledgerClosed"), FilterStep::Skip);
    assert_eq!(filter_step(BusEvent::Lagged(3), "ledgerClosed"), FilterStep::Skip);
    assert_eq!(filter_step(BusEvent::Closed, "ledgerClosed"), FilterStep::Stop);
}

#[test]
fn error_responses_become_api_errors() {
    let text = r#"{"id":3,"status":"error","error":"actNotFound","error_code":19,"error_message":"Account not found."}"#;
    assert_eq!(
        check_response(text.to_string()),
        Err(XrplError::ApiError {
            error: "actNotFound".to_string(),
            error_code: Some(19),
            error_message: Some("Account not found.".to_string()),
        })
    );
    let odd = r#"{"error":5}"#;
    assert_eq!(
        check_response(odd.to_string()),
        Err(XrplError::ApiError { error: "unknown".to_string(), error_code: None, error_message: None })
    );
    let ok = r#"{"id":3,"status":"success","result":{}}"#;
    assert_eq!(check_response(ok.to_string()), Ok(ok.to_string()));
}

#[test]
fn response_union_must_be_branched_on() {
    let good: XrplResponse<u32> = XrplResponse::Success {
        id: None,
        result: 4,
        kind: "response".to_string(),
        status: "success".to_string(),
    };
    assert!(good.is_success());
    assert_eq!(good.result(), Ok(4));
    let bad: XrplResponse<u32> = XrplResponse::Error {
        id: None,
        error: "tooBusy".to_string(),
        error_code: Some(9),
        error_message: None,
        request: None,
        kind: "response".to_string(),
        status: "error".to_string(),
    };
    assert!(!bad.is_success());
    assert_eq!(
        bad.result(),
        Err(XrplError::ApiError { error: "tooBusy".to_string(), error_code: Some(9), error_message: None })
    );
}

#[test]
fn subscription_payloads() {
    let ledger = json(&LedgerSubscription.to_value());
    assert_eq!(ledger["command"], "subscribe");
    assert_eq!(ledger["streams"], serde_json::Value::from(vec!["ledger"]));
    assert_eq!(ledger["api_version"], 2);
    assert_eq!(ledger["id"].as_str().unwrap().len(), 36);
    let off = json(&LedgerUnsubscription.to_value());
    assert_eq!(off["command"], "unsubscribe");
    assert!(off.get("api_version").is_none());
    let accounts = json(
        &AccountTransactionsSubscription::new(vec!["rA".to_string(), "rB".to_string()]).to_value(),
    );
    assert_eq!(accounts["accounts"], serde_json::Value::from(vec!["rA", "rB"]));
    assert_eq!(AccountTransactionsSubscription::message_type(), "transaction");
}

#[test]
fn live_connection_events() {
    let mut state = SocketState::new();
    connect(&mut state);
    assert!(matches!(state.on_link_event(LinkEvent::KeepaliveDue), LinkAction::Probe));
    assert!(matches!(state.on_link_event(LinkEvent::Ping), LinkAction::Answer));
    assert!(matches!(state.on_link_event(LinkEvent::Pong), LinkAction::Nothing));
    match state.on_link_event(LinkEvent::Outbound(Some("frame".to_string()))) {
        LinkAction::Write(t) => assert_eq!(t, "frame"),
        _ => panic!("outbound payload must be written"),
    }
    let (id, _) = request(&mut state, "waiting");
    match state.on_link_event(LinkEvent::Text(format!(r#"{{"id":{id},"result":{{}}}}"#))) {
        LinkAction::Fulfill(h, _) => assert_eq!(h, "waiting"),
        _ => panic!("response must reach its caller"),
    }
    assert!(matches!(state.on_link_event(LinkEvent::Text("<html>".to_string())), LinkAction::Nothing));
    request(&mut state, "a");
    request(&mut state, "b");
    match state.on_link_event(LinkEvent::WriteFailed) {
        LinkAction::Reconnect(released, delay) => {
            assert_eq!(released.len(), 2);
            assert_eq!(delay, 1);
        }
        _ => panic!("a write failure must reconnect"),
    }
    assert_eq!(state.outstanding(), 0);
    assert!(matches!(state.on_link_event(LinkEvent::ReadFailed), LinkAction::Reconnect(_, 2)));
    assert!(matches!(state.on_link_event(LinkEvent::Outbound(None)), LinkAction::Shutdown));
}

#[test]
fn routing_on_what_was_read() {
    let mut state = SocketState::new();
    let (id, _) = request(&mut state, "mine");
    assert!(matches!(state.route("x".to_string(), false, Some(id)), Inbound::Discard));
    assert_eq!(state.outstanding(), 1);
    assert!(matches!(state.route("x".to_string(), true, Some(id + 1)), Inbound::Publish(_)));
    assert!(matches!(state.route("x".to_string(), true, None), Inbound::Publish(_)));
    match state.route("x".to_string(), true, Some(id)) {
        Inbound::Fulfill(h, t) => {
            assert_eq!(h, "mine");
            assert_eq!(t, "x");
        }
        _ => panic!("known id must fulfill"),
    }
    assert!(matches!(state.route("x".to_string(), true, Some(id)), Inbound::Publish(_)));
}

#[test]
fn registering_stamped_payloads() {
    let mut state = SocketState::new();
    assert_eq!(state.register(Some("a".to_string()), 1u8), Ok((1, "a".to_string())));
    assert_eq!(state.register(Some("b".to_string()), 2u8), Ok((2, "b".to_string())));
    assert!(matches!(state.register(None, 3u8), Err(XrplError::ParseError(_))));
    assert_eq!(state.outstanding(), 2);
}

#[test]
fn kinds_compare_exactly() {
    assert!(is_kind(Some("transaction".to_string()), "transaction"));
    assert!(!is_kind(Some("Transaction".to_string()), "transaction"));
    assert!(!is_kind(None, "transaction"));
}

#[test]
fn api_error_fields() {
    assert_eq!(
        api_error(None, Some(4_294_967_297), Some("m".to_string())),
        XrplError::ApiError {
            error: "unknown".to_string(),
            error_code: Some(1),
            error_message: Some("m".to_string()),
        }
    );
}

#[test]
fn closed_outbound_stops_reconnecting() {
    let mut state: SocketState<()> = SocketState::new();
    assert_eq!(state.reconnect_step(true), None);
    assert_eq!(state.backoff_secs(), 1);
    assert!(!state.connect_started(true));
    assert_eq!(state.phase(), Phase::Disconnected);
    assert!(state.connect_started(false));
    assert_eq!(state.phase(), Phase::Connecting);
}

#[test]
fn replay_frames_come_one_by_one_in_order() {
    let mut state: SocketState<()> = SocketState::new();
    state.track("first".to_string());
    state.track("second".to_string());
    assert!(state.connect_started(false));
    state.connected();
    assert_eq!(state.next_replay(), Some("first".to_string()));
    assert_eq!(state.next_replay(), Some("second".to_string()));
    assert_eq!(state.next_replay(), None);
    // A drop in mid-replay leaves nothing due until the next connect.
    state.connected();
    state.next_replay();
    state.connection_lost();
    assert_eq!(state.next_replay(), None);
}

#[test]
fn command_payload_envelope() {
    let text = xrpl::envelope::command_payload(r#"{"account":"rA"}"#, "account_info", 2).unwrap();
    let v = json(&text);
    assert_eq!(v["account"], "rA");
    assert_eq!(v["command"], "account_info");
    assert_eq!(v["api_version"], 2);
    assert_eq!(v["id"].as_str().unwrap().len(), 36);
    assert_eq!(xrpl::envelope::command_payload("[1]", "x", 2), None);
    let bare = json(&xrpl::envelope::envelope("{}", "unsubscribe").unwrap());
    assert_eq!(bare["command"], "unsubscribe");
    assert!(bare.get("api_version").is_none());
}
