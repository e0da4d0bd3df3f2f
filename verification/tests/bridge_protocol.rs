//! Scenario tests driving the bridge protocol model through whole span
//! lifecycles and checking the exact foreign call sequences.

use pyo3_python_tracing_subscriber::data::EventData;
use pyo3_python_tracing_subscriber::data::FieldValue;
use pyo3_python_tracing_subscriber::data::Level;
use pyo3_python_tracing_subscriber::data::Metadata;
use pyo3_python_tracing_subscriber::data::RecordValues;
use pyo3_python_tracing_subscriber::data::SpanAttributes;
use pyo3_python_tracing_subscriber::protocol::BridgeModel;
use pyo3_python_tracing_subscriber::protocol::Callbacks;
use pyo3_python_tracing_subscriber::protocol::ForeignCall;

fn func_attrs(arg2: &str) -> SpanAttributes {
    SpanAttributes {
        metadata: Metadata {
            level: Level::Info,
            name: "func".to_string(),
            field_names: vec!["arg1".to_string(), "arg2".to_string(), "data".to_string()],
        },
        values: vec![
            ("arg1".to_string(), FieldValue::U64(1337)),
            ("arg2".to_string(), FieldValue::Str(format!("\"{}\"", arg2))),
        ],
    }
}

fn func_event() -> EventData {
    EventData {
        message: "About to record something".to_string(),
        metadata: Metadata {
            level: Level::Info,
            name: "event".to_string(),
            field_names: vec!["message".to_string()],
        },
        values: Vec::new(),
    }
}

fn func_record() -> RecordValues {
    RecordValues { values: vec![("data".to_string(), FieldValue::Str("some data".to_string()))] }
}

const FUNC_ATTRS_FOO: &str = "{\"metadata\":{\"level\":\"INFO\",\"name\":\"func\",\"fields\":[\"arg1\",\"arg2\",\"data\"]},\"arg1\":1337,\"arg2\":\"\\\"foo\\\"\"}";
const FUNC_ATTRS_BAR: &str = "{\"metadata\":{\"level\":\"INFO\",\"name\":\"func\",\"fields\":[\"arg1\",\"arg2\",\"data\"]},\"arg1\":1337,\"arg2\":\"\\\"bar\\\"\"}";
const OUTER_ATTRS: &str = "{\"metadata\":{\"level\":\"WARN\",\"name\":\"outer\",\"fields\":[]}}";
const FUNC_EVENT: &str = "{\"message\":\"About to record something\",\"metadata\":{\"level\":\"INFO\",\"name\":\"event\",\"fields\":[\"message\"]}}";
const FUNC_RECORD: &str = "{\"data\":\"some data\"}";

#[test]
fn test_simple_span() {
    let mut bridge: BridgeModel<u16> = BridgeModel::new(Callbacks::all());

    bridge.on_new_span(&func_attrs("foo"), 1, Some(0));
    bridge.on_event(&func_event(), None, Some(1));
    bridge.on_record(1, &func_record());
    bridge.on_close(1);

    let expected = vec![
        ForeignCall::NewSpan { attrs: FUNC_ATTRS_FOO.to_string(), span_id: "1".to_string() },
        ForeignCall::Event { payload: FUNC_EVENT.to_string(), state: Some(0) },
        ForeignCall::Record {
            span_id: "1".to_string(),
            values: FUNC_RECORD.to_string(),
            state: Some(0),
        },
        ForeignCall::Close { span_id: "1".to_string(), state: Some(0) },
    ];
    assert_eq!(expected, bridge.calls);

    let expected_events = vec![("About to record something".to_owned(), "INFO".to_owned(), 0)];
    let expected_closed_spans = vec![0];
    let mut events: Vec<(String, String, u16)> = Vec::new();
    let mut closed_spans: Vec<u16> = Vec::new();
    for call in &bridge.calls {
        match call {
            ForeignCall::Event { payload, state } => {
                let parsed: serde_json::Value = serde_json::from_str(payload).unwrap();
                events.push((
                    parsed.get("message").unwrap().as_str().unwrap().to_owned(),
                    parsed.get("metadata").unwrap().get("level").unwrap().as_str().unwrap().to_owned(),
                    state.unwrap(),
                ));
            }
            ForeignCall::Close { state, .. } => closed_spans.push(state.unwrap()),
            _ => {}
        }
    }
    assert_eq!(expected_events, events);
    assert_eq!(expected_closed_spans, closed_spans);
    assert!(!bridge.store.is_live(1));
}

#[test]
fn test_nested_span() {
    let mut bridge: BridgeModel<u16> = BridgeModel::new(Callbacks::all());

    let outer = SpanAttributes {
        metadata: Metadata {
            level: Level::Warn,
            name: "outer".to_string(),
            field_names: Vec::new(),
        },
        values: Vec::new(),
    };

    bridge.on_new_span(&outer, 1, Some(0));
    bridge.on_new_span(&func_attrs("bar"), 2, Some(1));
    bridge.on_event(&func_event(), None, Some(2));
    bridge.on_record(2, &func_record());
    bridge.on_close(2);
    bridge.on_close(1);

    let expected = vec![
        ForeignCall::NewSpan { attrs: OUTER_ATTRS.to_string(), span_id: "1".to_string() },
        ForeignCall::NewSpan { attrs: FUNC_ATTRS_BAR.to_string(), span_id: "2".to_string() },
        ForeignCall::Event { payload: FUNC_EVENT.to_string(), state: Some(1) },
        ForeignCall::Record {
            span_id: "2".to_string(),
            values: FUNC_RECORD.to_string(),
            state: Some(1),
        },
        ForeignCall::Close { span_id: "2".to_string(), state: Some(1) },
        ForeignCall::Close { span_id: "1".to_string(), state: Some(0) },
    ];
    assert_eq!(expected, bridge.calls);

    let expected_events = vec![("About to record something".to_owned(), "INFO".to_owned(), 1)];
    let expected_closed_spans = vec![1, 0];
    let mut events: Vec<(String, String, u16)> = Vec::new();
    let mut closed_spans: Vec<u16> = Vec::new();
    for call in &bridge.calls {
        match call {
            ForeignCall::Event { payload, state } => {
                let parsed: serde_json::Value = serde_json::from_str(payload).unwrap();
                events.push((
                    parsed.get("message").unwrap().as_str().unwrap().to_owned(),
                    parsed.get("metadata").unwrap().get("level").unwrap().as_str().unwrap().to_owned(),
                    state.unwrap(),
                ));
            }
            ForeignCall::Close { state, .. } => closed_spans.push(state.unwrap()),
            _ => {}
        }
    }
    assert_eq!(expected_events, events);
    assert_eq!(expected_closed_spans, closed_spans);
    assert!(!bridge.store.is_live(1));
    assert!(!bridge.store.is_live(2));
}

#[test]
fn event_without_span_has_no_state() {
    let mut bridge: BridgeModel<u16> = BridgeModel::new(Callbacks::all());
    bridge.on_event(&func_event(), None, None);
    assert_eq!(
        vec![ForeignCall::Event { payload: FUNC_EVENT.to_string(), state: None }],
        bridge.calls
    );
}

#[test]
fn event_after_close_falls_back_to_no_state() {
    let mut bridge: BridgeModel<u16> = BridgeModel::new(Callbacks::all());
    bridge.on_new_span(&func_attrs("foo"), 7, Some(3));
    bridge.on_close(7);
    // The event still names span 7 as parent, but the span is gone.
    bridge.on_event(&func_event(), Some(7), None);
    match bridge.calls.last().unwrap() {
        ForeignCall::Event { state, .. } => assert_eq!(None, *state),
        _ => panic!("expected an event call"),
    }
}

#[test]
fn close_removes_state_exactly_once() {
    let mut bridge: BridgeModel<u16> = BridgeModel::new(Callbacks::all());
    bridge.on_new_span(&func_attrs("foo"), 5, Some(9));
    assert_eq!(Some(Some(9)), bridge.store.state_of(5));
    bridge.on_close(5);
    assert_eq!(None, bridge.store.state_of(5));
    let before = bridge.calls.len();
    // A second close finds no span and is skipped.
    bridge.on_close(5);
    assert_eq!(before, bridge.calls.len());
}

#[test]
fn record_on_dead_span_is_skipped() {
    let mut bridge: BridgeModel<u16> = BridgeModel::new(Callbacks::all());
    bridge.on_record(42, &func_record());
    assert!(bridge.calls.is_empty());
}

fn run_simple_scenario(callbacks: Callbacks) -> BridgeModel<u16> {
    let mut bridge: BridgeModel<u16> = BridgeModel::new(callbacks);
    bridge.on_new_span(&func_attrs("foo"), 1, Some(0));
    bridge.on_event(&func_event(), None, Some(1));
    bridge.on_record(1, &func_record());
    bridge.on_close(1);
    bridge
}

#[test]
fn disabled_on_event_skips_only_events() {
    let mut callbacks = Callbacks::all();
    callbacks.on_event = false;
    let bridge = run_simple_scenario(callbacks);
    let expected = vec![
        ForeignCall::NewSpan { attrs: FUNC_ATTRS_FOO.to_string(), span_id: "1".to_string() },
        ForeignCall::Record {
            span_id: "1".to_string(),
            values: FUNC_RECORD.to_string(),
            state: Some(0),
        },
        ForeignCall::Close { span_id: "1".to_string(), state: Some(0) },
    ];
    assert_eq!(expected, bridge.calls);
}

#[test]
fn disabled_on_record_skips_only_records() {
    let mut callbacks = Callbacks::all();
    callbacks.on_record = false;
    let bridge = run_simple_scenario(callbacks);
    let expected = vec![
        ForeignCall::NewSpan { attrs: FUNC_ATTRS_FOO.to_string(), span_id: "1".to_string() },
        ForeignCall::Event { payload: FUNC_EVENT.to_string(), state: Some(0) },
        ForeignCall::Close { span_id: "1".to_string(), state: Some(0) },
    ];
    assert_eq!(expected, bridge.calls);
}

#[test]
fn disabled_on_close_skips_only_closes_and_still_clears_state() {
    let mut callbacks = Callbacks::all();
    callbacks.on_close = false;
    let mut bridge = run_simple_scenario(callbacks);
    let expected = vec![
        ForeignCall::NewSpan { attrs: FUNC_ATTRS_FOO.to_string(), span_id: "1".to_string() },
        ForeignCall::Event { payload: FUNC_EVENT.to_string(), state: Some(0) },
        ForeignCall::Record {
            span_id: "1".to_string(),
            values: FUNC_RECORD.to_string(),
            state: Some(0),
        },
    ];
    assert_eq!(expected, bridge.calls);
    assert_eq!(None, bridge.store.state_of(1));
}

#[test]
fn disabled_on_new_span_threads_no_state_to_other_hooks() {
    let mut callbacks = Callbacks::all();
    callbacks.on_new_span = false;
    let bridge = run_simple_scenario(callbacks);
    let expected = vec![
        ForeignCall::Event { payload: FUNC_EVENT.to_string(), state: None },
        ForeignCall::Record {
            span_id: "1".to_string(),
            values: FUNC_RECORD.to_string(),
            state: None,
        },
        ForeignCall::Close { span_id: "1".to_string(), state: None },
    ];
    assert_eq!(expected, bridge.calls);
}

#[test]
fn new_span_handler_declining_state_threads_none() {
    let mut bridge: BridgeModel<u16> = BridgeModel::new(Callbacks::all());
    bridge.on_new_span(&func_attrs("foo"), 1, None);
    bridge.on_record(1, &func_record());
    bridge.on_close(1);
    let expected = vec![
        ForeignCall::NewSpan { attrs: FUNC_ATTRS_FOO.to_string(), span_id: "1".to_string() },
        ForeignCall::Record {
            span_id: "1".to_string(),
            values: FUNC_RECORD.to_string(),
            state: None,
        },
        ForeignCall::Close { span_id: "1".to_string(), state: None },
    ];
    assert_eq!(expected, bridge.calls);
}

#[test]
fn interleaved_spans_thread_their_own_state() {
    let mut bridge: BridgeModel<u16> = BridgeModel::new(Callbacks::all());
    bridge.on_new_span(&func_attrs("foo"), 1, Some(10));
    bridge.on_new_span(&func_attrs("bar"), 2, Some(20));
    bridge.on_record(1, &func_record());
    bridge.on_record(2, &func_record());
    bridge.on_close(1);
    bridge.on_record(2, &func_record());
    bridge.on_close(2);
    let states: Vec<Option<u16>> = bridge
        .calls
        .iter()
        .filter_map(|c| match c {
            ForeignCall::Record { state, .. } => Some(*state),
            _ => None,
        })
        .collect();
    assert_eq!(vec![Some(10), Some(20), Some(20)], states);
}
