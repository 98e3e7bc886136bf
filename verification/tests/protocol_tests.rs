use khaos_web_ui::client::build_request;
use khaos_web_ui::client::consume_response;
use khaos_web_ui::client::daemon_address;
use khaos_web_ui::client::ping_outcome;
use khaos_web_ui::client::TransportKind;
use khaos_web_ui::json::parse_json;
use khaos_web_ui::json::render_json;
use khaos_web_ui::json::Json;
use khaos_web_ui::protocol::decode_event;
use khaos_web_ui::protocol::decode_response;
use khaos_web_ui::protocol::encode_request_line;
use khaos_web_ui::protocol::DaemonError;
use khaos_web_ui::protocol::Request;

fn obj(fields: Vec<(&str, Json)>) -> Json {
    Json::Obj(
        fields
            .into_iter()
            .map(|(k, v)| (k.to_string(), v))
            .collect(),
    )
}

#[test]
fn test_encode_request_is_one_line_of_json() {
    let req = Request {
        id: "abc-123".to_string(),
        method: "wfl.getStatus".to_string(),
        params: obj(vec![("projectPath", Json::Str("/tmp/p.kspd".to_string()))]),
    };
    let line = encode_request_line(req);
    assert_eq!(
        line,
        "{\"id\":\"abc-123\",\"method\":\"wfl.getStatus\",\"params\":{\"projectPath\":\"/tmp/p.kspd\"}}\n"
    );
    assert_eq!(line.matches('\n').count(), 1);
    assert!(line.ends_with('\n'));
}

#[test]
fn test_encode_request_escapes_strings() {
    let req = Request {
        id: "x".to_string(),
        method: "m".to_string(),
        params: obj(vec![("note", Json::Str("a\"b\\c\nd".to_string()))]),
    };
    let line = encode_request_line(req);
    assert_eq!(
        line,
        "{\"id\":\"x\",\"method\":\"m\",\"params\":{\"note\":\"a\\\"b\\\\c\\nd\"}}\n"
    );
}

#[test]
fn test_render_then_parse_round_trip() {
    // Decoding returns object fields in key order, so the value is written
    // with sorted keys to compare the round trip for equality.
    let v = obj(vec![
        ("a", Json::Arr(vec![Json::Int(1), Json::Str("x".to_string())])),
        ("b", Json::Bool(true)),
        ("n", Json::Int(-42)),
        ("s", Json::Str("héllo\tworld".to_string())),
        ("z", Json::Null),
    ]);
    let text = render_json(&v);
    let back = parse_json(&text).unwrap();
    assert_eq!(back, v);
}

#[test]
fn test_parse_json_rejects_malformed_text() {
    assert!(parse_json("{not json").is_none());
    assert!(parse_json("").is_none());
    assert_eq!(parse_json("17"), Some(Json::Int(17)));
    assert_eq!(parse_json("0.5"), Some(Json::NumText("0.5".to_string())));
}

#[test]
fn test_decode_response_result() {
    let resp = decode_response("{\"id\":\"r1\",\"result\":{\"queued\":true}}").unwrap();
    assert_eq!(resp.id.as_deref(), Some("r1"));
    assert!(resp.error.is_none());
    let result = resp.result.unwrap();
    assert_eq!(result.get_bool("queued"), Some(true));
}

#[test]
fn test_decode_response_error_field() {
    let resp = decode_response("{\"id\":\"r1\",\"error\":\"boom\"}").unwrap();
    assert_eq!(resp.error.as_deref(), Some("boom"));
    assert!(resp.result.is_none());
}

#[test]
fn test_decode_response_absent_id_is_legal() {
    let resp = decode_response("{\"result\":{}}").unwrap();
    assert!(resp.id.is_none());
}

#[test]
fn test_decode_response_malformed_is_transport_error() {
    assert!(matches!(
        decode_response("not json"),
        Err(DaemonError::Transport(_))
    ));
    assert!(matches!(
        decode_response("[1,2]"),
        Err(DaemonError::Transport(_))
    ));
    assert!(matches!(
        decode_response("{\"id\":7}"),
        Err(DaemonError::Transport(_))
    ));
}

#[test]
fn test_decode_event_envelope() {
    let ev = decode_event("{\"type\":\"evt\",\"topic\":\"wfl.analysis.progress\",\"data\":{\"runId\":\"r\"}}")
        .unwrap();
    assert_eq!(ev.topic, "wfl.analysis.progress");
    assert_eq!(
        ev.data.get_str("runId").as_deref(),
        Some("r")
    );
}

#[test]
fn test_decode_event_drops_non_events() {
    assert!(decode_event("{\"id\":\"r1\",\"result\":{}}").is_none());
    assert!(decode_event("{\"type\":\"req\"}").is_none());
    assert!(decode_event("garbage line").is_none());
}

#[test]
fn test_decode_event_defaults_payload_to_empty_object() {
    let ev = decode_event("{\"type\":\"evt\",\"topic\":\"t\"}").unwrap();
    assert_eq!(ev.data, Json::Obj(vec![]));
    let ev2 = decode_event("{\"type\":\"evt\",\"topic\":\"t\",\"data\":3}").unwrap();
    assert_eq!(ev2.data, Json::Obj(vec![]));
}

#[test]
fn test_consume_response_returns_result_value() {
    let resp = decode_response("{\"id\":\"req-9\",\"result\":{\"ok\":true}}").unwrap();
    let v = consume_response("req-9", resp).unwrap();
    assert_eq!(v.get_bool("ok"), Some(true));
}

#[test]
fn test_consume_response_rejects_foreign_id() {
    let resp = decode_response("{\"id\":\"other\",\"result\":{}}").unwrap();
    let r = consume_response("req-9", resp);
    assert!(matches!(r, Err(DaemonError::Transport(_))));
}

#[test]
fn test_consume_response_accepts_absent_id() {
    let resp = decode_response("{\"result\":{}}").unwrap();
    assert!(consume_response("req-9", resp).is_ok());
}

#[test]
fn test_consume_response_surfaces_remote_error() {
    let resp = decode_response("{\"id\":\"req-9\",\"error\":\"nope\"}").unwrap();
    match consume_response("req-9", resp) {
        Err(DaemonError::Internal(msg)) => assert_eq!(msg, "nope"),
        other => panic!("expected an internal error, got {:?}", other.is_ok()),
    }
}

#[test]
fn test_consume_response_defaults_missing_result_to_empty_object() {
    let resp = decode_response("{\"id\":\"req-9\"}").unwrap();
    let v = consume_response("req-9", resp).unwrap();
    assert_eq!(v, Json::Obj(vec![]));
}

#[test]
fn test_build_request_draws_fresh_ids() {
    let a = build_request("wfl.ping", Json::Obj(vec![]));
    let b = build_request("wfl.ping", Json::Obj(vec![]));
    assert_eq!(a.method, "wfl.ping");
    assert_eq!(a.id.len(), 36);
    assert_eq!(b.id.len(), 36);
    assert_ne!(a.id, b.id);
}

#[test]
fn test_ping_outcome_swallows_errors() {
    assert!(ping_outcome(&Ok(Json::Null)));
    assert!(!ping_outcome(&Err(DaemonError::Unreachable)));
}

#[test]
fn test_daemon_error_messages() {
    assert_eq!(DaemonError::Unreachable.message(), "Daemon unreachable");
    assert_eq!(
        DaemonError::Internal("x".to_string()).message(),
        "Daemon error: x"
    );
    assert_eq!(
        DaemonError::Transport("t".to_string()).message(),
        "Transport error: t"
    );
    assert_eq!(DaemonError::Timeout.message(), "Request timeout");
    assert_eq!(DaemonError::InvalidParams.message(), "Invalid parameters");
    assert_eq!(
        DaemonError::InvalidMethod("m".to_string()).message(),
        "Unknown method: m"
    );
}

#[test]
fn test_canonical_method_names() {
    assert_eq!(khaos_web_ui::protocol::method_ping(), "wfl.ping");
    assert_eq!(khaos_web_ui::protocol::method_get_status(), "wfl.getStatus");
    assert_eq!(
        khaos_web_ui::protocol::method_get_capabilities(),
        "wfl.getCapabilities"
    );
    assert_eq!(khaos_web_ui::protocol::method_analyze(), "wfl.analyze");
    assert_eq!(
        khaos_web_ui::protocol::method_parser_parse(),
        "wfl.parser.parse"
    );
    assert_eq!(
        khaos_web_ui::protocol::method_parser_query(),
        "wfl.parser.query"
    );
    assert_eq!(khaos_web_ui::protocol::method_get_signals(), "wfl.getSignals");
}

#[test]
fn test_bus_topic_names() {
    assert_eq!(
        khaos_web_ui::events::topic_analysis_started(),
        "daemon:analysis-started"
    );
    assert_eq!(
        khaos_web_ui::events::topic_analysis_progress(),
        "daemon:analysis-progress"
    );
    assert_eq!(
        khaos_web_ui::events::topic_analysis_completed(),
        "daemon:analysis-completed"
    );
    assert_eq!(
        khaos_web_ui::events::topic_parser_progress(),
        "daemon:parser-progress"
    );
    assert_eq!(
        khaos_web_ui::events::topic_parser_completed(),
        "daemon:parser-completed"
    );
    assert_eq!(
        khaos_web_ui::events::topic_settings_changed(),
        "app:settings-changed"
    );
    assert_eq!(
        khaos_web_ui::events::topic_project_selected(),
        "app:project-selected"
    );
}

#[test]
fn test_daemon_address_defaults() {
    assert_eq!(
        daemon_address(&TransportKind::Unix, None),
        "/tmp/khaos-wfl.sock"
    );
    assert_eq!(
        daemon_address(&TransportKind::Windows, None),
        "\\\\.\\pipe\\khaos-wfl"
    );
    assert_eq!(
        daemon_address(&TransportKind::Unix, Some("/run/custom.sock".to_string())),
        "/run/custom.sock"
    );
}
