use app_core::telemetry::{window_lifecycle_entry, ws_error_entry, ws_heartbeat_entry, ws_state_entry};

#[test]
fn lifecycle_report_reads_fields() {
    let line = window_lifecycle_entry(r#"{"event":"focus","window_id":"w1","title":"Main","timestamp":"t0"}"#).unwrap();
    assert_eq!(line, r#"Window lifecycle | event=focus window_id=w1 title="Main" at=t0"#);
}

#[test]
fn lifecycle_report_defaults_to_unknown() {
    let line = window_lifecycle_entry(r#"{"event":3}"#).unwrap();
    assert_eq!(line, r#"Window lifecycle | event=unknown window_id=unknown title="unknown" at=unknown"#);
}

#[test]
fn malformed_report_is_refused() {
    assert!(window_lifecycle_entry("not json").is_err());
    assert!(ws_state_entry("{").is_err());
    assert!(ws_error_entry("").is_err());
    assert!(ws_heartbeat_entry("[1,").is_err());
}

#[test]
fn state_report_line() {
    let line = ws_state_entry(
        r#"{"state":"open","reconnect_attempts":2,"ws_port":4000,"ws_port_source":"env","reason":"ok","timestamp":"t1"}"#,
    )
    .unwrap();
    assert_eq!(line, r#"WS state | state=open attempts=2 port=4000 source=env reason="ok" at=t1"#);
    let line = ws_state_entry("{}").unwrap();
    assert_eq!(line, r#"WS state | state=unknown attempts=0 port=-1 source=unknown reason="" at=unknown"#);
}

#[test]
fn error_report_line() {
    let line = ws_error_entry(r#"{"context":"send","message":"closed","ws_port":81}"#).unwrap();
    assert_eq!(line, r#"WS frontend error | context=send port=81 source=unknown message="closed" at=unknown"#);
}

#[test]
fn heartbeat_report_line() {
    let line = ws_heartbeat_entry(r#"{"state":"open","connected":true,"queued_lifecycle_events":5}"#).unwrap();
    assert_eq!(line, "WS heartbeat | state=open connected=true queued=5 port=-1 source=unknown at=unknown");
    let line = ws_heartbeat_entry(r#"{"connected":"yes"}"#).unwrap();
    assert_eq!(line, "WS heartbeat | state=unknown connected=false queued=0 port=-1 source=unknown at=unknown");
}
