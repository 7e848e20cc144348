use vstd::prelude::*;
use crate::json::{
    flag_member, int_member_or, int_member_or_else, json_bool_field, json_syntax_check,
    json_syntax_error, member_or, text_member_or,
};
use crate::text::{decimal, decimal_text};

verus! {

/// `true` or `false`.
pub open spec fn flag_text(b: bool) -> Seq<char> {
    if b {
        "true"@
    } else {
        "false"@
    }
}

/// The log line for a window lifecycle report.
pub open spec fn lifecycle_line(p: Seq<char>) -> Seq<char> {
    "Window lifecycle | event="@ + member_or(p, "event"@, "unknown"@) + " window_id="@
        + member_or(p, "window_id"@, "unknown"@) + " title=\""@ + member_or(p, "title"@, "unknown"@)
        + "\" at="@ + member_or(p, "timestamp"@, "unknown"@)
}

/// The log line for a connection state report.
pub open spec fn ws_state_line(p: Seq<char>) -> Seq<char> {
    "WS state | state="@ + member_or(p, "state"@, "unknown"@) + " attempts="@
        + decimal(int_member_or(p, "reconnect_attempts"@, 0) as int) + " port="@
        + decimal(int_member_or(p, "ws_port"@, -1i64) as int) + " source="@
        + member_or(p, "ws_port_source"@, "unknown"@) + " reason=\""@ + member_or(p, "reason"@, ""@)
        + "\" at="@ + member_or(p, "timestamp"@, "unknown"@)
}

/// The log line for a frontend connection error report.
pub open spec fn ws_error_line(p: Seq<char>) -> Seq<char> {
    "WS frontend error | context="@ + member_or(p, "context"@, "unknown"@) + " port="@
        + decimal(int_member_or(p, "ws_port"@, -1i64) as int) + " source="@
        + member_or(p, "ws_port_source"@, "unknown"@) + " message=\""@
        + member_or(p, "message"@, "unknown"@) + "\" at="@ + member_or(p, "timestamp"@, "unknown"@)
}

/// The log line for a heartbeat report.
pub open spec fn ws_heartbeat_line(p: Seq<char>) -> Seq<char> {
    "WS heartbeat | state="@ + member_or(p, "state"@, "unknown"@) + " connected="@
        + flag_text(flag_member(p, "connected"@)) + " queued="@
        + decimal(int_member_or(p, "queued_lifecycle_events"@, 0) as int) + " port="@
        + decimal(int_member_or(p, "ws_port"@, -1i64) as int) + " source="@
        + member_or(p, "ws_port_source"@, "unknown"@) + " at="@ + member_or(p, "timestamp"@, "unknown"@)
}

/// The outcome of reading a report: its log line, or why the payload is
/// not JSON.
pub open spec fn report(p: Seq<char>, line: Seq<char>, r: Result<String, String>) -> bool {
    match json_syntax_error(p) {
        Some(m) => r matches Err(e) && e@ == m,
        None => r matches Ok(t) && t@ == line,
    }
}

/// Reads a window lifecycle report from the frontend.
pub fn window_lifecycle_entry(payload: &str) -> (r: Result<String, String>)
    ensures
        report(payload@, lifecycle_line(payload@), r),
{
    if let Some(m) = json_syntax_check(payload) {
        return Err(m);
    }
    let t = String::from_str("Window lifecycle | event=")
        .concat(text_member_or(payload, "event", "unknown").as_str())
        .concat(" window_id=")
        .concat(text_member_or(payload, "window_id", "unknown").as_str())
        .concat(" title=\"")
        .concat(text_member_or(payload, "title", "unknown").as_str())
        .concat("\" at=")
        .concat(text_member_or(payload, "timestamp", "unknown").as_str());
    assert(t@ =~= lifecycle_line(payload@));
    Ok(t)
}

/// Reads a connection state report from the frontend.
pub fn ws_state_entry(payload: &str) -> (r: Result<String, String>)
    ensures
        report(payload@, ws_state_line(payload@), r),
{
    if let Some(m) = json_syntax_check(payload) {
        return Err(m);
    }
    let t = String::from_str("WS state | state=")
        .concat(text_member_or(payload, "state", "unknown").as_str())
        .concat(" attempts=")
        .concat(decimal_text(int_member_or_else(payload, "reconnect_attempts", 0)).as_str())
        .concat(" port=")
        .concat(decimal_text(int_member_or_else(payload, "ws_port", -1)).as_str())
        .concat(" source=")
        .concat(text_member_or(payload, "ws_port_source", "unknown").as_str())
        .concat(" reason=\"")
        .concat(text_member_or(payload, "reason", "").as_str())
        .concat("\" at=")
        .concat(text_member_or(payload, "timestamp", "unknown").as_str());
    assert(t@ =~= ws_state_line(payload@));
    Ok(t)
}

/// Reads a connection error report from the frontend.
pub fn ws_error_entry(payload: &str) -> (r: Result<String, String>)
    ensures
        report(payload@, ws_error_line(payload@), r),
{
    if let Some(m) = json_syntax_check(payload) {
        return Err(m);
    }
    let t = String::from_str("WS frontend error | context=")
        .concat(text_member_or(payload, "context", "unknown").as_str())
        .concat(" port=")
        .concat(decimal_text(int_member_or_else(payload, "ws_port", -1)).as_str())
        .concat(" source=")
        .concat(text_member_or(payload, "ws_port_source", "unknown").as_str())
        .concat(" message=\"")
        .concat(text_member_or(payload, "message", "unknown").as_str())
        .concat("\" at=")
        .concat(text_member_or(payload, "timestamp", "unknown").as_str());
    assert(t@ =~= ws_error_line(payload@));
    Ok(t)
}

/// Reads a heartbeat report from the frontend.
pub fn ws_heartbeat_entry(payload: &str) -> (r: Result<String, String>)
    ensures
        report(payload@, ws_heartbeat_line(payload@), r),
{
    if let Some(m) = json_syntax_check(payload) {
        return Err(m);
    }
    let connected = match json_bool_field(payload, "connected") {
        Some(b) => b,
        None => false,
    };
    let flag = if connected { "true" } else { "false" };
    let t = String::from_str("WS heartbeat | state=")
        .concat(text_member_or(payload, "state", "unknown").as_str())
        .concat(" connected=")
        .concat(flag)
        .concat(" queued=")
        .concat(decimal_text(int_member_or_else(payload, "queued_lifecycle_events", 0)).as_str())
        .concat(" port=")
        .concat(decimal_text(int_member_or_else(payload, "ws_port", -1)).as_str())
        .concat(" source=")
        .concat(text_member_or(payload, "ws_port_source", "unknown").as_str())
        .concat(" at=")
        .concat(text_member_or(payload, "timestamp", "unknown").as_str());
    assert(t@ =~= ws_heartbeat_line(payload@));
    Ok(t)
}

} // verus!
