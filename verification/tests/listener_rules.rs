//! What the hook listener accepts, how big a body may be, and which port it
//! asks for.

use clawd_core::hook::{translate, Field, HookError};
use clawd_core::listener::{
    candidate_ports, declared_too_large, is_hook_post, read_reached_cap, requested_port,
    parse_port, DEFAULT_PORT, MAX_BODY,
};

fn headers(pairs: &[(&str, &str)]) -> Vec<(String, String)> {
    pairs.iter().map(|(k, v)| (k.to_string(), v.to_string())).collect()
}

#[test]
fn only_a_json_post_to_the_hook_path_is_a_hook() {
    let json = headers(&[("Content-Type", "application/json")]);
    assert!(is_hook_post("POST", "/hook", &json));
    assert!(is_hook_post("POST", "/hook?x=1", &json));
    assert!(is_hook_post(
        "POST",
        "/hook",
        &headers(&[("Host", "h"), ("content-type", "  Application/JSON; charset=utf-8")])
    ));

    assert!(!is_hook_post("GET", "/hook", &json));
    assert!(!is_hook_post("POST", "/", &json));
    assert!(!is_hook_post("POST", "/hooks", &json));
    assert!(!is_hook_post("POST", "/hook", &headers(&[("Content-Type", "text/plain")])));
    assert!(!is_hook_post("POST", "/hook", &headers(&[])));
}

#[test]
fn the_body_cap_is_sixteen_mebibytes() {
    assert_eq!(MAX_BODY, 16 * 1024 * 1024);
    assert!(!declared_too_large(None));
    assert!(!declared_too_large(Some(MAX_BODY)));
    assert!(declared_too_large(Some(MAX_BODY + 1)));
    assert!(!read_reached_cap(MAX_BODY - 1));
    assert!(read_reached_cap(MAX_BODY));
}

#[test]
fn a_port_reads_as_a_u16_does() {
    assert_eq!(parse_port("8787"), Some(8787));
    assert_eq!(parse_port("+80"), Some(80));
    assert_eq!(parse_port("0"), Some(0));
    assert_eq!(parse_port("65535"), Some(65535));
    assert_eq!(parse_port("65536"), None);
    assert_eq!(parse_port(""), None);
    assert_eq!(parse_port("+"), None);
    assert_eq!(parse_port("-1"), None);
    assert_eq!(parse_port("80a"), None);
    assert_eq!(parse_port(" 80"), None);
}

#[test]
fn the_requested_port_falls_back_to_the_default() {
    assert_eq!(DEFAULT_PORT, 8787);
    assert_eq!(requested_port(None), DEFAULT_PORT);
    assert_eq!(requested_port(Some(" 9000 ")), 9000);
    assert_eq!(requested_port(Some("nine thousand")), DEFAULT_PORT);
    assert_eq!(requested_port(Some("70000")), DEFAULT_PORT);
}

#[test]
fn the_port_scan_stops_at_the_top_of_the_range() {
    assert_eq!(candidate_ports(8787), vec![8787, 8788, 8789, 8790, 8791]);
    assert_eq!(candidate_ports(65534), vec![65534, 65535]);
    assert_eq!(candidate_ports(65535), vec![65535]);
}

#[test]
fn a_refused_body_says_why() {
    assert_eq!(translate(b"not json"), Err(HookError::NotJson));
    assert_eq!(translate(b"[1,2]"), Err(HookError::WrongType(Field::HookEventName)));
    assert_eq!(translate(b"true"), Err(HookError::NotAnObject));
    assert_eq!(
        translate(br#"{"hello":"world"}"#),
        Err(HookError::MissingField(Field::HookEventName))
    );
    assert_eq!(
        translate(br#"{"hook_event_name":"Stop"}"#),
        Err(HookError::MissingField(Field::SessionId))
    );
    assert_eq!(
        translate(br#"{"hook_event_name":7,"session_id":"s"}"#),
        Err(HookError::WrongType(Field::HookEventName))
    );
    assert_eq!(
        HookError::MissingField(Field::SessionId).message(),
        "not a hook payload: missing field `session_id`"
    );
    assert_eq!(HookError::NotJson.message(), "not a hook payload: not JSON");
}
