use sound_daemon::dispatch::Request;
use sound_daemon::json_in::{malformed_request, parse_request};
use sound_daemon::json_out::{encode_request, encode_response};
use sound_daemon::response::Response;

fn plain(status: bool, message: &str) -> Response {
    Response { status, message: message.to_string(), track: None, queue_length: None }
}

#[test]
fn encode_response_without_optional_fields() {
    let out = encode_response(&plain(true, "Paused successfully"));
    assert_eq!(out, "{\"status\":true,\"message\":\"Paused successfully\"}");

    let out = encode_response(&plain(false, "Nothing to skip"));
    assert_eq!(out, "{\"status\":false,\"message\":\"Nothing to skip\"}");
}

#[test]
fn encode_response_with_track_and_queue_length() {
    let r = Response {
        status: true,
        message: "Currently playing a.mp3".to_string(),
        track: Some("a.mp3".to_string()),
        queue_length: Some(12),
    };
    let out = encode_response(&r);
    assert_eq!(
        out,
        "{\"status\":true,\"message\":\"Currently playing a.mp3\",\"track\":\"a.mp3\",\"queue_length\":12}"
    );
}

#[test]
fn encode_response_escapes_the_message() {
    let r = plain(false, "Failed to open file: \"weird\\name\"\n\ttab");
    let out = encode_response(&r);
    assert_eq!(
        out,
        "{\"status\":false,\"message\":\"Failed to open file: \\\"weird\\\\name\\\"\\n\\ttab\"}"
    );

    let r = plain(true, "bell\u{0007}end");
    let out = encode_response(&r);
    assert_eq!(out, "{\"status\":true,\"message\":\"bell\\u0007end\"}");
}

#[test]
fn encoded_responses_are_json_that_serde_accepts() {
    let r = Response {
        status: true,
        message: "quote \" slash \\ newline \n done".to_string(),
        track: Some("träck \u{0001}.mp3".to_string()),
        queue_length: Some(3),
    };
    let out = encode_response(&r);
    let v: serde_json::Value = serde_json::from_str(&out).expect("well-formed JSON");
    assert_eq!(v.get("status").and_then(|x| x.as_bool()), Some(true));
    assert_eq!(
        v.get("message").and_then(|x| x.as_str()),
        Some("quote \" slash \\ newline \n done")
    );
    assert_eq!(v.get("track").and_then(|x| x.as_str()), Some("träck \u{0001}.mp3"));
    assert_eq!(v.get("queue_length").and_then(|x| x.as_u64()), Some(3));
}

#[test]
fn encode_response_renders_decimal_lengths_exactly() {
    let r = Response {
        status: true,
        message: "m".to_string(),
        track: None,
        queue_length: Some(0),
    };
    assert_eq!(encode_response(&r), "{\"status\":true,\"message\":\"m\",\"queue_length\":0}");

    let r = Response {
        status: true,
        message: "m".to_string(),
        track: None,
        queue_length: Some(usize::MAX),
    };
    let expected = format!("{{\"status\":true,\"message\":\"m\",\"queue_length\":{}}}", usize::MAX);
    assert_eq!(encode_response(&r), expected);
}

#[test]
fn encode_request_with_and_without_track() {
    let out = encode_request(&Request { action: "play".to_string(), track: Some("a.mp3".to_string()) });
    assert_eq!(out, "{\"action\":\"play\",\"track\":\"a.mp3\"}");

    let out = encode_request(&Request { action: "skip".to_string(), track: None });
    assert_eq!(out, "{\"action\":\"skip\",\"track\":null}");
}

#[test]
fn parse_request_accepts_the_client_wire_form() {
    let r = parse_request("{\"action\":\"play\",\"track\":\"a.mp3\"}").expect("parses");
    assert_eq!(r.action, "play");
    assert_eq!(r.track.as_deref(), Some("a.mp3"));

    let r = parse_request("{\"action\":\"skip\",\"track\":null}").expect("parses");
    assert_eq!(r.action, "skip");
    assert_eq!(r.track, None);
}

#[test]
fn parse_request_takes_whitespace_order_and_escapes() {
    let r = parse_request("  { \"track\" : \"dir/a b.mp3\" ,\n\t\"action\" : \"queue\" }  ")
        .expect("parses");
    assert_eq!(r.action, "queue");
    assert_eq!(r.track.as_deref(), Some("dir/a b.mp3"));

    let r = parse_request("{\"action\":\"play\",\"track\":\"q\\\"\\\\\\/\\n\\r\\t\\b\\f.mp3\"}")
        .expect("parses");
    assert_eq!(r.track.as_deref(), Some("q\"\\/\n\r\t\u{0008}\u{000c}.mp3"));

    let r = parse_request("{\"action\":\"current\"}").expect("parses");
    assert_eq!(r.action, "current");
    assert_eq!(r.track, None);

    let r = parse_request("{\"action\":\"play\",\"track\":\"музыка 音楽.mp3\"}").expect("parses");
    assert_eq!(r.track.as_deref(), Some("музыка 音楽.mp3"));
}

#[test]
fn parse_request_round_trips_what_the_client_encodes() {
    for (action, track) in [
        ("play", Some("song \"x\" \\ y.mp3")),
        ("queue", Some("b.mp3")),
        ("current", None),
    ] {
        let req = Request {
            action: action.to_string(),
            track: track.map(|t| t.to_string()),
        };
        let parsed = parse_request(&encode_request(&req)).expect("round trip parses");
        assert_eq!(parsed.action, req.action);
        assert_eq!(parsed.track, req.track);
    }
}

#[test]
fn parse_request_rejects_malformed_payloads() {
    for bad in [
        "",
        "   ",
        "play",
        "{",
        "{}",
        "{\"action\":\"play\"",
        "{\"action\":play}",
        "{\"action\":null}",
        "{\"track\":\"a.mp3\"}",
        "{\"action\":\"play\",\"track\":\"a.mp3\"} trailing",
        "{\"action\":\"play\",\"action\":\"skip\"}",
        "{\"action\":\"play\",\"volume\":\"11\"}",
        "{\"action\":\"play\",\"track\":\"a.mp3\",\"extra\":null}",
        "{\"action\":\"play\",\"track\":\"bad \u{0001} control\"}",
        "{\"action\":\"play\",\"track\":\"bad \\u0041 escape\"}",
        "[\"action\",\"play\"]",
    ] {
        assert!(parse_request(bad).is_none(), "should reject: {bad}");
    }
}

#[test]
fn malformed_payloads_get_the_fixed_invalid_json_reply() {
    let r = malformed_request();
    assert_eq!(r.status, false);
    assert_eq!(r.message, "Invalid JSON: malformed request payload");
    let out = encode_response(&r);
    assert_eq!(out, "{\"status\":false,\"message\":\"Invalid JSON: malformed request payload\"}");
}
