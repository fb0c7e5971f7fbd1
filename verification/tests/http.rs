//! Requests, routes and responses of the browser bridge.
use givenergy_sim::http::{
    answer_status, attachment_head, bad_argument, body_text, dispatch, error_payload,
    export_extension, export_filename, find_subsequence, header_value, parse_head, percent_decode,
    query_param, response_head, route, status_reason, stream_head, stream_step, temp_name,
    web_port, ApiCommand, Argument, ReadError, ReadStep, RequestReader, Route, StreamAction,
    StreamEvent, DEFAULT_WEB_PORT,
};

#[test]
fn finds_header_terminator() {
    assert_eq!(
        find_subsequence(b"GET / HTTP/1.1\r\n\r\n", b"\r\n\r\n"),
        Some(14)
    );
    assert_eq!(find_subsequence(b"no terminator here", b"\r\n\r\n"), None);
}

#[test]
fn parses_header_value_case_insensitively() {
    let h = vec![("content-length".into(), "42".into())];
    assert_eq!(header_value(&h, "content-length"), Some("42"));
    assert_eq!(header_value(&h, "missing"), None);
}

#[test]
fn extracts_query_param() {
    assert_eq!(
        query_param("/api/export/recordings?format=csv", "format"),
        Some("csv".into())
    );
    assert_eq!(query_param("/api/export/recordings", "format"), None);
}

#[test]
fn percent_decodes_value() {
    assert_eq!(percent_decode("foo%20bar"), "foo bar");
    assert_eq!(percent_decode("a+b"), "a b");
    assert_eq!(percent_decode("plain"), "plain");
}

#[test]
fn web_port_defaults_to_8001() {
    assert_eq!(web_port(None), DEFAULT_WEB_PORT);
    assert_eq!(web_port(Some("9999")), 9999);
    assert_eq!(web_port(Some("not-a-number")), DEFAULT_WEB_PORT);
    assert_eq!(DEFAULT_WEB_PORT, 8001);
}

#[test]
fn ports_out_of_range_are_not_taken() {
    assert_eq!(web_port(Some("0")), DEFAULT_WEB_PORT);
    assert_eq!(web_port(Some("65535")), 65535);
    assert_eq!(web_port(Some("65536")), DEFAULT_WEB_PORT);
    assert_eq!(web_port(Some("")), DEFAULT_WEB_PORT);
    assert_eq!(web_port(Some("-1")), DEFAULT_WEB_PORT);
    assert_eq!(web_port(Some("+80")), 80);
    assert_eq!(web_port(Some(" 80")), DEFAULT_WEB_PORT);
}

#[test]
fn decoding_leaves_broken_escapes_alone() {
    assert_eq!(percent_decode("100%"), "100%");
    assert_eq!(percent_decode("%4"), "%4");
    assert_eq!(percent_decode("%zz!"), "%zz!");
    assert_eq!(percent_decode("%41%62%2B"), "Ab%2B".replace("%2B", "+"));
    assert_eq!(percent_decode("%e2%82%ac!"), "€!");
    assert_eq!(percent_decode("%ff!"), "\u{fffd}!");
}

#[test]
fn heads_are_taken_apart() {
    let h = parse_head("POST /x?y=1 HTTP/1.1\r\nContent-Length:  7 \r\nBroken\r\nA:b:c");
    assert_eq!(h.method, "POST");
    assert_eq!(h.path, "/x?y=1");
    assert_eq!(
        h.headers,
        vec![
            ("content-length".to_string(), "7".to_string()),
            ("a".to_string(), "b:c".to_string())
        ]
    );
    let h = parse_head("");
    assert_eq!(h.method, "");
    assert_eq!(h.path, "/");
}

#[test]
fn a_request_may_come_in_pieces() {
    let bytes = b"POST /api/scenario HTTP/1.1\r\nContent-Length: 5\r\n\r\nhello and more";
    for cut in 0..bytes.len() {
        let mut r = RequestReader::new();
        let mut first = r.feed(&bytes[..cut]);
        if let ReadStep::More = first {
            first = r.feed(&bytes[cut..]);
        }
        match first {
            ReadStep::Done(q) => {
                assert_eq!(q.head.method, "POST");
                assert_eq!(q.head.path, "/api/scenario");
                assert_eq!(q.body, b"hello");
            }
            _ => panic!("the request is whole"),
        }
    }
}

#[test]
fn requests_that_break_off_are_errors() {
    let mut r = RequestReader::new();
    assert_eq!(r.end(), None);
    assert!(matches!(r.feed(b"GET / HT"), ReadStep::More));
    assert_eq!(r.end(), Some(ReadError::IncompleteHeader));
    assert!(matches!(
        r.feed(b"TP/1.1\r\ncontent-length: 3\r\n\r\nab"),
        ReadStep::More
    ));
    assert_eq!(r.end(), Some(ReadError::BodyTruncated));
    assert_eq!(ReadError::BodyTruncated.text(), "body truncated");
    assert_eq!(ReadError::IncompleteHeader.text(), "incomplete request header");
}

#[test]
fn heads_have_a_limit_and_are_text() {
    let mut r = RequestReader::new();
    assert!(matches!(
        r.feed(&vec![b'a'; (1 << 20) + 1]),
        ReadStep::Failed(ReadError::HeaderTooLarge)
    ));
    let mut r = RequestReader::new();
    assert!(matches!(
        r.feed(b"GET /\xff HTTP/1.1\r\n\r\n"),
        ReadStep::Failed(ReadError::NonUtf8Header)
    ));
    assert_eq!(ReadError::HeaderTooLarge.text(), "request header too large");
    assert_eq!(ReadError::NonUtf8Header.text(), "non-utf8 request header");
}

#[test]
fn queries_are_searched_in_order() {
    assert_eq!(query_param("/p?a=1&B=2&b=3", "b"), Some("2".to_string()));
    assert_eq!(query_param("/p?flag&a=x%2By", "a"), Some("x+y".to_string()));
    assert_eq!(query_param("/p?flag", "flag"), None);
    assert_eq!(query_param("/p?a=1?b", "a"), Some("1?b".to_string()));
}

#[test]
fn routes_go_by_method_and_path() {
    assert!(matches!(route("GET", "/"), Route::Index));
    assert!(matches!(route("GET", "/index.html?x=1"), Route::Index));
    assert!(matches!(route("POST", "/api/invoke/set_mode"), Route::Invoke(c) if c == "set_mode"));
    assert!(matches!(route("GET", "/api/events"), Route::Events));
    assert!(matches!(
        route("GET", "/api/export/recordings"),
        Route::ExportRecordings(f) if f == "csv"
    ));
    assert!(matches!(
        route("GET", "/api/export/recordings?format=jsonl"),
        Route::ExportRecordings(f) if f == "jsonl"
    ));
    assert!(matches!(route("GET", "/api/export/config"), Route::ExportConfig));
    assert!(matches!(route("POST", "/api/scenario"), Route::Scenario));
    assert!(matches!(route("OPTIONS", "/anything"), Route::Preflight));
    assert!(matches!(route("DELETE", "/"), Route::NotFound));
    assert!(matches!(route("GET", "/api/invoke/set_mode"), Route::NotFound));
}

#[test]
fn commands_go_by_name() {
    assert_eq!(dispatch("create_plant"), Ok(ApiCommand::CreatePlant));
    assert!(matches!(ApiCommand::CreatePlant.argument(), Argument::Params));
    assert!(matches!(ApiCommand::PauseSimulation.argument(), Argument::Nothing));
    let c = dispatch("set_evc_charge_current").unwrap();
    assert!(matches!(c.argument(), Argument::Field("deciAmps")));
    assert_eq!(
        dispatch("fly"),
        Err((404, "unknown command: fly".to_string()))
    );
    assert_eq!(
        bad_argument(Argument::Params, "missing field"),
        (400, "invalid params: missing field".to_string())
    );
    assert_eq!(
        bad_argument(Argument::Field("port"), "not a number"),
        (400, "invalid `port`: not a number".to_string())
    );
}

#[test]
fn answers_have_a_status() {
    let good: Result<u8, String> = Ok(1);
    let bad: Result<u8, String> = Err("no".to_string());
    assert_eq!(answer_status(&good), 200);
    assert_eq!(answer_status(&bad), 500);
    assert_eq!(status_reason(204), "No Content");
    assert_eq!(status_reason(400), "Bad Request");
    assert_eq!(status_reason(404), "Not Found");
    assert_eq!(status_reason(500), "Internal Server Error");
    assert_eq!(status_reason(200), "OK");
    assert_eq!(status_reason(302), "OK");
}

#[test]
fn heads_of_responses_to_the_letter() {
    assert_eq!(
        response_head(404, "text/plain", 9),
        "HTTP/1.1 404 Not Found\r\n\
         Content-Type: text/plain\r\n\
         Content-Length: 9\r\n\
         Cache-Control: no-store\r\n\
         Access-Control-Allow-Origin: *\r\n\
         Access-Control-Allow-Methods: GET, POST, OPTIONS\r\n\
         Access-Control-Allow-Headers: Content-Type\r\n\
         Connection: close\r\n\
         \r\n"
    );
    assert_eq!(
        attachment_head("application/json", "plant-config.json", 120),
        "HTTP/1.1 200 OK\r\n\
         Content-Type: application/json\r\n\
         Content-Length: 120\r\n\
         Content-Disposition: attachment; filename=\"plant-config.json\"\r\n\
         Cache-Control: no-store\r\n\
         Connection: close\r\n\
         \r\n"
    );
    assert!(stream_head().contains("text/event-stream"));
    assert!(stream_head().ends_with("\r\n\r\n"));
}

#[test]
fn failures_are_json() {
    assert_eq!(error_payload("no \"plant\""), "{\"error\":\"no \\\"plant\\\"\"}");
    assert_eq!(
        error_payload("a\\b\n\t\r\u{8}\u{c}\u{1f}\u{7f}/é"),
        "{\"error\":\"a\\\\b\\n\\t\\r\\b\\f\\u001f\u{7f}/é\"}"
    );
}

#[test]
fn uploads_are_read_as_text() {
    assert_eq!(body_text("day: ü".as_bytes()), "day: ü");
    assert_eq!(body_text(b"a\xffb"), "a\u{fffd}b");
}

#[test]
fn downloads_have_names() {
    assert_eq!(export_extension("jsonl"), "jsonl");
    assert_eq!(export_extension("json"), "json");
    assert_eq!(export_extension("pdf"), "csv");
    assert_eq!(export_filename("jsonl"), "recording.jsonl");
    assert_eq!(temp_name(42, 1_700_000_000_000_000_000, "csv"), "givsim-42-1700000000000000000.csv");
}

#[test]
fn browsers_that_listen_get_frames() {
    let s = |e: StreamEvent| stream_step(&e);
    assert!(matches!(s(StreamEvent::Message("{}".to_string())), StreamAction::Send(f) if f == "data: {}\n\n"));
    assert!(matches!(s(StreamEvent::Idle), StreamAction::Send(f) if f == ": keepalive\n\n"));
    assert!(matches!(s(StreamEvent::Lagged), StreamAction::Wait));
    assert!(matches!(s(StreamEvent::Closed), StreamAction::Stop));
}
