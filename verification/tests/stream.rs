use ai_ping::attempt::{
    attempt_connect_failed, attempt_connect_timeout, attempt_finished, attempt_http_error,
    attempt_timeout_secs, bearer_token, classify_sse_line, first_char_timeout, judge_data,
    probe_request, status_is_success, stream_broken, DataVerdict, FirstOutput, SseLine, SseScanner,
};
use ai_ping::json::{extract_chunk_text, extract_delta_content, json_str_field, JsonMember, JsonValue};

fn s(t: &str) -> JsonValue {
    JsonValue::Str(t.to_string())
}

fn obj(members: Vec<(&str, JsonValue)>) -> JsonValue {
    JsonValue::Object(
        members
            .into_iter()
            .map(|(k, v)| JsonMember { key: k.to_string(), value: v })
            .collect(),
    )
}

fn chunk_with_delta(delta: JsonValue) -> JsonValue {
    obj(vec![("choices", JsonValue::Array(vec![obj(vec![("delta", delta)])]))])
}

#[test]
fn delta_content_prefers_content() {
    let d = obj(vec![("reasoning_content", s("think")), ("content", s("ok"))]);
    assert_eq!(extract_delta_content(&d), Some("ok".to_string()));
}

#[test]
fn delta_content_skips_empty_fields() {
    let d = obj(vec![("content", s("")), ("reasoning", s("")), ("thought", s("hmm"))]);
    assert_eq!(extract_delta_content(&d), Some("hmm".to_string()));
}

#[test]
fn delta_content_shows_tool_call_name_then_arguments() {
    let call = |f: JsonValue| obj(vec![("tool_calls", JsonValue::Array(vec![obj(vec![("function", f)])]))]);
    let named = call(obj(vec![("name", s("get_weather")), ("arguments", s("{}"))]));
    assert_eq!(extract_delta_content(&named), Some("[fn:get_weather]".to_string()));
    let args = call(obj(vec![("name", s("")), ("arguments", s("{\"city\""))]));
    assert_eq!(extract_delta_content(&args), Some("{\"city\"".to_string()));
    let nothing = call(obj(vec![("name", JsonValue::Null)]));
    assert_eq!(extract_delta_content(&nothing), None);
}

#[test]
fn json_str_field_reads_strings_only() {
    let v = obj(vec![("a", s("x")), ("b", JsonValue::Number("1".to_string())), ("a", s("y"))]);
    assert_eq!(json_str_field(&v, "a"), Some("x".to_string()));
    assert_eq!(json_str_field(&v, "b"), None);
    assert_eq!(json_str_field(&JsonValue::Array(vec![]), "a"), None);
}

#[test]
fn chunk_text_uses_delta_message_and_text() {
    let by_delta = chunk_with_delta(obj(vec![("content", s("ok"))]));
    assert_eq!(extract_chunk_text("", &Some(by_delta)), Some("ok".to_string()));
    let by_message = obj(vec![(
        "choices",
        JsonValue::Array(vec![obj(vec![
            ("delta", obj(vec![("role", s("assistant"))])),
            ("message", obj(vec![("content", s("whole"))])),
        ])]),
    )]);
    assert_eq!(extract_chunk_text("", &Some(by_message)), Some("whole".to_string()));
    let by_text = obj(vec![("choices", JsonValue::Array(vec![obj(vec![("text", s("legacy"))])]))]);
    assert_eq!(extract_chunk_text("", &Some(by_text)), Some("legacy".to_string()));
}

#[test]
fn chunk_text_falls_back_to_loose_reading() {
    let data = r#"{"choices":[{"delta":{"content":""}}], "x": "content"}"#;
    let empty = chunk_with_delta(obj(vec![("content", s(""))]));
    assert_eq!(extract_chunk_text(data, &Some(empty)), None);
    assert_eq!(
        extract_chunk_text(r#"{broken "content":"raw""#, &None),
        Some("raw".to_string())
    );
}

#[test]
fn scanner_splits_lines_across_chunks() {
    let mut sc = SseScanner::new();
    sc.feed(b"data: a\r\n\nda");
    assert_eq!(sc.next_line(), Some(b"data: a\r".to_vec()));
    assert_eq!(sc.next_line(), Some(Vec::new()));
    assert_eq!(sc.next_line(), None);
    sc.feed(b"ta: b\n");
    assert_eq!(sc.next_line(), Some(b"data: b".to_vec()));
    assert_eq!(sc.next_line(), None);
}

#[test]
fn classify_lines() {
    assert!(matches!(classify_sse_line(b"data: [DONE]\r"), SseLine::Done));
    assert!(matches!(classify_sse_line(b": keep-alive"), SseLine::Skip));
    assert!(matches!(classify_sse_line(b"data:   "), SseLine::Skip));
    assert!(matches!(classify_sse_line(b"event: x"), SseLine::Skip));
    match classify_sse_line(b"  data:{\"id\":1} ") {
        SseLine::Data(d) => assert_eq!(d, "{\"id\":1}"),
        _ => panic!("expected data"),
    }
}

#[test]
fn judge_data_reports_service_errors() {
    let v = obj(vec![("error", obj(vec![("message", s("quota exceeded"))]))]);
    match judge_data("{...}", &Some(v)) {
        DataVerdict::Failed(m) => assert_eq!(m, "接口错误·quota exceeded"),
        _ => panic!("expected failure"),
    }
    let v = obj(vec![("error", JsonValue::Bool(true))]);
    match judge_data("{\"error\":true}", &Some(v)) {
        DataVerdict::Failed(m) => assert_eq!(m, "接口错误·{\"error\":true}"),
        _ => panic!("expected failure"),
    }
}

#[test]
fn judge_data_samples_first_output() {
    let long = "x".repeat(50);
    let v = chunk_with_delta(obj(vec![("content", s(&long))]));
    match judge_data("", &Some(v)) {
        DataVerdict::FirstOutput(t) => assert_eq!(t, "x".repeat(40)),
        _ => panic!("expected output"),
    }
    let role_only = chunk_with_delta(obj(vec![("role", s("assistant")), ("content", s(""))]));
    assert!(matches!(judge_data("{}", &Some(role_only)), DataVerdict::Continue));
}

#[test]
fn attempt_timeout_falls_back_to_thirty_seconds() {
    assert_eq!(attempt_timeout_secs(0), 30);
    assert_eq!(attempt_timeout_secs(5), 5);
}

#[test]
fn request_and_token() {
    let r = probe_request("m1");
    assert_eq!(r.model, "m1");
    assert_eq!(r.role, "user");
    assert_eq!(r.prompt, "Hi");
    assert!(r.stream);
    assert_eq!(r.max_tokens, 16);
    assert_eq!(bearer_token("  sk-test \n"), "sk-test");
}

#[test]
fn status_success_range() {
    assert!(status_is_success(200));
    assert!(status_is_success(299));
    assert!(!status_is_success(404));
    assert!(!status_is_success(199));
}

#[test]
fn early_failures_carry_messages() {
    let r = attempt_connect_failed("m", "refused");
    assert!(!r.ok);
    assert_eq!(r.attempts, 1);
    assert_eq!(r.error.as_deref(), Some("连接失败：refused"));
    let r = attempt_connect_timeout("m", 30);
    assert_eq!(r.error.as_deref(), Some("请求连接超时（>30s）"));
    let r = attempt_http_error("m", 12, "404 Not Found", "  not-found \n");
    assert_eq!(r.header_ms, Some(12));
    assert_eq!(r.error.as_deref(), Some("HTTP 404 Not Found·not-found"));
    let long = "e".repeat(300);
    let r = attempt_http_error("m", 1, "500 Internal Server Error", &long);
    assert_eq!(r.error.unwrap().chars().count(), "HTTP 500 Internal Server Error·".chars().count() + 260);
}

#[test]
fn finished_attempts() {
    let ok = attempt_finished(
        "m1",
        5,
        9,
        Some(FirstOutput { at_ms: 7, sample: "ok".to_string() }),
        None,
    );
    assert!(ok.ok);
    assert_eq!(ok.first_char_ms, Some(7));
    assert!(ok.first_char_ms.unwrap() <= ok.total_ms.unwrap());
    assert_eq!(ok.sample, "ok");
    assert_eq!(ok.error, None);
    let none = attempt_finished("m1", 5, 9, None, None);
    assert!(!none.ok);
    assert_eq!(none.error.as_deref(), Some("未收到可见输出"));
    let broken = attempt_finished("m1", 5, 9, None, Some(stream_broken("reset")));
    assert_eq!(broken.error.as_deref(), Some("流中断：reset"));
    assert_eq!(first_char_timeout(30), "等待首字超时（>30s）");
}

#[test]
fn classify_replaces_invalid_utf8() {
    match classify_sse_line(b"data: \xffok") {
        SseLine::Data(d) => assert_eq!(d, "\u{FFFD}ok"),
        _ => panic!("expected data"),
    }
}
