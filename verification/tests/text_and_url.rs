use ai_ping::loose::loose_content;
use ai_ping::model::AppSettings;
use ai_ping::text::{clip_chars, decimal_text, trim_text};
use ai_ping::url::chat_url;

#[test]
fn chat_url_appends_to_v1_base() {
    assert_eq!(
        chat_url("https://api.openai.com/v1"),
        "https://api.openai.com/v1/chat/completions"
    );
}

#[test]
fn chat_url_adds_version_to_bare_host() {
    assert_eq!(
        chat_url("http://127.0.0.1:8080"),
        "http://127.0.0.1:8080/v1/chat/completions"
    );
}

#[test]
fn chat_url_ignores_white_space_and_trailing_slashes() {
    assert_eq!(
        chat_url("  https://relay.example.com/v1/// \n"),
        "https://relay.example.com/v1/chat/completions"
    );
}

#[test]
fn chat_url_keeps_full_address() {
    assert_eq!(
        chat_url("https://relay.example.com/v1/chat/completions/"),
        "https://relay.example.com/v1/chat/completions"
    );
}

#[test]
fn chat_url_keeps_inner_v1_path() {
    assert_eq!(
        chat_url("https://relay.example.com/api/v1/openai"),
        "https://relay.example.com/api/v1/openai/chat/completions"
    );
}

#[test]
fn chat_url_of_empty_base() {
    assert_eq!(chat_url("   "), "/v1/chat/completions");
}

#[test]
fn chat_url_is_idempotent_on_examples() {
    for base in ["https://a.b", " https://a.b/v1/ ", "x/chat/completions", "", "abc /"] {
        let once = chat_url(base);
        assert_eq!(chat_url(&once), once);
        assert!(once.ends_with("/chat/completions"));
    }
}

#[test]
fn clip_chars_counts_characters() {
    assert_eq!(clip_chars("你好世界", 2), "你好");
    assert_eq!(clip_chars("abc", 10), "abc");
    assert_eq!(clip_chars("abc", 0), "");
}

#[test]
fn trim_text_removes_unicode_white_space() {
    assert_eq!(trim_text("\u{3000}\t key \u{a0}\n"), "key");
    assert_eq!(trim_text("   "), "");
}

#[test]
fn decimal_text_renders_digits() {
    assert_eq!(decimal_text(0), "0");
    assert_eq!(decimal_text(30), "30");
    assert_eq!(decimal_text(18446744073709551615), "18446744073709551615");
}

#[test]
fn default_settings() {
    let s = AppSettings::default();
    assert_eq!(s.timeout_secs, 30);
    assert_eq!(s.retry_count, 1);
}

#[test]
fn loose_content_reads_first_marker() {
    let line = r#"{"weird":1, "content": "hi\nthere\t\"x\""}"#;
    assert_eq!(loose_content(line), Some("hi\nthere\t\"x\"".to_string()));
}

#[test]
fn loose_content_falls_back_to_later_markers() {
    assert_eq!(
        loose_content(r#"{"thought" :   "ponder"}"#),
        Some("ponder".to_string())
    );
    assert_eq!(
        loose_content(r#"{"arguments":"{\"a\":1}"}"#),
        Some("{\"a\":1}".to_string())
    );
    assert_eq!(
        loose_content(r#"{"reasoning_content":"r","thought":"t"}"#),
        Some("r".to_string())
    );
}

#[test]
fn loose_content_rejects_non_strings_and_empty() {
    assert_eq!(loose_content(r#"{"content": 42}"#), None);
    assert_eq!(loose_content(r#"{"content": ""}"#), None);
    assert_eq!(loose_content(r#"{"content" "x"}"#), None);
    assert_eq!(loose_content("nothing here"), None);
}

#[test]
fn loose_content_stops_at_forty_characters() {
    let long = "a".repeat(100);
    let line = format!("\"content\":\"{long}\"");
    assert_eq!(loose_content(&line), Some("a".repeat(40)));
}

#[test]
fn loose_content_drops_a_lone_final_backslash() {
    assert_eq!(loose_content("\"content\":\"ab\\"), Some("ab".to_string()));
}
