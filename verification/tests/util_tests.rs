use rubika_bot::{
    base_name, default_file_name, display_name, is_http_source, log_debug, log_error, log_info,
    or_empty, resolve_file_source, split_whitespace_tokens, str_eq, validate_media_type,
    APIRequestError, ChatKeypadBuilder, FileSource, InlineBuilder, Job,
};

#[test]
fn display_name_joins_both_names() {
    assert_eq!(display_name("Ada", "Lovelace"), "Ada Lovelace");
}

#[test]
fn display_name_falls_back_to_the_present_name() {
    assert_eq!(display_name("Ada", ""), "Ada");
    assert_eq!(display_name("", "Lovelace"), "Lovelace");
}

#[test]
fn display_name_of_nobody_is_unknown() {
    assert_eq!(display_name("", ""), "Unknown");
}

#[test]
fn str_eq_compares_characters() {
    assert!(str_eq("abc", "abc"));
    assert!(!str_eq("abc", "abd"));
    assert!(!str_eq("abc", "ab"));
    assert!(str_eq("", ""));
}

#[test]
fn split_whitespace_tokens_finds_maximal_runs() {
    assert_eq!(split_whitespace_tokens("a bb  ccc"), vec!["a", "bb", "ccc"]);
    assert_eq!(split_whitespace_tokens("  lead and\ttrail  "), vec!["lead", "and", "trail"]);
    assert!(split_whitespace_tokens("").is_empty());
    assert!(split_whitespace_tokens("   ").is_empty());
}

#[test]
fn or_empty_defaults_to_the_empty_string() {
    assert_eq!(or_empty(Some("x".to_string())), "x");
    assert_eq!(or_empty(None), "");
}

#[test]
fn base_name_takes_the_last_component() {
    assert_eq!(base_name("dir/sub/report.txt"), "report.txt");
    assert_eq!(base_name("report.txt"), "report.txt");
    assert_eq!(base_name("dir/"), "");
}

#[test]
fn default_file_name_prefers_the_explicit_name() {
    assert_eq!(default_file_name(Some("given.bin".to_string()), "a/b.txt", "file"), "given.bin");
    assert_eq!(default_file_name(None, "a/b.txt", "file"), "b.txt");
    assert_eq!(default_file_name(None, "a/", "file"), "file");
}

#[test]
fn resolve_file_source_prefers_the_path() {
    match resolve_file_source(
        Some("music/song.mp3".to_string()),
        Some("f9".to_string()),
        None,
        "music.mp3",
    ) {
        Ok(FileSource::Upload { path, name }) => {
            assert_eq!(path, "music/song.mp3");
            assert_eq!(name, "song.mp3");
        }
        _ => panic!("expected an upload source"),
    }
}

#[test]
fn resolve_file_source_reuses_a_known_file() {
    match resolve_file_source(None, Some("f9".to_string()), None, "file") {
        Ok(FileSource::Existing { file_id }) => assert_eq!(file_id, "f9"),
        _ => panic!("expected an existing file"),
    }
}

#[test]
fn resolve_file_source_rejects_an_empty_request() {
    match resolve_file_source(None, None, None, "file") {
        Err(APIRequestError::RequestFailed(s)) => {
            assert_eq!(s, "Either path or file_id must be provided");
        }
        _ => panic!("expected a rejection"),
    }
}

#[test]
fn media_types_are_validated_against_the_accepted_set() {
    assert!(validate_media_type("File").is_ok());
    assert!(validate_media_type("Image").is_ok());
    assert!(validate_media_type("Voice").is_ok());
    assert!(validate_media_type("Music").is_ok());
    assert!(validate_media_type("Gif").is_ok());
    match validate_media_type("Video") {
        Err(APIRequestError::RequestFailed(s)) => {
            assert_eq!(
                s,
                "Invalid media type. Must be one of [\"File\", \"Image\", \"Voice\", \"Music\", \"Gif\"]"
            );
        }
        _ => panic!("expected a rejection"),
    }
}

#[test]
fn http_sources_are_recognized_by_prefix() {
    assert!(is_http_source("http://host/x"));
    assert!(is_http_source("https://host/x"));
    assert!(!is_http_source("local/file.bin"));
    assert!(!is_http_source("htt"));
}

#[test]
fn error_messages_carry_their_prefixes() {
    assert_eq!(
        APIRequestError::RequestFailed("boom".to_string()).message(),
        "API request failed: boom"
    );
    assert_eq!(
        APIRequestError::InvalidJson("x".to_string()).message(),
        "Invalid JSON response: x"
    );
    assert_eq!(APIRequestError::HttpError("x".to_string()).message(), "HTTP error: x");
    assert_eq!(
        APIRequestError::SerializationError("x".to_string()).message(),
        "Serialization error: x"
    );
}

#[test]
fn inline_builder_collects_rows_in_order() {
    let b = InlineBuilder::new();
    let first = b.button_simple("a", "A");
    let second = b.button_link("l", "Open", "https://example.invalid");
    let rows = b.row(vec![first]).row(vec![second]).build();
    assert_eq!(rows.len(), 2);
    assert_eq!(rows[0].buttons[0].id.as_deref(), Some("a"));
    assert_eq!(rows[0].buttons[0].type_.as_deref(), Some("Simple"));
    assert_eq!(rows[0].buttons[0].button_text.as_deref(), Some("A"));
    assert_eq!(rows[1].buttons[0].type_.as_deref(), Some("Link"));
    assert_eq!(rows[1].buttons[0].url.as_deref(), Some("https://example.invalid"));
}

#[test]
fn inline_builder_widget_buttons_carry_their_payloads() {
    let b = InlineBuilder::new();
    let cal = b.button_calendar("c", "Pick", "DatePersian", None, Some("1390".to_string()), None);
    assert_eq!(cal.type_.as_deref(), Some("Calendar"));
    let payload = cal.button_calendar.expect("calendar payload");
    assert_eq!(payload.min_year.as_deref(), Some("1390"));
    assert_eq!(payload.title.as_deref(), Some("Pick"));

    let num = b.button_number_picker("n", "Count", "1", "9", Some("5".to_string()));
    let payload = num.button_number_picker.expect("number payload");
    assert_eq!(payload.min_value.as_deref(), Some("1"));
    assert_eq!(payload.max_value.as_deref(), Some("9"));
    assert_eq!(payload.default_value.as_deref(), Some("5"));

    let pick = b.button_string_picker("s", None, vec!["x".to_string()], None);
    assert_eq!(pick.button_text.as_deref(), Some("choice"));

    let tb = b.button_textbox("t", None, "SingleLine", "String", None, None);
    assert_eq!(tb.button_text.as_deref(), Some("Text"));
    let payload = tb.button_textbox.expect("textbox payload");
    assert_eq!(payload.type_line.as_deref(), Some("SingleLine"));

    let pay = b.button_payment("p", "Buy", 100, None);
    let payload = pay.button_payment.expect("payment payload");
    assert_eq!(payload.amount, 100);
}

#[test]
fn chat_keypad_builder_applies_display_defaults() {
    let b = ChatKeypadBuilder::new();
    let button = b.button("y", "Yes", None);
    assert_eq!(button.type_.as_deref(), Some("Simple"));
    let typed = b.button("n", "No", Some("Other".to_string()));
    assert_eq!(typed.type_.as_deref(), Some("Other"));
    let keypad = b.row(vec![button, typed]).build(None, None);
    assert_eq!(keypad.rows.len(), 1);
    assert!(keypad.resize_keyboard);
    assert!(!keypad.on_time_keyboard);
}

#[test]
fn chat_keypad_builder_keeps_explicit_flags() {
    let b = ChatKeypadBuilder::new();
    let button = b.button("y", "Yes", None);
    let keypad = b.row(vec![button]).build(Some(false), Some(true));
    assert!(!keypad.resize_keyboard);
    assert!(keypad.on_time_keyboard);
}

#[test]
fn jobs_remember_their_delay() {
    let job = Job::new(15);
    assert_eq!(job.delay_seconds, 15);
}

#[test]
fn log_lines_are_emitted_without_panicking() {
    log_info("starting");
    log_debug("details");
    log_error("failure");
}
