use rubika_bot::{decode, AuxData, RawInlineMessage, RawMessage, RawUpdate, Update};

fn raw_message(text: &str, time: Option<&str>) -> RawMessage {
    RawMessage {
        message_id: Some("m1".to_string()),
        sender_id: Some("u1".to_string()),
        text: Some(text.to_string()),
        time: time.map(|t| t.to_string()),
        is_edited: None,
        sender_type: Some("User".to_string()),
        reply_to_message_id: None,
        forwarded_from: None,
        file: None,
        sticker: None,
        contact_message: None,
        poll: None,
        location: None,
        live_location: None,
        aux_data: None,
    }
}

fn raw_update(update_type: Option<&str>, nm: Option<RawMessage>) -> RawUpdate {
    RawUpdate {
        update_type: update_type.map(|t| t.to_string()),
        chat_id: Some("c1".to_string()),
        new_message: nm,
        inline_message: None,
    }
}

const NOW: u64 = 1_700_000_020_000;

#[test]
fn unrecognized_discriminators_decode_to_nothing() {
    let raw = raw_update(Some("UpdatedMessage"), Some(raw_message("hi", None)));
    assert!(decode(raw, NOW).is_none());
    let raw = raw_update(Some(""), Some(raw_message("hi", None)));
    assert!(decode(raw, NOW).is_none());
    let raw = raw_update(None, Some(raw_message("hi", None)));
    assert!(decode(raw, NOW).is_none());
}

#[test]
fn new_message_without_payload_decodes_to_nothing() {
    let raw = raw_update(Some("NewMessage"), None);
    assert!(decode(raw, NOW).is_none());
}

#[test]
fn receive_query_without_payload_decodes_to_nothing() {
    let raw = raw_update(Some("ReceiveQuery"), None);
    assert!(decode(raw, NOW).is_none());
}

#[test]
fn fresh_message_decodes_with_envelope_fields() {
    // NOW is exactly 20 seconds after this timestamp: still fresh.
    let raw = raw_update(Some("NewMessage"), Some(raw_message("hello", Some("1700000000"))));
    match decode(raw, NOW) {
        Some(Update::Message(m)) => {
            assert_eq!(m.chat_id, "c1");
            assert_eq!(m.message_id, "m1");
            assert_eq!(m.sender_id, "u1");
            assert_eq!(m.text.as_deref(), Some("hello"));
            assert!(!m.is_edited);
            assert!(m.args.is_empty());
            assert!(m.aux_data.is_none());
        }
        _ => panic!("expected a message event"),
    }
}

#[test]
fn stale_message_decodes_to_nothing() {
    // One millisecond beyond the twenty-second boundary: dropped.
    let raw = raw_update(Some("NewMessage"), Some(raw_message("hello", Some("1699999999.999"))));
    assert!(decode(raw, NOW).is_none());
}

#[test]
fn unreadable_timestamp_is_never_stale() {
    let raw = raw_update(Some("NewMessage"), Some(raw_message("hello", Some("not a time"))));
    assert!(decode(raw, NOW).is_some());
    let raw = raw_update(Some("NewMessage"), Some(raw_message("hello", None)));
    assert!(decode(raw, NOW).is_some());
}

#[test]
fn future_timestamp_is_not_stale() {
    let raw = raw_update(Some("NewMessage"), Some(raw_message("hello", Some("1700009999"))));
    assert!(decode(raw, NOW).is_some());
}

#[test]
fn missing_identifiers_fall_back_to_empty_strings() {
    let mut nm = raw_message("hello", None);
    nm.message_id = None;
    nm.sender_id = None;
    let mut raw = raw_update(Some("NewMessage"), Some(nm));
    raw.chat_id = None;
    match decode(raw, NOW) {
        Some(Update::Message(m)) => {
            assert_eq!(m.chat_id, "");
            assert_eq!(m.message_id, "");
            assert_eq!(m.sender_id, "");
        }
        _ => panic!("expected a message event"),
    }
}

#[test]
fn edited_flag_carries_over() {
    let mut nm = raw_message("hello", None);
    nm.is_edited = Some(true);
    match decode(raw_update(Some("NewMessage"), Some(nm)), NOW) {
        Some(Update::Message(m)) => assert!(m.is_edited),
        _ => panic!("expected a message event"),
    }
}

#[test]
fn receive_query_decodes_to_an_inline_event() {
    let raw = RawUpdate {
        update_type: Some("ReceiveQuery".to_string()),
        chat_id: None,
        new_message: None,
        inline_message: Some(RawInlineMessage {
            chat_id: Some("c9".to_string()),
            message_id: Some("m9".to_string()),
            sender_id: None,
            text: Some("query".to_string()),
            aux_data: Some(AuxData { start_id: None, button_id: Some("B1".to_string()) }),
        }),
    };
    match decode(raw, NOW) {
        Some(Update::Inline(im)) => {
            assert_eq!(im.chat_id, "c9");
            assert_eq!(im.message_id, "m9");
            assert_eq!(im.sender_id, "");
            assert_eq!(im.text.as_deref(), Some("query"));
            assert_eq!(im.aux_data.unwrap().button_id.as_deref(), Some("B1"));
        }
        _ => panic!("expected an inline event"),
    }
}

#[test]
fn inline_updates_skip_the_staleness_filter() {
    // An inline payload is decoded even when a new-message payload with
    // an old timestamp sits beside it: the discriminator decides.
    let raw = RawUpdate {
        update_type: Some("ReceiveQuery".to_string()),
        chat_id: None,
        new_message: Some(raw_message("old", Some("0"))),
        inline_message: Some(RawInlineMessage {
            chat_id: None,
            message_id: None,
            sender_id: None,
            text: None,
            aux_data: None,
        }),
    };
    assert!(matches!(decode(raw, NOW), Some(Update::Inline(_))));
}
