use spdlog_telegram::{payload_body, skeleton_object, JsonField, JsonScalar, Level, LevelFilter, Recipient};

#[test]
fn body_with_reply_and_thread_renders_exactly() {
    let r = Recipient::builder().chat_id(-1001234567890).thread_id(114).reply_to(514).build();
    let body = payload_body(&r, "Hello Telegram!", true);
    assert_eq!(
        body,
        "{\"chat_id\":-1001234567890,\"message_thread_id\":114,\"text\":\"Hello Telegram!\",\
         \"link_preview_options\":{\"is_disabled\":true},\"disable_notification\":true,\
         \"reply_parameters\":{\"message_id\":514,\"chat_id\":null}}"
    );
}

#[test]
fn scenario_info_record_is_silenced() {
    let r = Recipient::builder().chat_id(-1001234567890).thread_id(114).reply_to(514).build();
    let filter = LevelFilter::MoreVerboseEqual(Level::Info);
    let disable = filter.test(Level::Info);
    assert!(disable);
    let body = payload_body(&r, "#log #info Hello Telegram! k=v", disable);
    let v: serde_json::Value = serde_json::from_str(&body).unwrap();
    assert_eq!(v.get("chat_id").unwrap().as_i64(), Some(-1001234567890));
    assert_eq!(v.get("message_thread_id").unwrap().as_u64(), Some(114));
    assert_eq!(v.get("disable_notification").unwrap().as_bool(), Some(true));
    assert_eq!(v.get("text").unwrap().as_str(), Some("#log #info Hello Telegram! k=v"));
    let preview = v.get("link_preview_options").unwrap();
    assert_eq!(preview.get("is_disabled").unwrap().as_bool(), Some(true));
    let reply = v.get("reply_parameters").unwrap();
    assert_eq!(reply.get("message_id").unwrap().as_u64(), Some(514));
    assert!(reply.get("chat_id").unwrap().is_null());
}

#[test]
fn scenario_error_record_is_not_silenced() {
    let r = Recipient::builder().chat_id(-1001234567890).thread_id(114).reply_to(514).build();
    let filter = LevelFilter::MoreVerboseEqual(Level::Info);
    let disable = filter.test(Level::Error);
    assert!(!disable);
    let body = payload_body(&r, "#log #error Hello Telegram! k=v", disable);
    let v: serde_json::Value = serde_json::from_str(&body).unwrap();
    assert_eq!(v.get("disable_notification").unwrap().as_bool(), Some(false));
}

#[test]
fn thread_field_is_null_when_absent_and_reply_key_missing() {
    let r = Recipient::chat_id(5);
    let body = payload_body(&r, "x", false);
    let v: serde_json::Value = serde_json::from_str(&body).unwrap();
    let obj = v.as_object().unwrap();
    assert!(obj.contains_key("message_thread_id"));
    assert!(obj.get("message_thread_id").unwrap().is_null());
    assert!(!obj.contains_key("reply_parameters"));
}

#[test]
fn reply_without_override_has_null_chat_id() {
    let r = Recipient::builder().username("@chan").reply_to(99).build();
    let body = payload_body(&r, "x", false);
    let v: serde_json::Value = serde_json::from_str(&body).unwrap();
    assert_eq!(v.get("chat_id").unwrap().as_str(), Some("@chan"));
    let reply = v.get("reply_parameters").unwrap();
    assert_eq!(reply.get("message_id").unwrap().as_u64(), Some(99));
    assert!(reply.get("chat_id").unwrap().is_null());
}

#[test]
fn cross_chat_reply_carries_the_override() {
    let r = Recipient::builder().chat_id(1).reply_to_diff_chat_id(514, -42).build();
    let body = payload_body(&r, "x", false);
    let v: serde_json::Value = serde_json::from_str(&body).unwrap();
    let reply = v.get("reply_parameters").unwrap();
    assert_eq!(reply.get("chat_id").unwrap().as_i64(), Some(-42));
}

#[test]
fn text_is_escaped_and_round_trips() {
    let r = Recipient::chat_id(1);
    let body = payload_body(&r, "a\"b\\c\nd\te\r\u{1}", false);
    assert!(body.contains("a\\\"b\\\\c\\nd\\te\\r\\u0001"));
    let v: serde_json::Value = serde_json::from_str(&body).unwrap();
    assert_eq!(v.get("text").unwrap().as_str(), Some("a\"b\\c\nd\te\r\u{1}"));
}

#[test]
fn extreme_chat_ids_render_exactly() {
    let body = payload_body(&Recipient::chat_id(i64::MIN), "x", false);
    assert!(body.contains("\"chat_id\":-9223372036854775808,"));
    let body = payload_body(&Recipient::chat_id(i64::MAX), "x", false);
    assert!(body.contains("\"chat_id\":9223372036854775807,"));
    let body = payload_body(&Recipient::chat_id(0), "x", false);
    assert!(body.contains("\"chat_id\":0,"));
}

#[test]
fn skeleton_has_null_text_and_flag() {
    let o = skeleton_object(&Recipient::chat_id(1));
    assert_eq!(o.entries.len(), 5);
    assert_eq!(o.entries[2].0, "text");
    assert!(matches!(o.entries[2].1, JsonField::Scalar(JsonScalar::Null)));
    assert_eq!(o.entries[4].0, "disable_notification");
    assert!(matches!(o.entries[4].1, JsonField::Scalar(JsonScalar::Null)));
}
