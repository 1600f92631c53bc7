use spdlog_telegram::{classify_body, classify_response, DeliveryError};

#[test]
fn api_failure_with_description() {
    let r = classify_body(false, "{\"ok\": false, \"description\": \"Forbidden: bot was blocked\"}");
    match r {
        Err(DeliveryError::TelegramApi(Some(d))) => assert_eq!(d, "Forbidden: bot was blocked"),
        _ => panic!("expected an API failure with a description"),
    }
}

#[test]
fn api_failure_on_unparsable_body() {
    let r = classify_body(true, "this is not json");
    match r {
        Err(DeliveryError::TelegramApi(None)) => {}
        _ => panic!("expected an API failure without a description"),
    }
}

#[test]
fn success_needs_status_and_ok_field() {
    assert!(classify_body(true, "{\"ok\": true, \"result\": {}}").is_ok());
    assert!(classify_body(false, "{\"ok\": true}").is_err());
    assert!(classify_body(true, "{\"ok\": false}").is_err());
}

#[test]
fn non_object_bodies_count_as_not_ok() {
    match classify_body(true, "[1, 2, 3]") {
        Err(DeliveryError::TelegramApi(None)) => {}
        _ => panic!("expected an API failure for an array body"),
    }
    match classify_body(true, "\"just a string\"") {
        Err(DeliveryError::TelegramApi(None)) => {}
        _ => panic!("expected an API failure for a string body"),
    }
}

#[test]
fn description_is_kept_when_status_fails() {
    match classify_body(false, "{\"ok\": true, \"description\": \"weird\"}") {
        Err(DeliveryError::TelegramApi(Some(d))) => assert_eq!(d, "weird"),
        _ => panic!("expected an API failure with the body's description"),
    }
}

#[test]
fn classify_response_cases() {
    assert!(classify_response(true, true, None).is_ok());
    match classify_response(true, false, Some(String::from("x"))) {
        Err(DeliveryError::TelegramApi(Some(d))) => assert_eq!(d, "x"),
        _ => panic!("expected the description to be carried"),
    }
    match classify_response(false, true, None) {
        Err(DeliveryError::TelegramApi(None)) => {}
        _ => panic!("expected a failure on a bad status"),
    }
}

#[test]
fn error_message_text() {
    let e = DeliveryError::TelegramApi(Some(String::from("boom")));
    assert_eq!(e.message(), "Telegram API error: boom");
    let e = DeliveryError::TelegramApi(None);
    assert_eq!(e.message(), "Telegram API error");
}
