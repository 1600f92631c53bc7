use spdlog_telegram::{DeliveryError, Level, LevelFilter, Recipient, TelegramSink};

#[test]
fn builder_rejects_malformed_server_url() {
    let r = TelegramSink::builder()
        .server_url("not a url")
        .bot_token("token")
        .recipient(Recipient::chat_id(1))
        .build();
    match r {
        Err(DeliveryError::ParseUrl(_)) => {}
        _ => panic!("expected a URL parse failure"),
    }
}

#[test]
fn silence_filter_reads_back_what_was_stored() {
    let sink = TelegramSink::builder()
        .bot_token("token")
        .recipient(Recipient::chat_id(1))
        .silence(LevelFilter::MoreVerboseEqual(Level::Info))
        .build()
        .unwrap();
    assert_eq!(sink.silence(), LevelFilter::MoreVerboseEqual(Level::Info));
    sink.set_silence(LevelFilter::MoreSevere(Level::Warn));
    assert_eq!(sink.silence(), LevelFilter::MoreSevere(Level::Warn));
    assert!(sink.flush().is_ok());
}

#[test]
fn unreachable_server_is_a_transport_failure_without_the_url() {
    let sink = TelegramSink::builder()
        .server_url("http://127.0.0.1:9/")
        .bot_token("secret-token")
        .recipient(Recipient::chat_id(1))
        .build()
        .unwrap();
    match sink.log(Level::Info, "x") {
        Err(DeliveryError::SendRequest(e)) => {
            let text = e.message();
            assert!(!text.contains("127.0.0.1"));
            assert!(!text.contains("secret-token"));
        }
        _ => panic!("expected a transport failure"),
    }
}
