//! A log sink that delivers formatted log records to a Telegram chat through
//! the Telegram Bot HTTP API.
//!
//! The crate models the recipient address, the JSON request payload, the
//! notification-silencing policy and the classification of API responses, and
//! proves the request shape against those models.

mod error;
mod json;
mod level;
mod recipient;
mod remote;
mod request;

pub use error::{DeliveryError, ReqwestDesensitizedError};
pub use json::{FieldModel, JsonField, JsonObject, JsonScalar, ScalarModel};
pub use level::{Level, LevelFilter};
pub use recipient::{lemma_from_chat_id_agrees, Recipient, RecipientBuilder, TargetChat};
pub use remote::{json_bool, json_member, json_str, parsed_json, url_join_of, url_parse_of};
pub use request::{
    body_description, body_ok, bot_path, classify_body, classify_response, lemma_payload_fields,
    lemma_reply_absent, lemma_reply_other_chat, lemma_reply_same_chat, lemma_thread_field,
    payload_body, skeleton_object, Requester,
};

use vstd::prelude::*;
use vstd::string::StringExecFns;

verus! {

/// A sink with a Telegram recipient as the target.
///
/// It holds the delivery client and the silence filter: logs whose severity
/// matches the filter are sent with their notification sound disabled. The
/// filter lives in an atomic cell, so any thread may read or replace it while
/// other threads are sending.
pub struct TelegramSink {
    silence: atomic::Atomic<u32>,
    requester: request::Requester,
}

impl TelegramSink {
    /// The recipient this sink delivers to.
    pub closed spec fn spec_recipient(&self) -> Recipient {
        self.requester.spec_recipient()
    }

    /// The endpoint this sink posts to.
    pub closed spec fn spec_endpoint(&self) -> url::Url {
        self.requester.spec_endpoint()
    }

    /// Gets a builder of `TelegramSink`.
    ///
    /// The bot token and the recipient must be supplied before `build` is
    /// offered; the server URL defaults to `https://api.telegram.org` and the
    /// silence filter to `Off`.
    pub fn builder() -> (b: TelegramSinkBuilder<(), ()>)
        ensures
            b.server_url is None,
            b.silence == LevelFilter::Off,
    {
        TelegramSinkBuilder {
            server_url: None,
            bot_token: (),
            recipient: (),
            silence: LevelFilter::Off,
        }
    }

    /// Gets the silence level filter.
    ///
    /// Another thread may store a different filter at any moment, so no more
    /// is promised than that some previously stored filter comes back.
    pub fn silence(&self) -> LevelFilter {
        LevelFilter::from_code(remote::atomic_load(&self.silence))
    }

    /// Sets the silence level filter.
    ///
    /// Logs with level matching the filter will be sent with
    /// `disable_notification` set to `true`.
    pub fn set_silence(&self, silent_if: LevelFilter) {
        remote::atomic_store(&self.silence, silent_if.to_code())
    }

    /// Sends one formatted record.
    ///
    /// The notification is disabled exactly when the record's severity
    /// matches the silence filter at the moment it is read; the text and the
    /// flag then go out through the delivery client in one HTTP attempt.
    pub fn log(&self, level: Level, text: &str) -> (r: Result<(), DeliveryError>)
        ensures
            r is Err ==> (r matches Err(DeliveryError::SendRequest(_)) || r matches Err(
                DeliveryError::TelegramApi(_),
            )),
    {
        let silent = self.silence().test(level);
        self.requester.send_log(text, silent)
    }

    /// Does nothing: every `log` call is already a synchronous, fully
    /// flushed network send.
    pub fn flush(&self) -> (r: Result<(), DeliveryError>)
        ensures
            r is Ok,
    {
        Ok(())
    }
}

/// Assembles a [`TelegramSink`] step by step.
///
/// The bot token and the recipient are the required pieces: `build` is only
/// offered once both have been supplied, which the two type parameters record
/// at the type level.
pub struct TelegramSinkBuilder<ArgT, ArgR> {
    /// The server URL override, or `None` for the default.
    pub server_url: Option<String>,
    /// The bot token, or `()` while none has been supplied.
    pub bot_token: ArgT,
    /// The recipient, or `()` while none has been supplied.
    pub recipient: ArgR,
    /// The initial silence level filter.
    pub silence: LevelFilter,
}

impl<ArgT, ArgR> TelegramSinkBuilder<ArgT, ArgR> {
    /// Specifies the Telegram Bot API server URL.
    ///
    /// This parameter is optional; it serves local Bot API servers.
    pub fn server_url(self, url: &str) -> (b: Self)
        ensures
            (b.server_url matches Some(u) && u@ == url@),
            b.bot_token == self.bot_token,
            b.recipient == self.recipient,
            b.silence == self.silence,
    {
        Self { server_url: Some(String::from_str(url)), ..self }
    }

    /// Specifies the bot token.
    ///
    /// This parameter is required.
    pub fn bot_token(self, bot_token: &str) -> (b: TelegramSinkBuilder<String, ArgR>)
        ensures
            b.server_url == self.server_url,
            b.bot_token@ == bot_token@,
            b.recipient == self.recipient,
            b.silence == self.silence,
    {
        TelegramSinkBuilder {
            server_url: self.server_url,
            bot_token: String::from_str(bot_token),
            recipient: self.recipient,
            silence: self.silence,
        }
    }

    /// Specifies the recipient of logs.
    ///
    /// This parameter is required.
    pub fn recipient(self, recipient: Recipient) -> (b: TelegramSinkBuilder<ArgT, Recipient>)
        ensures
            b.server_url == self.server_url,
            b.bot_token == self.bot_token,
            b.recipient == recipient,
            b.silence == self.silence,
    {
        TelegramSinkBuilder {
            server_url: self.server_url,
            bot_token: self.bot_token,
            recipient,
            silence: self.silence,
        }
    }

    /// Specifies the silence level filter.
    ///
    /// Logs with level matching the filter will be sent with
    /// `disable_notification` set to `true`. This parameter is optional.
    pub fn silence(self, silent_if: LevelFilter) -> (b: Self)
        ensures
            b.server_url == self.server_url,
            b.bot_token == self.bot_token,
            b.recipient == self.recipient,
            b.silence == silent_if,
    {
        Self { silence: silent_if, ..self }
    }
}

impl TelegramSinkBuilder<String, Recipient> {
    /// Builds a `TelegramSink`.
    ///
    /// Resolves the server URL — the default `https://api.telegram.org`, or
    /// the supplied override — and joins it with `/bot{token}/sendMessage`.
    /// It succeeds exactly when the parse and the join succeed, with the
    /// join's result as the sink's endpoint; either failure is a URL-parse
    /// failure. No network I/O happens here.
    pub fn build(self) -> (r: Result<TelegramSink, DeliveryError>)
        ensures
            (match (match self.server_url {
                Some(u) => remote::url_parse_of(u@),
                None => remote::url_parse_of("https://api.telegram.org"@),
            }) {
                Err(e) => r == Err::<TelegramSink, DeliveryError>(DeliveryError::ParseUrl(e)),
                Ok(server) => (match remote::url_join_of(
                    server,
                    request::bot_path(self.bot_token@),
                ) {
                    Err(e) => r == Err::<TelegramSink, DeliveryError>(DeliveryError::ParseUrl(e)),
                    Ok(endpoint) => r matches Ok(sink) && sink.spec_endpoint() == endpoint
                        && sink.spec_recipient() == self.recipient,
                }),
            }),
    {
        let TelegramSinkBuilder { server_url, bot_token, recipient, silence } = self;
        let parsed = match &server_url {
            Some(url) => remote::url_parse(url.as_str()),
            None => remote::url_parse("https://api.telegram.org"),
        };
        match parsed {
            Err(e) => Err(DeliveryError::ParseUrl(e)),
            Ok(server) => match request::Requester::new(server, bot_token.as_str(), recipient) {
                Err(e) => Err(e),
                Ok(requester) => Ok(
                    TelegramSink {
                        silence: remote::atomic_new(silence.to_code()),
                        requester,
                    },
                ),
            },
        }
    }
}

} // verus!
