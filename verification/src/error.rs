//! The classified failures of the delivery path.

use crate::remote;
use vstd::prelude::*;
use vstd::string::StringExecFns;

verus! {

broadcast use vstd::string::group_string_axioms;

/// An HTTP-layer failure stripped of any URL, so that its text can never leak
/// the bot token that the endpoint path embeds.
#[derive(Debug)]
pub struct ReqwestDesensitizedError(reqwest::Error);

impl From<reqwest::Error> for ReqwestDesensitizedError {
    /// Wraps the failure with its URL removed.
    fn from(value: reqwest::Error) -> (r: Self) {
        ReqwestDesensitizedError(remote::strip_url(value))
    }
}

impl vstd::std_specs::convert::FromSpecImpl<reqwest::Error> for ReqwestDesensitizedError {
    open spec fn obeys_from_spec() -> bool {
        false
    }

    closed spec fn from_spec(value: reqwest::Error) -> ReqwestDesensitizedError {
        ReqwestDesensitizedError(value)
    }
}

impl ReqwestDesensitizedError {
    /// The failure's textual rendering.
    pub fn message(&self) -> String {
        remote::reqwest_error_text(&self.0)
    }
}

/// A classified failure of the send path.
#[derive(Debug)]
pub enum DeliveryError {
    /// An invalid URL was used.
    ParseUrl(url::ParseError),
    /// Sending the HTTP request failed before a response arrived.
    SendRequest(ReqwestDesensitizedError),
    /// The remote service rejected the request, with its description of why
    /// when one was given.
    TelegramApi(Option<String>),
}

impl DeliveryError {
    /// The error's textual rendering.
    pub fn message(&self) -> (r: String)
        ensures
            (self matches DeliveryError::TelegramApi(Some(d)) ==> r@ == "Telegram API error: "@ + d@),
            (self matches DeliveryError::TelegramApi(None::<String>) ==> r@ == "Telegram API error"@),
    {
        match self {
            DeliveryError::ParseUrl(e) => {
                let mut s = String::from_str("failed to parse URL: ");
                s.append(remote::parse_error_text(e).as_str());
                s
            },
            DeliveryError::SendRequest(e) => {
                let mut s = String::from_str("failed to send HTTP request: ");
                s.append(e.message().as_str());
                s
            },
            DeliveryError::TelegramApi(Some(d)) => {
                let mut s = String::from_str("Telegram API error: ");
                s.append(d.as_str());
                s
            },
            DeliveryError::TelegramApi(None) => String::from_str("Telegram API error"),
        }
    }
}

} // verus!
