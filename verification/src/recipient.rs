//! The recipient addressing model: the chat a message goes to, an optional
//! message thread inside it, and an optional reply target.

use vstd::prelude::*;
use vstd::string::StringExecFns;

verus! {

/// The chat a message is addressed to: a numeric chat identifier or a public
/// username, expected to begin with `@`.
#[derive(Debug, PartialEq, Eq)]
pub enum TargetChat {
    /// A numeric chat identifier.
    Id(i64),
    /// A public username.
    Username(String),
}

impl TargetChat {
    /// A target chat given by its numeric identifier.
    pub fn id(chat_id: i64) -> (t: TargetChat)
        ensures
            t == TargetChat::Id(chat_id),
    {
        TargetChat::Id(chat_id)
    }

    /// A target chat given by its public username.
    pub fn username(username: String) -> (t: TargetChat)
        ensures
            t == TargetChat::Username(username),
    {
        TargetChat::Username(username)
    }
}

/// A Telegram chat recipient.
///
/// Besides the chat itself, it can carry a message thread identifier and a
/// reply target. A reply target names the message replied to and, when the
/// reply crosses into another chat, that chat; `None` there means the reply
/// stays in the recipient's own chat.
#[derive(Debug, PartialEq, Eq)]
pub struct Recipient {
    /// The addressed chat.
    pub target: TargetChat,
    /// The message thread to post into, if any.
    pub thread_id: Option<u64>,
    /// The message replied to and, for a cross-chat reply, its chat.
    pub reply_to: Option<(u64, Option<TargetChat>)>,
}

impl Recipient {
    /// Gets a builder for `Recipient`.
    pub fn builder() -> (b: RecipientBuilder<()>)
        ensures
            b.thread_id is None,
            b.reply_to is None,
    {
        RecipientBuilder { target: (), thread_id: None, reply_to: None }
    }

    /// Constructs a `Recipient` from a chat ID.
    ///
    /// This is equivalent to `Recipient::builder().chat_id(chat_id).build()`.
    pub fn chat_id(chat_id: i64) -> (r: Self)
        ensures
            r == (Recipient { target: TargetChat::Id(chat_id), thread_id: None, reply_to: None }),
    {
        Self::builder().chat_id(chat_id).build()
    }

    /// Constructs a `Recipient` from a username.
    ///
    /// This is equivalent to `Recipient::builder().username(username).build()`.
    pub fn username(username: &str) -> (r: Self)
        ensures
            r.thread_id is None,
            r.reply_to is None,
            (r.target matches TargetChat::Username(u) && u@ == username@),
    {
        Self::builder().username(username).build()
    }
}

impl From<i64> for Recipient {
    /// A chat identifier converts to the recipient that addresses that chat.
    fn from(chat_id: i64) -> (r: Self) {
        Self::chat_id(chat_id)
    }
}

impl vstd::std_specs::convert::FromSpecImpl<i64> for Recipient {
    open spec fn obeys_from_spec() -> bool {
        true
    }

    open spec fn from_spec(chat_id: i64) -> Recipient {
        Recipient { target: TargetChat::Id(chat_id), thread_id: None, reply_to: None }
    }
}

impl<'a> From<&'a str> for Recipient {
    /// A string converts to the recipient that addresses that username.
    fn from(username: &'a str) -> (r: Self) {
        Self::username(username)
    }
}

impl<'a> vstd::std_specs::convert::FromSpecImpl<&'a str> for Recipient {
    open spec fn obeys_from_spec() -> bool {
        false
    }

    open spec fn from_spec(username: &'a str) -> Recipient {
        Recipient { target: TargetChat::Id(0), thread_id: None, reply_to: None }
    }
}

impl From<String> for Recipient {
    /// A string converts to the recipient that addresses that username.
    fn from(username: String) -> (r: Self) {
        Recipient { target: TargetChat::Username(username), thread_id: None, reply_to: None }
    }
}

impl vstd::std_specs::convert::FromSpecImpl<String> for Recipient {
    open spec fn obeys_from_spec() -> bool {
        true
    }

    open spec fn from_spec(username: String) -> Recipient {
        Recipient { target: TargetChat::Username(username), thread_id: None, reply_to: None }
    }
}

impl<'a> From<&'a mut str> for Recipient {
    /// A string converts to the recipient that addresses that username.
    fn from(username: &'a mut str) -> (r: Self) {
        Self::username(username)
    }
}

impl<'a> vstd::std_specs::convert::FromSpecImpl<&'a mut str> for Recipient {
    open spec fn obeys_from_spec() -> bool {
        false
    }

    open spec fn from_spec(username: &'a mut str) -> Recipient {
        Recipient { target: TargetChat::Id(0), thread_id: None, reply_to: None }
    }
}

impl From<Box<str>> for Recipient {
    /// A string converts to the recipient that addresses that username.
    fn from(username: Box<str>) -> (r: Self) {
        Self::username(&username)
    }
}

impl vstd::std_specs::convert::FromSpecImpl<Box<str>> for Recipient {
    open spec fn obeys_from_spec() -> bool {
        false
    }

    open spec fn from_spec(username: Box<str>) -> Recipient {
        Recipient { target: TargetChat::Id(0), thread_id: None, reply_to: None }
    }
}

impl<'a> From<std::borrow::Cow<'a, str>> for Recipient {
    /// A string converts to the recipient that addresses that username.
    fn from(username: std::borrow::Cow<'a, str>) -> (r: Self) {
        match username {
            std::borrow::Cow::Borrowed(s) => Self::username(s),
            std::borrow::Cow::Owned(s) => Recipient {
                target: TargetChat::Username(s),
                thread_id: None,
                reply_to: None,
            },
        }
    }
}

impl<'a> vstd::std_specs::convert::FromSpecImpl<std::borrow::Cow<'a, str>> for Recipient {
    open spec fn obeys_from_spec() -> bool {
        false
    }

    open spec fn from_spec(username: std::borrow::Cow<'a, str>) -> Recipient {
        Recipient { target: TargetChat::Id(0), thread_id: None, reply_to: None }
    }
}

impl<'a> From<&'a String> for Recipient {
    /// A string converts to the recipient that addresses that username.
    fn from(username: &'a String) -> (r: Self) {
        Recipient { target: TargetChat::Username(username.clone()), thread_id: None, reply_to: None }
    }
}

impl<'a> vstd::std_specs::convert::FromSpecImpl<&'a String> for Recipient {
    open spec fn obeys_from_spec() -> bool {
        true
    }

    open spec fn from_spec(username: &'a String) -> Recipient {
        Recipient { target: TargetChat::Username(*username), thread_id: None, reply_to: None }
    }
}

/// Assembles a [`Recipient`] step by step.
///
/// The chat target is the one required piece: `build` is only offered once
/// `chat_id` or `username` has been supplied, which the `ArgC` parameter
/// records at the type level.
pub struct RecipientBuilder<ArgC> {
    /// The addressed chat, or `()` while none has been supplied.
    pub target: ArgC,
    /// The message thread to post into, if any.
    pub thread_id: Option<u64>,
    /// The message replied to and, for a cross-chat reply, its chat.
    pub reply_to: Option<(u64, Option<TargetChat>)>,
}

impl<ArgC> RecipientBuilder<ArgC> {
    /// Addresses the recipient by a numeric chat identifier.
    ///
    /// A later `chat_id` or `username` call overwrites an earlier one.
    pub fn chat_id(self, chat_id: i64) -> (b: RecipientBuilder<TargetChat>)
        ensures
            b.target == TargetChat::Id(chat_id),
            b.thread_id == self.thread_id,
            b.reply_to == self.reply_to,
    {
        RecipientBuilder {
            target: TargetChat::id(chat_id),
            thread_id: self.thread_id,
            reply_to: self.reply_to,
        }
    }

    /// Addresses the recipient by a public username.
    ///
    /// A later `chat_id` or `username` call overwrites an earlier one.
    pub fn username(self, username: &str) -> (b: RecipientBuilder<TargetChat>)
        ensures
            (b.target matches TargetChat::Username(u) && u@ == username@),
            b.thread_id == self.thread_id,
            b.reply_to == self.reply_to,
    {
        RecipientBuilder {
            target: TargetChat::username(String::from_str(username)),
            thread_id: self.thread_id,
            reply_to: self.reply_to,
        }
    }

    /// Posts into the given message thread.
    pub fn thread_id(self, thread_id: u64) -> (b: Self)
        ensures
            b.target == self.target,
            b.thread_id == Some(thread_id),
            b.reply_to == self.reply_to,
    {
        Self { thread_id: Some(thread_id), ..self }
    }

    /// Replies to the given message in the recipient's own chat.
    pub fn reply_to(self, message_id: u64) -> (b: Self)
        ensures
            b.target == self.target,
            b.thread_id == self.thread_id,
            b.reply_to == Some((message_id, None::<TargetChat>)),
    {
        Self { reply_to: Some((message_id, None)), ..self }
    }

    /// Replies to the given message in another chat, named by its identifier.
    pub fn reply_to_diff_chat_id(self, message_id: u64, chat_id: i64) -> (b: Self)
        ensures
            b.target == self.target,
            b.thread_id == self.thread_id,
            b.reply_to == Some((message_id, Some(TargetChat::Id(chat_id)))),
    {
        Self { reply_to: Some((message_id, Some(TargetChat::id(chat_id)))), ..self }
    }

    /// Replies to the given message in another chat, named by its username.
    pub fn reply_to_diff_username(self, message_id: u64, chat_username: &str) -> (b: Self)
        ensures
            b.target == self.target,
            b.thread_id == self.thread_id,
            (b.reply_to matches Some((m, Some(TargetChat::Username(u)))) && m == message_id
                && u@ == chat_username@),
    {
        Self {
            reply_to: Some((message_id, Some(TargetChat::username(String::from_str(chat_username))))),
            ..self
        }
    }
}

impl RecipientBuilder<TargetChat> {
    /// Builds the recipient from the supplied pieces.
    pub fn build(self) -> (r: Recipient)
        ensures
            r == (Recipient {
                target: self.target,
                thread_id: self.thread_id,
                reply_to: self.reply_to,
            }),
    {
        Recipient { target: self.target, thread_id: self.thread_id, reply_to: self.reply_to }
    }
}

/// A recipient obtained from a chat identifier through the numeric conversion
/// equals the one that `Recipient::chat_id` constructs.
pub proof fn lemma_from_chat_id_agrees(chat_id: i64)
    ensures
        <Recipient as vstd::std_specs::convert::FromSpec<i64>>::from_spec(chat_id)
            == (Recipient { target: TargetChat::Id(chat_id), thread_id: None, reply_to: None }),
{
}

} // verus!
