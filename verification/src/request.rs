//! The request payload shape, the delivery client, and the classification of
//! what the remote service answers.

use crate::error::DeliveryError;
use crate::json::{
    render_object, FieldModel, JsonField, JsonObject, JsonScalar, ScalarModel,
};
use crate::recipient::{Recipient, TargetChat};
use crate::remote;
use vstd::prelude::*;
use vstd::string::StringExecFns;

verus! {

broadcast use vstd::string::group_string_axioms;

/// How a target chat appears in the payload: a raw number or a raw string.
pub open spec fn target_scalar(t: TargetChat) -> ScalarModel {
    match t {
        TargetChat::Id(id) => ScalarModel::Int(id as int),
        TargetChat::Username(u) => ScalarModel::Str(u@),
    }
}

/// How the thread field appears: the thread id, or JSON null when there is
/// none — the field is always present.
pub open spec fn thread_scalar(thread_id: Option<u64>) -> ScalarModel {
    match thread_id {
        None => ScalarModel::Null,
        Some(id) => ScalarModel::Int(id as int),
    }
}

/// How the chat override inside `reply_parameters` appears: the overriding
/// chat, or JSON null when the reply stays in the recipient's own chat.
pub open spec fn reply_chat_scalar(target: Option<TargetChat>) -> ScalarModel {
    match target {
        None => ScalarModel::Null,
        Some(t) => target_scalar(t),
    }
}

/// The `reply_parameters` object for a configured reply.
pub open spec fn reply_field(message_id: u64, target: Option<TargetChat>) -> FieldModel {
    FieldModel::Object(
        seq![
            ("message_id"@, ScalarModel::Int(message_id as int)),
            ("chat_id"@, reply_chat_scalar(target)),
        ],
    )
}

/// The request object for a recipient, with the two per-record fields given.
///
/// `reply_parameters` is a field of the object if and only if a reply was
/// configured; it is never JSON null, which the remote service rejects.
pub open spec fn request_entries(
    r: Recipient,
    text: ScalarModel,
    disable_notification: ScalarModel,
) -> Seq<(Seq<char>, FieldModel)> {
    let fixed = seq![
        ("chat_id"@, FieldModel::Scalar(target_scalar(r.target))),
        ("message_thread_id"@, FieldModel::Scalar(thread_scalar(r.thread_id))),
        ("text"@, FieldModel::Scalar(text)),
        (
            "link_preview_options"@,
            FieldModel::Object(seq![("is_disabled"@, ScalarModel::Bool(true))]),
        ),
        ("disable_notification"@, FieldModel::Scalar(disable_notification)),
    ];
    match r.reply_to {
        None => fixed,
        Some((message_id, target)) => fixed.push(
            ("reply_parameters"@, reply_field(message_id, target)),
        ),
    }
}

/// The immutable payload skeleton: the request object before any record is
/// sent, with `text` and `disable_notification` still JSON null.
pub open spec fn skeleton_model(r: Recipient) -> Seq<(Seq<char>, FieldModel)> {
    request_entries(r, ScalarModel::Null, ScalarModel::Null)
}

/// The payload for one record: the skeleton with `text` and
/// `disable_notification` filled in.
pub open spec fn payload_model(r: Recipient, text: Seq<char>, disable_notification: bool) -> Seq<
    (Seq<char>, FieldModel),
> {
    request_entries(r, ScalarModel::Str(text), ScalarModel::Bool(disable_notification))
}

/// The first field of the object with the given name, if any.
pub open spec fn lookup_field(es: Seq<(Seq<char>, FieldModel)>, key: Seq<char>) -> Option<
    FieldModel,
>
    decreases es.len(),
{
    if es.len() == 0 {
        None
    } else if es[0].0 == key {
        Some(es[0].1)
    } else {
        lookup_field(es.drop_first(), key)
    }
}

/// The fixed field names' lengths and first characters, enough to tell any
/// two of them apart.
proof fn lemma_key_facts()
    ensures
        "chat_id"@.len() == 7,
        "message_thread_id"@.len() == 17,
        "text"@.len() == 4,
        "link_preview_options"@.len() == 20,
        "disable_notification"@.len() == 20,
        "reply_parameters"@.len() == 16,
        "link_preview_options"@[0] == 'l',
        "disable_notification"@[0] == 'd',
{
    reveal_strlit("chat_id");
    reveal_strlit("message_thread_id");
    reveal_strlit("text");
    reveal_strlit("link_preview_options");
    reveal_strlit("disable_notification");
    reveal_strlit("reply_parameters");
}

/// Walks the five fixed fields when looking a key up, so lookups into a
/// request object reduce to the key's place among the fixed names.
proof fn lemma_lookup_request(r: Recipient, text: ScalarModel, disable: ScalarModel, key: Seq<char>)
    requires
        key != "chat_id"@,
        key != "message_thread_id"@,
        key != "text"@,
        key != "link_preview_options"@,
        key != "disable_notification"@,
    ensures
        lookup_field(request_entries(r, text, disable), key) == (match r.reply_to {
            Some((message_id, target)) => if key == "reply_parameters"@ {
                Some(reply_field(message_id, target))
            } else {
                None::<FieldModel>
            },
            None => None::<FieldModel>,
        }),
{
    let es = request_entries(r, text, disable);
    let es1 = es.drop_first();
    let es2 = es1.drop_first();
    let es3 = es2.drop_first();
    let es4 = es3.drop_first();
    let es5 = es4.drop_first();
    assert(lookup_field(es, key) == lookup_field(es1, key));
    assert(lookup_field(es1, key) == lookup_field(es2, key));
    assert(lookup_field(es2, key) == lookup_field(es3, key));
    assert(lookup_field(es3, key) == lookup_field(es4, key));
    assert(lookup_field(es4, key) == lookup_field(es5, key));
    match r.reply_to {
        None => {
            assert(es5.len() == 0);
        },
        Some((message_id, target)) => {
            assert(es5.len() == 1);
            assert(es5[0] == ("reply_parameters"@, reply_field(message_id, target)));
            assert(lookup_field(es5.drop_first(), key) == None::<FieldModel>);
        },
    }
}

/// When a reply was configured without a cross-chat override, the built
/// request's `reply_parameters` holds the supplied message id and a JSON-null
/// `chat_id`.
pub proof fn lemma_reply_same_chat(
    r: Recipient,
    text: ScalarModel,
    disable: ScalarModel,
    message_id: u64,
)
    requires
        r.reply_to == Some((message_id, None::<TargetChat>)),
    ensures
        lookup_field(request_entries(r, text, disable), "reply_parameters"@) == Some(
            FieldModel::Object(
                seq![
                    ("message_id"@, ScalarModel::Int(message_id as int)),
                    ("chat_id"@, ScalarModel::Null),
                ],
            ),
        ),
{
    lemma_key_facts();
    lemma_lookup_request(r, text, disable, "reply_parameters"@);
}

/// When a reply was configured with a cross-chat override, the built
/// request's `reply_parameters` holds the supplied message id and the
/// overriding chat.
pub proof fn lemma_reply_other_chat(
    r: Recipient,
    text: ScalarModel,
    disable: ScalarModel,
    message_id: u64,
    target: TargetChat,
)
    requires
        r.reply_to == Some((message_id, Some(target))),
    ensures
        lookup_field(request_entries(r, text, disable), "reply_parameters"@) == Some(
            FieldModel::Object(
                seq![
                    ("message_id"@, ScalarModel::Int(message_id as int)),
                    ("chat_id"@, target_scalar(target)),
                ],
            ),
        ),
{
    lemma_key_facts();
    lemma_lookup_request(r, text, disable, "reply_parameters"@);
}

/// When no reply was configured, the built request has no `reply_parameters`
/// field at all — absent, not JSON null.
pub proof fn lemma_reply_absent(r: Recipient, text: ScalarModel, disable: ScalarModel)
    requires
        r.reply_to is None,
    ensures
        lookup_field(request_entries(r, text, disable), "reply_parameters"@) is None,
{
    lemma_key_facts();
    lemma_lookup_request(r, text, disable, "reply_parameters"@);
}

/// Whether or not a thread id was supplied, the built request has a
/// `message_thread_id` field: the id, or JSON null when there is none.
pub proof fn lemma_thread_field(r: Recipient, text: ScalarModel, disable: ScalarModel)
    ensures
        lookup_field(request_entries(r, text, disable), "message_thread_id"@) == Some(
            FieldModel::Scalar(thread_scalar(r.thread_id)),
        ),
{
    lemma_key_facts();
    let es = request_entries(r, text, disable);
    assert(lookup_field(es, "message_thread_id"@) == lookup_field(
        es.drop_first(),
        "message_thread_id"@,
    ));
    assert(es.drop_first()[0] == ("message_thread_id"@, FieldModel::Scalar(
        thread_scalar(r.thread_id),
    )));
}

/// In the payload built for one record, `chat_id` holds the recipient's
/// target, `text` holds the record's text, and `disable_notification` holds
/// the computed flag.
pub proof fn lemma_payload_fields(r: Recipient, text: Seq<char>, disable: bool)
    ensures
        lookup_field(payload_model(r, text, disable), "chat_id"@) == Some(
            FieldModel::Scalar(target_scalar(r.target)),
        ),
        lookup_field(payload_model(r, text, disable), "text"@) == Some(
            FieldModel::Scalar(ScalarModel::Str(text)),
        ),
        lookup_field(payload_model(r, text, disable), "disable_notification"@) == Some(
            FieldModel::Scalar(ScalarModel::Bool(disable)),
        ),
{
    lemma_key_facts();
    let es = payload_model(r, text, disable);
    let es1 = es.drop_first();
    let es2 = es1.drop_first();
    let es3 = es2.drop_first();
    assert(es[0].0 == "chat_id"@);
    assert(lookup_field(es, "text"@) == lookup_field(es1, "text"@));
    assert(es1[0] == es[1]);
    assert(lookup_field(es1, "text"@) == lookup_field(es2, "text"@));
    assert(es2[0] == es[2]);
    assert(lookup_field(es, "disable_notification"@) == lookup_field(es1, "disable_notification"@));
    assert(lookup_field(es1, "disable_notification"@) == lookup_field(
        es2,
        "disable_notification"@,
    ));
    assert(lookup_field(es2, "disable_notification"@) == lookup_field(
        es3,
        "disable_notification"@,
    ));
    assert(es3[0] == es[3]);
    assert(lookup_field(es3, "disable_notification"@) == lookup_field(
        es3.drop_first(),
        "disable_notification"@,
    ));
    assert(es3.drop_first()[0] == es[4]);
}

/// How a target chat is turned into its payload scalar.
fn target_json(t: &TargetChat) -> (v: JsonScalar)
    ensures
        v@ == target_scalar(*t),
{
    match t {
        TargetChat::Id(id) => JsonScalar::Int(*id),
        TargetChat::Username(u) => JsonScalar::Str(u.clone()),
    }
}

/// Builds the request object for a recipient with the given per-record
/// scalars in its `text` and `disable_notification` fields.
fn request_object(r: &Recipient, text: JsonScalar, disable_notification: JsonScalar) -> (o:
    JsonObject)
    ensures
        o@ == request_entries(*r, text@, disable_notification@),
{
    let ghost text_model = text@;
    let ghost disable_model = disable_notification@;
    let mut entries: Vec<(String, JsonField)> = Vec::new();
    entries.push((String::from_str("chat_id"), JsonField::Scalar(target_json(&r.target))));
    let thread = match &r.thread_id {
        None => JsonScalar::Null,
        Some(id) => JsonScalar::UInt(*id),
    };
    entries.push((String::from_str("message_thread_id"), JsonField::Scalar(thread)));
    entries.push((String::from_str("text"), JsonField::Scalar(text)));
    let mut preview: Vec<(String, JsonScalar)> = Vec::new();
    preview.push((String::from_str("is_disabled"), JsonScalar::Bool(true)));
    proof {
        assert(crate::json::scalar_entries_model(preview@) =~= seq![
            ("is_disabled"@, ScalarModel::Bool(true)),
        ]);
    }
    entries.push((String::from_str("link_preview_options"), JsonField::Object(preview)));
    entries.push((
        String::from_str("disable_notification"),
        JsonField::Scalar(disable_notification),
    ));
    match &r.reply_to {
        None => {},
        Some((message_id, target)) => {
            let mut reply: Vec<(String, JsonScalar)> = Vec::new();
            reply.push((String::from_str("message_id"), JsonScalar::UInt(*message_id)));
            let chat = match target {
                None => JsonScalar::Null,
                Some(t) => target_json(t),
            };
            reply.push((String::from_str("chat_id"), chat));
            proof {
                assert(crate::json::scalar_entries_model(reply@) =~= seq![
                    ("message_id"@, ScalarModel::Int(*message_id as int)),
                    ("chat_id"@, reply_chat_scalar(r.reply_to->Some_0.1)),
                ]);
            }
            entries.push((String::from_str("reply_parameters"), JsonField::Object(reply)));
        },
    }
    let o = JsonObject { entries };
    proof {
        assert(o@ =~= request_entries(*r, text_model, disable_model));
    }
    o
}

/// Builds the immutable payload skeleton for a recipient.
pub fn skeleton_object(r: &Recipient) -> (o: JsonObject)
    ensures
        o@ == skeleton_model(*r),
{
    request_object(r, JsonScalar::Null, JsonScalar::Null)
}

/// Builds the payload for one record and renders it as the request body.
pub fn payload_body(r: &Recipient, text: &str, disable_notification: bool) -> (body: String)
    ensures
        body@ == crate::json::object_text(payload_model(*r, text@, disable_notification)),
{
    let o = request_object(
        r,
        JsonScalar::Str(String::from_str(text)),
        JsonScalar::Bool(disable_notification),
    );
    render_object(&o)
}

/// Classifies the two facts read from a response: delivery succeeded exactly
/// when the HTTP status was a success and the body's `ok` field was true;
/// anything else is a remote rejection carrying the body's description.
pub fn classify_response(status_success: bool, ok: bool, description: Option<String>) -> (r:
    Result<(), DeliveryError>)
    ensures
        r is Ok <==> (status_success && ok),
        !(status_success && ok) ==> (r matches Err(DeliveryError::TelegramApi(d)) && d == description),
{
    if status_success && ok {
        Ok(())
    } else {
        Err(DeliveryError::TelegramApi(description))
    }
}

/// Whether a response body reads as `ok`: it parses as JSON, has an `ok`
/// member, and that member is the boolean true. A body that is not valid
/// JSON, or not a JSON object, counts as `ok` being false.
pub open spec fn body_ok(body: Seq<char>) -> bool {
    match remote::parsed_json(body) {
        None => false,
        Some(value) => match remote::json_member(value, "ok"@) {
            None => false,
            Some(member) => match remote::json_bool(member) {
                None => false,
                Some(b) => b,
            },
        },
    }
}

/// The description a response body carries: its `description` member's text,
/// when the body parses as an object that has one.
pub open spec fn body_description(body: Seq<char>) -> Option<Seq<char>> {
    match remote::parsed_json(body) {
        None => None,
        Some(value) => match remote::json_member(value, "description"@) {
            None => None,
            Some(member) => remote::json_str(member),
        },
    }
}

/// Reads `ok` and `description` out of a response body and classifies the
/// outcome: delivery succeeded exactly when the HTTP status was a success
/// and the body reads as `ok`; anything else is a remote rejection carrying
/// the body's description.
pub fn classify_body(status_success: bool, body: &str) -> (r: Result<(), DeliveryError>)
    ensures
        r is Ok <==> (status_success && body_ok(body@)),
        !(status_success && body_ok(body@)) ==> (r matches Err(DeliveryError::TelegramApi(d)) && (
        match d {
            Some(t) => body_description(body@) == Some(t@),
            None => body_description(body@) is None,
        })),
{
    let parsed = remote::parse_json(body);
    let (ok, description) = match &parsed {
        Some(value) => {
            let ok = match remote::json_get(value, "ok") {
                Some(member) => match remote::json_as_bool(member) {
                    Some(b) => b,
                    None => false,
                },
                None => false,
            };
            let description = match remote::json_get(value, "description") {
                Some(member) => remote::json_as_str(member),
                None => None,
            };
            (ok, description)
        },
        None => (false, None),
    };
    classify_response(status_success, ok, description)
}

/// The send path that a server URL and a bot token name: the fully qualified
/// endpoint is their join.
pub open spec fn bot_path(bot_token: Seq<char>) -> Seq<char> {
    "/bot"@ + bot_token + "/sendMessage"@
}

/// The delivery client: one HTTP client, the resolved endpoint, and the
/// recipient whose payload skeleton every send shares.
pub struct Requester {
    client: reqwest::blocking::Client,
    endpoint: url::Url,
    recipient: Recipient,
}

impl Requester {
    /// The recipient this client delivers to.
    pub closed spec fn spec_recipient(&self) -> Recipient {
        self.recipient
    }

    /// The endpoint this client posts to.
    pub closed spec fn spec_endpoint(&self) -> url::Url {
        self.endpoint
    }

    /// Builds the delivery client: joins the server URL with the path
    /// `/bot{token}/sendMessage` and keeps the recipient's payload data.
    ///
    /// It succeeds exactly when that join succeeds, with the join's result as
    /// the endpoint; a failing join is a URL-parse failure. No network I/O
    /// happens here.
    pub fn new(server_url: url::Url, bot_token: &str, recipient: Recipient) -> (r: Result<
        Requester,
        DeliveryError,
    >)
        ensures
            (match remote::url_join_of(server_url, bot_path(bot_token@)) {
                Ok(endpoint) => r matches Ok(q) && q.spec_endpoint() == endpoint
                    && q.spec_recipient() == recipient,
                Err(e) => r == Err::<Requester, DeliveryError>(DeliveryError::ParseUrl(e)),
            }),
    {
        let mut path = String::from_str("/bot");
        path.append(bot_token);
        path.append("/sendMessage");
        match remote::url_join(&server_url, path.as_str()) {
            Ok(endpoint) => Ok(
                Requester { client: remote::client_new(), endpoint, recipient },
            ),
            Err(e) => Err(DeliveryError::ParseUrl(e)),
        }
    }

    /// One delivery attempt: renders the payload for `text` and the flag,
    /// posts it as JSON, and classifies the outcome.
    ///
    /// A failure before a response arrives is a transport failure; a response
    /// is classified by [`classify_body`], with an unreadable body counting
    /// as `ok` being false.
    pub fn send_log(&self, text: &str, disable_notification: bool) -> (r: Result<(), DeliveryError>)
        ensures
            r is Err ==> (r matches Err(DeliveryError::SendRequest(_)) || r matches Err(
                DeliveryError::TelegramApi(_),
            )),
    {
        let body = payload_body(&self.recipient, text, disable_notification);
        let builder = remote::client_post(&self.client, &self.endpoint);
        let builder = remote::request_header(builder, "content-type", "application/json");
        let builder = remote::request_body(builder, body);
        match remote::request_send(builder) {
            Err(e) => Err(DeliveryError::SendRequest(e.into())),
            Ok(response) => {
                let status = remote::response_status(&response);
                let status_success = remote::status_is_success(&status);
                match remote::response_text(response) {
                    Ok(body_text) => classify_body(status_success, body_text.as_str()),
                    Err(_) => classify_response(status_success, false, None),
                }
            },
        }
    }
}

} // verus!
