use spdlog_telegram::{Recipient, TargetChat};

fn echo(r: impl Into<Recipient>) -> Recipient {
    r.into()
}

#[test]
fn from_into() {
    assert_eq!(echo(-1001234567890), Recipient::chat_id(-1001234567890));
    assert_eq!(echo("@username"), Recipient::username("@username"));
}

#[test]
fn builder_collects_all_pieces() {
    let r = Recipient::builder().chat_id(-1001234567890).thread_id(114).reply_to(514).build();
    assert_eq!(r.target, TargetChat::Id(-1001234567890));
    assert_eq!(r.thread_id, Some(114));
    assert_eq!(r.reply_to, Some((514, None)));
}

#[test]
fn builder_last_target_wins() {
    // the documented permissive choice: a later target overwrites an earlier one
    let r = Recipient::builder().username("@a").chat_id(7).build();
    assert_eq!(r.target, TargetChat::Id(7));
}

#[test]
fn builder_cross_chat_replies() {
    let r = Recipient::builder().chat_id(1).reply_to_diff_chat_id(514, -42).build();
    assert_eq!(r.reply_to, Some((514, Some(TargetChat::Id(-42)))));
    let r = Recipient::builder().chat_id(1).reply_to_diff_username(514, "@other").build();
    assert_eq!(r.reply_to, Some((514, Some(TargetChat::Username(String::from("@other"))))));
}

#[test]
fn from_string_matches_username() {
    assert_eq!(Recipient::from(String::from("@username")), Recipient::username("@username"));
}

#[test]
fn conversions_cover_the_string_forms() {
    let expected = Recipient::username("@username");
    assert_eq!(echo(String::from("@username").into_boxed_str()), expected);
    assert_eq!(echo(std::borrow::Cow::Borrowed("@username")), expected);
    assert_eq!(echo(std::borrow::Cow::Owned(String::from("@username"))), expected);
    assert_eq!(echo(&String::from("@username")), expected);
    let mut owned = String::from("@username");
    assert_eq!(echo(owned.as_mut_str()), expected);
}
