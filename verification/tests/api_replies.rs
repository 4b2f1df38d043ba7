use inote::api::{ApiError, InstagramClient};
use inote::config::SessionConfig;
use inote::json::{JsonMember, JsonValue};

fn obj(members: Vec<(&str, JsonValue)>) -> JsonValue {
    JsonValue::Object(
        members
            .into_iter()
            .map(|(k, v)| JsonMember { key: k.to_string(), value: v })
            .collect(),
    )
}

fn arr(items: Vec<JsonValue>) -> JsonValue {
    JsonValue::Array(items)
}

fn s(text: &str) -> JsonValue {
    JsonValue::Str(text.to_string())
}

fn num(text: &str) -> JsonValue {
    JsonValue::Number(text.to_string())
}

fn inbox(threads: Vec<JsonValue>) -> JsonValue {
    obj(vec![("inbox", obj(vec![("threads", arr(threads))]))])
}

// ── Thread parsing tests ────────────────────────────────────────────

#[test]
fn parse_threads_empty_inbox() {
    let body = inbox(vec![]);
    let threads = InstagramClient::parse_threads_response(&body);
    assert!(threads.is_empty());
}

#[test]
fn parse_threads_missing_inbox() {
    let body = obj(vec![]);
    let threads = InstagramClient::parse_threads_response(&body);
    assert!(threads.is_empty());
}

#[test]
fn parse_threads_basic() {
    let body = inbox(vec![obj(vec![
        ("thread_id", s("thread_001")),
        ("thread_title", s("Alice")),
        ("users", arr(vec![obj(vec![("username", s("alice"))])])),
        ("items", arr(vec![obj(vec![("text", s("hey there"))])])),
    ])]);
    let threads = InstagramClient::parse_threads_response(&body);
    assert_eq!(threads.len(), 1);
    assert_eq!(threads[0].thread_id, "thread_001");
    assert_eq!(threads[0].thread_title, "Alice");
    assert_eq!(threads[0].usernames, vec!["alice"]);
    assert_eq!(threads[0].last_message, "hey there");
}

#[test]
fn parse_threads_empty_title_falls_back_to_usernames() {
    let body = inbox(vec![obj(vec![
        ("thread_id", s("t1")),
        ("thread_title", s("")),
        ("users", arr(vec![obj(vec![("username", s("bob"))]), obj(vec![("username", s("carol"))])])),
        ("items", arr(vec![obj(vec![("text", s("hello"))])])),
    ])]);
    let threads = InstagramClient::parse_threads_response(&body);
    assert_eq!(threads[0].thread_title, "bob, carol");
}

#[test]
fn parse_threads_media_item_falls_back_to_type() {
    let body = inbox(vec![obj(vec![
        ("thread_id", s("t1")),
        ("thread_title", s("Alice")),
        ("users", arr(vec![obj(vec![("username", s("alice"))])])),
        ("items", arr(vec![obj(vec![("item_type", s("reel_share"))])])),
    ])]);
    let threads = InstagramClient::parse_threads_response(&body);
    assert_eq!(threads[0].last_message, "reel_share");
}

#[test]
fn parse_threads_no_items_shows_media() {
    let body = inbox(vec![obj(vec![
        ("thread_id", s("t1")),
        ("thread_title", s("Alice")),
        ("users", arr(vec![])),
        ("items", arr(vec![])),
    ])]);
    let threads = InstagramClient::parse_threads_response(&body);
    assert_eq!(threads[0].last_message, "[media]");
}

#[test]
fn parse_threads_multiple() {
    let body = inbox(vec![
        obj(vec![
            ("thread_id", s("t1")),
            ("thread_title", s("Alice")),
            ("users", arr(vec![obj(vec![("username", s("alice"))])])),
            ("items", arr(vec![obj(vec![("text", s("hi"))])])),
        ]),
        obj(vec![
            ("thread_id", s("t2")),
            ("thread_title", s("Bob")),
            ("users", arr(vec![obj(vec![("username", s("bob"))])])),
            ("items", arr(vec![obj(vec![("text", s("yo"))])])),
        ]),
    ]);
    let threads = InstagramClient::parse_threads_response(&body);
    assert_eq!(threads.len(), 2);
    assert_eq!(threads[0].thread_id, "t1");
    assert_eq!(threads[1].thread_id, "t2");
}

#[test]
fn parse_threads_odd_shapes() {
    // A thread that is not an object, users without names, a missing title.
    let body = inbox(vec![
        num("3"),
        obj(vec![
            ("users", arr(vec![num("1"), obj(vec![("username", num("9"))]), obj(vec![("username", s("dee"))])])),
            ("items", s("not a list")),
        ]),
    ]);
    let threads = InstagramClient::parse_threads_response(&body);
    assert_eq!(threads.len(), 2);
    assert_eq!(threads[0].thread_id, "");
    assert_eq!(threads[0].thread_title, "");
    assert!(threads[0].usernames.is_empty());
    assert_eq!(threads[0].last_message, "[media]");
    assert_eq!(threads[1].usernames, vec!["dee"]);
    assert_eq!(threads[1].thread_title, "dee");
    // `inbox.threads` that is not an array gives nothing.
    let body = obj(vec![("inbox", obj(vec![("threads", obj(vec![]))]))]);
    assert!(InstagramClient::parse_threads_response(&body).is_empty());
}

// ── Message parsing tests ───────────────────────────────────────────

#[test]
fn parse_messages_empty_thread() {
    let body = obj(vec![("thread", obj(vec![("thread_title", s("Alice")), ("items", arr(vec![])), ("users", arr(vec![]))]))]);
    let (msgs, title) = InstagramClient::parse_messages_response(&body, "999");
    assert!(msgs.is_empty());
    assert_eq!(title, "Alice");
}

#[test]
fn parse_messages_identifies_sender() {
    let body = obj(vec![("thread", obj(vec![
        ("thread_title", s("Alice")),
        ("users", arr(vec![obj(vec![("pk", num("111")), ("username", s("alice"))])])),
        ("items", arr(vec![
            obj(vec![("user_id", num("999")), ("text", s("from me"))]),
            obj(vec![("user_id", num("111")), ("text", s("from alice"))]),
        ])),
    ]))]);
    let (msgs, _) = InstagramClient::parse_messages_response(&body, "999");
    assert_eq!(msgs.len(), 2);
    assert!(msgs[0].is_sender);
    assert_eq!(msgs[0].text, "from me");
    assert!(!msgs[1].is_sender);
    assert_eq!(msgs[1].text, "from alice");
    assert_eq!(msgs[1].user_id, "alice");
}

#[test]
fn parse_messages_media_fallback() {
    let body = obj(vec![("thread", obj(vec![
        ("thread_title", s("Test")),
        ("users", arr(vec![])),
        ("items", arr(vec![
            obj(vec![("user_id", num("1")), ("item_type", s("reel_share"))]),
            obj(vec![("user_id", num("1")), ("item_type", s("media_share"))]),
            obj(vec![("user_id", num("1"))]),
        ])),
    ]))]);
    let (msgs, _) = InstagramClient::parse_messages_response(&body, "999");
    assert_eq!(msgs[0].text, "[reel_share]");
    assert_eq!(msgs[1].text, "[media_share]");
    assert_eq!(msgs[2].text, "[media]");
}

#[test]
fn parse_messages_unknown_user_shows_them() {
    let body = obj(vec![("thread", obj(vec![
        ("thread_title", s("Test")),
        ("users", arr(vec![])),
        ("items", arr(vec![obj(vec![("user_id", num("777")), ("text", s("mystery"))])])),
    ]))]);
    let (msgs, _) = InstagramClient::parse_messages_response(&body, "999");
    assert_eq!(msgs[0].user_id, "them");
    assert!(!msgs[0].is_sender);
}

#[test]
fn parse_messages_missing_thread() {
    let body = obj(vec![]);
    let (msgs, title) = InstagramClient::parse_messages_response(&body, "999");
    assert!(msgs.is_empty());
    assert_eq!(title, "");
}

#[test]
fn parse_messages_ids_as_strings_and_later_names_win() {
    // String ids lose their quotes; a later user with the same id replaces
    // an earlier one; an own message without a known user shows "you".
    let body = obj(vec![("thread", obj(vec![
        ("users", arr(vec![
            obj(vec![("pk", s("42")), ("username", s("first"))]),
            obj(vec![("pk", num("42")), ("username", s("second"))]),
            obj(vec![("pk", num("43"))]),
        ])),
        ("items", arr(vec![
            obj(vec![("user_id", s("42")), ("text", s("a")), ("timestamp", s("1700"))]),
            obj(vec![("user_id", s("me")), ("text", s("b"))]),
            obj(vec![("text", s("c"))]),
        ])),
    ]))]);
    let (msgs, title) = InstagramClient::parse_messages_response(&body, "me");
    assert_eq!(title, "");
    assert_eq!(msgs[0].user_id, "second");
    assert_eq!(msgs[0].timestamp, "1700");
    assert!(!msgs[0].is_sender);
    assert_eq!(msgs[1].user_id, "you");
    assert!(msgs[1].is_sender);
    assert_eq!(msgs[1].timestamp, "");
    assert_eq!(msgs[2].user_id, "them");
}

#[test]
fn parse_messages_uses_json_text_of_ids() {
    // A composite or escaped id is compared by its compact JSON text.
    let body = obj(vec![("thread", obj(vec![
        ("users", arr(vec![obj(vec![("pk", arr(vec![num("1"), JsonValue::Bool(true), JsonValue::Null])), ("username", s("listy"))])])),
        ("items", arr(vec![
            obj(vec![("user_id", arr(vec![num("1"), JsonValue::Bool(true), JsonValue::Null])), ("text", s("x"))]),
            obj(vec![("user_id", s("a\"b")), ("text", s("y"))]),
        ])),
    ]))]);
    let (msgs, _) = InstagramClient::parse_messages_response(&body, "a\\\"b");
    assert_eq!(msgs[0].user_id, "listy");
    assert!(msgs[1].is_sender);
    assert_eq!(
        obj(vec![("k", s("v\n")), ("n", JsonValue::Null)]).to_json_text(),
        "{\"k\":\"v\\n\",\"n\":null}"
    );
}

#[test]
fn messages_for_session_uses_own_id() {
    let body = obj(vec![("thread", obj(vec![
        ("items", arr(vec![obj(vec![("user_id", num("12345")), ("text", s("mine"))])])),
    ]))]);
    let mut session = SessionConfig::default();
    session.user_id = Some("12345".to_string());
    let (msgs, _) = InstagramClient::messages_for_session(&session, &body);
    assert!(msgs[0].is_sender);
    let (msgs, _) = InstagramClient::messages_for_session(&SessionConfig::default(), &body);
    assert!(!msgs[0].is_sender);
}

// ── Other replies ───────────────────────────────────────────────────

#[test]
fn note_replies() {
    let ok = obj(vec![("status", s("ok")), ("note", obj(vec![("id", s("n1"))]))]);
    assert_eq!(InstagramClient::parse_note_response(&ok).unwrap(), "n1");
    let ok_no_id = obj(vec![("status", s("ok"))]);
    assert_eq!(InstagramClient::parse_note_response(&ok_no_id).unwrap(), "unknown");
    let fail = obj(vec![("status", s("fail")), ("message", s("nope"))]);
    assert_eq!(InstagramClient::parse_note_response(&fail).unwrap_err().message(), "nope");
    let bare = obj(vec![]);
    assert_eq!(InstagramClient::parse_note_response(&bare).unwrap_err().message(), "failed to create note");
}

#[test]
fn send_replies() {
    assert!(InstagramClient::parse_send_response(&obj(vec![("status", s("ok"))])).is_ok());
    let fail = obj(vec![("status", s("fail"))]);
    assert_eq!(InstagramClient::parse_send_response(&fail).unwrap_err().message(), "failed to send message");
    let fail = obj(vec![("message", s("rate limited"))]);
    assert_eq!(InstagramClient::parse_send_response(&fail).unwrap_err().message(), "rate limited");
}

fn cookies(list: &[(&str, &str)]) -> Vec<(String, String)> {
    list.iter().map(|(a, b)| (a.to_string(), b.to_string())).collect()
}

#[test]
fn login_replies() {
    let jar = cookies(&[("csrftoken", "new"), ("sessionid", "sid"), ("mid", "m")]);
    let body = obj(vec![("authenticated", JsonValue::Bool(true)), ("userId", s("77"))]);
    let session = InstagramClient::login("alice", "old", &jar, &body).unwrap();
    assert_eq!(session.username.as_deref(), Some("alice"));
    assert_eq!(session.session_id.as_deref(), Some("sid"));
    assert_eq!(session.csrf_token.as_deref(), Some("new"));
    assert_eq!(session.user_id.as_deref(), Some("77"));
    assert_eq!(session.cookies.as_deref(), Some("csrftoken=new; sessionid=sid; mid=m"));

    let session = InstagramClient::login("bob", "old", &cookies(&[]), &obj(vec![("authenticated", JsonValue::Bool(true))])).unwrap();
    assert_eq!(session.csrf_token.as_deref(), Some("old"));
    assert_eq!(session.session_id, None);
    assert_eq!(session.user_id.as_deref(), Some(""));
    assert_eq!(session.cookies.as_deref(), Some(""));

    let two = obj(vec![("authenticated", JsonValue::Bool(false)), ("two_factor_required", JsonValue::Bool(true))]);
    match InstagramClient::login("a", "c", &jar, &two) {
        Err(e @ ApiError::TwoFactorRequired) => assert!(e.message().starts_with("2FA required")),
        other => panic!("unexpected {:?}", other),
    }
    let bad = obj(vec![("authenticated", s("true")), ("message", s("wrong password"))]);
    assert_eq!(InstagramClient::login("a", "c", &jar, &bad).unwrap_err().message(), "login failed: wrong password");
    assert_eq!(InstagramClient::login("a", "c", &jar, &obj(vec![])).unwrap_err().message(), "login failed: login failed");
}

#[test]
fn csrf_cookie() {
    assert_eq!(InstagramClient::csrf_from_cookies(&cookies(&[("a", "1"), ("csrftoken", "x"), ("csrftoken", "y")])), "x");
    assert_eq!(InstagramClient::csrf_from_cookies(&cookies(&[("a", "1")])), "");
}
