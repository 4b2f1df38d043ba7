//! The Instagram private API as this client uses it: the requests it sends
//! and how the JSON replies are read into threads, messages and results.

use vstd::prelude::*;
use vstd::string::StrSliceExecFns;
use crate::json::{JsonValue, json_get, json_text, opt_get, opt_str, str_or, array_or_empty};
use crate::text::{string_views, join, owned, join_strings, unquoted, trim_quotes, str_equal, decimal, signed_decimal, decimal_u64, decimal_i64};
use crate::config::{SessionConfig, SessionSummary, opt_view};

verus! {

/// A direct-message conversation as listed in the inbox.
#[derive(Debug, Clone)]
pub struct DirectThread {
    pub thread_id: String,
    pub thread_title: String,
    pub usernames: Vec<String>,
    pub last_message: String,
}

/// The characters of a `DirectThread`.
pub struct ThreadSummary {
    pub thread_id: Seq<char>,
    pub thread_title: Seq<char>,
    pub usernames: Seq<Seq<char>>,
    pub last_message: Seq<char>,
}

impl View for DirectThread {
    type V = ThreadSummary;

    open spec fn view(&self) -> ThreadSummary {
        ThreadSummary {
            thread_id: self.thread_id@,
            thread_title: self.thread_title@,
            usernames: string_views(self.usernames@),
            last_message: self.last_message@,
        }
    }
}

/// One message of a conversation.
#[derive(Debug, Clone)]
pub struct DirectMessage {
    pub user_id: String,
    pub text: String,
    pub timestamp: String,
    pub is_sender: bool,
}

/// The characters of a `DirectMessage`.
pub struct MessageSummary {
    pub user_id: Seq<char>,
    pub text: Seq<char>,
    pub timestamp: Seq<char>,
    pub is_sender: bool,
}

impl View for DirectMessage {
    type V = MessageSummary;

    open spec fn view(&self) -> MessageSummary {
        MessageSummary {
            user_id: self.user_id@,
            text: self.text@,
            timestamp: self.timestamp@,
            is_sender: self.is_sender,
        }
    }
}

/// The views of a list of threads.
pub open spec fn thread_views(v: Seq<DirectThread>) -> Seq<ThreadSummary> {
    v.map_values(|d: DirectThread| d@)
}

/// The views of a list of messages.
pub open spec fn message_views(v: Seq<DirectMessage>) -> Seq<MessageSummary> {
    v.map_values(|d: DirectMessage| d@)
}

// ── Reading the inbox ───────────────────────────────────────────────────

/// The threads of an inbox reply: `/inbox/threads` when it is an array.
pub open spec fn inbox_threads(body: JsonValue) -> Seq<JsonValue> {
    array_or_empty(opt_get(json_get(body, "inbox"@), "threads"@))
}

/// The `username` strings of the users, in order, skipping users without one.
pub open spec fn usernames_of(users: Seq<JsonValue>) -> Seq<Seq<char>>
    decreases users.len(),
{
    if users.len() == 0 {
        seq![]
    } else {
        let rest = usernames_of(users.drop_last());
        match opt_str(json_get(users.last(), "username"@)) {
            Some(name) => rest.push(name),
            None => rest,
        }
    }
}

/// The usernames of a thread's `users` array.
pub open spec fn thread_usernames(t: JsonValue) -> Seq<Seq<char>> {
    usernames_of(array_or_empty(json_get(t, "users"@)))
}

/// The preview of a thread: the `text` of its first item, else that item's
/// `item_type`, else `[media]` (also when there are no items).
pub open spec fn thread_last_message(t: JsonValue) -> Seq<char> {
    let items = array_or_empty(json_get(t, "items"@));
    if items.len() == 0 {
        "[media]"@
    } else {
        match opt_str(json_get(items[0], "text"@)) {
            Some(s) => s,
            None => str_or(json_get(items[0], "item_type"@), "[media]"@),
        }
    }
}

/// The title of a thread: its `thread_title`, or the usernames joined by
/// `, ` when that is missing or empty.
pub open spec fn thread_title_of(t: JsonValue) -> Seq<char> {
    let raw = str_or(json_get(t, "thread_title"@), ""@);
    if raw.len() == 0 {
        join(thread_usernames(t), ", "@)
    } else {
        raw
    }
}

/// The thread that one element of the inbox becomes.
pub open spec fn thread_from_json(t: JsonValue) -> ThreadSummary {
    ThreadSummary {
        thread_id: str_or(json_get(t, "thread_id"@), ""@),
        thread_title: thread_title_of(t),
        usernames: thread_usernames(t),
        last_message: thread_last_message(t),
    }
}

/// The string member `key` of `v`, or `default`.
pub fn text_member_or(v: &JsonValue, key: &str, default: &str) -> (r: String)
    ensures
        r@ == str_or(json_get(*v, key@), default@),
{
    match v.get(key) {
        Some(m) => match m.as_text() {
            Some(s) => s.clone(),
            None => owned(default),
        },
        None => owned(default),
    }
}

/// The elements of the array member `key` of `v`; `None` when there is no
/// such member or it is not an array.
pub fn array_member<'a>(v: &'a JsonValue, key: &str) -> (r: Option<&'a Vec<JsonValue>>)
    ensures
        r matches Some(items) ==> array_or_empty(json_get(*v, key@)) == items@,
        r is None ==> array_or_empty(json_get(*v, key@)) == Seq::<JsonValue>::empty(),
{
    match v.get(key) {
        Some(m) => m.as_items(),
        None => None,
    }
}

fn usernames_from(users: &Vec<JsonValue>) -> (r: Vec<String>)
    ensures
        string_views(r@) == usernames_of(users@),
{
    let mut r: Vec<String> = Vec::new();
    let n = users.len();
    let mut j: usize = 0;
    assert(users@.take(0) =~= Seq::<JsonValue>::empty());
    while j < n
        invariant
            n == users@.len(),
            j <= n,
            string_views(r@) == usernames_of(users@.take(j as int)),
        decreases n - j,
    {
        assert(users@.take(j + 1).drop_last() =~= users@.take(j as int));
        assert(users@.take(j + 1).last() == users@[j as int]);
        match users[j].get("username") {
            Some(u) => match u.as_text() {
                Some(name) => {
                    r.push(name.clone());
                    assert(string_views(r@) =~= usernames_of(users@.take(j as int)).push(name@));
                },
                None => {},
            },
            None => {},
        }
        j = j + 1;
    }
    assert(users@.take(n as int) =~= users@);
    r
}

fn thread_from(t: &JsonValue) -> (d: DirectThread)
    ensures
        d@ == thread_from_json(*t),
{
    let thread_id = text_member_or(t, "thread_id", "");
    let raw_title = text_member_or(t, "thread_title", "");
    let usernames: Vec<String> = match array_member(t, "users") {
        Some(users) => usernames_from(users),
        None => {
            let v: Vec<String> = Vec::new();
            assert(string_views(v@) =~= Seq::<Seq<char>>::empty());
            v
        },
    };
    let last_message = match array_member(t, "items") {
        Some(items) => {
            if items.len() == 0 {
                owned("[media]")
            } else {
                match items[0].get("text") {
                    Some(x) => match x.as_text() {
                        Some(s) => s.clone(),
                        None => text_member_or(&items[0], "item_type", "[media]"),
                    },
                    None => text_member_or(&items[0], "item_type", "[media]"),
                }
            }
        },
        None => owned("[media]"),
    };
    let title = if raw_title.as_str().is_empty() {
        join_strings(&usernames, ", ")
    } else {
        raw_title
    };
    DirectThread { thread_id, thread_title: title, usernames, last_message }
}

// ── Reading a conversation ──────────────────────────────────────────────

/// The id a value stands for: its compact JSON text without surrounding `"`
/// (`to_string().trim_matches('"')`).
pub open spec fn id_text(v: JsonValue) -> Seq<char> {
    unquoted(json_text(v))
}

/// The (id, username) a user of a conversation contributes: both its `pk`
/// and a string `username` must be present.
pub open spec fn user_entry(u: JsonValue) -> Option<(Seq<char>, Seq<char>)> {
    match json_get(u, "pk"@) {
        Some(pk) => match opt_str(json_get(u, "username"@)) {
            Some(name) => Some((id_text(pk), name)),
            None => None,
        },
        None => None,
    }
}

/// The (id, username) pairs of the users, in order.
pub open spec fn user_entries(users: Seq<JsonValue>) -> Seq<(Seq<char>, Seq<char>)>
    decreases users.len(),
{
    if users.len() == 0 {
        seq![]
    } else {
        let rest = user_entries(users.drop_last());
        match user_entry(users.last()) {
            Some(e) => rest.push(e),
            None => rest,
        }
    }
}

/// The username of the last pair with the id: the pairs are collected into a
/// map, where a later pair replaces an earlier one.
pub open spec fn name_lookup(entries: Seq<(Seq<char>, Seq<char>)>, id: Seq<char>) -> Option<Seq<char>>
    decreases entries.len(),
{
    if entries.len() == 0 {
        None
    } else if entries.last().0 == id {
        Some(entries.last().1)
    } else {
        name_lookup(entries.drop_last(), id)
    }
}

/// The sender id of an item, `""` when it has none.
pub open spec fn item_user_id(item: JsonValue) -> Seq<char> {
    match json_get(item, "user_id"@) {
        Some(v) => id_text(v),
        None => ""@,
    }
}

/// The text of an item, else its `item_type` (or `media`) in square brackets.
pub open spec fn item_text(item: JsonValue) -> Seq<char> {
    match opt_str(json_get(item, "text"@)) {
        Some(s) => s,
        None => "["@ + str_or(json_get(item, "item_type"@), "media"@) + "]"@,
    }
}

/// The message that one item becomes, for the user whose id is `me`: the
/// sender is shown by username when a user of the conversation has that id,
/// else as `you` or `them`.
pub open spec fn message_from_json(item: JsonValue, users: Seq<JsonValue>, me: Seq<char>) -> MessageSummary {
    let uid = item_user_id(item);
    let is_sender = uid == me;
    MessageSummary {
        user_id: match name_lookup(user_entries(users), uid) {
            Some(name) => name,
            None => if is_sender { "you"@ } else { "them"@ },
        },
        text: item_text(item),
        timestamp: str_or(json_get(item, "timestamp"@), ""@),
        is_sender,
    }
}

/// `/thread/<key>` of a conversation reply.
pub open spec fn thread_member(body: JsonValue, key: Seq<char>) -> Option<JsonValue> {
    opt_get(json_get(body, "thread"@), key)
}

/// The messages a conversation reply holds, for the user `me`.
pub open spec fn thread_messages(body: JsonValue, me: Seq<char>) -> Seq<MessageSummary> {
    let users = array_or_empty(thread_member(body, "users"@));
    array_or_empty(thread_member(body, "items"@)).map_values(
        |item: JsonValue| message_from_json(item, users, me),
    )
}

/// The views of pairs of strings.
pub open spec fn pair_views(v: Seq<(String, String)>) -> Seq<(Seq<char>, Seq<char>)> {
    v.map_values(|e: (String, String)| (e.0@, e.1@))
}

fn user_entries_from(users: &Vec<JsonValue>) -> (r: Vec<(String, String)>)
    ensures
        pair_views(r@) == user_entries(users@),
{
    let mut r: Vec<(String, String)> = Vec::new();
    let n = users.len();
    let mut j: usize = 0;
    assert(users@.take(0) =~= Seq::<JsonValue>::empty());
    while j < n
        invariant
            n == users@.len(),
            j <= n,
            pair_views(r@) == user_entries(users@.take(j as int)),
        decreases n - j,
    {
        assert(users@.take(j + 1).drop_last() =~= users@.take(j as int));
        assert(users@.take(j + 1).last() == users@[j as int]);
        match users[j].get("pk") {
            Some(pk) => match users[j].get("username") {
                Some(u) => match u.as_text() {
                    Some(name) => {
                        let t = pk.to_json_text();
                        let id = trim_quotes(t.as_str());
                        let ghost before = r@;
                        r.push((id, name.clone()));
                        assert(pair_views(r@) =~= pair_views(before).push((id_text(*pk), name@)));
                    },
                    None => {},
                },
                None => {},
            },
            None => {},
        }
        j = j + 1;
    }
    assert(users@.take(n as int) =~= users@);
    r
}

fn lookup_name(entries: &Vec<(String, String)>, id: &str) -> (r: Option<String>)
    ensures
        r matches Some(s) ==> name_lookup(pair_views(entries@), id@) == Some(s@),
        r is None ==> name_lookup(pair_views(entries@), id@) is None,
{
    let mut k: usize = entries.len();
    assert(entries@.take(k as int) =~= entries@);
    while k > 0
        invariant
            k <= entries@.len(),
            name_lookup(pair_views(entries@), id@) == name_lookup(pair_views(entries@.take(k as int)), id@),
        decreases k,
    {
        let ghost prefix = entries@.take(k as int);
        assert(pair_views(prefix).last() == (entries@[k - 1].0@, entries@[k - 1].1@));
        assert(pair_views(prefix).drop_last() =~= pair_views(entries@.take(k - 1)));
        if str_equal(entries[k - 1].0.as_str(), id) {
            return Some(entries[k - 1].1.clone());
        }
        k = k - 1;
    }
    None
}

fn message_from(item: &JsonValue, entries: &Vec<(String, String)>, my_user_id: &str) -> (m: DirectMessage)
    ensures
        forall|users: Seq<JsonValue>| pair_views(entries@) == user_entries(users)
            ==> m@ == message_from_json(*item, users, my_user_id@),
{
    let user_id = match item.get("user_id") {
        Some(v) => {
            let t = v.to_json_text();
            trim_quotes(t.as_str())
        },
        None => owned(""),
    };
    let text = match item.get("text") {
        Some(x) => match x.as_text() {
            Some(s) => s.clone(),
            None => bracketed(text_member_or(item, "item_type", "media")),
        },
        None => bracketed(text_member_or(item, "item_type", "media")),
    };
    let timestamp = text_member_or(item, "timestamp", "");
    let is_sender = str_equal(user_id.as_str(), my_user_id);
    let shown = match lookup_name(entries, user_id.as_str()) {
        Some(name) => name,
        None => if is_sender { owned("you") } else { owned("them") },
    };
    DirectMessage { user_id: shown, text, timestamp, is_sender }
}

/// Seconds since the Unix epoch: `chrono::Utc::now().timestamp()`. The
/// value comes from the system clock, so no clause states it.
#[verifier::external_body]
fn unix_now() -> (t: i64) {
    chrono::Utc::now().timestamp()
}

fn bracketed(s: String) -> (r: String)
    ensures
        r@ == "["@ + s@ + "]"@,
{
    let mut r = owned("[");
    r.append(s.as_str());
    r.append("]");
    r
}

// ── Requests ───────────────────────────────────────────────────────────

/// The HTTP method of a request.
#[derive(Debug)]
pub enum HttpMethod {
    Get,
    Post,
}

/// A request for the transport to send: headers in order, and the form
/// fields of a url-encoded body (none for a GET).
#[derive(Debug)]
pub struct ApiRequest {
    pub method: HttpMethod,
    pub url: String,
    pub headers: Vec<(String, String)>,
    pub form: Vec<(String, String)>,
}

/// The characters of an `ApiRequest`.
pub struct RequestSummary {
    pub is_post: bool,
    pub url: Seq<char>,
    pub headers: Seq<(Seq<char>, Seq<char>)>,
    pub form: Seq<(Seq<char>, Seq<char>)>,
}

impl View for ApiRequest {
    type V = RequestSummary;

    open spec fn view(&self) -> RequestSummary {
        RequestSummary {
            is_post: self.method is Post,
            url: self.url@,
            headers: pair_views(self.headers@),
            form: pair_views(self.form@),
        }
    }
}

/// The root of the private API.
pub open spec fn ig_base() -> Seq<char> {
    "https://i.instagram.com/api/v1"@
}

/// The user agent the client presents.
pub open spec fn user_agent() -> Seq<char> {
    "Instagram 317.0.0.34.109 Android (30/11; 420dpi; 1080x2220; Google; Pixel 4; flame; qcom; en_US; 556895546)"@
}

/// The application id the client presents.
pub open spec fn app_id() -> Seq<char> {
    "936619743392459"@
}

/// The address of the web login endpoint.
pub open spec fn login_url() -> Seq<char> {
    "https://www.instagram.com/api/v1/web/accounts/login/ajax/"@
}

/// Whether a byte may stand in an HTTP header value: visible ASCII, space,
/// tab, or any byte of a multi-byte character.
pub open spec fn valid_header_byte(b: u8) -> bool {
    (b >= 32 && b != 127) || b == 9
}

/// Whether every byte of the UTF-8 encoding of `s` may stand in a header value
/// (what `HeaderValue::from_str` accepts).
pub open spec fn valid_header_value(s: Seq<char>) -> bool {
    let bytes = vstd::utf8::encode_utf8(s);
    forall|i: int| 0 <= i < bytes.len() ==> valid_header_byte(#[trigger] bytes[i])
}

/// Whether `s` is accepted as an HTTP header value.
pub fn header_value_ok(s: &str) -> (r: bool)
    ensures
        r == valid_header_value(s@),
{
    let bytes = s.as_bytes();
    let n = bytes.len();
    let mut i: usize = 0;
    while i < n
        invariant
            n == bytes@.len(),
            bytes@ == vstd::utf8::encode_utf8(s@),
            i <= n,
            forall|j: int| 0 <= j < i ==> valid_header_byte(#[trigger] bytes@[j]),
        decreases n - i,
    {
        let b = bytes[i];
        if !((b >= 32 && b != 127) || b == 9) {
            assert(!valid_header_byte(bytes@[i as int]));
            return false;
        }
        i = i + 1;
    }
    true
}

/// The headers every API call carries.
pub open spec fn base_headers() -> Seq<(Seq<char>, Seq<char>)> {
    seq![
        ("X-IG-App-ID"@, app_id()),
        ("X-IG-Device-ID"@, "00000000-0000-0000-0000-000000000000"@),
        ("X-IG-Android-ID"@, "android-0000000000000000"@),
    ]
}

/// A header that is sent only when the session holds a value for it and
/// that value is a valid header value.
pub open spec fn optional_header(name: Seq<char>, value: Option<Seq<char>>) -> Seq<(Seq<char>, Seq<char>)> {
    match value {
        Some(v) => if valid_header_value(v) { seq![(name, v)] } else { seq![] },
        None => seq![],
    }
}

/// The headers of an API call made in a session.
pub open spec fn session_headers(s: SessionSummary) -> Seq<(Seq<char>, Seq<char>)> {
    base_headers() + optional_header("X-CSRFToken"@, s.csrf_token) + optional_header("Cookie"@, s.cookies)
}

fn pair(a: &str, b: &str) -> (p: (String, String))
    ensures
        p.0@ == a@,
        p.1@ == b@,
{
    (owned(a), owned(b))
}

fn push_pair(v: &mut Vec<(String, String)>, a: &str, b: &str)
    ensures
        pair_views(final(v)@) == pair_views(old(v)@).push((a@, b@)),
{
    let ghost before = v@;
    v.push(pair(a, b));
    assert(pair_views(v@) =~= pair_views(before).push((a@, b@)));
}

fn push_optional_header(v: &mut Vec<(String, String)>, name: &str, value: &Option<String>)
    ensures
        pair_views(final(v)@) == pair_views(old(v)@) + optional_header(name@, opt_view(*value)),
{
    match value {
        Some(x) => {
            if header_value_ok(x.as_str()) {
                push_pair(v, name, x.as_str());
            } else {
                assert(pair_views(v@) =~= pair_views(v@) + Seq::<(Seq<char>, Seq<char>)>::empty());
            }
        },
        None => {
            assert(pair_views(v@) =~= pair_views(v@) + Seq::<(Seq<char>, Seq<char>)>::empty());
        },
    }
}

/// `base + path`.
fn url_of(path: &str) -> (r: String)
    ensures
        r@ == ig_base() + path@,
{
    let mut r = owned("https://i.instagram.com/api/v1");
    r.append(path);
    r
}

// ── Errors ──────────────────────────────────────────────────────────────

/// Why a request was not made or the service refused it.
#[derive(Debug)]
pub enum ApiError {
    NoteEmpty,
    NoteTooLong(usize),
    TwoFactorRequired,
    LoginFailed(String),
    Rejected(String),
}

/// The text of an error.
pub open spec fn error_message(e: ApiError) -> Seq<char> {
    match e {
        ApiError::NoteEmpty => "note cannot be empty"@,
        ApiError::NoteTooLong(n) => "note too long: "@ + decimal(n as nat) + "/60 characters"@,
        ApiError::TwoFactorRequired => "2FA required — not yet implemented in Rust TUI"@,
        ApiError::LoginFailed(m) => "login failed: "@ + m@,
        ApiError::Rejected(m) => m@,
    }
}

impl ApiError {
    /// The text of the error.
    pub fn message(&self) -> (r: String)
        ensures
            r@ == error_message(*self),
    {
        match self {
            ApiError::NoteEmpty => owned("note cannot be empty"),
            ApiError::NoteTooLong(n) => {
                let mut r = owned("note too long: ");
                let d = decimal_u64(*n as u64);
                r.append(d.as_str());
                r.append("/60 characters");
                r
            },
            ApiError::TwoFactorRequired => owned("2FA required — not yet implemented in Rust TUI"),
            ApiError::LoginFailed(m) => {
                let mut r = owned("login failed: ");
                r.append(m.as_str());
                r
            },
            ApiError::Rejected(m) => m.clone(),
        }
    }
}

// ── Replies ─────────────────────────────────────────────────────────────

/// Whether a reply says `"status": "ok"`.
pub open spec fn reply_ok(body: JsonValue) -> bool {
    opt_str(json_get(body, "status"@)) == Some("ok"@)
}

/// The `message` of a reply, or `default`.
pub open spec fn reply_message(body: JsonValue, default: Seq<char>) -> Seq<char> {
    str_or(json_get(body, "message"@), default)
}

fn status_is_ok(body: &JsonValue) -> (r: bool)
    ensures
        r == reply_ok(*body),
{
    match body.get("status") {
        Some(v) => match v.as_text() {
            Some(s) => {
                let ok = str_equal(s.as_str(), "ok");
                proof {
                    if !ok {
                        assert(Some(s@) != Some("ok"@));
                    }
                }
                ok
            },
            None => false,
        },
        None => false,
    }
}

// ── Cookies ─────────────────────────────────────────────────────────────

/// The value of the first cookie with the name.
pub open spec fn cookie_value(cookies: Seq<(Seq<char>, Seq<char>)>, name: Seq<char>) -> Option<Seq<char>>
    decreases cookies.len(),
{
    if cookies.len() == 0 {
        None
    } else if cookies[0].0 == name {
        Some(cookies[0].1)
    } else {
        cookie_value(cookies.drop_first(), name)
    }
}

/// The cookies as a `Cookie` header: `name=value` joined by `; `.
pub open spec fn cookie_line(cookies: Seq<(Seq<char>, Seq<char>)>) -> Seq<char> {
    join(cookies.map_values(|c: (Seq<char>, Seq<char>)| c.0 + "="@ + c.1), "; "@)
}

/// The value of the first cookie with the name.
pub fn find_cookie(cookies: &Vec<(String, String)>, name: &str) -> (r: Option<String>)
    ensures
        r matches Some(v) ==> cookie_value(pair_views(cookies@), name@) == Some(v@),
        r is None ==> cookie_value(pair_views(cookies@), name@) is None,
{
    let n = cookies.len();
    let mut i: usize = 0;
    assert(pair_views(cookies@).skip(0) =~= pair_views(cookies@));
    while i < n
        invariant
            n == cookies@.len(),
            i <= n,
            cookie_value(pair_views(cookies@), name@) == cookie_value(pair_views(cookies@).skip(i as int), name@),
        decreases n - i,
    {
        assert(pair_views(cookies@).skip(i as int).drop_first() =~= pair_views(cookies@).skip(i + 1));
        assert(pair_views(cookies@).skip(i as int)[0] == (cookies@[i as int].0@, cookies@[i as int].1@));
        if str_equal(cookies[i].0.as_str(), name) {
            return Some(cookies[i].1.clone());
        }
        i = i + 1;
    }
    None
}

fn cookie_line_of(cookies: &Vec<(String, String)>) -> (r: String)
    ensures
        r@ == cookie_line(pair_views(cookies@)),
{
    let mut parts: Vec<String> = Vec::new();
    let n = cookies.len();
    let mut i: usize = 0;
    while i < n
        invariant
            n == cookies@.len(),
            i <= n,
            string_views(parts@) =~= pair_views(cookies@).take(i as int).map_values(
                |c: (Seq<char>, Seq<char>)| c.0 + "="@ + c.1,
            ),
        decreases n - i,
    {
        let mut part = cookies[i].0.clone();
        part.append("=");
        part.append(cookies[i].1.as_str());
        let ghost before = parts@;
        parts.push(part);
        assert(string_views(parts@) =~= string_views(before).push(part@));
        assert(pair_views(cookies@).take(i + 1) =~= pair_views(cookies@).take(i as int).push((cookies@[i as int].0@, cookies@[i as int].1@)));
        i = i + 1;
    }
    assert(pair_views(cookies@).take(n as int) =~= pair_views(cookies@));
    join_strings(&parts, "; ")
}

/// The request that publishes a note.
pub open spec fn note_request(s: SessionSummary, text: Seq<char>) -> RequestSummary {
    RequestSummary {
        is_post: true,
        url: ig_base() + "/notes/create_note/"@,
        headers: session_headers(s),
        form: seq![("text"@, text), ("audience"@, "0"@)],
    }
}

/// The request that lists the inbox.
pub open spec fn threads_request(s: SessionSummary, limit: usize) -> RequestSummary {
    RequestSummary {
        is_post: false,
        url: ig_base() + "/direct_v2/inbox/?persistentBadging=true&limit="@ + decimal(limit as nat),
        headers: session_headers(s),
        form: seq![],
    }
}

/// The request that reads a conversation.
pub open spec fn messages_request(s: SessionSummary, thread_id: Seq<char>, limit: usize) -> RequestSummary {
    RequestSummary {
        is_post: false,
        url: ig_base() + "/direct_v2/threads/"@ + thread_id + "/?limit="@ + decimal(limit as nat),
        headers: session_headers(s),
        form: seq![],
    }
}

/// The request that sends a text message into a conversation.
pub open spec fn send_request(s: SessionSummary, thread_id: Seq<char>, text: Seq<char>) -> RequestSummary {
    RequestSummary {
        is_post: true,
        url: ig_base() + "/direct_v2/threads/"@ + thread_id + "/items/text/"@,
        headers: session_headers(s),
        form: seq![("text"@, text), ("action"@, "send_item"@)],
    }
}

/// The request that checks whether a session is still accepted.
pub open spec fn session_check_request(s: SessionSummary) -> RequestSummary {
    RequestSummary {
        is_post: false,
        url: ig_base() + "/accounts/current_user/?edit=true"@,
        headers: session_headers(s),
        form: seq![],
    }
}

/// The request that fetches a first CSRF cookie before logging in.
pub open spec fn csrf_fetch_request() -> RequestSummary {
    RequestSummary {
        is_post: false,
        url: login_url(),
        headers: seq![("User-Agent"@, user_agent()), ("X-IG-App-ID"@, app_id())],
        form: seq![],
    }
}

/// The password field of the login form: the browser's unencrypted marker,
/// the time in seconds and the password.
pub open spec fn password_field(timestamp: i64, password: Seq<char>) -> Seq<char> {
    "#PWD_INSTAGRAM_BROWSER:0:"@ + signed_decimal(timestamp as int) + ":"@ + password
}

/// The login request.
pub open spec fn login_form_request(username: Seq<char>, password: Seq<char>, csrf: Seq<char>, timestamp: i64) -> RequestSummary {
    RequestSummary {
        is_post: true,
        url: login_url(),
        headers: seq![
            ("User-Agent"@, user_agent()),
            ("X-CSRFToken"@, csrf),
            ("X-IG-App-ID"@, app_id()),
            ("X-Requested-With"@, "XMLHttpRequest"@),
            ("Referer"@, "https://www.instagram.com/"@),
        ],
        form: seq![
            ("username"@, username),
            ("enc_password"@, password_field(timestamp, password)),
            ("queryParams"@, "{}"@),
            ("optIntoOneTap"@, "false"@),
        ],
    }
}

/// Whether a login reply says `"authenticated": true`.
pub open spec fn login_authenticated(body: JsonValue) -> bool {
    json_get(body, "authenticated"@) == Some(JsonValue::Bool(true))
}

/// Whether a login reply says `"two_factor_required": true`.
pub open spec fn login_needs_two_factor(body: JsonValue) -> bool {
    json_get(body, "two_factor_required"@) == Some(JsonValue::Bool(true))
}

/// The session a successful login yields: the CSRF cookie of the reply (or
/// the one sent), its session cookie and all its cookies.
pub open spec fn logged_in_session(
    username: Seq<char>,
    csrf: Seq<char>,
    cookies: Seq<(Seq<char>, Seq<char>)>,
    body: JsonValue,
) -> SessionSummary {
    SessionSummary {
        username: Some(username),
        session_id: cookie_value(cookies, "sessionid"@),
        csrf_token: Some(
            match cookie_value(cookies, "csrftoken"@) {
                Some(c) => c,
                None => csrf,
            },
        ),
        user_id: Some(str_or(json_get(body, "userId"@), ""@)),
        cookies: Some(cookie_line(cookies)),
    }
}

fn is_true_member(body: &JsonValue, key: &str) -> (r: bool)
    ensures
        r == (json_get(*body, key@) == Some(JsonValue::Bool(true))),
{
    match body.get(key) {
        Some(v) => match v {
            JsonValue::Bool(b) => *b,
            _ => false,
        },
        None => false,
    }
}

fn request(method: HttpMethod, url: String, headers: Vec<(String, String)>, form: Vec<(String, String)>) -> (r: ApiRequest)
    ensures
        r.method == method,
        r.url == url,
        r.headers == headers,
        r.form == form,
{
    ApiRequest { method, url, headers, form }
}

/// The client's view of the service: it builds requests and reads replies.
pub struct InstagramClient;

impl InstagramClient {
    /// A client.
    pub fn new() -> (c: Self) {
        InstagramClient
    }

    /// The user agent the client presents on every request.
    pub fn user_agent_header(&self) -> (r: String)
        ensures
            r@ == user_agent(),
    {
        owned("Instagram 317.0.0.34.109 Android (30/11; 420dpi; 1080x2220; Google; Pixel 4; flame; qcom; en_US; 556895546)")
    }

    /// The headers of an API call in the session: the fixed application and
    /// device ids, then the CSRF token and the cookies when the session holds
    /// them as valid header values.
    pub fn headers(&self, session: &SessionConfig) -> (r: Vec<(String, String)>)
        ensures
            pair_views(r@) == session_headers(session@),
    {
        let mut h: Vec<(String, String)> = Vec::new();
        push_pair(&mut h, "X-IG-App-ID", "936619743392459");
        push_pair(&mut h, "X-IG-Device-ID", "00000000-0000-0000-0000-000000000000");
        push_pair(&mut h, "X-IG-Android-ID", "android-0000000000000000");
        assert(pair_views(h@) =~= base_headers());
        push_optional_header(&mut h, "X-CSRFToken", &session.csrf_token);
        push_optional_header(&mut h, "Cookie", &session.cookies);
        h
    }

    /// The request that publishes `text` as a note.  An empty note and one
    /// longer than 60 characters are refused before anything is sent.
    pub fn create_note(&self, session: &SessionConfig, text: &str) -> (r: Result<ApiRequest, ApiError>)
        ensures
            text@.len() == 0 ==> r matches Err(ApiError::NoteEmpty),
            text@.len() > 60 ==> (r matches Err(ApiError::NoteTooLong(n)) && n == text@.len()),
            0 < text@.len() <= 60 ==> (r matches Ok(req) && req@ == note_request(session@, text@)),
    {
        let count: usize = text.unicode_len();
        if count == 0 {
            return Err(ApiError::NoteEmpty);
        }
        if count > 60 {
            return Err(ApiError::NoteTooLong(count));
        }
        let mut form: Vec<(String, String)> = Vec::new();
        push_pair(&mut form, "text", text);
        push_pair(&mut form, "audience", "0");
        assert(pair_views(form@) =~= seq![("text"@, text@), ("audience"@, "0"@)]);
        Ok(request(HttpMethod::Post, url_of("/notes/create_note/"), self.headers(session), form))
    }

    /// What a note reply means: the id of the published note (`unknown` when
    /// the reply does not hold one) when its status is `ok`, else the reply's
    /// message (or `failed to create note`).
    pub fn parse_note_response(body: &JsonValue) -> (r: Result<String, ApiError>)
        ensures
            reply_ok(*body) ==> (r matches Ok(id) && id@ == str_or(opt_get(json_get(*body, "note"@), "id"@), "unknown"@)),
            !reply_ok(*body) ==> (r matches Err(ApiError::Rejected(m)) && m@ == reply_message(*body, "failed to create note"@)),
    {
        if status_is_ok(body) {
            let id = match body.get("note") {
                Some(note) => text_member_or(note, "id", "unknown"),
                None => owned("unknown"),
            };
            Ok(id)
        } else {
            Err(ApiError::Rejected(text_member_or(body, "message", "failed to create note")))
        }
    }

    /// The request that lists up to `limit` conversations of the inbox.
    pub fn get_direct_threads(&self, session: &SessionConfig, limit: usize) -> (r: ApiRequest)
        ensures
            r@ == threads_request(session@, limit),
    {
        let mut url = url_of("/direct_v2/inbox/?persistentBadging=true&limit=");
        let d = decimal_u64(limit as u64);
        url.append(d.as_str());
        let form: Vec<(String, String)> = Vec::new();
        assert(pair_views(form@) =~= Seq::<(Seq<char>, Seq<char>)>::empty());
        request(HttpMethod::Get, url, self.headers(session), form)
    }

    /// The request that reads up to `limit` messages of a conversation.
    pub fn get_thread_messages(&self, session: &SessionConfig, thread_id: &str, limit: usize) -> (r: ApiRequest)
        ensures
            r@ == messages_request(session@, thread_id@, limit),
    {
        let mut url = url_of("/direct_v2/threads/");
        url.append(thread_id);
        url.append("/?limit=");
        let d = decimal_u64(limit as u64);
        url.append(d.as_str());
        let form: Vec<(String, String)> = Vec::new();
        assert(pair_views(form@) =~= Seq::<(Seq<char>, Seq<char>)>::empty());
        request(HttpMethod::Get, url, self.headers(session), form)
    }

    /// The request that sends `text` into a conversation.
    pub fn send_dm(&self, session: &SessionConfig, thread_id: &str, text: &str) -> (r: ApiRequest)
        ensures
            r@ == send_request(session@, thread_id@, text@),
    {
        let mut url = url_of("/direct_v2/threads/");
        url.append(thread_id);
        url.append("/items/text/");
        let mut form: Vec<(String, String)> = Vec::new();
        push_pair(&mut form, "text", text);
        push_pair(&mut form, "action", "send_item");
        assert(pair_views(form@) =~= seq![("text"@, text@), ("action"@, "send_item"@)]);
        request(HttpMethod::Post, url, self.headers(session), form)
    }

    /// What a send reply means: success when its status is `ok`, else the
    /// reply's message (or `failed to send message`).
    pub fn parse_send_response(body: &JsonValue) -> (r: Result<(), ApiError>)
        ensures
            reply_ok(*body) ==> r is Ok,
            !reply_ok(*body) ==> (r matches Err(ApiError::Rejected(m)) && m@ == reply_message(*body, "failed to send message"@)),
    {
        if status_is_ok(body) {
            Ok(())
        } else {
            Err(ApiError::Rejected(text_member_or(body, "message", "failed to send message")))
        }
    }

    /// The request that checks whether the session is still accepted.
    pub fn validate_session_request(&self, session: &SessionConfig) -> (r: ApiRequest)
        ensures
            r@ == session_check_request(session@),
    {
        let form: Vec<(String, String)> = Vec::new();
        assert(pair_views(form@) =~= Seq::<(Seq<char>, Seq<char>)>::empty());
        request(HttpMethod::Get, url_of("/accounts/current_user/?edit=true"), self.headers(session), form)
    }

    /// Whether the session is valid, given the status of the check's reply
    /// (`None` when no reply came): exactly when a reply came with a status
    /// from 200 to 299.
    pub fn validate_session(status: Option<u16>) -> (r: bool)
        ensures
            r == (status matches Some(code) && 200 <= code < 300),
    {
        match status {
            Some(code) => 200 <= code && code < 300,
            None => false,
        }
    }

    /// The request that fetches a first CSRF cookie before logging in.
    pub fn csrf_request(&self) -> (r: ApiRequest)
        ensures
            r@ == csrf_fetch_request(),
    {
        let mut headers: Vec<(String, String)> = Vec::new();
        push_pair(&mut headers, "User-Agent", "Instagram 317.0.0.34.109 Android (30/11; 420dpi; 1080x2220; Google; Pixel 4; flame; qcom; en_US; 556895546)");
        push_pair(&mut headers, "X-IG-App-ID", "936619743392459");
        assert(pair_views(headers@) =~= seq![("User-Agent"@, user_agent()), ("X-IG-App-ID"@, app_id())]);
        let form: Vec<(String, String)> = Vec::new();
        assert(pair_views(form@) =~= Seq::<(Seq<char>, Seq<char>)>::empty());
        request(HttpMethod::Get, owned("https://www.instagram.com/api/v1/web/accounts/login/ajax/"), headers, form)
    }

    /// The CSRF token of the first reply's cookies, `""` when there is none.
    pub fn csrf_from_cookies(cookies: &Vec<(String, String)>) -> (r: String)
        ensures
            r@ == (match cookie_value(pair_views(cookies@), "csrftoken"@) {
                Some(c) => c,
                None => ""@,
            }),
    {
        match find_cookie(cookies, "csrftoken") {
            Some(c) => c,
            None => owned(""),
        }
    }

    /// The login request, sent at `timestamp` (seconds since the epoch).
    pub fn login_request(&self, username: &str, password: &str, csrf: &str, timestamp: i64) -> (r: ApiRequest)
        ensures
            r@ == login_form_request(username@, password@, csrf@, timestamp),
    {
        let mut headers: Vec<(String, String)> = Vec::new();
        push_pair(&mut headers, "User-Agent", "Instagram 317.0.0.34.109 Android (30/11; 420dpi; 1080x2220; Google; Pixel 4; flame; qcom; en_US; 556895546)");
        push_pair(&mut headers, "X-CSRFToken", csrf);
        push_pair(&mut headers, "X-IG-App-ID", "936619743392459");
        push_pair(&mut headers, "X-Requested-With", "XMLHttpRequest");
        push_pair(&mut headers, "Referer", "https://www.instagram.com/");
        let mut field = owned("#PWD_INSTAGRAM_BROWSER:0:");
        let d = decimal_i64(timestamp);
        field.append(d.as_str());
        field.append(":");
        field.append(password);
        let mut form: Vec<(String, String)> = Vec::new();
        push_pair(&mut form, "username", username);
        push_pair(&mut form, "enc_password", field.as_str());
        push_pair(&mut form, "queryParams", "{}");
        push_pair(&mut form, "optIntoOneTap", "false");
        let r = request(HttpMethod::Post, owned("https://www.instagram.com/api/v1/web/accounts/login/ajax/"), headers, form);
        assert(r@.headers =~= login_form_request(username@, password@, csrf@, timestamp).headers);
        assert(r@.form =~= login_form_request(username@, password@, csrf@, timestamp).form);
        r
    }

    /// The login request, stamped with the clock's current time. Which
    /// second that is, the clock decides; the request is the one
    /// `login_request` builds for some second.
    pub fn login_request_now(&self, username: &str, password: &str, csrf: &str) -> (r: ApiRequest)
        ensures
            exists|t: i64| r@ == login_form_request(username@, password@, csrf@, t),
    {
        let t = unix_now();
        let r = self.login_request(username, password, csrf, t);
        assert(r@ == login_form_request(username@, password@, csrf@, t));
        r
    }

    /// What the login reply means, given the user name, the CSRF token sent
    /// and the reply's cookies: the new session when the reply says
    /// `authenticated: true`; else a request for a second factor when it says
    /// `two_factor_required: true`; else a failure with the reply's message
    /// (or `login failed`).
    pub fn login(username: &str, csrf: &str, cookies: &Vec<(String, String)>, body: &JsonValue) -> (r: Result<SessionConfig, ApiError>)
        ensures
            login_authenticated(*body) ==> (r matches Ok(s)
                && s@ == logged_in_session(username@, csrf@, pair_views(cookies@), *body)),
            !login_authenticated(*body) && login_needs_two_factor(*body) ==> r matches Err(ApiError::TwoFactorRequired),
            !login_authenticated(*body) && !login_needs_two_factor(*body) ==> (r matches Err(ApiError::LoginFailed(m))
                && m@ == reply_message(*body, "login failed"@)),
    {
        if is_true_member(body, "authenticated") {
            let new_csrf = match find_cookie(cookies, "csrftoken") {
                Some(c) => c,
                None => owned(csrf),
            };
            let session_id = find_cookie(cookies, "sessionid");
            let user_id = text_member_or(body, "userId", "");
            Ok(SessionConfig {
                username: Some(owned(username)),
                session_id,
                csrf_token: Some(new_csrf),
                user_id: Some(user_id),
                cookies: Some(cookie_line_of(cookies)),
            })
        } else if is_true_member(body, "two_factor_required") {
            Err(ApiError::TwoFactorRequired)
        } else {
            Err(ApiError::LoginFailed(text_member_or(body, "message", "login failed")))
        }
    }

    /// The messages of a conversation reply for the session's own user (an
    /// empty id when the session holds none), and the conversation's title.
    pub fn messages_for_session(session: &SessionConfig, body: &JsonValue) -> (r: (Vec<DirectMessage>, String))
        ensures
            message_views(r.0@) == thread_messages(*body, match session@.user_id { Some(u) => u, None => ""@ }),
            r.1@ == str_or(thread_member(*body, "thread_title"@), ""@),
    {
        match &session.user_id {
            Some(u) => Self::parse_messages_response(body, u.as_str()),
            None => Self::parse_messages_response(body, ""),
        }
    }

    /// The conversations of an inbox reply, in order.  Each takes its id, its
    /// title (or the usernames joined by `, ` when the title is empty), the
    /// usernames of its users and a preview of its first item.  A reply
    /// without `/inbox/threads` gives no conversations.
    pub fn parse_threads_response(body: &JsonValue) -> (r: Vec<DirectThread>)
        ensures
            thread_views(r@) == inbox_threads(*body).map_values(|t: JsonValue| thread_from_json(t)),
    {
        let mut r: Vec<DirectThread> = Vec::new();
        let threads: Option<&Vec<JsonValue>> = match body.get("inbox") {
            Some(inbox) => array_member(inbox, "threads"),
            None => None,
        };
        match threads {
            Some(threads) => {
                let n = threads.len();
                let mut i: usize = 0;
                while i < n
                    invariant
                        n == threads@.len(),
                        i <= n,
                        thread_views(r@) =~= threads@.take(i as int).map_values(|t: JsonValue| thread_from_json(t)),
                    decreases n - i,
                {
                    let d = thread_from(&threads[i]);
                    let ghost before = r@;
                    r.push(d);
                    assert(r@ =~= before.push(d));
                    assert(thread_views(r@) =~= thread_views(before).push(d@));
                    assert(threads@.take(i + 1) =~= threads@.take(i as int).push(threads@[i as int]));
                    assert(threads@.take(i + 1).map_values(|t: JsonValue| thread_from_json(t))
                        =~= threads@.take(i as int).map_values(|t: JsonValue| thread_from_json(t)).push(thread_from_json(threads@[i as int])));
                    i = i + 1;
                }
                assert(threads@.take(n as int) =~= threads@);
            },
            None => {},
        }
        r
    }

    /// The messages of a conversation reply, in order, and its title (`""`
    /// when it has none), for the user whose id is `my_user_id`.  A reply
    /// without `/thread` gives no messages and an empty title.
    pub fn parse_messages_response(body: &JsonValue, my_user_id: &str) -> (r: (Vec<DirectMessage>, String))
        ensures
            message_views(r.0@) == thread_messages(*body, my_user_id@),
            r.1@ == str_or(thread_member(*body, "thread_title"@), ""@),
    {
        let thread = body.get("thread");
        let title = match thread {
            Some(t) => text_member_or(t, "thread_title", ""),
            None => owned(""),
        };
        let empty: Vec<JsonValue> = Vec::new();
        let items: &Vec<JsonValue> = match thread {
            Some(t) => match array_member(t, "items") {
                Some(v) => v,
                None => &empty,
            },
            None => &empty,
        };
        let users: &Vec<JsonValue> = match thread {
            Some(t) => match array_member(t, "users") {
                Some(v) => v,
                None => &empty,
            },
            None => &empty,
        };
        assert(items@ == array_or_empty(thread_member(*body, "items"@)));
        assert(users@ == array_or_empty(thread_member(*body, "users"@)));
        let entries = user_entries_from(users);
        let mut messages: Vec<DirectMessage> = Vec::new();
        let n = items.len();
        let mut i: usize = 0;
        while i < n
            invariant
                n == items@.len(),
                i <= n,
                pair_views(entries@) == user_entries(users@),
                message_views(messages@) =~= items@.take(i as int).map_values(
                    |item: JsonValue| message_from_json(item, users@, my_user_id@),
                ),
            decreases n - i,
        {
            let m = message_from(&items[i], &entries, my_user_id);
            let ghost before = messages@;
            messages.push(m);
            assert(messages@ =~= before.push(m));
            assert(message_views(messages@) =~= message_views(before).push(m@));
            assert(items@.take(i + 1) =~= items@.take(i as int).push(items@[i as int]));
            assert(items@.take(i + 1).map_values(|item: JsonValue| message_from_json(item, users@, my_user_id@))
                =~= items@.take(i as int).map_values(|item: JsonValue| message_from_json(item, users@, my_user_id@)).push(
                    message_from_json(items@[i as int], users@, my_user_id@)));
            i = i + 1;
        }
        assert(items@.take(n as int) =~= items@);
        (messages, title)
    }
}

} // verus!
