//! Properties that hold across the screens, the worker and the requests.

use vstd::prelude::*;
use crate::api::{messages_request, logged_in_session, cookie_value, session_headers, app_id, valid_header_value};
use crate::json::{JsonValue, json_get, opt_str, array_or_empty, str_or};
use crate::api::{inbox_threads, thread_from_json, thread_messages, thread_member, note_request, threads_request, send_request};
use crate::tui::OutcomeView;
use crate::config::SessionSummary;
use crate::tui::{
    AppView, CommandView, Key, KeyPress, ScreenView, StepView, command_steps, event_step, key_step,
    notes_step, note_limit, EventView, page_size, titled, dm_list_step, login_step, backspaced, clamped_selection,
};

verus! {

/// Whether a selected conversation index names a conversation.
pub open spec fn selection_in_range(a: AppView) -> bool {
    a.selected matches Some(i) ==> i < a.threads.len()
}

/// Every key keeps the screens in their reachable states.  (A list of
/// conversations held in memory has at most `usize::MAX` entries.)
pub proof fn keys_keep_state_well_formed(a: AppView, k: KeyPress, lines: Seq<Seq<char>>)
    requires
        a.wf(),
        a.threads.len() <= usize::MAX,
    ensures
        key_step(a, k, lines).0.wf(),
{
}

/// Finished background work keeps the screens in their reachable states.
pub proof fn events_keep_state_well_formed(a: AppView, e: EventView)
    requires
        a.wf(),
    ensures
        event_step(a, e).0.wf(),
{
}

/// A note the note screen asks to publish is never refused by the
/// request builder: it is not empty and is at most 60 characters long, so
/// `create_note` yields the note request for it.
pub proof fn published_notes_pass_validation(a: AppView, k: KeyPress, lines: Seq<Seq<char>>, t: Seq<char>)
    requires
        a.screen is Notes,
        key_step(a, k, lines).1.command == Some(CommandView::PublishNote(t)),
    ensures
        t.len() > 0,
        t.len() <= note_limit(),
{
}

/// On the login form, Tab twice comes back to the same field.
pub proof fn tab_twice_returns_to_field(a: AppView, lines: Seq<Seq<char>>)
    requires
        a.wf(),
        a.screen is Login,
    ensures
        ({
            let tab = KeyPress { key: Key::Tab, control_only: false };
            let once = key_step(a, tab, lines).0;
            key_step(once, tab, lines).0 == a
        }),
{
    let tab = KeyPress { key: Key::Tab, control_only: false };
    let once = key_step(a, tab, lines).0;
    assert(once.login_field == (a.login_field + 1) % 2);
    assert(key_step(once, tab, lines).0 =~= a);
}

/// On the login form, Backspace takes back the character just typed.
pub proof fn login_backspace_undoes_typing(a: AppView, c: char, ctrl: bool, lines: Seq<Seq<char>>)
    requires
        a.wf(),
        a.screen is Login,
    ensures
        ({
            let typed = key_step(a, KeyPress { key: Key::Char(c), control_only: ctrl }, lines).0;
            key_step(typed, KeyPress { key: Key::Backspace, control_only: ctrl }, lines).0 == a
        }),
{
    let typed = key_step(a, KeyPress { key: Key::Char(c), control_only: ctrl }, lines).0;
    assert(a.login_username.push(c).drop_last() =~= a.login_username);
    assert(a.login_password.push(c).drop_last() =~= a.login_password);
    assert(key_step(typed, KeyPress { key: Key::Backspace, control_only: ctrl }, lines).0 =~= a);
}

/// In a conversation, Backspace takes back the character just typed into
/// the reply, except an `r` typed into an empty reply, which refreshes the
/// conversation instead.
pub proof fn reply_backspace_undoes_typing(a: AppView, c: char, ctrl: bool, lines: Seq<Seq<char>>)
    requires
        a.screen is DMThread,
        !(c == 'r' && a.dm_input.len() == 0),
    ensures
        ({
            let typed = key_step(a, KeyPress { key: Key::Char(c), control_only: ctrl }, lines).0;
            key_step(typed, KeyPress { key: Key::Backspace, control_only: ctrl }, lines).0 == a
        }),
{
    let typed = key_step(a, KeyPress { key: Key::Char(c), control_only: ctrl }, lines).0;
    assert(typed.dm_input == a.dm_input.push(c));
    assert(a.dm_input.push(c).drop_last() =~= a.dm_input);
    assert(key_step(typed, KeyPress { key: Key::Backspace, control_only: ctrl }, lines).0 =~= a);
}

/// In a conversation, scrolling down undoes scrolling up unless the scroll
/// position was already at its largest.
pub proof fn scroll_down_undoes_scroll_up(a: AppView, lines: Seq<Seq<char>>)
    requires
        a.screen is DMThread,
        a.dm_scroll < u16::MAX,
    ensures
        ({
            let up = key_step(a, KeyPress { key: Key::Up, control_only: false }, lines).0;
            key_step(up, KeyPress { key: Key::Down, control_only: false }, lines).0 == a
        }),
{
    let up = key_step(a, KeyPress { key: Key::Up, control_only: false }, lines).0;
    assert(key_step(up, KeyPress { key: Key::Down, control_only: false }, lines).0 =~= a);
}

/// Keys never make the selection point past the conversations.
pub proof fn keys_keep_selection_in_range(a: AppView, k: KeyPress, lines: Seq<Seq<char>>)
    requires
        a.wf(),
        selection_in_range(a),
    ensures
        selection_in_range(key_step(a, k, lines).0),
{
}

/// Finished background work never moves the selection: a fetched inbox
/// replaces the conversations and leaves the selected index as it was.
pub proof fn events_leave_the_selection_alone(a: AppView, e: EventView)
    ensures
        event_step(a, e).0.selected == a.selected,
{
}

/// Drawing the conversation list settles the selection onto the list: it
/// then names a listed conversation (or none when the list is empty), a
/// selection already on the list stays where it is, and a non-empty list
/// keeps a selection.
pub proof fn drawing_settles_the_selection_on_the_list(a: AppView)
    ensures
        ({
            let b = AppView { selected: clamped_selection(a.selected, a.threads.len()), ..a };
            &&& selection_in_range(b)
            &&& selection_in_range(a) ==> b == a
            &&& (a.selected is Some && a.threads.len() > 0) ==> b.selected is Some
            &&& a.wf() ==> b.wf()
        }),
{
    assert(selection_in_range(a) ==> AppView { selected: clamped_selection(a.selected, a.threads.len()), ..a } =~= a);
}

/// After a fetched inbox that is not empty has been drawn, a conversation
/// that was selected before leaves one selected, and Enter on the list opens
/// it.
pub proof fn refreshed_inbox_keeps_a_selection(a: AppView, ts: Seq<crate::api::ThreadSummary>, ctrl: bool, lines: Seq<Seq<char>>)
    requires
        a.selected is Some,
        a.screen is DMList,
        ts.len() > 0,
    ensures
        ({
            let fetched = event_step(a, EventView::ThreadsFetched(Ok(ts))).0;
            let drawn = AppView { selected: clamped_selection(fetched.selected, fetched.threads.len()), ..fetched };
            &&& drawn.selected is Some
            &&& key_step(drawn, KeyPress { key: Key::Enter, control_only: ctrl }, lines).1.command
                    == Some(CommandView::FetchMessages(ts[drawn.selected->0 as int].thread_id))
        }),
{
}

/// Whether a key moves along the conversation list: Up, Down, `k` or `j`.
pub open spec fn is_list_move(k: KeyPress) -> bool {
    k.key is Up || k.key is Down || k.key == Key::Char('k') || k.key == Key::Char('j')
}

/// A move along the list from `a` to `b`, answered by `out`: Up and `k`
/// select the conversation above and Down and `j` the one below, staying put
/// at either end; the selection stays on the list, no work is asked for and
/// nothing else changes.
pub open spec fn moves_within_list(a: AppView, k: KeyPress, b: AppView, out: OutcomeView) -> bool {
    let i: int = match a.selected { Some(s) => s as int, None => 0 };
    &&& out.command is None && !out.quit
    &&& selection_in_range(b)
    &&& (k.key is Up || k.key == Key::Char('k')) ==>
            b.selected == (if i > 0 { Some((i - 1) as usize) } else { a.selected })
    &&& (k.key is Down || k.key == Key::Char('j')) ==>
            b.selected == (if i + 1 < a.threads.len() { Some((i + 1) as usize) } else { a.selected })
    &&& b == AppView { selected: b.selected, ..a }
}

/// On the conversation list, moving up or down stays on the list.
pub proof fn list_moves_stay_on_the_list(a: AppView, k: KeyPress)
    requires
        selection_in_range(a),
        a.wf(),
        is_list_move(k),
    ensures
        moves_within_list(a, k, dm_list_step(a, k).0, dm_list_step(a, k).1),
{
}

/// A key on the login form from `a` to `b`, answered by `out`: only Esc
/// quits (changing nothing); Tab moves to the other field; a character is
/// added to, and Backspace takes the last one from, the field being typed
/// into, leaving the other field alone; Enter asks to log in.  The field
/// being typed into stays one of the two, and no work is asked for.
pub open spec fn edits_focused_field(a: AppView, k: KeyPress, b: AppView, out: OutcomeView) -> bool {
    &&& b.login_field < 2
    &&& out.command is None
    &&& out.quit == (k.key is Esc)
    &&& k.key is Esc ==> b == a
    &&& k.key is Tab ==> b == AppView { login_field: (1 - a.login_field) as usize, ..a }
    &&& k.key is Enter ==> b == AppView { login_status: "login_requested"@, ..a }
    &&& k.key matches Key::Char(c) ==>
            (a.login_field == 0 ==> b == AppView { login_username: a.login_username.push(c), ..a })
            && (a.login_field == 1 ==> b == AppView { login_password: a.login_password.push(c), ..a })
    &&& (k.key is Backspace && a.login_field == 0) ==> b == AppView { login_username: backspaced(a.login_username), ..a }
    &&& (k.key is Backspace && a.login_field == 1) ==> b == AppView { login_password: backspaced(a.login_password), ..a }
}

/// On the login form, every key edits only the field being typed into.
pub proof fn login_keys_edit_the_focused_field(a: AppView, k: KeyPress)
    requires
        a.login_field < 2,
    ensures
        edits_focused_field(a, k, login_step(a, k).0, login_step(a, k).1),
{
}

/// Escape goes back: from the note screen and the conversation list to the
/// home screen, from a conversation to the list; on the home screen and the
/// login form it quits.  It never asks for background work.
pub proof fn escape_goes_back(a: AppView, ctrl: bool, lines: Seq<Seq<char>>)
    ensures
        ({
            let (b, out) = key_step(a, KeyPress { key: Key::Esc, control_only: ctrl }, lines);
            &&& out.command is None
            &&& (a.screen is Notes || a.screen is DMList) ==> b.screen is Home && !out.quit
            &&& a.screen is DMThread ==> b.screen is DMList && !out.quit
            &&& (a.screen is Home || a.screen is Login) ==> out.quit && b == a
        }),
{
}

/// Opening a conversation from the list shows that conversation and asks
/// for its messages, which the worker fetches with one request for that
/// conversation's id.
pub proof fn opening_a_conversation_fetches_it(a: AppView, ctrl: bool, lines: Seq<Seq<char>>, s: SessionSummary, i: usize)
    requires
        a.screen is DMList,
        a.selected == Some(i),
        i < a.threads.len(),
    ensures
        ({
            let (b, out) = key_step(a, KeyPress { key: Key::Enter, control_only: ctrl }, lines);
            let id = a.threads[i as int].thread_id;
            &&& b.screen == ScreenView::DMThread(id)
            &&& b.current_thread_id == id
            &&& out.command == Some(CommandView::FetchMessages(id))
            &&& command_steps(CommandView::FetchMessages(id)) == seq![StepView::FetchMessages(id, page_size())]
            &&& messages_request(s, id, page_size()).url
                == crate::api::ig_base() + "/direct_v2/threads/"@ + id + "/?limit="@ + crate::text::decimal(20nat)
        }),
{
}

/// A reply is sent with surrounding whitespace removed, into the
/// conversation being shown, and the worker reads that conversation again
/// right after sending.
pub proof fn sent_replies_refresh_their_conversation(a: AppView, ctrl: bool, lines: Seq<Seq<char>>)
    requires
        a.screen is DMThread,
        crate::text::trimmed(a.dm_input).len() > 0,
    ensures
        ({
            let (b, out) = key_step(a, KeyPress { key: Key::Enter, control_only: ctrl }, lines);
            let t = crate::text::trimmed(a.dm_input);
            &&& out.command == Some(CommandView::SendDM(a.current_thread_id, t))
            &&& b.dm_input.len() == 0
            &&& b.status == titled(a.current_thread_title, "sending..."@)
            &&& command_steps(CommandView::SendDM(a.current_thread_id, t))
                == seq![StepView::SendDM(a.current_thread_id, t), StepView::FetchMessages(a.current_thread_id, page_size())]
        }),
{
}

/// A login whose reply sets a `sessionid` cookie yields a session that holds
/// a session id, which is what start-up needs to resume it.
pub proof fn session_cookie_makes_session_resumable(
    username: Seq<char>,
    csrf: Seq<char>,
    cookies: Seq<(Seq<char>, Seq<char>)>,
    body: JsonValue,
)
    ensures
        logged_in_session(username, csrf, cookies, body).session_id is Some
            <==> cookie_value(cookies, "sessionid"@) is Some,
{
}

/// Every API call carries the application id first, whatever the session.
pub proof fn headers_always_carry_app_id(s: SessionSummary)
    ensures
        session_headers(s).len() >= 3,
        session_headers(s)[0] == ("X-IG-App-ID"@, app_id()),
{
}

/// A session's CSRF token is sent exactly when the session holds one that
/// is a valid header value.
pub proof fn csrf_header_sent_iff_token_valid(s: SessionSummary)
    ensures
        (exists|i: int| 0 <= i < session_headers(s).len() && #[trigger] session_headers(s)[i].0 == "X-CSRFToken"@)
            <==> (s.csrf_token matches Some(c) && valid_header_value(c)),
{
    reveal_strlit("X-CSRFToken");
    reveal_strlit("X-IG-App-ID");
    reveal_strlit("X-IG-Device-ID");
    reveal_strlit("X-IG-Android-ID");
    reveal_strlit("Cookie");
    let h = session_headers(s);
    assert("X-CSRFToken"@ != "X-IG-App-ID"@) by { assert("X-CSRFToken"@[2] != "X-IG-App-ID"@[2]); }
    assert("X-CSRFToken"@ != "X-IG-Device-ID"@) by { assert("X-CSRFToken"@[2] != "X-IG-Device-ID"@[2]); }
    assert("X-CSRFToken"@ != "X-IG-Android-ID"@) by { assert("X-CSRFToken"@[2] != "X-IG-Android-ID"@[2]); }
    assert("X-CSRFToken"@ != "Cookie"@) by { assert("X-CSRFToken"@[0] != "Cookie"@[0]); }
    if s.csrf_token matches Some(c) && valid_header_value(c) {
        assert(h[3].0 == "X-CSRFToken"@);
    } else {
        assert forall|i: int| 0 <= i < h.len() implies h[i].0 != "X-CSRFToken"@ by {
            if i >= 3 {
                assert(h[i].0 == "Cookie"@);
            }
        }
    }
}

/// A conversation's preview in the inbox comes from its newest item, the
/// first of its `items`: that item's `text` when it has one, whatever older
/// items follow; a conversation without items shows `[media]`.
pub proof fn preview_is_the_newest_item(body: JsonValue, i: int)
    requires
        0 <= i < inbox_threads(body).len(),
    ensures
        ({
            let t = inbox_threads(body)[i];
            let items = array_or_empty(json_get(t, "items"@));
            let shown = inbox_threads(body).map_values(|t: JsonValue| thread_from_json(t))[i];
            &&& items.len() > 0 ==> (opt_str(json_get(items[0], "text"@)) matches Some(s) ==> shown.last_message == s)
            &&& items.len() > 0 && opt_str(json_get(items[0], "text"@)) is None
                    ==> shown.last_message == str_or(json_get(items[0], "item_type"@), "[media]"@)
            &&& items.len() == 0 ==> shown.last_message == "[media]"@
        }),
{
}

/// A message that carries a string `text` shows exactly that text, whatever
/// `item_type` it also has; only a message without one is shown as its
/// `item_type` (or `media`) in square brackets.  There is one message per
/// item, in the reply's order.
pub proof fn message_text_is_the_item_text(body: JsonValue, me: Seq<char>, j: int)
    requires
        0 <= j < array_or_empty(thread_member(body, "items"@)).len(),
    ensures
        ({
            let item = array_or_empty(thread_member(body, "items"@))[j];
            let m = thread_messages(body, me)[j];
            &&& thread_messages(body, me).len() == array_or_empty(thread_member(body, "items"@)).len()
            &&& opt_str(json_get(item, "text"@)) matches Some(s) ==> m.text == s
            &&& opt_str(json_get(item, "text"@)) is None
                    ==> m.text == "["@ + str_or(json_get(item, "item_type"@), "media"@) + "]"@
        }),
{
}

/// Fetched messages replace those shown before: afterwards the screens hold
/// exactly the fetched messages, their count is what the status reports, and
/// the same reply arriving twice leaves the same messages as arriving once.
pub proof fn fetched_messages_replace_the_shown_ones(
    a: AppView,
    ms: Seq<crate::api::MessageSummary>,
    title: Seq<char>,
)
    ensures
        ({
            let e = EventView::MessagesFetched(Ok((ms, title)));
            let once = event_step(a, e).0;
            let twice = event_step(once, e).0;
            &&& once.messages == ms
            &&& once.messages.len() == ms.len()
            &&& once.status == titled(once.current_thread_title, crate::text::decimal(once.messages.len()) + " msgs"@)
            &&& twice.messages == once.messages
        }),
{
}

/// Opening a conversation from the list starts with an empty reply and no
/// messages, whatever was typed or shown before.
pub proof fn opening_a_conversation_starts_afresh(a: AppView, ctrl: bool, lines: Seq<Seq<char>>)
    requires
        a.screen is DMList,
        a.selected is Some,
        a.selected->0 < a.threads.len(),
    ensures
        ({
            let (b, out) = key_step(a, KeyPress { key: Key::Enter, control_only: ctrl }, lines);
            &&& b.screen is DMThread
            &&& b.dm_input.len() == 0
            &&& b.messages.len() == 0
            &&& out.command is Some
        }),
{
}

/// A note is published in the session like every other API call: its
/// request carries the same headers as the requests that list the inbox,
/// read a conversation and send a message, so the session's cookies go with
/// it whenever they are a valid header value.
pub proof fn notes_carry_the_session_headers(s: SessionSummary, text: Seq<char>, limit: usize, id: Seq<char>, reply: Seq<char>)
    ensures
        note_request(s, text).headers == threads_request(s, limit).headers,
        note_request(s, text).headers == messages_request(s, id, limit).headers,
        note_request(s, text).headers == send_request(s, id, reply).headers,
        s.cookies matches Some(c) ==> (valid_header_value(c) ==>
            exists|k: int| 0 <= k < note_request(s, text).headers.len()
                && #[trigger] note_request(s, text).headers[k] == ("Cookie"@, c)),
{
    let h = note_request(s, text).headers;
    if let Some(c) = s.cookies {
        if valid_header_value(c) {
            assert(h[h.len() - 1] == ("Cookie"@, c));
        }
    }
}

/// A conversation's title in the inbox is its `thread_title` when that is a
/// non-empty string, else the usernames of its users joined by `, `; its id
/// is its `thread_id`.
pub proof fn inbox_title_falls_back_to_usernames(body: JsonValue, i: int)
    requires
        0 <= i < inbox_threads(body).len(),
    ensures
        ({
            let t = inbox_threads(body)[i];
            let shown = inbox_threads(body).map_values(|t: JsonValue| thread_from_json(t))[i];
            &&& shown.thread_id == str_or(json_get(t, "thread_id"@), ""@)
            &&& opt_str(json_get(t, "thread_title"@)) matches Some(title) ==>
                    (title.len() > 0 ==> shown.thread_title == title)
            &&& str_or(json_get(t, "thread_title"@), ""@).len() == 0
                    ==> shown.thread_title == crate::text::join(shown.usernames, ", "@)
        }),
{
}

/// A message counts as mine exactly when its sender id is my user id, and
/// it carries its item's `timestamp` (or nothing).
pub proof fn message_sender_is_me_exactly_when_ids_match(body: JsonValue, me: Seq<char>, j: int)
    requires
        0 <= j < array_or_empty(thread_member(body, "items"@)).len(),
    ensures
        ({
            let item = array_or_empty(thread_member(body, "items"@))[j];
            let m = thread_messages(body, me)[j];
            &&& m.is_sender == (crate::api::item_user_id(item) == me)
            &&& m.timestamp == str_or(json_get(item, "timestamp"@), ""@)
        }),
{
}

} // verus!
