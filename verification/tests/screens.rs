use inote::api::{DirectMessage, DirectThread};
use inote::config::SessionConfig;
use inote::json::{JsonMember, JsonValue};
use inote::tui::{
    start, worker_steps, App, EditorAction, Key, KeyPress, Screen, WorkerCommand, WorkerEvent, WorkerStep,
};

fn key(k: Key) -> KeyPress {
    KeyPress { key: k, control_only: false }
}

fn ctrl(c: char) -> KeyPress {
    KeyPress { key: Key::Char(c), control_only: true }
}

fn thread(id: &str, title: &str) -> DirectThread {
    DirectThread {
        thread_id: id.to_string(),
        thread_title: title.to_string(),
        usernames: vec![],
        last_message: String::new(),
    }
}

fn no_lines() -> Vec<String> {
    vec![]
}

fn app_with_threads(n: usize) -> App {
    let mut app = App::new("me".to_string(), &mut Vec::new());
    let threads = (0..n).map(|i| thread(&format!("t{}", i), &format!("T{}", i))).collect();
    app.handle_worker_event(WorkerEvent::ThreadsFetched(Ok(threads)));
    app
}

#[test]
fn home_keys() {
    let mut app = App::new("me".to_string(), &mut Vec::new());
    assert!(app.handle_input(key(Key::Char('q')), &no_lines()).quit);
    assert!(app.handle_input(key(Key::Esc), &no_lines()).quit);
    let out = app.handle_input(key(Key::Char('d')), &no_lines());
    assert!(matches!(app.screen, Screen::DMList));
    assert_eq!(app.status, "loading...");
    assert!(matches!(out.command, Some(WorkerCommand::FetchThreads)));
    let mut app = app_with_threads(2);
    let out = app.handle_input(key(Key::Char('d')), &no_lines());
    assert!(out.command.is_none());
    assert_eq!(app.status, "2 conversations");
    assert_eq!(app.selected, Some(0));
}

#[test]
fn note_screen_publishes_trimmed_text() {
    let mut app = App::new("me".to_string(), &mut Vec::new());
    app.handle_input(key(Key::Char('n')), &no_lines());
    assert!(matches!(app.screen, Screen::Notes));
    let out = app.handle_input(key(Key::Char('x')), &no_lines());
    assert_eq!(out.editor, EditorAction::Forward);
    let out = app.handle_input(ctrl('s'), &vec!["  hello".to_string(), "world  ".to_string()]);
    assert_eq!(app.status, "publishing...");
    match out.command {
        Some(WorkerCommand::PublishNote(t)) => assert_eq!(t, "hello\nworld"),
        _ => panic!("no publish"),
    }
    let out = app.handle_input(ctrl('s'), &vec!["   ".to_string()]);
    assert!(out.command.is_none());
    assert_eq!(app.status, "empty");
    let out = app.handle_input(ctrl('s'), &vec!["b".repeat(61)]);
    assert!(out.command.is_none());
    assert_eq!(app.status, "too long: 61/60");
    let out = app.handle_input(ctrl('l'), &no_lines());
    assert_eq!(out.editor, EditorAction::Clear);
    assert_eq!(app.status, "");
    // Control-S with another modifier as well is ordinary typing.
    let out = app.handle_input(KeyPress { key: Key::Char('s'), control_only: false }, &no_lines());
    assert_eq!(out.editor, EditorAction::Forward);
    app.handle_input(key(Key::Esc), &no_lines());
    assert!(matches!(app.screen, Screen::Home));
}

#[test]
fn list_navigation_stays_in_range() {
    let mut app = app_with_threads(3);
    app.handle_input(key(Key::Char('d')), &no_lines());
    app.handle_input(key(Key::Up), &no_lines());
    assert_eq!(app.selected, Some(0));
    app.handle_input(key(Key::Down), &no_lines());
    app.handle_input(key(Key::Char('j')), &no_lines());
    app.handle_input(key(Key::Down), &no_lines());
    assert_eq!(app.selected, Some(2));
    app.handle_input(key(Key::Char('k')), &no_lines());
    assert_eq!(app.selected, Some(1));
    let out = app.handle_input(key(Key::Enter), &no_lines());
    match out.command {
        Some(WorkerCommand::FetchMessages(id)) => assert_eq!(id, "t1"),
        _ => panic!("no fetch"),
    }
    assert!(matches!(&app.screen, Screen::DMThread(id) if id == "t1"));
    assert_eq!(app.current_thread_title, "T1");
    assert_eq!(app.status, "T1  loading...");
    let out = app.handle_input(key(Key::Char('r')), &no_lines());
    assert!(matches!(out.command, Some(WorkerCommand::FetchMessages(_))));
    app.handle_input(key(Key::Esc), &no_lines());
    assert!(matches!(app.screen, Screen::DMList));
    assert_eq!(app.status, "3 conversations");
    let out = app.handle_input(key(Key::Char('r')), &no_lines());
    assert!(matches!(out.command, Some(WorkerCommand::FetchThreads)));
}

#[test]
fn reply_typing_and_sending() {
    let mut app = app_with_threads(1);
    app.handle_input(key(Key::Char('d')), &no_lines());
    app.handle_input(key(Key::Enter), &no_lines());
    for c in " hi r".chars() {
        app.handle_input(key(Key::Char(c)), &no_lines());
    }
    assert_eq!(app.dm_input, " hi r");
    app.handle_input(key(Key::Backspace), &no_lines());
    assert_eq!(app.dm_input, " hi ");
    let out = app.handle_input(key(Key::Enter), &no_lines());
    match out.command {
        Some(WorkerCommand::SendDM(id, t)) => {
            assert_eq!(id, "t0");
            assert_eq!(t, "hi");
        },
        _ => panic!("no send"),
    }
    assert_eq!(app.dm_input, "");
    assert_eq!(app.status, "T0  sending...");
    let out = app.handle_input(key(Key::Enter), &no_lines());
    assert!(out.command.is_none());
    app.handle_input(key(Key::Up), &no_lines());
    app.handle_input(key(Key::Up), &no_lines());
    app.handle_input(key(Key::Down), &no_lines());
    assert_eq!(app.dm_scroll, 1);
    app.handle_input(key(Key::Down), &no_lines());
    app.handle_input(key(Key::Down), &no_lines());
    assert_eq!(app.dm_scroll, 0);
}

#[test]
fn login_form_keys() {
    let mut app = start(None).app;
    assert!(matches!(app.screen, Screen::Login));
    for c in "al".chars() {
        app.handle_input(key(Key::Char(c)), &no_lines());
    }
    app.handle_input(key(Key::Tab), &no_lines());
    for c in "pw".chars() {
        app.handle_input(key(Key::Char(c)), &no_lines());
    }
    app.handle_input(key(Key::Backspace), &no_lines());
    assert_eq!(app.login_username, "al");
    assert_eq!(app.login_password, "p");
    app.handle_input(key(Key::Tab), &no_lines());
    assert_eq!(app.login_field, 0);
    assert!(!app.login_requested());
    app.handle_input(key(Key::Enter), &no_lines());
    assert!(app.login_requested());
    app.begin_login();
    assert_eq!(app.login_status, "logging in...");
    assert!(app.finish_login(Err("bad".to_string())).is_none());
    assert_eq!(app.login_status, "failed: bad");
    let mut s = SessionConfig::default();
    s.username = Some("al".to_string());
    let back = app.finish_login(Ok(s)).unwrap();
    assert_eq!(back.username.as_deref(), Some("al"));
    assert_eq!(app.username, "al");
    assert!(matches!(app.screen, Screen::Home));
    assert!(start(None).app.handle_input(key(Key::Esc), &no_lines()).quit);
}

#[test]
fn startup() {
    let s = start(None);
    assert!(s.needs_login);
    assert_eq!(s.app.username, "unknown");
    assert!(s.session.session_id.is_none());
    let mut session = SessionConfig::default();
    session.username = Some("zoe".to_string());
    session.session_id = Some("x".to_string());
    let s = start(Some(session));
    assert!(!s.needs_login);
    assert_eq!(s.app.username, "zoe");
    assert!(matches!(s.app.screen, Screen::Home));
    assert!(matches!(s.first_command, WorkerCommand::FetchThreads));
    assert!(matches!(start(None).first_command, WorkerCommand::FetchThreads));
}

#[test]
fn new_screens_queue_the_inbox_fetch() {
    let mut outbox = vec![WorkerCommand::FetchMessages("x".to_string())];
    let app = App::new("me".to_string(), &mut outbox);
    assert_eq!(outbox.len(), 2);
    assert!(matches!(&outbox[0], WorkerCommand::FetchMessages(id) if id == "x"));
    assert!(matches!(outbox[1], WorkerCommand::FetchThreads));
    assert!(matches!(app.screen, Screen::Home));
    assert_eq!(app.selected, None);
}

#[test]
fn fetched_inbox_keeps_the_selection_until_drawn() {
    // Six conversations, the last one selected.
    let mut app = app_with_threads(6);
    app.handle_input(key(Key::Char('d')), &no_lines());
    for _ in 0..5 {
        app.handle_input(key(Key::Down), &no_lines());
    }
    assert_eq!(app.selected, Some(5));
    // Three arrive; before the list is drawn again Up moves from 5 to 4 and
    // Enter opens nothing.
    let three = || vec![thread("a", "A"), thread("b", "B"), thread("c", "C")];
    app.handle_worker_event(WorkerEvent::ThreadsFetched(Ok(three())));
    assert_eq!(app.selected, Some(5));
    app.handle_input(key(Key::Up), &no_lines());
    assert_eq!(app.selected, Some(4));
    let out = app.handle_input(key(Key::Enter), &no_lines());
    assert!(out.command.is_none());
    // Drawing settles the selection on the last conversation; Enter opens it.
    app.settle_selection();
    assert_eq!(app.selected, Some(2));
    let out = app.handle_input(key(Key::Enter), &no_lines());
    match out.command {
        Some(WorkerCommand::FetchMessages(id)) => assert_eq!(id, "c"),
        _ => panic!("no fetch"),
    }
    // A selection on the list stays; an empty list selects nothing.
    let mut app = app_with_threads(3);
    app.handle_input(key(Key::Char('d')), &no_lines());
    app.handle_input(key(Key::Down), &no_lines());
    app.settle_selection();
    assert_eq!(app.selected, Some(1));
    app.handle_worker_event(WorkerEvent::ThreadsFetched(Ok(vec![])));
    assert_eq!(app.selected, Some(1));
    app.settle_selection();
    assert_eq!(app.selected, None);
}

#[test]
fn note_screen_counts_characters() {
    let mut app = App::new("me".to_string(), &mut Vec::new());
    app.handle_input(key(Key::Char('n')), &no_lines());
    let out = app.handle_input(ctrl('s'), &vec!["\u{e9}".repeat(31)]);
    assert_eq!(app.status, "publishing...");
    match out.command {
        Some(WorkerCommand::PublishNote(t)) => assert_eq!(t, "\u{e9}".repeat(31)),
        _ => panic!("no publish"),
    }
    let out = app.handle_input(ctrl('s'), &vec!["\u{e9}".repeat(61)]);
    assert!(out.command.is_none());
    assert_eq!(app.status, "too long: 61/60");
}

#[test]
fn worker_events() {
    let mut app = App::new("me".to_string(), &mut Vec::new());
    assert!(app.handle_worker_event(WorkerEvent::NotePublished(Ok("n9".to_string()))));
    assert_eq!(app.status, "published (id: n9)");
    assert!(!app.handle_worker_event(WorkerEvent::NotePublished(Err("boom".to_string()))));
    assert_eq!(app.status, "error: boom");
    app.handle_worker_event(WorkerEvent::ThreadsFetched(Ok(vec![thread("a", "A")])));
    assert_eq!(app.status, "error: boom");
    assert_eq!(app.threads.len(), 1);
    app.current_thread_title = "A".to_string();
    app.dm_scroll = 5;
    let msg = DirectMessage { user_id: "x".to_string(), text: "t".to_string(), timestamp: String::new(), is_sender: false };
    app.handle_worker_event(WorkerEvent::MessagesFetched(Ok((vec![msg.clone(), msg], String::new()))));
    assert_eq!(app.status, "A  2 msgs");
    assert_eq!(app.dm_scroll, 0);
    app.handle_worker_event(WorkerEvent::MessagesFetched(Ok((vec![], "B".to_string()))));
    assert_eq!(app.current_thread_title, "B");
    assert_eq!(app.status, "B  0 msgs");
    app.dm_input = "draft".to_string();
    app.handle_worker_event(WorkerEvent::DMSent(Ok(())));
    assert_eq!(app.status, "B  sent!");
    assert_eq!(app.dm_input, "");
    app.handle_worker_event(WorkerEvent::DMSent(Err("no".to_string())));
    assert_eq!(app.status, "error: no");
}

#[test]
fn worker_plans() {
    let steps = worker_steps(WorkerCommand::SendDM("t".to_string(), "hi".to_string()));
    assert_eq!(steps.len(), 2);
    assert!(matches!(&steps[0], WorkerStep::SendDM(id, t) if id == "t" && t == "hi"));
    assert!(matches!(&steps[1], WorkerStep::FetchMessages(id, 20) if id == "t"));
    let steps = worker_steps(WorkerCommand::FetchThreads);
    assert!(matches!(&steps[..], [WorkerStep::FetchThreads(20)]));
    let steps = worker_steps(WorkerCommand::PublishNote("n".to_string()));
    assert!(matches!(&steps[..], [WorkerStep::PublishNote(t)] if t == "n"));
}

#[test]
fn published_note_is_accepted_by_create_note() {
    let mut app = App::new("me".to_string(), &mut Vec::new());
    app.handle_input(key(Key::Char('n')), &no_lines());
    let text = format!("  {}  ", "\u{e9}".repeat(30));
    let out = app.handle_input(ctrl('s'), &vec![text]);
    match out.command {
        Some(WorkerCommand::PublishNote(t)) => {
            let client = inote::api::InstagramClient::new();
            assert!(client.create_note(&SessionConfig::default(), &t).is_ok());
        },
        _ => panic!("no publish"),
    }
}

#[test]
fn logged_in_session_is_resumed() {
    let body = JsonValue::Object(vec![JsonMember { key: "authenticated".to_string(), value: JsonValue::Bool(true) }]);
    let jar = vec![("sessionid".to_string(), "abc".to_string())];
    let session = inote::api::InstagramClient::login("me", "", &jar, &body).unwrap();
    assert!(inote::config::restore_session(Some(session)).is_some());
    let session = inote::api::InstagramClient::login("me", "", &vec![], &body).unwrap();
    assert!(inote::config::restore_session(Some(session)).is_none());
}

#[test]
fn escape_on_each_screen() {
    let mut app = app_with_threads(1);
    app.handle_input(key(Key::Char('n')), &no_lines());
    let out = app.handle_input(key(Key::Esc), &no_lines());
    assert!(!out.quit && out.command.is_none());
    assert!(matches!(app.screen, Screen::Home));
    app.handle_input(key(Key::Char('d')), &no_lines());
    app.handle_input(key(Key::Enter), &no_lines());
    let out = app.handle_input(key(Key::Esc), &no_lines());
    assert!(!out.quit && out.command.is_none());
    assert!(matches!(app.screen, Screen::DMList));
    app.handle_input(key(Key::Esc), &no_lines());
    assert!(matches!(app.screen, Screen::Home));
    assert!(app.handle_input(key(Key::Esc), &no_lines()).quit);
}
