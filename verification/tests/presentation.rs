use inote::api::DirectMessage;
use inote::config::{restore_session, ConfigStore, SessionConfig};
use inote::render::{centered_rect, note_meta, password_mask, thread_lines, thread_preview, thread_scroll, Area, Tone};
use inote::tui::App;

#[test]
fn note_counter() {
    let m = note_meta(&vec!["hello".to_string()], &String::new());
    assert_eq!(m.line, "  5 chars  55 left  |  ");
    assert_eq!(m.tone, Tone::Calm);
    let m = note_meta(&vec!["a".repeat(25), "b".repeat(26)], &"x".to_string());
    assert_eq!(m.line, "  52 chars  8 left  |  x");
    assert_eq!(m.tone, Tone::Close);
    let m = note_meta(&vec!["a".repeat(63)], &String::new());
    assert_eq!(m.line, "  63 chars  3 over  |  ");
    assert_eq!(m.tone, Tone::Over);
}

#[test]
fn previews() {
    assert_eq!(thread_preview(&"short".to_string()), "short");
    let long = "x".repeat(70);
    assert_eq!(thread_preview(&long), format!("{}...", "x".repeat(60)));
    let exact = "y".repeat(60);
    assert_eq!(thread_preview(&exact), exact);
}

#[test]
fn conversation_lines_newest_first() {
    let a = DirectMessage { user_id: "ann".to_string(), text: "first".to_string(), timestamp: String::new(), is_sender: false };
    let b = DirectMessage { user_id: "you".to_string(), text: "second".to_string(), timestamp: String::new(), is_sender: true };
    let lines = thread_lines(&vec![a, b]);
    let texts: Vec<&str> = lines.iter().map(|l| l.text.as_str()).collect();
    assert_eq!(texts, vec!["you:", "second", "", "ann:", "first", ""]);
    assert!(lines[0].mine && lines[0].bold);
    assert!(lines[1].mine && !lines[1].bold);
    assert!(!lines[2].mine);
    assert!(!lines[3].mine && lines[3].bold);
}

#[test]
fn scroll_positions() {
    assert_eq!(thread_scroll(30, 12, 0), 20);
    assert_eq!(thread_scroll(30, 12, 5), 15);
    assert_eq!(thread_scroll(5, 12, 0), 0);
    assert_eq!(thread_scroll(3, 1, 0), 3);
}

#[test]
fn masks_and_lines() {
    assert_eq!(password_mask(&"p\u{e9}".to_string()), "***");
    let mut app = App::new("zed".to_string(), &mut Vec::new());
    assert_eq!(app.home_line(), "  @zed");
    app.status = "ok".to_string();
    assert_eq!(app.status_line(), "  ok");
    app.dm_input = "hey".to_string();
    assert_eq!(app.reply_line(), " hey");
    app.current_thread_title = "T".to_string();
    assert_eq!(app.thread_frame_title(), " T ");
    assert_eq!(app.login_status_line(), "  ");
}

#[test]
fn centred_column() {
    let area = Area { x: 0, y: 0, width: 100, height: 10 };
    let r = centered_rect(90, area);
    assert_eq!(r.y, 0);
    assert_eq!(r.height, 10);
    assert_eq!(r.x, 5);
    assert_eq!(r.width, 90);
}

#[test]
fn session_file_path() {
    let store = ConfigStore::new(b"/home/u/.config/inote".to_vec());
    assert_eq!(store.session_path(), b"/home/u/.config/inote/session.json".to_vec());
    let store = ConfigStore::new(b"/tmp/".to_vec());
    assert_eq!(store.session_path(), b"/tmp/session.json".to_vec());
    let store = ConfigStore::new(Vec::new());
    assert_eq!(store.session_path(), b"session.json".to_vec());
}

#[test]
fn restoring_sessions() {
    assert!(restore_session(None).is_none());
    assert!(restore_session(Some(SessionConfig::default())).is_none());
    let mut s = SessionConfig::default();
    s.session_id = Some("x".to_string());
    assert_eq!(restore_session(Some(s)).unwrap().session_id.as_deref(), Some("x"));
}

#[test]
fn note_counter_counts_characters() {
    let m = note_meta(&vec!["\u{e9}".to_string()], &String::new());
    assert_eq!(m.line, "  1 chars  59 left  |  ");
    assert_eq!(m.tone, Tone::Calm);
    let m = note_meta(&vec!["\u{e9}".repeat(30), "\u{e9}".repeat(30)], &String::new());
    assert_eq!(m.line, "  61 chars  1 over  |  ");
    assert_eq!(m.tone, Tone::Over);
}

#[test]
fn login_form_fields() {
    let mut app = App::new("u".to_string(), &mut Vec::new());
    app.login_username = "al".to_string();
    app.login_password = "p\u{e9}".to_string();
    let user = app.login_form_field(false);
    let pass = app.login_form_field(true);
    assert_eq!(user.text, "al");
    assert!(user.focused);
    assert_eq!(user.cursor, "_");
    assert_eq!(pass.text, "***");
    assert!(!pass.focused);
    assert_eq!(pass.cursor, "");
    app.login_field = 1;
    assert!(!app.login_form_field(false).focused);
    assert_eq!(app.login_form_field(false).cursor, "");
    assert!(app.login_form_field(true).focused);
    assert_eq!(app.login_form_field(true).cursor, "_");
}
