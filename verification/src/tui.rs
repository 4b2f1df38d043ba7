//! The screens of the client: what each key does, what finished background
//! work changes, and what is shown.

use vstd::prelude::*;
use vstd::string::StrSliceExecFns;
use crate::api::{DirectThread, DirectMessage, ThreadSummary, MessageSummary, thread_views, message_views};
use crate::config::SessionConfig;
use crate::properties::{is_list_move, moves_within_list, selection_in_range, edits_focused_field, list_moves_stay_on_the_list, login_keys_edit_the_focused_field};
use crate::text::{decimal, join, trimmed, string_views, owned, decimal_u64, join_strings, trim_whitespace, push_char, pop_char};

verus! {

/// The screen being shown.
#[derive(Debug)]
pub enum Screen {
    Home,
    Notes,
    DMList,
    DMThread(String),
    Login,
}

/// The characters of a `Screen`.
pub enum ScreenView {
    Home,
    Notes,
    DMList,
    DMThread(Seq<char>),
    Login,
}

impl View for Screen {
    type V = ScreenView;

    open spec fn view(&self) -> ScreenView {
        match self {
            Screen::Home => ScreenView::Home,
            Screen::Notes => ScreenView::Notes,
            Screen::DMList => ScreenView::DMList,
            Screen::DMThread(id) => ScreenView::DMThread(id@),
            Screen::Login => ScreenView::Login,
        }
    }
}

/// A key, as far as the screens tell keys apart.
#[derive(Clone, Copy, Debug)]
pub enum Key {
    Char(char),
    Esc,
    Enter,
    Tab,
    Backspace,
    Up,
    Down,
    Other,
}

/// A key press: the key, and whether the modifiers held were exactly Control.
#[derive(Clone, Copy, Debug)]
pub struct KeyPress {
    pub key: Key,
    pub control_only: bool,
}

/// Work for the background worker.
#[derive(Debug)]
pub enum WorkerCommand {
    PublishNote(String),
    FetchThreads,
    FetchMessages(String),
    SendDM(String, String),
}

/// The characters of a `WorkerCommand`.
pub enum CommandView {
    PublishNote(Seq<char>),
    FetchThreads,
    FetchMessages(Seq<char>),
    SendDM(Seq<char>, Seq<char>),
}

impl View for WorkerCommand {
    type V = CommandView;

    open spec fn view(&self) -> CommandView {
        match self {
            WorkerCommand::PublishNote(t) => CommandView::PublishNote(t@),
            WorkerCommand::FetchThreads => CommandView::FetchThreads,
            WorkerCommand::FetchMessages(id) => CommandView::FetchMessages(id@),
            WorkerCommand::SendDM(id, t) => CommandView::SendDM(id@, t@),
        }
    }
}

/// Work the background worker finished; an error is held as its text.
#[derive(Debug)]
pub enum WorkerEvent {
    NotePublished(Result<String, String>),
    ThreadsFetched(Result<Vec<DirectThread>, String>),
    MessagesFetched(Result<(Vec<DirectMessage>, String), String>),
    DMSent(Result<(), String>),
}

/// The characters of a `WorkerEvent`.
pub enum EventView {
    NotePublished(Result<Seq<char>, Seq<char>>),
    ThreadsFetched(Result<Seq<ThreadSummary>, Seq<char>>),
    MessagesFetched(Result<(Seq<MessageSummary>, Seq<char>), Seq<char>>),
    DMSent(Result<(), Seq<char>>),
}

impl View for WorkerEvent {
    type V = EventView;

    open spec fn view(&self) -> EventView {
        match self {
            WorkerEvent::NotePublished(Ok(id)) => EventView::NotePublished(Ok(id@)),
            WorkerEvent::NotePublished(Err(e)) => EventView::NotePublished(Err(e@)),
            WorkerEvent::ThreadsFetched(Ok(ts)) => EventView::ThreadsFetched(Ok(thread_views(ts@))),
            WorkerEvent::ThreadsFetched(Err(e)) => EventView::ThreadsFetched(Err(e@)),
            WorkerEvent::MessagesFetched(Ok((ms, title))) => EventView::MessagesFetched(Ok((message_views(ms@), title@))),
            WorkerEvent::MessagesFetched(Err(e)) => EventView::MessagesFetched(Err(e@)),
            WorkerEvent::DMSent(Ok(())) => EventView::DMSent(Ok(())),
            WorkerEvent::DMSent(Err(e)) => EventView::DMSent(Err(e@)),
        }
    }
}

/// What should happen to the note editor after a key.
#[derive(Clone, Copy, PartialEq, Eq, Structural, Debug)]
pub enum EditorAction {
    Keep,
    Forward,
    Clear,
}

/// What a key asks of the program around the screens.
pub struct InputOutcome {
    pub quit: bool,
    pub command: Option<WorkerCommand>,
    pub editor: EditorAction,
}

/// The characters of an `InputOutcome`.
pub struct OutcomeView {
    pub quit: bool,
    pub command: Option<CommandView>,
    pub editor: EditorAction,
}

impl View for InputOutcome {
    type V = OutcomeView;

    open spec fn view(&self) -> OutcomeView {
        OutcomeView {
            quit: self.quit,
            command: match self.command {
                Some(c) => Some(c@),
                None => None,
            },
            editor: self.editor,
        }
    }
}

/// The state of the screens.  The note being written lives in the editor,
/// which the program around the screens owns.
pub struct App {
    pub screen: Screen,
    pub username: String,
    pub status: String,
    pub login_field: usize,
    pub login_username: String,
    pub login_password: String,
    pub login_status: String,
    pub threads: Vec<DirectThread>,
    pub selected: Option<usize>,
    pub messages: Vec<DirectMessage>,
    pub current_thread_id: String,
    pub current_thread_title: String,
    pub dm_input: String,
    pub dm_scroll: u16,
}

/// The characters of an `App`.
pub struct AppView {
    pub screen: ScreenView,
    pub username: Seq<char>,
    pub status: Seq<char>,
    pub login_field: usize,
    pub login_username: Seq<char>,
    pub login_password: Seq<char>,
    pub login_status: Seq<char>,
    pub threads: Seq<ThreadSummary>,
    pub selected: Option<usize>,
    pub messages: Seq<MessageSummary>,
    pub current_thread_id: Seq<char>,
    pub current_thread_title: Seq<char>,
    pub dm_input: Seq<char>,
    pub dm_scroll: u16,
}

impl View for App {
    type V = AppView;

    open spec fn view(&self) -> AppView {
        AppView {
            screen: self.screen@,
            username: self.username@,
            status: self.status@,
            login_field: self.login_field,
            login_username: self.login_username@,
            login_password: self.login_password@,
            login_status: self.login_status@,
            threads: thread_views(self.threads@),
            selected: self.selected,
            messages: message_views(self.messages@),
            current_thread_id: self.current_thread_id@,
            current_thread_title: self.current_thread_title@,
            dm_input: self.dm_input@,
            dm_scroll: self.dm_scroll,
        }
    }
}

impl AppView {
    /// The state every reachable state is in: the login form has two fields,
    /// and a selected conversation index can be followed by another.
    pub open spec fn wf(self) -> bool {
        &&& self.login_field < 2
        &&& (self.selected matches Some(i) ==> i < usize::MAX)
    }
}

/// The screens of a user before anything happened.
pub open spec fn fresh_app(username: Seq<char>) -> AppView {
    AppView {
        screen: ScreenView::Home,
        username,
        status: seq![],
        login_field: 0,
        login_username: seq![],
        login_password: seq![],
        login_status: seq![],
        threads: seq![],
        selected: None,
        messages: seq![],
        current_thread_id: seq![],
        current_thread_title: seq![],
        dm_input: seq![],
        dm_scroll: 0,
    }
}

/// The longest note, in characters.
pub open spec fn note_limit() -> usize {
    60
}

/// `N conversations`.
pub open spec fn conversations_line(n: nat) -> Seq<char> {
    decimal(n) + " conversations"@
}

/// Nothing asked.
pub open spec fn no_outcome() -> OutcomeView {
    OutcomeView { quit: false, command: None, editor: EditorAction::Keep }
}

/// Only a command asked.
pub open spec fn send_outcome(c: CommandView) -> OutcomeView {
    OutcomeView { quit: false, command: Some(c), editor: EditorAction::Keep }
}

/// Only quitting asked.
pub open spec fn quit_outcome() -> OutcomeView {
    OutcomeView { quit: true, command: None, editor: EditorAction::Keep }
}

/// A key on the home screen.
pub open spec fn home_step(a: AppView, k: KeyPress) -> (AppView, OutcomeView) {
    match k.key {
        Key::Char('q') | Key::Esc => (a, quit_outcome()),
        Key::Char('n') => (AppView { screen: ScreenView::Notes, status: seq![], ..a }, no_outcome()),
        Key::Char('d') => if a.threads.len() == 0 {
            (AppView { screen: ScreenView::DMList, status: "loading..."@, ..a }, send_outcome(CommandView::FetchThreads))
        } else {
            (AppView {
                screen: ScreenView::DMList,
                status: conversations_line(a.threads.len()),
                selected: if a.selected is None { Some(0usize) } else { a.selected },
                ..a
            }, no_outcome())
        },
        _ => (a, no_outcome()),
    }
}

/// The text a note would be published with: the editor's lines joined by
/// newlines, without surrounding whitespace.
pub open spec fn note_text(lines: Seq<Seq<char>>) -> Seq<char> {
    trimmed(join(lines, "\n"@))
}

/// A key on the note screen, with the editor's lines.
pub open spec fn notes_step(a: AppView, k: KeyPress, lines: Seq<Seq<char>>) -> (AppView, OutcomeView) {
    if k.key is Esc {
        (AppView { screen: ScreenView::Home, status: seq![], ..a }, no_outcome())
    } else if k.control_only && k.key == Key::Char('s') {
        let text = note_text(lines);
        if text.len() == 0 {
            (AppView { status: "empty"@, ..a }, no_outcome())
        } else if text.len() > note_limit() {
            (AppView { status: "too long: "@ + decimal(text.len()) + "/60"@, ..a }, no_outcome())
        } else {
            (AppView { status: "publishing..."@, ..a }, send_outcome(CommandView::PublishNote(text)))
        }
    } else if k.control_only && k.key == Key::Char('l') {
        (AppView { status: seq![], ..a }, OutcomeView { quit: false, command: None, editor: EditorAction::Clear })
    } else {
        (a, OutcomeView { quit: false, command: None, editor: EditorAction::Forward })
    }
}

/// `<title>  <what>`.
pub open spec fn titled(title: Seq<char>, what: Seq<char>) -> Seq<char> {
    title + "  "@ + what
}

/// A key on the conversation list.
pub open spec fn dm_list_step(a: AppView, k: KeyPress) -> (AppView, OutcomeView) {
    let i: usize = match a.selected {
        Some(s) => s,
        None => 0,
    };
    match k.key {
        Key::Esc => (AppView { screen: ScreenView::Home, status: seq![], ..a }, no_outcome()),
        Key::Char('r') => (AppView { status: "loading..."@, ..a }, send_outcome(CommandView::FetchThreads)),
        Key::Up | Key::Char('k') => if i > 0 {
            (AppView { selected: Some((i - 1) as usize), ..a }, no_outcome())
        } else {
            (a, no_outcome())
        },
        Key::Down | Key::Char('j') => if i + 1 < a.threads.len() {
            (AppView { selected: Some((i + 1) as usize), ..a }, no_outcome())
        } else {
            (a, no_outcome())
        },
        Key::Enter => match a.selected {
            Some(s) => if s < a.threads.len() {
                let t = a.threads[s as int];
                (AppView {
                    current_thread_title: t.thread_title,
                    current_thread_id: t.thread_id,
                    messages: seq![],
                    dm_input: seq![],
                    status: titled(t.thread_title, "loading..."@),
                    screen: ScreenView::DMThread(t.thread_id),
                    ..a
                }, send_outcome(CommandView::FetchMessages(t.thread_id)))
            } else {
                (a, no_outcome())
            },
            None => (a, no_outcome()),
        },
        _ => (a, no_outcome()),
    }
}

/// A key in a conversation.
pub open spec fn dm_thread_step(a: AppView, k: KeyPress) -> (AppView, OutcomeView) {
    match k.key {
        Key::Esc => (AppView { screen: ScreenView::DMList, status: conversations_line(a.threads.len()), ..a }, no_outcome()),
        Key::Char('r') if a.dm_input.len() == 0 => (
            AppView { status: titled(a.current_thread_title, "loading..."@), ..a },
            send_outcome(CommandView::FetchMessages(a.current_thread_id)),
        ),
        Key::Enter => {
            let text = trimmed(a.dm_input);
            if text.len() > 0 {
                (
                    AppView { status: titled(a.current_thread_title, "sending..."@), dm_input: seq![], ..a },
                    send_outcome(CommandView::SendDM(a.current_thread_id, text)),
                )
            } else {
                (a, no_outcome())
            }
        },
        Key::Backspace => if a.dm_input.len() > 0 {
            (AppView { dm_input: a.dm_input.drop_last(), ..a }, no_outcome())
        } else {
            (a, no_outcome())
        },
        Key::Char(c) => (AppView { dm_input: a.dm_input.push(c), ..a }, no_outcome()),
        Key::Up => (AppView { dm_scroll: if a.dm_scroll < u16::MAX { (a.dm_scroll + 1) as u16 } else { a.dm_scroll }, ..a }, no_outcome()),
        Key::Down => (AppView { dm_scroll: if a.dm_scroll > 0 { (a.dm_scroll - 1) as u16 } else { 0u16 }, ..a }, no_outcome()),
        _ => (a, no_outcome()),
    }
}

/// `s` without its last character, unchanged when empty.
pub open spec fn backspaced(s: Seq<char>) -> Seq<char> {
    if s.len() > 0 { s.drop_last() } else { s }
}

/// A key on the login form.
pub open spec fn login_step(a: AppView, k: KeyPress) -> (AppView, OutcomeView) {
    match k.key {
        Key::Esc => (a, quit_outcome()),
        Key::Tab => (AppView { login_field: ((a.login_field + 1) % 2) as usize, ..a }, no_outcome()),
        Key::Enter => (AppView { login_status: "login_requested"@, ..a }, no_outcome()),
        Key::Backspace => if a.login_field == 0 {
            (AppView { login_username: backspaced(a.login_username), ..a }, no_outcome())
        } else {
            (AppView { login_password: backspaced(a.login_password), ..a }, no_outcome())
        },
        Key::Char(c) => if a.login_field == 0 {
            (AppView { login_username: a.login_username.push(c), ..a }, no_outcome())
        } else {
            (AppView { login_password: a.login_password.push(c), ..a }, no_outcome())
        },
        _ => (a, no_outcome()),
    }
}

/// A key on whichever screen is shown, with the note editor's lines.
pub open spec fn key_step(a: AppView, k: KeyPress, lines: Seq<Seq<char>>) -> (AppView, OutcomeView) {
    match a.screen {
        ScreenView::Home => home_step(a, k),
        ScreenView::Notes => notes_step(a, k, lines),
        ScreenView::DMList => dm_list_step(a, k),
        ScreenView::DMThread(_) => dm_thread_step(a, k),
        ScreenView::Login => login_step(a, k),
    }
}

/// `error: <text>`.
pub open spec fn error_line(e: Seq<char>) -> Seq<char> {
    "error: "@ + e
}

/// The selection as the conversation list settles it when drawn with `n`
/// conversations: none when the list is empty, the last conversation when it
/// pointed past the end, else unchanged.
pub open spec fn clamped_selection(selected: Option<usize>, n: nat) -> Option<usize> {
    match selected {
        Some(s) => if n == 0 {
            None
        } else if s >= n {
            Some((n - 1) as usize)
        } else {
            Some(s)
        },
        None => None,
    }
}

/// What finished background work changes, and whether the note editor is
/// to be emptied.
pub open spec fn event_step(a: AppView, e: EventView) -> (AppView, bool) {
    match e {
        EventView::NotePublished(Ok(id)) => (AppView { status: "published (id: "@ + id + ")"@, ..a }, true),
        EventView::NotePublished(Err(m)) => (AppView { status: error_line(m), ..a }, false),
        EventView::ThreadsFetched(Ok(ts)) => (AppView {
            threads: ts,
            status: if a.screen is DMList { conversations_line(ts.len()) } else { a.status },
            ..a
        }, false),
        EventView::ThreadsFetched(Err(m)) => (AppView { status: error_line(m), ..a }, false),
        EventView::MessagesFetched(Ok((ms, title))) => {
            let t = if title.len() > 0 { title } else { a.current_thread_title };
            (AppView {
                messages: ms,
                current_thread_title: t,
                dm_scroll: 0,
                status: titled(t, decimal(ms.len()) + " msgs"@),
                ..a
            }, false)
        },
        EventView::MessagesFetched(Err(m)) => (AppView { status: error_line(m), ..a }, false),
        EventView::DMSent(Ok(())) => (AppView { status: titled(a.current_thread_title, "sent!"@), dm_input: seq![], ..a }, false),
        EventView::DMSent(Err(m)) => (AppView { status: error_line(m), ..a }, false),
    }
}

/// The background work a command stands for.
#[derive(Debug)]
pub enum WorkerStep {
    PublishNote(String),
    FetchThreads(usize),
    FetchMessages(String, usize),
    SendDM(String, String),
}

/// The characters of a `WorkerStep`.
pub enum StepView {
    PublishNote(Seq<char>),
    FetchThreads(usize),
    FetchMessages(Seq<char>, usize),
    SendDM(Seq<char>, Seq<char>),
}

impl View for WorkerStep {
    type V = StepView;

    open spec fn view(&self) -> StepView {
        match self {
            WorkerStep::PublishNote(t) => StepView::PublishNote(t@),
            WorkerStep::FetchThreads(n) => StepView::FetchThreads(*n),
            WorkerStep::FetchMessages(id, n) => StepView::FetchMessages(id@, *n),
            WorkerStep::SendDM(id, t) => StepView::SendDM(id@, t@),
        }
    }
}

/// How many conversations or messages one fetch asks for.
pub open spec fn page_size() -> usize {
    20
}

/// The steps of a command, in order: a message is sent and then its
/// conversation is read again.
pub open spec fn command_steps(c: CommandView) -> Seq<StepView> {
    match c {
        CommandView::PublishNote(t) => seq![StepView::PublishNote(t)],
        CommandView::FetchThreads => seq![StepView::FetchThreads(page_size())],
        CommandView::FetchMessages(id) => seq![StepView::FetchMessages(id, page_size())],
        CommandView::SendDM(id, t) => seq![StepView::SendDM(id, t), StepView::FetchMessages(id, page_size())],
    }
}

/// The steps the worker takes for a command.
pub fn worker_steps(cmd: WorkerCommand) -> (r: Vec<WorkerStep>)
    ensures
        r@.map_values(|w: WorkerStep| w@) == command_steps(cmd@),
{
    let mut r: Vec<WorkerStep> = Vec::new();
    match cmd {
        WorkerCommand::PublishNote(t) => {
            r.push(WorkerStep::PublishNote(t));
        },
        WorkerCommand::FetchThreads => {
            r.push(WorkerStep::FetchThreads(20));
        },
        WorkerCommand::FetchMessages(id) => {
            r.push(WorkerStep::FetchMessages(id, 20));
        },
        WorkerCommand::SendDM(id, t) => {
            let again = id.clone();
            r.push(WorkerStep::SendDM(id, t));
            r.push(WorkerStep::FetchMessages(again, 20));
        },
    }
    assert(r@.map_values(|w: WorkerStep| w@) =~= command_steps(cmd@));
    r
}

/// How the screens begin.  `first_command` is the command `App::new` queued,
/// which the background worker is given as soon as it runs with a valid
/// session (after the login, where one is needed).
pub struct Startup {
    pub app: App,
    pub session: SessionConfig,
    pub needs_login: bool,
    pub first_command: WorkerCommand,
}

/// The user name shown for a session, `unknown` when it holds none.
pub open spec fn shown_username(s: Option<SessionConfig>) -> Seq<char> {
    match s {
        Some(x) => match x.username {
            Some(u) => u@,
            None => "unknown"@,
        },
        None => "unknown"@,
    }
}

/// The screens at start-up: the login form when there is no session, else
/// the home screen of the session's user.
pub fn start(session: Option<SessionConfig>) -> (r: Startup)
    ensures
        r.needs_login == session is None,
        session matches Some(s) ==> r.session == s,
        session is None ==> crate::config::empty_session(r.session),
        r.app@ == (AppView {
            screen: if session is None { ScreenView::Login } else { ScreenView::Home },
            ..fresh_app(shown_username(session))
        }),
        r.app@.wf(),
        r.first_command@ == CommandView::FetchThreads,
{
    let needs_login = session.is_none();
    let session: SessionConfig = match session {
        Some(s) => s,
        None => SessionConfig::default(),
    };
    let username = match &session.username {
        Some(u) => u.clone(),
        None => owned("unknown"),
    };
    let mut outbox: Vec<WorkerCommand> = Vec::new();
    let mut app = App::new(username, &mut outbox);
    let first_command = outbox.remove(0);
    if needs_login {
        app.screen = Screen::Login;
    }
    Startup { app, session, needs_login, first_command }
}

fn nothing() -> (r: InputOutcome)
    ensures
        r@ == no_outcome(),
{
    InputOutcome { quit: false, command: None, editor: EditorAction::Keep }
}

fn quitting() -> (r: InputOutcome)
    ensures
        r@ == quit_outcome(),
{
    InputOutcome { quit: true, command: None, editor: EditorAction::Keep }
}

fn sending(c: WorkerCommand) -> (r: InputOutcome)
    ensures
        r@ == send_outcome(c@),
{
    InputOutcome { quit: false, command: Some(c), editor: EditorAction::Keep }
}

/// `N conversations`.
fn conversations(n: usize) -> (r: String)
    ensures
        r@ == conversations_line(n as nat),
{
    let mut r = decimal_u64(n as u64);
    r.append(" conversations");
    r
}

/// `error: <text>`.
fn error_text(e: &String) -> (r: String)
    ensures
        r@ == error_line(e@),
{
    let mut r = owned("error: ");
    r.append(e.as_str());
    r
}

/// `<title>  <what>`.
fn titled_text(title: &String, what: &str) -> (r: String)
    ensures
        r@ == titled(title@, what@),
{
    let mut r = title.clone();
    r.append("  ");
    r.append(what);
    r
}

impl App {
    /// The screens of a user: the home screen, nothing selected, nothing
    /// typed.  The inbox fetch is queued on `outbox`, the commands waiting
    /// for the background worker, so the conversation list is ready when
    /// first opened.
    pub fn new(username: String, outbox: &mut Vec<WorkerCommand>) -> (app: Self)
        ensures
            app@ == fresh_app(username@),
            app@.wf(),
            final(outbox)@ == old(outbox)@.push(WorkerCommand::FetchThreads),
    {
        let app = App {
            screen: Screen::Home,
            username,
            status: String::new(),
            login_field: 0,
            login_username: String::new(),
            login_password: String::new(),
            login_status: String::new(),
            threads: Vec::new(),
            selected: None,
            messages: Vec::new(),
            current_thread_id: String::new(),
            current_thread_title: String::new(),
            dm_input: String::new(),
            dm_scroll: 0,
        };
        assert(app@.threads =~= Seq::<ThreadSummary>::empty());
        assert(app@.messages =~= Seq::<MessageSummary>::empty());
        outbox.push(WorkerCommand::FetchThreads);
        app
    }

    fn handle_home_input(&mut self, key: KeyPress) -> (r: InputOutcome)
        ensures
            (final(self)@, r@) == home_step(old(self)@, key),
    {
        match key.key {
            Key::Char('q') | Key::Esc => quitting(),
            Key::Char('n') => {
                self.screen = Screen::Notes;
                self.status = String::new();
                nothing()
            },
            Key::Char('d') => {
                self.screen = Screen::DMList;
                if self.threads.len() == 0 {
                    self.status = owned("loading...");
                    sending(WorkerCommand::FetchThreads)
                } else {
                    self.status = conversations(self.threads.len());
                    if self.selected.is_none() {
                        self.selected = Some(0);
                    }
                    nothing()
                }
            },
            _ => nothing(),
        }
    }

    fn handle_notes_input(&mut self, key: KeyPress, note_lines: &Vec<String>) -> (r: InputOutcome)
        ensures
            (final(self)@, r@) == notes_step(old(self)@, key, string_views(note_lines@)),
    {
        let is_s = match key.key {
            Key::Char('s') => true,
            _ => false,
        };
        let is_l = match key.key {
            Key::Char('l') => true,
            _ => false,
        };
        match key.key {
            Key::Esc => {
                self.screen = Screen::Home;
                self.status = String::new();
                nothing()
            },
            _ => if key.control_only && is_s {
                let joined = join_strings(note_lines, "\n");
                let text = trim_whitespace(joined.as_str());
                if text.as_str().is_empty() {
                    self.status = owned("empty");
                    nothing()
                } else if text.as_str().unicode_len() > 60 {
                    let mut status = owned("too long: ");
                    let d = decimal_u64(text.as_str().unicode_len() as u64);
                    status.append(d.as_str());
                    status.append("/60");
                    self.status = status;
                    nothing()
                } else {
                    self.status = owned("publishing...");
                    sending(WorkerCommand::PublishNote(text))
                }
            } else if key.control_only && is_l {
                self.status = String::new();
                InputOutcome { quit: false, command: None, editor: EditorAction::Clear }
            } else {
                InputOutcome { quit: false, command: None, editor: EditorAction::Forward }
            },
        }
    }

    fn handle_dm_list_input(&mut self, key: KeyPress) -> (r: InputOutcome)
        requires
            old(self)@.wf(),
        ensures
            (final(self)@, r@) == dm_list_step(old(self)@, key),
            final(self)@.wf(),
            is_list_move(key) && selection_in_range(old(self)@)
                ==> moves_within_list(old(self)@, key, final(self)@, r@),
    {
        proof {
            if is_list_move(key) && selection_in_range(self@) {
                list_moves_stay_on_the_list(self@, key);
            }
        }
        let i: usize = match self.selected {
            Some(s) => s,
            None => 0,
        };
        match key.key {
            Key::Esc => {
                self.screen = Screen::Home;
                self.status = String::new();
                nothing()
            },
            Key::Char('r') => {
                self.status = owned("loading...");
                sending(WorkerCommand::FetchThreads)
            },
            Key::Up | Key::Char('k') => {
                if i > 0 {
                    self.selected = Some(i - 1);
                }
                nothing()
            },
            Key::Down | Key::Char('j') => {
                if i + 1 < self.threads.len() {
                    self.selected = Some(i + 1);
                }
                nothing()
            },
            Key::Enter => {
                match self.selected {
                    Some(s) => {
                        if s < self.threads.len() {
                            let tid = self.threads[s].thread_id.clone();
                            let title = self.threads[s].thread_title.clone();
                            self.status = titled_text(&title, "loading...");
                            self.current_thread_title = title;
                            self.current_thread_id = tid.clone();
                            self.messages = Vec::new();
                            self.dm_input = String::new();
                            self.screen = Screen::DMThread(tid.clone());
                            proof {
                                assert(self@.messages =~= Seq::<MessageSummary>::empty());
                            }
                            sending(WorkerCommand::FetchMessages(tid))
                        } else {
                            nothing()
                        }
                    },
                    None => nothing(),
                }
            },
            _ => nothing(),
        }
    }

    fn handle_dm_thread_input(&mut self, key: KeyPress) -> (r: InputOutcome)
        ensures
            (final(self)@, r@) == dm_thread_step(old(self)@, key),
    {
        match key.key {
            Key::Esc => {
                self.screen = Screen::DMList;
                self.status = conversations(self.threads.len());
                nothing()
            },
            Key::Char('r') if self.dm_input.as_str().is_empty() => {
                self.status = titled_text(&self.current_thread_title, "loading...");
                sending(WorkerCommand::FetchMessages(self.current_thread_id.clone()))
            },
            Key::Enter => {
                let text = trim_whitespace(self.dm_input.as_str());
                if !text.as_str().is_empty() {
                    self.status = titled_text(&self.current_thread_title, "sending...");
                    let cmd = WorkerCommand::SendDM(self.current_thread_id.clone(), text);
                    self.dm_input = String::new();
                    sending(cmd)
                } else {
                    nothing()
                }
            },
            Key::Backspace => {
                let _ = pop_char(&mut self.dm_input);
                nothing()
            },
            Key::Char(c) => {
                push_char(&mut self.dm_input, c);
                nothing()
            },
            Key::Up => {
                if self.dm_scroll < 65535 {
                    self.dm_scroll = self.dm_scroll + 1;
                }
                nothing()
            },
            Key::Down => {
                if self.dm_scroll > 0 {
                    self.dm_scroll = self.dm_scroll - 1;
                }
                nothing()
            },
            _ => nothing(),
        }
    }

    fn handle_login_input(&mut self, key: KeyPress) -> (r: InputOutcome)
        requires
            old(self)@.wf(),
        ensures
            (final(self)@, r@) == login_step(old(self)@, key),
            edits_focused_field(old(self)@, key, final(self)@, r@),
    {
        proof {
            login_keys_edit_the_focused_field(self@, key);
        }
        match key.key {
            Key::Esc => quitting(),
            Key::Tab => {
                self.login_field = (self.login_field + 1) % 2;
                nothing()
            },
            Key::Enter => {
                self.login_status = owned("login_requested");
                nothing()
            },
            Key::Backspace => {
                if self.login_field == 0 {
                    let _ = pop_char(&mut self.login_username);
                } else {
                    let _ = pop_char(&mut self.login_password);
                }
                nothing()
            },
            Key::Char(c) => {
                if self.login_field == 0 {
                    push_char(&mut self.login_username, c);
                } else {
                    push_char(&mut self.login_password, c);
                }
                nothing()
            },
            _ => nothing(),
        }
    }

    /// What finished background work changes; `true` when the note editor
    /// is to be emptied (after a note was published).
    pub fn handle_worker_event(&mut self, evt: WorkerEvent) -> (clear_editor: bool)
        requires
            old(self)@.wf(),
        ensures
            (final(self)@, clear_editor) == event_step(old(self)@, evt@),
            final(self)@.wf(),
    {
        match evt {
            WorkerEvent::NotePublished(Ok(id)) => {
                let mut status = owned("published (id: ");
                status.append(id.as_str());
                status.append(")");
                self.status = status;
                true
            },
            WorkerEvent::NotePublished(Err(e)) => {
                self.status = error_text(&e);
                false
            },
            WorkerEvent::ThreadsFetched(Ok(threads)) => {
                self.threads = threads;
                match self.screen {
                    Screen::DMList => {
                        self.status = conversations(self.threads.len());
                    },
                    _ => {},
                }
                false
            },
            WorkerEvent::ThreadsFetched(Err(e)) => {
                self.status = error_text(&e);
                false
            },
            WorkerEvent::MessagesFetched(Ok((msgs, title))) => {
                self.messages = msgs;
                if !title.as_str().is_empty() {
                    self.current_thread_title = title;
                }
                self.dm_scroll = 0;
                let mut what = decimal_u64(self.messages.len() as u64);
                what.append(" msgs");
                self.status = titled_text(&self.current_thread_title, what.as_str());
                false
            },
            WorkerEvent::MessagesFetched(Err(e)) => {
                self.status = error_text(&e);
                false
            },
            WorkerEvent::DMSent(Ok(())) => {
                self.status = titled_text(&self.current_thread_title, "sent!");
                self.dm_input = String::new();
                false
            },
            WorkerEvent::DMSent(Err(e)) => {
                self.status = error_text(&e);
                false
            },
        }
    }

    /// Whether the login form asked to log in.
    pub fn login_requested(&self) -> (r: bool)
        ensures
            r == (self@.login_status == "login_requested"@),
    {
        crate::text::str_equal(self.login_status.as_str(), "login_requested")
    }

    /// Settles the selection as the conversation list does when it is drawn
    /// into a non-empty area: nothing selected when there are no
    /// conversations, the last one when the selection points past the end.
    pub fn settle_selection(&mut self)
        ensures
            final(self)@ == (AppView { selected: clamped_selection(old(self)@.selected, old(self)@.threads.len()), ..old(self)@ }),
            old(self)@.wf() ==> final(self)@.wf(),
    {
        let n = self.threads.len();
        self.selected = match self.selected {
            Some(s) => if n == 0 {
                None
            } else if s >= n {
                Some(n - 1)
            } else {
                Some(s)
            },
            None => None,
        };
    }

    /// Marks the login as under way.
    pub fn begin_login(&mut self)
        ensures
            final(self)@ == (AppView { login_status: "logging in..."@, ..old(self)@ }),
    {
        self.login_status = owned("logging in...");
    }

    /// Takes the outcome of a login: on success the new session's user is
    /// shown on the home screen and the session is handed back; on failure
    /// the login form shows why.
    pub fn finish_login(&mut self, outcome: Result<SessionConfig, String>) -> (r: Option<SessionConfig>)
        ensures
            outcome matches Ok(s) ==> r == Some(s) && final(self)@ == (AppView {
                username: match s.username { Some(u) => u@, None => ""@ },
                screen: ScreenView::Home,
                ..old(self)@
            }),
            outcome matches Err(e) ==> r is None && final(self)@ == (AppView {
                login_status: "failed: "@ + e@,
                ..old(self)@
            }),
    {
        match outcome {
            Ok(s) => {
                self.username = match &s.username {
                    Some(u) => u.clone(),
                    None => owned(""),
                };
                self.screen = Screen::Home;
                Some(s)
            },
            Err(e) => {
                let mut status = owned("failed: ");
                status.append(e.as_str());
                self.login_status = status;
                None
            },
        }
    }

    /// What a key does on the screen shown.  `note_lines` are the lines of
    /// the note editor; only the note screen reads them.
    pub fn handle_input(&mut self, key: KeyPress, note_lines: &Vec<String>) -> (r: InputOutcome)
        requires
            old(self)@.wf(),
        ensures
            (final(self)@, r@) == key_step(old(self)@, key, string_views(note_lines@)),
            final(self)@.wf(),
            old(self)@.screen is DMList && is_list_move(key) && selection_in_range(old(self)@)
                ==> moves_within_list(old(self)@, key, final(self)@, r@),
            old(self)@.screen is Login ==> edits_focused_field(old(self)@, key, final(self)@, r@),
    {
        match self.screen {
            Screen::Home => self.handle_home_input(key),
            Screen::Notes => self.handle_notes_input(key, note_lines),
            Screen::DMList => self.handle_dm_list_input(key),
            Screen::DMThread(_) => self.handle_dm_thread_input(key),
            Screen::Login => self.handle_login_input(key),
        }
    }
}

} // verus!
