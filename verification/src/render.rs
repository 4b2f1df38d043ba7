//! What the screens show: the note counter, conversation previews, the lines
//! of a conversation and where it is scrolled, and the centred column.

use vstd::prelude::*;
use vstd::string::StrSliceExecFns;
use crate::api::{DirectMessage, MessageSummary, message_views};
use crate::text::{byte_len, decimal, join, string_views, owned, decimal_u64, join_strings, repeat_char, repeated};
use crate::tui::{App, note_limit};
use ratatui::layout::{Constraint, Direction, Layout, Rect};

verus! {

/// How close a note is to the limit.
#[derive(Clone, Copy, PartialEq, Eq, Structural, Debug)]
pub enum Tone {
    /// Ten characters or more left.
    Calm,
    /// Fewer than ten characters left.
    Close,
    /// Over the limit.
    Over,
}

/// The counter line under the note editor and its tone.
pub struct NoteMeta {
    pub line: String,
    pub tone: Tone,
}

/// The characters left before the limit (negative when over it), for a
/// note of `count` characters.
pub open spec fn chars_left(count: nat) -> int {
    note_limit() - count
}

/// The tone of a note with `left` characters left.
pub open spec fn tone_of(left: int) -> Tone {
    if left < 0 {
        Tone::Over
    } else if left < 10 {
        Tone::Close
    } else {
        Tone::Calm
    }
}

/// `N left`, or `N over` when past the limit.
pub open spec fn left_text(left: int) -> Seq<char> {
    if left < 0 {
        decimal((-left) as nat) + " over"@
    } else {
        decimal(left as nat) + " left"@
    }
}

/// The counter line: the length of the note in characters, how many are
/// left, and the status.
pub open spec fn meta_line(count: nat, status: Seq<char>) -> Seq<char> {
    "  "@ + decimal(count) + " chars  "@ + left_text(chars_left(count)) + "  |  "@ + status
}

/// The counter of the note editor with the given lines, whose text is the
/// lines joined by newlines.
pub fn note_meta(note_lines: &Vec<String>, status: &String) -> (r: NoteMeta)
    requires
        join(string_views(note_lines@), "\n"@).len() <= i32::MAX,
    ensures
        r.line@ == meta_line(join(string_views(note_lines@), "\n"@).len(), status@),
        r.tone == tone_of(chars_left(join(string_views(note_lines@), "\n"@).len())),
{
    let text = join_strings(note_lines, "\n");
    let count: usize = text.as_str().unicode_len();
    let remaining: i32 = 60i32 - (count as i32);
    let tone = if remaining < 0 {
        Tone::Over
    } else if remaining < 10 {
        Tone::Close
    } else {
        Tone::Calm
    };
    let left = if remaining < 0 {
        let over: u64 = (0 - (remaining as i64)) as u64;
        let mut t = decimal_u64(over);
        t.append(" over");
        t
    } else {
        let mut t = decimal_u64(remaining as u64);
        t.append(" left");
        t
    };
    let mut line = owned("  ");
    let c = decimal_u64(count as u64);
    line.append(c.as_str());
    line.append(" chars  ");
    line.append(left.as_str());
    line.append("  |  ");
    line.append(status.as_str());
    NoteMeta { line, tone }
}

/// The preview of a conversation in the list: its last message, cut to its
/// first 60 bytes followed by `...` when longer.
pub open spec fn preview_of(message: Seq<char>) -> Seq<char> {
    if byte_len(message) > 60 {
        vstd::utf8::decode_utf8(vstd::utf8::encode_utf8(message).subrange(0, 60)) + "..."@
    } else {
        message
    }
}

/// The preview of a conversation's last message.  A message longer than 60
/// bytes must have a character boundary at byte 60.
pub fn thread_preview(message: &String) -> (r: String)
    requires
        byte_len(message@) > 60 ==> vstd::utf8::is_char_boundary(vstd::utf8::encode_utf8(message@), 60),
    ensures
        r@ == preview_of(message@),
{
    let s = message.as_str();
    if s.len() > 60 {
        let (head, _tail) = s.split_at(60);
        proof {
            vstd::utf8::encode_utf8_decode_utf8(head@);
        }
        let mut r = owned(head);
        r.append("...");
        r
    } else {
        message.clone()
    }
}

/// One line of a conversation as shown.
pub struct ThreadLine {
    pub text: String,
    /// Written by the user (shown highlighted).
    pub mine: bool,
    /// Shown in bold (the sender's name).
    pub bold: bool,
}

/// The characters of a `ThreadLine`.
pub struct LineView {
    pub text: Seq<char>,
    pub mine: bool,
    pub bold: bool,
}

impl View for ThreadLine {
    type V = LineView;

    open spec fn view(&self) -> LineView {
        LineView { text: self.text@, mine: self.mine, bold: self.bold }
    }
}

/// The three lines of one message: the sender and a colon, the text, and an
/// empty line.
pub open spec fn message_block(m: MessageSummary) -> Seq<LineView> {
    seq![
        LineView { text: m.user_id + ":"@, mine: m.is_sender, bold: true },
        LineView { text: m.text, mine: m.is_sender, bold: false },
        LineView { text: seq![], mine: false, bold: false },
    ]
}

/// The lines of a conversation, newest message first.
pub open spec fn conversation_lines(ms: Seq<MessageSummary>) -> Seq<LineView>
    decreases ms.len(),
{
    if ms.len() == 0 {
        seq![]
    } else {
        message_block(ms.last()) + conversation_lines(ms.drop_last())
    }
}

/// The views of the lines.
pub open spec fn line_views(v: Seq<ThreadLine>) -> Seq<LineView> {
    v.map_values(|l: ThreadLine| l@)
}

fn push_line(v: &mut Vec<ThreadLine>, text: String, mine: bool, bold: bool)
    ensures
        line_views(final(v)@) == line_views(old(v)@).push(LineView { text: text@, mine, bold }),
{
    let ghost before = v@;
    let line = ThreadLine { text, mine, bold };
    v.push(line);
    assert(line_views(v@) =~= line_views(before).push(line@));
}

/// The lines of a conversation, newest message first.
pub fn thread_lines(messages: &Vec<DirectMessage>) -> (r: Vec<ThreadLine>)
    ensures
        line_views(r@) == conversation_lines(message_views(messages@)),
{
    let mut r: Vec<ThreadLine> = Vec::new();
    let mut k: usize = messages.len();
    let ghost all = message_views(messages@);
    assert(all.take(k as int) =~= all);
    assert(line_views(r@) =~= Seq::<LineView>::empty());
    while k > 0
        invariant
            k <= messages@.len(),
            all == message_views(messages@),
            line_views(r@) + conversation_lines(all.take(k as int)) =~= conversation_lines(all),
        decreases k,
    {
        let ghost before = line_views(r@);
        let m = &messages[k - 1];
        let mut name = m.user_id.clone();
        name.append(":");
        push_line(&mut r, name, m.is_sender, true);
        push_line(&mut r, m.text.clone(), m.is_sender, false);
        push_line(&mut r, String::new(), false, false);
        proof {
            let prefix = all.take(k as int);
            assert(prefix.last() == m@);
            assert(prefix.drop_last() =~= all.take(k - 1));
            assert(line_views(r@) =~= before + message_block(m@));
            assert(conversation_lines(prefix) == message_block(m@) + conversation_lines(all.take(k - 1)));
        }
        k = k - 1;
    }
    r
}

/// The lines above the end that a conversation view of `height` rows
/// (borders included) skips, scrolled `dm_scroll` lines back.
pub open spec fn scroll_offset(line_count: usize, height: u16, dm_scroll: u16) -> int {
    let total = line_count as u16;
    let visible = if height >= 2 { height - 2 } else { 0 };
    if total > visible { total - visible - dm_scroll } else { 0 }
}

/// Where a conversation view is scrolled.  The count of lines is taken
/// modulo 65536; it must not be scrolled back further than there are hidden
/// lines.
pub fn thread_scroll(line_count: usize, height: u16, dm_scroll: u16) -> (r: u16)
    requires
        (line_count as u16) > (if height >= 2 { height - 2 } else { 0 })
            ==> (line_count as u16) - (if height >= 2 { height - 2 } else { 0 }) >= dm_scroll,
    ensures
        r == scroll_offset(line_count, height, dm_scroll),
{
    let total: u16 = line_count as u16;
    let visible: u16 = if height >= 2 { height - 2 } else { 0 };
    if total > visible {
        total - visible - dm_scroll
    } else {
        0
    }
}

/// The password as shown: one `*` per byte.
pub fn password_mask(password: &String) -> (r: String)
    ensures
        r@ == repeated('*', byte_len(password@) as nat),
{
    repeat_char('*', password.as_str().len())
}

/// A rectangle of the terminal.
#[derive(Clone, Copy, PartialEq, Eq, Structural, Debug)]
pub struct Area {
    pub x: u16,
    pub y: u16,
    pub width: u16,
    pub height: u16,
}

/// The three columns ratatui's layout solver gives when `area` is split
/// horizontally into `side`, `middle` and `side` percent.
pub uninterp spec fn percent_columns(area: Area, side: u16, middle: u16) -> Seq<Area>;

/// `Layout::split` of ratatui on a horizontal layout of three percentage
/// constraints.  The result is named `percent_columns` of the arguments; the
/// source gives one rectangle per constraint, so there are three.
#[verifier::external_body]
fn split_columns(area: Area, side: u16, middle: u16) -> (r: Vec<Area>)
    ensures
        r@ == percent_columns(area, side, middle),
        r@.len() == 3,
{
    let rects = Layout::default()
        .direction(Direction::Horizontal)
        .constraints([Constraint::Percentage(side), Constraint::Percentage(middle), Constraint::Percentage(side)])
        .split(Rect { x: area.x, y: area.y, width: area.width, height: area.height });
    rects.iter().map(|r| Area { x: r.x, y: r.y, width: r.width, height: r.height }).collect()
}

/// The middle column of `area` that is `percent_x` percent wide, with equal
/// margins on either side.
pub fn centered_rect(percent_x: u16, area: Area) -> (r: Area)
    requires
        percent_x <= 100,
    ensures
        r == percent_columns(area, ((100 - percent_x) / 2) as u16, percent_x)[1],
{
    let margin: u16 = (100 - percent_x) / 2;
    let columns = split_columns(area, margin, percent_x);
    columns[1]
}

/// One field of the login form as shown: its text, whether it is
/// highlighted, and the cursor after it.
pub struct FormField {
    pub text: String,
    pub focused: bool,
    pub cursor: String,
}

impl App {
    /// The user name field (`password` false) or the password field
    /// (`password` true) of the login form as shown: the name as typed, or
    /// the password's mask; highlighted, and followed by a `_` cursor, when
    /// it is the field being typed into (field 0 and field 1 respectively).
    pub fn login_form_field(&self, password: bool) -> (r: FormField)
        ensures
            r.text@ == (if password { repeated('*', byte_len(self.login_password@) as nat) } else { self.login_username@ }),
            r.focused == (self.login_field == (if password { 1usize } else { 0usize })),
            r.cursor@ == (if r.focused { "_"@ } else { ""@ }),
    {
        let field: usize = if password { 1 } else { 0 };
        let focused = self.login_field == field;
        let text = if password { password_mask(&self.login_password) } else { self.login_username.clone() };
        let cursor = if focused { owned("_") } else { owned("") };
        FormField { text, focused, cursor }
    }

    /// The line under the home screen: `  @user`.
    pub fn home_line(&self) -> (r: String)
        ensures
            r@ == "  @"@ + self.username@,
    {
        let mut r = owned("  @");
        r.append(self.username.as_str());
        r
    }

    /// The status line: the status after two spaces.
    pub fn status_line(&self) -> (r: String)
        ensures
            r@ == "  "@ + self.status@,
    {
        let mut r = owned("  ");
        r.append(self.status.as_str());
        r
    }

    /// The status line of the login form.
    pub fn login_status_line(&self) -> (r: String)
        ensures
            r@ == "  "@ + self.login_status@,
    {
        let mut r = owned("  ");
        r.append(self.login_status.as_str());
        r
    }

    /// The reply being typed, after a space.
    pub fn reply_line(&self) -> (r: String)
        ensures
            r@ == " "@ + self.dm_input@,
    {
        let mut r = owned(" ");
        r.append(self.dm_input.as_str());
        r
    }

    /// The title of the conversation frame: the title between spaces.
    pub fn thread_frame_title(&self) -> (r: String)
        ensures
            r@ == " "@ + self.current_thread_title@ + " "@,
    {
        let mut r = owned(" ");
        r.append(self.current_thread_title.as_str());
        r.append(" ");
        r
    }
}

} // verus!
