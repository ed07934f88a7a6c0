use vstd::prelude::*;
use crate::app::{
    AppState, AppView, ConnectionState, DeployTargetState, Focus, Message, MessageView, Sender,
    SenderView, check_mark, field_label_spec, menu_item_spec, MENU_LEN, ProfileForm,
};
use crate::pipeline::{label_spec, Pipeline};
use crate::profile::{Profile, ProfileView};
use crate::text::{chars_of, decimal, push_decimal};

verus! {

// ---------------------------------------------------------------------------
// Lines of text
// ---------------------------------------------------------------------------

/// One step of splitting on line breaks: the lines found so far and the
/// line being read, extended by `c`.
pub open spec fn line_step(st: (Seq<Seq<char>>, Seq<char>), c: char) -> (Seq<Seq<char>>, Seq<char>) {
    if c == '\n' {
        (st.0.push(st.1), Seq::empty())
    } else {
        (st.0, st.1.push(c))
    }
}

/// Splitting `s` on line breaks, read left to right.
pub open spec fn line_scan(s: Seq<char>) -> (Seq<Seq<char>>, Seq<char>)
    decreases s.len(),
{
    if s.len() == 0 {
        (Seq::empty(), Seq::empty())
    } else {
        line_step(line_scan(s.drop_last()), s.last())
    }
}

/// The pieces of `s` between line breaks, empty ones included, as
/// `str::split('\n')` yields them.
pub open spec fn lines_spec(s: Seq<char>) -> Seq<Seq<char>> {
    let st = line_scan(s);
    st.0.push(st.1)
}

/// The pieces of `s` between line breaks, empty ones included.
pub fn split_lines(s: &str) -> (r: Vec<String>)
    ensures
        r.deep_view() == lines_spec(s@),
{
    let cs = chars_of(s);
    let n = cs.len();
    let mut done: Vec<String> = Vec::new();
    let mut start: usize = 0;
    let mut i: usize = 0;
    while i < n
        invariant
            cs@ == s@,
            n == cs@.len(),
            start <= i <= n,
            line_scan(s@.subrange(0, i as int)).0 == done.deep_view(),
            line_scan(s@.subrange(0, i as int)).1 == s@.subrange(start as int, i as int),
        decreases n - i,
    {
        let c = cs[i];
        proof {
            assert(s@.subrange(0, i + 1).drop_last() == s@.subrange(0, i as int));
            assert(s@.subrange(0, i + 1).last() == c);
        }
        if c == '\n' {
            let w = String::from_str(s.substring_char(start, i));
            let ghost old_done = done.deep_view();
            done.push(w);
            assert(done.deep_view() == old_done.push(w@));
            start = i + 1;
            assert(s@.subrange(start as int, i + 1) =~= Seq::<char>::empty());
        } else {
            assert(s@.subrange(start as int, i + 1) == s@.subrange(start as int, i as int).push(c));
        }
        i = i + 1;
    }
    assert(s@.subrange(0, n as int) == s@);
    let w = String::from_str(s.substring_char(start, n));
    let ghost old_done = done.deep_view();
    done.push(w);
    assert(done.deep_view() == old_done.push(w@));
    done
}

/// `s` repeated `n` times.
pub open spec fn repeat_spec(s: Seq<char>, n: nat) -> Seq<char>
    decreases n,
{
    if n == 0 {
        Seq::empty()
    } else {
        repeat_spec(s, (n - 1) as nat) + s
    }
}

/// `s` repeated `n` times, as `str::repeat` gives it.
pub fn repeat_str(s: &str, n: usize) -> (r: String)
    ensures
        r@ == repeat_spec(s@, n as nat),
{
    let mut r = String::new();
    let mut i: usize = 0;
    while i < n
        invariant
            i <= n,
            r@ == repeat_spec(s@, i as nat),
        decreases n - i,
    {
        r.append(s);
        i = i + 1;
    }
    r
}

/// `a - b`, or 0 when `b > a`.
pub open spec fn sat_sub(a: int, b: int) -> nat {
    if a > b {
        (a - b) as nat
    } else {
        0
    }
}

// ---------------------------------------------------------------------------
// The chat
// ---------------------------------------------------------------------------

/// Who a chat line belongs to, for styling.
#[derive(Debug, Clone, Copy, PartialEq, Eq, Structural)]
pub enum Role {
    System,
    User,
    Assistant,
    Tool,
}

/// One line of the chat panel.
#[derive(Debug, Clone, PartialEq, Eq)]
pub enum ChatLine {
    /// The heading of a message: the sender's name.
    Header { role: Role, title: String },
    /// A line of a message's text.
    Body { role: Role, text: String },
    /// The blank line after a message.
    Blank,
}

/// The mathematical value of a [`ChatLine`].
pub enum ChatLineView {
    Header { role: Role, title: Seq<char> },
    Body { role: Role, text: Seq<char> },
    Blank,
}

impl View for ChatLine {
    type V = ChatLineView;

    open spec fn view(&self) -> ChatLineView {
        match self {
            ChatLine::Header { role, title } => ChatLineView::Header { role: *role, title: title@ },
            ChatLine::Body { role, text } => ChatLineView::Body { role: *role, text: text@ },
            ChatLine::Blank => ChatLineView::Blank,
        }
    }
}

impl DeepView for ChatLine {
    type V = ChatLineView;

    open spec fn deep_view(&self) -> ChatLineView {
        self@
    }
}

/// The styling role of a sender.
pub open spec fn role_of(s: SenderView) -> Role {
    match s {
        SenderView::System => Role::System,
        SenderView::User => Role::User,
        SenderView::Assistant => Role::Assistant,
        SenderView::Tool { .. } => Role::Tool,
    }
}

/// The name shown above a sender's messages.
pub open spec fn title_of(s: SenderView) -> Seq<char> {
    match s {
        SenderView::System => "system"@,
        SenderView::User => "user"@,
        SenderView::Assistant => "DeployKitty"@,
        SenderView::Tool { name } => "tool:"@ + name,
    }
}

/// The chat lines of one message: its heading, each line of its text, and
/// a blank line.
pub open spec fn message_lines(m: MessageView) -> Seq<ChatLineView> {
    let role = role_of(m.sender);
    seq![ChatLineView::Header { role, title: title_of(m.sender) }] + lines_spec(m.content).map_values(
        |t: Seq<char>| ChatLineView::Body { role, text: t },
    ) + seq![ChatLineView::Blank]
}

/// The chat lines of the messages, in order.
pub open spec fn chat_lines_spec(ms: Seq<MessageView>) -> Seq<ChatLineView>
    decreases ms.len(),
{
    if ms.len() == 0 {
        Seq::empty()
    } else {
        chat_lines_spec(ms.drop_last()) + message_lines(ms.last())
    }
}

fn role_and_title(s: &Sender) -> (r: (Role, String))
    ensures
        r.0 == role_of(s@),
        r.1@ == title_of(s@),
{
    match s {
        Sender::System => (Role::System, String::from_str("system")),
        Sender::User => (Role::User, String::from_str("user")),
        Sender::Assistant => (Role::Assistant, String::from_str("DeployKitty")),
        Sender::Tool { name } => (Role::Tool, String::from_str("tool:").concat(name.as_str())),
    }
}

/// The lines that the chat panel shows for `messages`.
pub fn chat_lines(messages: &[Message]) -> (r: Vec<ChatLine>)
    ensures
        r.deep_view() == chat_lines_spec(messages.deep_view()),
{
    let mut r: Vec<ChatLine> = Vec::new();
    let n = messages.len();
    let mut i: usize = 0;
    while i < n
        invariant
            n == messages@.len(),
            i <= n,
            r.deep_view() == chat_lines_spec(messages.deep_view().take(i as int)),
        decreases n - i,
    {
        let m = &messages[i];
        let ghost r0 = r.deep_view();
        let (role, title) = role_and_title(&m.sender);
        r.push(ChatLine::Header { role, title });
        let ghost r1 = r.deep_view();
        assert(r1 =~= r0.push(ChatLineView::Header { role, title: title_of(m.sender@) }));
        let lines = split_lines(m.content.as_str());
        let k = lines.len();
        let mut j: usize = 0;
        while j < k
            invariant
                k == lines@.len(),
                j <= k,
                lines.deep_view() == lines_spec(m.content@),
                r.deep_view() == r1 + lines.deep_view().take(j as int).map_values(
                    |t: Seq<char>| ChatLineView::Body { role, text: t },
                ),
            decreases k - j,
        {
            let ghost rj = r.deep_view();
            r.push(ChatLine::Body { role, text: lines[j].clone() });
            proof {
                assert(lines.deep_view().take(j + 1).map_values(
                    |t: Seq<char>| ChatLineView::Body { role, text: t },
                ) =~= lines.deep_view().take(j as int).map_values(
                    |t: Seq<char>| ChatLineView::Body { role, text: t },
                ).push(ChatLineView::Body { role, text: lines@[j as int]@ }));
                assert(r.deep_view() =~= rj.push(ChatLineView::Body { role, text: lines@[j as int]@ }));
            }
            j = j + 1;
        }
        assert(lines.deep_view().take(k as int) =~= lines.deep_view());
        let ghost r2 = r.deep_view();
        r.push(ChatLine::Blank);
        proof {
            assert(r.deep_view() =~= r2.push(ChatLineView::Blank));
            let ms = messages.deep_view().take(i + 1);
            assert(ms.drop_last() =~= messages.deep_view().take(i as int));
            assert(ms.last() == m@);
            assert(r.deep_view() =~= chat_lines_spec(messages.deep_view().take(i as int)) + message_lines(m@));
        }
        i = i + 1;
    }
    assert(messages.deep_view().take(n as int) =~= messages.deep_view());
    r
}

/// The chat scroll position after laying out `total` lines in `view_h`
/// rows: when the lines overflow, a chat that follows new messages, or one
/// scrolled past the end, is moved to the last screenful.
pub open spec fn follow_chat_state(s: AppView, total: nat, view_h: nat) -> AppView {
    if total > view_h && (s.following_chat || s.scroll_offsets[s.selected_menu as int] > total
        - view_h) {
        AppView {
            scroll_offsets: s.scroll_offsets.update(
                s.selected_menu as int,
                (total - view_h) as usize,
            ),
            ..s
        }
    } else {
        s
    }
}

impl AppState {
    /// Keeps the chat scroll position within `total` lines shown in
    /// `view_h` rows (following the end when asked to) and returns the
    /// first line to show.
    pub fn follow_chat_scroll(&mut self, total: usize, view_h: usize) -> (scroll: usize)
        requires
            old(self)@.wf(),
        ensures
            final(self)@ == follow_chat_state(old(self)@, total as nat, view_h as nat),
            final(self)@.wf(),
            scroll as int == {
                let o = final(self)@.scroll_offsets[old(self)@.selected_menu as int] as int;
                let last = sat_sub(total as int, 1) as int;
                if o < last {
                    o
                } else {
                    last
                }
            },
    {
        if total > view_h {
            let max_scroll = total - view_h;
            if self.following_chat || self.scroll_offset() > max_scroll {
                self.set_scroll_offset(max_scroll);
            }
        }
        let o = self.scroll_offset();
        let last = if total > 0 {
            total - 1
        } else {
            0
        };
        if o < last {
            o
        } else {
            last
        }
    }

    /// Keeps the log scroll position within `total` lines shown in `view_h`
    /// rows: past the end it moves to the last screenful; when everything
    /// fits it goes back to the top.
    pub fn clamp_logs_scroll(&mut self, total: usize, view_h: usize)
        ensures
            final(self)@ == (AppView {
                logs_scroll_offset: if total > view_h {
                    if old(self)@.logs_scroll_offset > total - view_h {
                        (total - view_h) as usize
                    } else {
                        old(self)@.logs_scroll_offset
                    }
                } else {
                    0
                },
                ..old(self)@
            }),
    {
        if total > view_h {
            let max_scroll = total - view_h;
            if self.logs_scroll_offset > max_scroll {
                self.logs_scroll_offset = max_scroll;
            }
        } else {
            self.logs_scroll_offset = 0;
        }
    }

    /// Keeps the content cursor on one of `count` rows: past the last row it
    /// moves to the last one (to 0 when there are none).
    pub fn clamp_content_cursor(&mut self, count: usize)
        ensures
            final(self)@ == (AppView {
                content_cursor: if old(self)@.content_cursor >= count {
                    sat_sub(count as int, 1) as usize
                } else {
                    old(self)@.content_cursor
                },
                ..old(self)@
            }),
    {
        if self.content_cursor >= count {
            self.content_cursor = if count > 0 {
                count - 1
            } else {
                0
            };
        }
    }
}

// ---------------------------------------------------------------------------
// The deploy and connection pages
// ---------------------------------------------------------------------------

/// The marker in front of a row: ` >` under the cursor, two spaces otherwise.
pub open spec fn cursor_prefix(at_cursor: bool) -> Seq<char> {
    if at_cursor {
        " >"@
    } else {
        "  "@
    }
}

/// A row of the deploy page: `{prefix} [x] Label`.
pub open spec fn deploy_row_spec(dt: DeployTargetState, at_cursor: bool) -> Seq<char> {
    cursor_prefix(at_cursor) + " "@ + check_mark(dt.selected) + " "@ + label_spec(dt.target)
}

fn prefix_str(at_cursor: bool) -> (r: &'static str)
    ensures
        r@ == cursor_prefix(at_cursor),
{
    if at_cursor {
        " >"
    } else {
        "  "
    }
}

/// The text of a row of the deploy page.
pub fn deploy_row_text(dt: &DeployTargetState, at_cursor: bool) -> (r: String)
    ensures
        r@ == deploy_row_spec(*dt, at_cursor),
{
    String::from_str(prefix_str(at_cursor)).concat(" ").concat(
        if dt.selected {
            "[x]"
        } else {
            "[ ]"
        },
    ).concat(" ").concat(Pipeline::target_label(&dt.target))
}

/// The connection status shown on the CONNECT VPS page.
pub open spec fn status_text_spec(c: ConnectionState) -> Seq<char> {
    match c {
        ConnectionState::Connected => "\u{25cf} Connected"@,
        ConnectionState::Connecting => "\u{25d0} Connecting..."@,
        ConnectionState::Failed => "\u{2717} Failed"@,
        ConnectionState::Disconnected => "\u{25cb} Disconnected"@,
    }
}

/// The connection status shown on the CONNECT VPS page.
pub fn status_text(c: ConnectionState) -> (r: &'static str)
    ensures
        r@ == status_text_spec(c),
{
    match c {
        ConnectionState::Connected => "\u{25cf} Connected",
        ConnectionState::Connecting => "\u{25d0} Connecting...",
        ConnectionState::Failed => "\u{2717} Failed",
        ConnectionState::Disconnected => "\u{25cb} Disconnected",
    }
}

/// A row of the CONNECT VPS page: `{prefix} {icon} user@host:port`, the
/// icon filled for the profile of the established connection.
pub open spec fn profile_row_spec(p: ProfileView, at_cursor: bool, connected: bool) -> Seq<char> {
    cursor_prefix(at_cursor) + " "@ + (if connected {
        "\u{25cf}"@
    } else {
        "\u{25cb}"@
    }) + " "@ + p.username + "@"@ + p.host + ":"@ + decimal(p.port as nat)
}

/// The text of a row of the CONNECT VPS page.
pub fn profile_row_text(p: &Profile, at_cursor: bool, connected: bool) -> (r: String)
    ensures
        r@ == profile_row_spec(p@, at_cursor, connected),
{
    let mut s = String::from_str(prefix_str(at_cursor)).concat(" ").concat(
        if connected {
            "\u{25cf}"
        } else {
            "\u{25cb}"
        },
    ).concat(" ").concat(p.username.as_str()).concat("@").concat(p.host.as_str()).concat(":");
    push_decimal(&mut s, p.port as u64);
    s
}

/// Whether profile `i` is the one of the established connection.
pub open spec fn is_connected_profile(s: AppView, i: int) -> bool {
    s.selected_profile == Some(i as usize) && s.connection_state == ConnectionState::Connected
}

impl AppState {
    /// Whether profile `i` is the one of the established connection.
    pub fn is_connected_profile(&self, i: usize) -> (b: bool)
        ensures
            b == is_connected_profile(self@, i as int),
    {
        match self.selected_profile {
            Some(k) => k == i && self.connection_state == ConnectionState::Connected,
            None => false,
        }
    }
}

// ---------------------------------------------------------------------------
// The profile form
// ---------------------------------------------------------------------------

/// What a form field shows: its text, or a hint when it is empty.
pub open spec fn field_display_spec(i: int, val: Seq<char>) -> Seq<char> {
    if val.len() == 0 {
        if i == 1 {
            "required"@
        } else if i == 2 {
            "22"@
        } else if i == 4 {
            "~/.ssh/id_rsa"@
        } else {
            Seq::empty()
        }
    } else {
        val
    }
}

/// What form field `i` shows for the text `val`.
pub fn field_display(i: usize, val: &str) -> (r: String)
    ensures
        r@ == field_display_spec(i as int, val@),
{
    if val.unicode_len() == 0 {
        if i == 1 {
            String::from_str("required")
        } else if i == 2 {
            String::from_str("22")
        } else if i == 4 {
            String::from_str("~/.ssh/id_rsa")
        } else {
            String::new()
        }
    } else {
        String::from_str(val)
    }
}

/// The label column of form field `i`: right-aligned in ten columns,
/// followed by a colon.
pub open spec fn field_label_text_spec(i: int) -> Seq<char> {
    " "@ + repeat_spec(" "@, sat_sub(10, field_label_spec(i).len() as int)) + field_label_spec(i) + ":"@
}

/// The label column of form field `i`.
pub fn field_label_text(i: usize) -> (r: String)
    ensures
        r@ == field_label_text_spec(i as int),
{
    let label = ProfileForm::field_label(i);
    let len = label.unicode_len();
    let pad = if len < 10 {
        10 - len
    } else {
        0
    };
    String::from_str(" ").concat(repeat_str(" ", pad).as_str()).concat(label).concat(":")
}

/// The value column of a form field: the shown text in brackets.
pub fn field_value_text(i: usize, val: &str) -> (r: String)
    ensures
        r@ == " ["@ + field_display_spec(i as int, val@) + "]"@,
{
    String::from_str(" [").concat(field_display(i, val).as_str()).concat("]")
}

// ---------------------------------------------------------------------------
// The side menu
// ---------------------------------------------------------------------------

/// The three lines of a side menu button `btn_w` columns wide: top border,
/// label (centred, with an arrow when active) and bottom border.
pub open spec fn button_lines_spec(label: Seq<char>, btn_w: nat, active: bool) -> (
    Seq<char>,
    Seq<char>,
    Seq<char>,
) {
    let pad = sat_sub(btn_w as int, label.len() as int);
    let left = pad / 2;
    let right = pad - left;
    (
        " ╭─"@ + repeat_spec("─"@, sat_sub(btn_w as int, 4)) + "─╮ "@,
        " "@ + repeat_spec(" "@, left) + (if active {
            "▶"@
        } else {
            " "@
        }) + label + repeat_spec(" "@, sat_sub(right, 1)) + " "@,
        " ╰"@ + repeat_spec("─"@, sat_sub(btn_w as int, 2)) + "╯ "@,
    )
}

/// The three lines of side menu button `i`, `btn_w` columns wide.
pub fn button_lines(i: usize, btn_w: usize, active: bool) -> (r: (String, String, String))
    requires
        i < MENU_LEN,
    ensures
        (r.0@, r.1@, r.2@) == button_lines_spec(menu_item_spec(i as int), btn_w as nat, active),
{
    let label = crate::app::menu_item(i);
    let len = label.unicode_len();
    let top = String::from_str(" ╭─").concat(
        repeat_str(
            "─",
            if btn_w > 4 {
                btn_w - 4
            } else {
                0
            },
        ).as_str(),
    ).concat("─╮ ");
    let pad = if btn_w > len {
        btn_w - len
    } else {
        0
    };
    let left = pad / 2;
    let right = pad - left;
    let mid = String::from_str(" ").concat(repeat_str(" ", left).as_str()).concat(
        if active {
            "▶"
        } else {
            " "
        },
    ).concat(label).concat(
        repeat_str(
            " ",
            if right > 1 {
                right - 1
            } else {
                0
            },
        ).as_str(),
    ).concat(" ");
    let bottom = String::from_str(" ╰").concat(
        repeat_str(
            "─",
            if btn_w > 2 {
                btn_w - 2
            } else {
                0
            },
        ).as_str(),
    ).concat("╯ ");
    (top, mid, bottom)
}

/// The SSH status icon of the side menu.
pub open spec fn sidebar_icon_spec(c: ConnectionState) -> Seq<char> {
    match c {
        ConnectionState::Disconnected => "\u{25cb}"@,
        ConnectionState::Connecting => "\u{25d0}"@,
        ConnectionState::Connected => "\u{25cf}"@,
        ConnectionState::Failed => "\u{2717}"@,
    }
}

/// The SSH status line of the side menu: `  {icon} SSH`.
pub fn sidebar_status_text(c: ConnectionState) -> (r: String)
    ensures
        r@ == "  "@ + sidebar_icon_spec(c) + " SSH"@,
{
    let icon = match c {
        ConnectionState::Disconnected => "\u{25cb}",
        ConnectionState::Connecting => "\u{25d0}",
        ConnectionState::Connected => "\u{25cf}",
        ConnectionState::Failed => "\u{2717}",
    };
    String::from_str("  ").concat(icon).concat(" SSH")
}

// ---------------------------------------------------------------------------
// The input line
// ---------------------------------------------------------------------------

/// Whether the input line shows its cursor: when neither the side menu nor
/// the log panel has focus.
pub open spec fn input_cursor_visible_spec(f: Focus) -> bool {
    f != Focus::Sidebar && f != Focus::Logs
}

/// Whether the input line shows its cursor.
pub fn input_cursor_visible(f: Focus) -> (b: bool)
    ensures
        b == input_cursor_visible_spec(f),
{
    f != Focus::Sidebar && f != Focus::Logs
}

/// What the input line shows: the typed text, or a hint when it is empty.
pub fn input_display(input: &str) -> (r: String)
    ensures
        r@ == (if input@.len() == 0 {
            " type a message or /help..."@
        } else {
            input@
        }),
{
    if input.unicode_len() == 0 {
        String::from_str(" type a message or /help...")
    } else {
        String::from_str(input)
    }
}

} // verus!
