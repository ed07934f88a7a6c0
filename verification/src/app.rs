use vstd::prelude::*;
use crate::pipeline::{label_spec, Pipeline};
use crate::profile::{
    AiAgent, Database, DeploymentTarget, Preset, PresetView, Profile, ProfileView, ReverseProxy,
    blank_profile, default_key_path,
};
use crate::ssh::{SshEvent, SshEventView};
use crate::text::{
    contains, contains_spec, decimal, lowercase, parse_unsigned, parse_unsigned_spec,
    push_decimal, push_signed_decimal, signed_decimal, split_whitespace, to_lowercase, trim,
    trim_spec, words_spec,
};

verus! {

// ---------------------------------------------------------------------------
// Messages
// ---------------------------------------------------------------------------

/// Who wrote a chat message.
#[derive(Debug, Clone, PartialEq, Eq)]
pub enum Sender {
    System,
    User,
    Assistant,
    Tool { name: String },
}

/// The mathematical value of a [`Sender`].
pub enum SenderView {
    System,
    User,
    Assistant,
    Tool { name: Seq<char> },
}

impl View for Sender {
    type V = SenderView;

    open spec fn view(&self) -> SenderView {
        match self {
            Sender::System => SenderView::System,
            Sender::User => SenderView::User,
            Sender::Assistant => SenderView::Assistant,
            Sender::Tool { name } => SenderView::Tool { name: name@ },
        }
    }
}

/// A chat message on one of the pages.
#[derive(Debug, Clone, PartialEq, Eq)]
pub struct Message {
    pub sender: Sender,
    pub content: String,
}

/// The mathematical value of a [`Message`].
pub struct MessageView {
    pub sender: SenderView,
    pub content: Seq<char>,
}

impl View for Message {
    type V = MessageView;

    open spec fn view(&self) -> MessageView {
        MessageView { sender: self.sender@, content: self.content@ }
    }
}

impl DeepView for Message {
    type V = MessageView;

    open spec fn deep_view(&self) -> MessageView {
        self@
    }
}

/// A message from `sender` with the text `content`.
pub open spec fn msg(sender: SenderView, content: Seq<char>) -> MessageView {
    MessageView { sender, content }
}

fn system_message(content: String) -> (m: Message)
    ensures
        m@ == msg(SenderView::System, content@),
{
    Message { sender: Sender::System, content }
}

fn assistant_message(content: String) -> (m: Message)
    ensures
        m@ == msg(SenderView::Assistant, content@),
{
    Message { sender: Sender::Assistant, content }
}

// ---------------------------------------------------------------------------
// Focus, connection, layout constants
// ---------------------------------------------------------------------------

/// Which panel receives keys.
#[derive(Debug, Clone, Copy, PartialEq, Eq, Structural)]
pub enum Focus {
    Sidebar,
    Content,
    Input,
    Logs,
}

/// The state of the SSH connection.
#[derive(Debug, Clone, Copy, PartialEq, Eq, Structural)]
pub enum ConnectionState {
    Disconnected,
    Connecting,
    Connected,
    Failed,
}

/// The number of entries of the side menu, and of pages.
pub const MENU_LEN: usize = 6;

pub const SIDEBAR_W: u16 = 22;

pub const SIDEBAR_ITEM_Y0: u16 = 2;

pub const SIDEBAR_ITEM_STRIDE: u16 = 4;

pub const VERSION: &'static str = "0.1.0";

pub const SCROLL_PAGE_SIZE: usize = 10;

/// The label of the side menu entry `i`.
pub open spec fn menu_item_spec(i: int) -> Seq<char> {
    if i == 0 {
        "DEPLOY"@
    } else if i == 1 {
        "SETUP AGENT"@
    } else if i == 2 {
        "CONNECT VPS"@
    } else if i == 3 {
        "HISTORY"@
    } else if i == 4 {
        "CONNECTION"@
    } else {
        "SESSION"@
    }
}

/// The label of the side menu entry `i`: DEPLOY, SETUP AGENT, CONNECT VPS,
/// HISTORY, CONNECTION, SESSION.
pub fn menu_item(i: usize) -> (r: &'static str)
    requires
        i < MENU_LEN,
    ensures
        r@ == menu_item_spec(i as int),
{
    if i == 0 {
        "DEPLOY"
    } else if i == 1 {
        "SETUP AGENT"
    } else if i == 2 {
        "CONNECT VPS"
    } else if i == 3 {
        "HISTORY"
    } else if i == 4 {
        "CONNECTION"
    } else {
        "SESSION"
    }
}

/// The side menu entry whose button covers terminal row `row`: entry `i`
/// spans rows `2 + 4 i` to `2 + 4 i + 3`.
pub fn sidebar_hit_test(row: u16) -> (r: Option<usize>)
    ensures
        r == (if SIDEBAR_ITEM_Y0 <= row && row < SIDEBAR_ITEM_Y0 + SIDEBAR_ITEM_STRIDE * MENU_LEN {
            Some(((row - SIDEBAR_ITEM_Y0) / SIDEBAR_ITEM_STRIDE as int) as usize)
        } else {
            None
        }),
        r matches Some(i) ==> i < MENU_LEN && SIDEBAR_ITEM_Y0 + i * SIDEBAR_ITEM_STRIDE <= row
            <= SIDEBAR_ITEM_Y0 + i * SIDEBAR_ITEM_STRIDE + 3,
{
    let mut i: usize = 0;
    while i < MENU_LEN
        invariant
            i <= MENU_LEN,
            row < SIDEBAR_ITEM_Y0 || SIDEBAR_ITEM_Y0 + i * SIDEBAR_ITEM_STRIDE <= row,
        decreases MENU_LEN - i,
    {
        let y0 = SIDEBAR_ITEM_Y0 + (i as u16) * SIDEBAR_ITEM_STRIDE;
        if row >= y0 && row <= y0 + 3 {
            return Some(i);
        }
        i = i + 1;
    }
    None
}

// ---------------------------------------------------------------------------
// Deployment targets and the profile form
// ---------------------------------------------------------------------------

/// A deployment target and whether it is selected for the next run.
#[derive(Debug, Clone, Copy, PartialEq, Eq, Structural)]
pub struct DeployTargetState {
    pub target: DeploymentTarget,
    pub selected: bool,
}

/// Every deployment target, in menu order.
pub open spec fn all_targets() -> Seq<DeploymentTarget> {
    seq![
        DeploymentTarget::Hardening,
        DeploymentTarget::Database(Database::Postgres),
        DeploymentTarget::Database(Database::Redis),
        DeploymentTarget::Database(Database::MongoDB),
        DeploymentTarget::ReverseProxy(ReverseProxy::Caddy),
        DeploymentTarget::ReverseProxy(ReverseProxy::Nginx),
        DeploymentTarget::AiAgent(AiAgent::Hermes),
        DeploymentTarget::AiAgent(AiAgent::OpenClaw),
        DeploymentTarget::DockerCompose,
        DeploymentTarget::Binary,
    ]
}

/// The target list that a new session starts with: every target, in menu
/// order, with only system hardening selected.
pub open spec fn default_deploy_targets_spec() -> Seq<DeployTargetState> {
    all_targets().map_values(
        |t: DeploymentTarget| DeployTargetState { target: t, selected: t == DeploymentTarget::Hardening },
    )
}

fn default_deploy_targets() -> (v: Vec<DeployTargetState>)
    ensures
        v@ == default_deploy_targets_spec(),
{
    let v = vec![
        DeployTargetState { target: DeploymentTarget::Hardening, selected: true },
        DeployTargetState { target: DeploymentTarget::Database(Database::Postgres), selected: false },
        DeployTargetState { target: DeploymentTarget::Database(Database::Redis), selected: false },
        DeployTargetState { target: DeploymentTarget::Database(Database::MongoDB), selected: false },
        DeployTargetState { target: DeploymentTarget::ReverseProxy(ReverseProxy::Caddy), selected: false },
        DeployTargetState { target: DeploymentTarget::ReverseProxy(ReverseProxy::Nginx), selected: false },
        DeployTargetState { target: DeploymentTarget::AiAgent(AiAgent::Hermes), selected: false },
        DeployTargetState { target: DeploymentTarget::AiAgent(AiAgent::OpenClaw), selected: false },
        DeployTargetState { target: DeploymentTarget::DockerCompose, selected: false },
        DeployTargetState { target: DeploymentTarget::Binary, selected: false },
    ];
    assert(v@ =~= default_deploy_targets_spec());
    v
}

/// The form in which a new SSH profile is typed.
#[derive(Debug, Clone, PartialEq, Eq)]
pub struct ProfileForm {
    pub active: bool,
    pub name: String,
    pub host: String,
    pub port: String,
    pub username: String,
    pub key_path: String,
    pub cursor: usize,
}

/// The mathematical value of a [`ProfileForm`].
#[verifier::ext_equal]
pub struct ProfileFormView {
    pub active: bool,
    pub name: Seq<char>,
    pub host: Seq<char>,
    pub port: Seq<char>,
    pub username: Seq<char>,
    pub key_path: Seq<char>,
    pub cursor: usize,
}

impl View for ProfileForm {
    type V = ProfileFormView;

    open spec fn view(&self) -> ProfileFormView {
        ProfileFormView {
            active: self.active,
            name: self.name@,
            host: self.host@,
            port: self.port@,
            username: self.username@,
            key_path: self.key_path@,
            cursor: self.cursor,
        }
    }
}

/// The form as it is opened: active, empty name and host, port `22`, user
/// `root`, key `{HOME}/.ssh/id_rsa` (empty where `$HOME` is unset), cursor
/// on the first field.
pub open spec fn opened_form(home: Option<Seq<char>>) -> ProfileFormView {
    ProfileFormView {
        active: true,
        name: Seq::empty(),
        host: Seq::empty(),
        port: "22"@,
        username: "root"@,
        key_path: match home {
            Some(h) => default_key_path(h),
            None => Seq::empty(),
        },
        cursor: 0,
    }
}

/// The closed form that a session starts with: inactive, every field empty.
pub open spec fn closed_form() -> ProfileFormView {
    ProfileFormView {
        active: false,
        name: Seq::empty(),
        host: Seq::empty(),
        port: Seq::empty(),
        username: Seq::empty(),
        key_path: Seq::empty(),
        cursor: 0,
    }
}

/// The text field number `i` of the form: name, host, port, user, key path.
pub open spec fn form_field(f: ProfileFormView, i: int) -> Seq<char> {
    if i == 0 {
        f.name
    } else if i == 1 {
        f.host
    } else if i == 2 {
        f.port
    } else if i == 3 {
        f.username
    } else {
        f.key_path
    }
}

/// The label of form field `i`.
pub open spec fn field_label_spec(i: int) -> Seq<char> {
    if i == 0 {
        "Name"@
    } else if i == 1 {
        "Host"@
    } else if i == 2 {
        "Port"@
    } else if i == 3 {
        "User"@
    } else if i == 4 {
        "Key Path"@
    } else {
        ""@
    }
}

fn closed_profile_form() -> (f: ProfileForm)
    ensures
        f@ == closed_form(),
{
    ProfileForm {
        active: false,
        name: String::new(),
        host: String::new(),
        port: String::new(),
        username: String::new(),
        key_path: String::new(),
        cursor: 0,
    }
}

impl ProfileForm {
    /// The form as it is opened; `home` is the value of `$HOME`, if set.
    pub fn open(home: Option<&str>) -> (f: ProfileForm)
        ensures
            f@ == opened_form(
                match home {
                    Some(h) => Some(h@),
                    None => None,
                },
            ),
    {
        let key_path = match home {
            Some(h) => String::from_str(h).concat("/.ssh/id_rsa"),
            None => String::new(),
        };
        ProfileForm {
            active: true,
            name: String::new(),
            host: String::new(),
            port: String::from_str("22"),
            username: String::from_str("root"),
            key_path,
            cursor: 0,
        }
    }

    /// The number of cursor positions: five fields and the save button.
    pub fn field_count(&self) -> (n: usize)
        ensures
            n == 6,
    {
        6
    }

    /// The text of field `i` for editing, for `i < 5`.
    pub fn field_mut(&mut self, i: usize) -> (r: Option<&mut String>)
        ensures
            i < 5 <==> r is Some,
            r matches Some(s) ==> (*s)@ == form_field(old(self)@, i as int) && final(self)@
                == set_form_field(old(self)@, i as int, final(s)@),
            r is None ==> *final(self) == *old(self),
    {
        if i == 0 {
            Some(&mut self.name)
        } else if i == 1 {
            Some(&mut self.host)
        } else if i == 2 {
            Some(&mut self.port)
        } else if i == 3 {
            Some(&mut self.username)
        } else if i == 4 {
            Some(&mut self.key_path)
        } else {
            None
        }
    }

    /// The label of field `i`: Name, Host, Port, User, Key Path; empty past
    /// the last field.
    pub fn field_label(i: usize) -> (r: &'static str)
        ensures
            r@ == field_label_spec(i as int),
    {
        if i == 0 {
            "Name"
        } else if i == 1 {
            "Host"
        } else if i == 2 {
            "Port"
        } else if i == 3 {
            "User"
        } else if i == 4 {
            "Key Path"
        } else {
            ""
        }
    }
}

/// The form with field `i` set to `v`.
pub open spec fn set_form_field(f: ProfileFormView, i: int, v: Seq<char>) -> ProfileFormView {
    if i == 0 {
        ProfileFormView { name: v, ..f }
    } else if i == 1 {
        ProfileFormView { host: v, ..f }
    } else if i == 2 {
        ProfileFormView { port: v, ..f }
    } else if i == 3 {
        ProfileFormView { username: v, ..f }
    } else {
        ProfileFormView { key_path: v, ..f }
    }
}

// ---------------------------------------------------------------------------
// Pages
// ---------------------------------------------------------------------------

/// The opening messages of the page `name`, which is described by `desc`.
pub open spec fn welcome_page(name: Seq<char>, desc: Seq<char>) -> Seq<MessageView> {
    seq![
        msg(SenderView::System, "You are in the "@ + name + " view.\n\n"@ + desc),
        msg(
            SenderView::Assistant,
            "Welcome to "@ + name + ".\n\nType a message or use /help for available commands."@,
        ),
    ]
}

/// The pages a session starts with: the deploy page empty, every other
/// page with its welcome.
pub open spec fn initial_pages() -> Seq<Seq<MessageView>> {
    seq![
        Seq::empty(),
        welcome_page("SETUP AGENT"@, "Configure and set up a new AI agent."@),
        welcome_page(
            "CONNECT VPS"@,
            "Manage SSH connections.\nSelect a profile and press Enter to connect."@,
        ),
        welcome_page("HISTORY"@, "Browse your previous sessions and commands."@),
        welcome_page("CONNECTION"@, "View active connection details."@),
        welcome_page("SESSION"@, "View and manage current sessions."@),
    ]
}

fn page_welcome(name: &str, desc: &str) -> (v: Vec<Message>)
    ensures
        v.deep_view() == welcome_page(name@, desc@),
{
    let first = String::from_str("You are in the ").concat(name).concat(" view.\n\n").concat(desc);
    let second = String::from_str("Welcome to ").concat(name).concat(
        ".\n\nType a message or use /help for available commands.",
    );
    let v = vec![system_message(first), assistant_message(second)];
    assert(v.deep_view() =~= welcome_page(name@, desc@));
    v
}

fn make_pages() -> (v: Vec<Vec<Message>>)
    ensures
        v.deep_view() == initial_pages(),
{
    let v = vec![
        Vec::new(),
        page_welcome("SETUP AGENT", "Configure and set up a new AI agent."),
        page_welcome(
            "CONNECT VPS",
            "Manage SSH connections.\nSelect a profile and press Enter to connect.",
        ),
        page_welcome("HISTORY", "Browse your previous sessions and commands."),
        page_welcome("CONNECTION", "View active connection details."),
        page_welcome("SESSION", "View and manage current sessions."),
    ];
    assert(v.deep_view() =~= initial_pages()) by {
        assert(v@[0].deep_view() =~= Seq::<MessageView>::empty());
    }
    v
}

// ---------------------------------------------------------------------------
// The application state
// ---------------------------------------------------------------------------

/// Everything the interface shows and the commands act on.
pub struct AppState {
    /// One list of chat messages per side menu entry.
    pub pages: Vec<Vec<Message>>,
    pub selected_menu: usize,
    pub logs: Vec<String>,
    /// One chat scroll position per page.
    pub scroll_offsets: Vec<usize>,
    pub focus: Focus,
    pub following_chat: bool,
    pub logs_scroll_offset: usize,
    pub profiles: Vec<Profile>,
    pub presets: Vec<Preset>,
    pub selected_profile: Option<usize>,
    pub connection_state: ConnectionState,
    pub input: String,
    pub deploy_targets: Vec<DeployTargetState>,
    pub deploy_running: bool,
    pub content_cursor: usize,
    pub profile_form: ProfileForm,
}

/// The mathematical value of an [`AppState`].
#[verifier::ext_equal]
pub struct AppView {
    pub pages: Seq<Seq<MessageView>>,
    pub selected_menu: usize,
    pub logs: Seq<Seq<char>>,
    pub scroll_offsets: Seq<usize>,
    pub focus: Focus,
    pub following_chat: bool,
    pub logs_scroll_offset: usize,
    pub profiles: Seq<ProfileView>,
    pub presets: Seq<PresetView>,
    pub selected_profile: Option<usize>,
    pub connection_state: ConnectionState,
    pub input: Seq<char>,
    pub deploy_targets: Seq<DeployTargetState>,
    pub deploy_running: bool,
    pub content_cursor: usize,
    pub profile_form: ProfileFormView,
}

impl View for AppState {
    type V = AppView;

    open spec fn view(&self) -> AppView {
        AppView {
            pages: self.pages.deep_view(),
            selected_menu: self.selected_menu,
            logs: self.logs.deep_view(),
            scroll_offsets: self.scroll_offsets@,
            focus: self.focus,
            following_chat: self.following_chat,
            logs_scroll_offset: self.logs_scroll_offset,
            profiles: self.profiles.deep_view(),
            presets: self.presets.deep_view(),
            selected_profile: self.selected_profile,
            connection_state: self.connection_state,
            input: self.input@,
            deploy_targets: self.deploy_targets@,
            deploy_running: self.deploy_running,
            content_cursor: self.content_cursor,
            profile_form: self.profile_form@,
        }
    }
}

impl AppView {
    /// One page and one scroll position per menu entry, and a menu entry
    /// selected.
    pub open spec fn wf(self) -> bool {
        &&& self.pages.len() == MENU_LEN
        &&& self.scroll_offsets.len() == MENU_LEN
        &&& self.selected_menu < MENU_LEN
    }

    /// The messages of the selected page.
    pub open spec fn current_page(self) -> Seq<MessageView> {
        self.pages[self.selected_menu as int]
    }

    /// `m` appended to the selected page.
    pub open spec fn add_message(self, m: MessageView) -> AppView {
        AppView {
            pages: self.pages.update(
                self.selected_menu as int,
                self.pages[self.selected_menu as int].push(m),
            ),
            ..self
        }
    }

    /// `m` appended to the page `i`.
    pub open spec fn add_message_to(self, i: int, m: MessageView) -> AppView {
        AppView { pages: self.pages.update(i, self.pages[i].push(m)), ..self }
    }

    /// `line` appended to the log.
    pub open spec fn add_log(self, line: Seq<char>) -> AppView {
        AppView { logs: self.logs.push(line), ..self }
    }
}

/// The state a session starts with, given the saved profiles and presets.
pub open spec fn initial_state(profiles: Seq<ProfileView>, presets: Seq<PresetView>) -> AppView {
    AppView {
        pages: initial_pages(),
        selected_menu: 0,
        logs: Seq::empty(),
        scroll_offsets: seq![0usize, 0, 0, 0, 0, 0],
        focus: Focus::Input,
        following_chat: true,
        logs_scroll_offset: 0,
        profiles,
        presets,
        selected_profile: None,
        connection_state: ConnectionState::Disconnected,
        input: Seq::empty(),
        deploy_targets: default_deploy_targets_spec(),
        deploy_running: false,
        content_cursor: 0,
        profile_form: closed_form(),
    }
}

impl AppState {
    /// The state a session starts with, holding the saved `profiles` and
    /// `presets`.
    pub fn new(profiles: Vec<Profile>, presets: Vec<Preset>) -> (s: AppState)
        ensures
            s@ == initial_state(profiles.deep_view(), presets.deep_view()),
            s@.wf(),
    {
        let s = AppState {
            pages: make_pages(),
            selected_menu: 0,
            logs: Vec::new(),
            scroll_offsets: vec![0, 0, 0, 0, 0, 0],
            focus: Focus::Input,
            following_chat: true,
            logs_scroll_offset: 0,
            profiles,
            presets,
            selected_profile: None,
            connection_state: ConnectionState::Disconnected,
            input: String::new(),
            deploy_targets: default_deploy_targets(),
            deploy_running: false,
            content_cursor: 0,
            profile_form: closed_profile_form(),
        };
        assert(s.logs.deep_view() =~= Seq::<Seq<char>>::empty());
        assert(s.scroll_offsets@ =~= seq![0usize, 0, 0, 0, 0, 0]);
        s
    }

    /// The messages of the selected page.
    pub fn messages(&self) -> (r: &[Message])
        requires
            self@.wf(),
        ensures
            r@ == self.pages@[self.selected_menu as int]@,
            r.deep_view() == self@.current_page(),
    {
        self.pages[self.selected_menu].as_slice()
    }

    /// The messages of the selected page, for changing them in place.
    pub fn messages_mut(&mut self) -> (r: &mut Vec<Message>)
        requires
            old(self)@.wf(),
        ensures
            r@ == old(self).pages@[old(self).selected_menu as int]@,
            final(self)@ == (AppView {
                pages: old(self)@.pages.update(old(self).selected_menu as int, final(r).deep_view()),
                ..old(self)@
            }),
    {
        let i = self.selected_menu;
        &mut self.pages[i]
    }

    /// The scroll position of the selected page.
    pub fn scroll_offset(&self) -> (r: usize)
        requires
            self@.wf(),
        ensures
            r == self@.scroll_offsets[self.selected_menu as int],
    {
        self.scroll_offsets[self.selected_menu]
    }

    /// Sets the scroll position of the selected page.
    pub fn set_scroll_offset(&mut self, v: usize)
        requires
            old(self)@.wf(),
        ensures
            final(self)@ == (AppView {
                scroll_offsets: old(self)@.scroll_offsets.update(old(self).selected_menu as int, v),
                ..old(self)@
            }),
    {
        let i = self.selected_menu;
        self.scroll_offsets.set(i, v);
    }

    /// Appends a line to the log.
    pub fn add_log(&mut self, line: String)
        ensures
            final(self)@ == old(self)@.add_log(line@),
    {
        let ghost old_logs = self.logs.deep_view();
        self.logs.push(line);
        assert(self.logs.deep_view() =~= old_logs.push(line@));
    }

    /// Appends a message to the selected page.
    pub fn add_message(&mut self, m: Message)
        requires
            old(self)@.wf(),
        ensures
            final(self)@ == old(self)@.add_message(m@),
            final(self)@.wf(),
    {
        let i = self.selected_menu;
        self.push_to_page(i, m);
    }

    fn push_to_page(&mut self, i: usize, m: Message)
        requires
            i < old(self).pages.len(),
        ensures
            final(self)@ == old(self)@.add_message_to(i as int, m@),
    {
        let ghost old_pages = self.pages.deep_view();
        let ghost mv = m@;
        self.pages[i].push(m);
        assert(self.pages.deep_view() =~= old_pages.update(i as int, old_pages[i as int].push(mv))) by {
            assert(self.pages[i as int].deep_view() =~= old_pages[i as int].push(mv));
        }
    }
}

// ---------------------------------------------------------------------------
// The deploy page
// ---------------------------------------------------------------------------

/// `[x]` for a selected target, `[ ]` otherwise.
pub open spec fn check_mark(selected: bool) -> Seq<char> {
    if selected {
        "[x]"@
    } else {
        "[ ]"@
    }
}

/// One line of the target list: `  [x] Label`.
pub open spec fn target_row(dt: DeployTargetState) -> Seq<char> {
    "  "@ + check_mark(dt.selected) + " "@ + label_spec(dt.target) + "\n"@
}

/// The lines of the target list, in order.
pub open spec fn target_rows(ts: Seq<DeployTargetState>) -> Seq<char>
    decreases ts.len(),
{
    if ts.len() == 0 {
        Seq::empty()
    } else {
        target_rows(ts.drop_last()) + target_row(ts.last())
    }
}

/// The target list with the deploy commands below it.
pub open spec fn target_list_text(ts: Seq<DeployTargetState>) -> Seq<char> {
    "Available targets:\n"@ + target_rows(ts)
        + "\nCommands:\n  /targets       - show this list\n  /select <name> - toggle a target by name\n  /deploy        - run all selected targets"@
}

/// What the deploy page shows: how to use it, the target list, and a note
/// when there is no connection or a deployment is running.
pub open spec fn deploy_page(s: AppView) -> Seq<MessageView> {
    let head = seq![
        msg(SenderView::System, "Select deployment targets, then run /deploy to execute."@),
        msg(SenderView::Assistant, target_list_text(s.deploy_targets)),
    ];
    if s.connection_state != ConnectionState::Connected {
        head.push(msg(SenderView::System, "Not connected to any VPS. Use CONNECT VPS first."@))
    } else if s.deploy_running {
        head.push(
            msg(SenderView::System, "Deployment in progress... Check the logs panel for output."@),
        )
    } else {
        head
    }
}

impl AppView {
    /// The deploy page rewritten from the current targets and connection.
    pub open spec fn refresh_deploy_page(self) -> AppView {
        AppView { pages: self.pages.update(0, deploy_page(self)), ..self }
    }
}

fn check_str(selected: bool) -> (r: &'static str)
    ensures
        r@ == check_mark(selected),
{
    if selected {
        "[x]"
    } else {
        "[ ]"
    }
}

impl AppState {
    /// Rewrites the deploy page from the current targets and connection.
    pub fn refresh_deploy_page(&mut self)
        requires
            old(self)@.wf(),
        ensures
            final(self)@ == old(self)@.refresh_deploy_page(),
            final(self)@.wf(),
    {
        let mut msgs = vec![
            system_message(String::from_str("Select deployment targets, then run /deploy to execute.")),
            assistant_message(self.deploy_target_list_text()),
        ];
        if self.connection_state != ConnectionState::Connected {
            msgs.push(system_message(String::from_str("Not connected to any VPS. Use CONNECT VPS first.")));
        } else if self.deploy_running {
            msgs.push(
                system_message(
                    String::from_str("Deployment in progress... Check the logs panel for output."),
                ),
            );
        }
        assert(msgs.deep_view() =~= deploy_page(self@));
        let ghost old_pages = self.pages.deep_view();
        self.pages.set(0, msgs);
        assert(self.pages.deep_view() =~= old_pages.update(0, deploy_page(old(self)@)));
    }

    /// The target list with the deploy commands below it.
    fn deploy_target_list_text(&self) -> (r: String)
        ensures
            r@ == target_list_text(self.deploy_targets@),
    {
        let mut s = String::from_str("Available targets:\n");
        let n = self.deploy_targets.len();
        let mut i: usize = 0;
        while i < n
            invariant
                n == self.deploy_targets@.len(),
                i <= n,
                s@ == "Available targets:\n"@ + target_rows(self.deploy_targets@.take(i as int)),
            decreases n - i,
        {
            let dt = self.deploy_targets[i];
            s.append("  ");
            s.append(check_str(dt.selected));
            s.append(" ");
            s.append(Pipeline::target_label(&dt.target));
            s.append("\n");
            proof {
                let ts = self.deploy_targets@.take(i + 1);
                assert(ts.drop_last() =~= self.deploy_targets@.take(i as int));
                assert(ts.last() == dt);
            }
            i = i + 1;
        }
        assert(self.deploy_targets@.take(n as int) =~= self.deploy_targets@);
        s.append(
            "\nCommands:\n  /targets       - show this list\n  /select <name> - toggle a target by name\n  /deploy        - run all selected targets",
        );
        s
    }
}

// ---------------------------------------------------------------------------
// Toggling targets
// ---------------------------------------------------------------------------

/// Whether the target's label, lowercased, contains `name` lowercased.
pub open spec fn label_matches(t: DeploymentTarget, name: Seq<char>) -> bool {
    contains_spec(lowercase(label_spec(t)), lowercase(name))
}

/// Whether `i` is the first position of `ts` whose label matches `name`.
pub open spec fn is_first_match(ts: Seq<DeployTargetState>, name: Seq<char>, i: int) -> bool {
    &&& 0 <= i < ts.len()
    &&& label_matches(ts[i].target, name)
    &&& forall|j: int| 0 <= j < i ==> !label_matches(#[trigger] ts[j].target, name)
}

/// The first position of `ts` whose label matches `name`, if any.
pub open spec fn first_match(ts: Seq<DeployTargetState>, name: Seq<char>) -> Option<int> {
    if exists|i: int| is_first_match(ts, name, i) {
        Some(choose|i: int| is_first_match(ts, name, i))
    } else {
        None
    }
}

proof fn lemma_first_match_unique(ts: Seq<DeployTargetState>, name: Seq<char>, i: int, k: int)
    requires
        is_first_match(ts, name, i),
        is_first_match(ts, name, k),
    ensures
        i == k,
{
    if i < k {
        assert(!label_matches(ts[i].target, name));
    } else if k < i {
        assert(!label_matches(ts[k].target, name));
    }
}

/// The state after toggling the target at `found`, or after reporting that
/// no target matches `name` when `found` is `None`.
pub open spec fn apply_toggle_spec(s: AppView, found: Option<int>, name: Seq<char>) -> AppView {
    match found {
        Some(i) => {
            let dt = s.deploy_targets[i];
            let now = !dt.selected;
            let ts = s.deploy_targets.update(i, DeployTargetState { target: dt.target, selected: now });
            AppView { deploy_targets: ts, ..s }.refresh_deploy_page().add_message(
                msg(
                    SenderView::System,
                    "Toggled "@ + label_spec(dt.target) + " "@ + (if now {
                        "on"@
                    } else {
                        "off"@
                    }),
                ),
            )
        },
        None => s.add_message(
            msg(
                SenderView::System,
                "No target matching '"@ + name + "'. Use /targets to list available targets."@,
            ),
        ),
    }
}

/// The state after `/select name`-style toggling: the first target whose
/// label contains `name` (both lowercased) flips its selection.
pub open spec fn toggle_target_spec(s: AppView, name: Seq<char>) -> AppView {
    apply_toggle_spec(s, first_match(s.deploy_targets, name), name)
}

/// The first position whose (lowercased) label contains the (lowercased)
/// name, given the lowercased labels and name.
pub fn first_label_match(lower_labels: &Vec<String>, lower_name: &str) -> (r: Option<usize>)
    ensures
        r matches Some(i) ==> i < lower_labels@.len() && contains_spec(
            lower_labels@[i as int]@,
            lower_name@,
        ) && forall|j: int|
            0 <= j < i ==> !contains_spec(#[trigger] lower_labels@[j]@, lower_name@),
        r is None ==> forall|j: int|
            0 <= j < lower_labels@.len() ==> !contains_spec(#[trigger] lower_labels@[j]@, lower_name@),
{
    let n = lower_labels.len();
    let mut i: usize = 0;
    while i < n
        invariant
            n == lower_labels@.len(),
            i <= n,
            forall|j: int| 0 <= j < i ==> !contains_spec(#[trigger] lower_labels@[j]@, lower_name@),
        decreases n - i,
    {
        if contains(lower_labels[i].as_str(), lower_name) {
            return Some(i);
        }
        i = i + 1;
    }
    None
}

impl AppState {
    /// Flips the selection of the target at `found` and reports it, or
    /// reports that nothing matches `name` when `found` is `None`.
    pub fn apply_toggle(&mut self, found: Option<usize>, name: &str)
        requires
            old(self)@.wf(),
            found matches Some(i) ==> i < old(self).deploy_targets@.len(),
        ensures
            final(self)@ == apply_toggle_spec(
                old(self)@,
                match found {
                    Some(i) => Some(i as int),
                    None => None,
                },
                name@,
            ),
            final(self)@.wf(),
    {
        match found {
            Some(i) => {
                let dt = self.deploy_targets[i];
                let now = !dt.selected;
                self.deploy_targets.set(i, DeployTargetState { target: dt.target, selected: now });
                let label = Pipeline::target_label(&dt.target);
                self.refresh_deploy_page();
                let mut text = String::from_str("Toggled ").concat(label).concat(" ");
                text.append(if now { "on" } else { "off" });
                self.add_message(system_message(text));
            },
            None => {
                let text = String::from_str("No target matching '").concat(name).concat(
                    "'. Use /targets to list available targets.",
                );
                self.add_message(system_message(text));
            },
        }
    }

    /// Flips the selection of the first target whose label contains `name`,
    /// ignoring case, and reports it on the selected page.
    pub fn toggle_target(&mut self, name: &str)
        requires
            old(self)@.wf(),
        ensures
            final(self)@ == toggle_target_spec(old(self)@, name@),
            final(self)@.wf(),
    {
        let n = self.deploy_targets.len();
        let mut labels: Vec<String> = Vec::new();
        let mut i: usize = 0;
        while i < n
            invariant
                n == self.deploy_targets@.len(),
                i <= n,
                labels@.len() == i,
                forall|j: int|
                    0 <= j < i ==> #[trigger] labels@[j]@ == lowercase(
                        label_spec(self.deploy_targets@[j].target),
                    ),
            decreases n - i,
        {
            let label = Pipeline::target_label(&self.deploy_targets[i].target);
            labels.push(to_lowercase(label));
            i = i + 1;
        }
        let lower_name = to_lowercase(name);
        let found = first_label_match(&labels, lower_name.as_str());
        proof {
            let ts = self.deploy_targets@;
            match found {
                Some(i) => {
                    assert forall|j: int| 0 <= j < i implies !label_matches(#[trigger] ts[j].target, name@) by {
                        assert(labels@[j]@ == lowercase(label_spec(ts[j].target)));
                    }
                    assert(labels@[i as int]@ == lowercase(label_spec(ts[i as int].target)));
                    assert(is_first_match(ts, name@, i as int));
                    let k = choose|k: int| is_first_match(ts, name@, k);
                    lemma_first_match_unique(ts, name@, i as int, k);
                },
                None => {
                    assert forall|k: int| !is_first_match(ts, name@, k) by {
                        if 0 <= k < ts.len() {
                            assert(labels@[k]@ == lowercase(label_spec(ts[k].target)));
                        }
                    }
                },
            }
        }
        self.apply_toggle(found, name);
    }
}

// ---------------------------------------------------------------------------
// Effects: outside work that a state change asks for
// ---------------------------------------------------------------------------

/// Outside work that a state change asks the caller to do.
#[derive(Debug, Clone, PartialEq, Eq)]
pub enum Effect {
    /// Nothing to do.
    Nothing,
    /// Open an SSH session to the profile, reporting to a fresh channel that
    /// replaces the current one.
    Connect(Profile),
    /// Run the scripts of the targets, in order, on the profile's host,
    /// reporting to a fresh channel that replaces the current one.
    Deploy { profile: Profile, targets: Vec<DeploymentTarget> },
    /// Write the profile list to the profile file.
    SaveProfiles,
    /// Drop the channel of the current session.
    CloseConnection,
}

/// The mathematical value of an [`Effect`].
pub enum EffectView {
    Nothing,
    Connect(ProfileView),
    Deploy { profile: ProfileView, targets: Seq<DeploymentTarget> },
    SaveProfiles,
    CloseConnection,
}

impl View for Effect {
    type V = EffectView;

    open spec fn view(&self) -> EffectView {
        match self {
            Effect::Nothing => EffectView::Nothing,
            Effect::Connect(p) => EffectView::Connect(p@),
            Effect::Deploy { profile, targets } => EffectView::Deploy {
                profile: profile@,
                targets: targets@,
            },
            Effect::SaveProfiles => EffectView::SaveProfiles,
            Effect::CloseConnection => EffectView::CloseConnection,
        }
    }
}

// ---------------------------------------------------------------------------
// Starting a deployment
// ---------------------------------------------------------------------------

/// The selected targets, in list order.
pub open spec fn selected_targets(ts: Seq<DeployTargetState>) -> Seq<DeploymentTarget>
    decreases ts.len(),
{
    if ts.len() == 0 {
        Seq::empty()
    } else {
        let r = selected_targets(ts.drop_last());
        if ts.last().selected {
            r.push(ts.last().target)
        } else {
            r
        }
    }
}

/// The labels of `ts` joined by `, `.
pub open spec fn joined_labels(ts: Seq<DeploymentTarget>) -> Seq<char>
    decreases ts.len(),
{
    if ts.len() == 0 {
        Seq::empty()
    } else if ts.len() == 1 {
        label_spec(ts[0])
    } else {
        joined_labels(ts.drop_last()) + ", "@ + label_spec(ts.last())
    }
}

/// The log line announcing a target: `>>> Label`.
pub open spec fn announce_line(t: DeploymentTarget) -> Seq<char> {
    ">>> "@ + label_spec(t)
}

/// The state once a deployment of the targets `sel` has started.
pub open spec fn deployment_started(s: AppView, sel: Seq<DeploymentTarget>) -> AppView {
    let s1 = AppView { deploy_running: true, selected_menu: 0, ..s }.refresh_deploy_page();
    let s2 = s1.add_message(msg(SenderView::System, "Starting deployment: "@ + joined_labels(sel)));
    AppView {
        logs: s2.logs.push("=== DEPLOYMENT STARTED ==="@) + sel.map_values(
            |t: DeploymentTarget| announce_line(t),
        ),
        focus: Focus::Logs,
        ..s2
    }
}

/// What `/deploy` does: refuse without a connection, while a deployment
/// runs, without a selected profile or without a selected target; otherwise
/// start deploying the selected targets on the selected profile.
pub open spec fn start_deployment_spec(s: AppView) -> (AppView, EffectView) {
    if s.connection_state != ConnectionState::Connected {
        (
            s.add_message(msg(SenderView::System, "Not connected. Use /connect <n> first."@)),
            EffectView::Nothing,
        )
    } else if s.deploy_running {
        (
            s.add_message(msg(SenderView::System, "Deployment already in progress."@)),
            EffectView::Nothing,
        )
    } else if !(s.selected_profile matches Some(i) && i < s.profiles.len()) {
        (
            s.add_message(msg(SenderView::System, "No profile selected. Use /connect <n> first."@)),
            EffectView::Nothing,
        )
    } else if selected_targets(s.deploy_targets).len() == 0 {
        (
            s.add_message(
                msg(
                    SenderView::System,
                    "No targets selected. Use /select <name> to toggle targets."@,
                ),
            ),
            EffectView::Nothing,
        )
    } else {
        let sel = selected_targets(s.deploy_targets);
        (
            deployment_started(s, sel),
            EffectView::Deploy { profile: s.profiles[s.selected_profile->0 as int], targets: sel },
        )
    }
}

fn selected_target_list(ts: &Vec<DeployTargetState>) -> (r: Vec<DeploymentTarget>)
    ensures
        r@ == selected_targets(ts@),
{
    let mut r: Vec<DeploymentTarget> = Vec::new();
    let n = ts.len();
    let mut i: usize = 0;
    while i < n
        invariant
            n == ts@.len(),
            i <= n,
            r@ == selected_targets(ts@.take(i as int)),
        decreases n - i,
    {
        proof {
            assert(ts@.take(i + 1).drop_last() =~= ts@.take(i as int));
        }
        if ts[i].selected {
            r.push(ts[i].target);
        }
        i = i + 1;
    }
    assert(ts@.take(n as int) =~= ts@);
    r
}

fn join_labels(ts: &Vec<DeploymentTarget>) -> (r: String)
    ensures
        r@ == joined_labels(ts@),
{
    let mut r = String::new();
    let n = ts.len();
    let mut i: usize = 0;
    while i < n
        invariant
            n == ts@.len(),
            i <= n,
            r@ == joined_labels(ts@.take(i as int)),
        decreases n - i,
    {
        proof {
            assert(ts@.take(i + 1).drop_last() =~= ts@.take(i as int));
        }
        if i > 0 {
            r.append(", ");
        }
        r.append(Pipeline::target_label(&ts[i]));
        proof {
            if i == 0 {
                assert(ts@.take(1)[0] == ts@[0]);
                assert(Seq::<char>::empty() + label_spec(ts@[0]) =~= label_spec(ts@[0]));
            }
        }
        i = i + 1;
    }
    assert(ts@.take(n as int) =~= ts@);
    r
}

impl AppState {
    /// `/deploy`: starts deploying the selected targets on the selected
    /// profile, or says why it cannot. The deployment itself is the returned
    /// effect.
    pub fn start_deployment(&mut self) -> (e: Effect)
        requires
            old(self)@.wf(),
        ensures
            (final(self)@, e@) == start_deployment_spec(old(self)@),
            final(self)@.wf(),
    {
        if self.connection_state != ConnectionState::Connected {
            self.add_message(system_message(String::from_str("Not connected. Use /connect <n> first.")));
            return Effect::Nothing;
        }
        if self.deploy_running {
            self.add_message(system_message(String::from_str("Deployment already in progress.")));
            return Effect::Nothing;
        }
        let profile = match self.selected_profile {
            Some(i) => {
                if i < self.profiles.len() {
                    self.profiles[i].duplicate()
                } else {
                    self.add_message(
                        system_message(String::from_str("No profile selected. Use /connect <n> first.")),
                    );
                    return Effect::Nothing;
                }
            },
            None => {
                self.add_message(
                    system_message(String::from_str("No profile selected. Use /connect <n> first.")),
                );
                return Effect::Nothing;
            },
        };
        let selected = selected_target_list(&self.deploy_targets);
        if selected.len() == 0 {
            self.add_message(
                system_message(
                    String::from_str("No targets selected. Use /select <name> to toggle targets."),
                ),
            );
            return Effect::Nothing;
        }
        let ghost s0 = self@;
        self.deploy_running = true;
        self.selected_menu = 0;
        self.refresh_deploy_page();
        let names = join_labels(&selected);
        self.add_message(system_message(String::from_str("Starting deployment: ").concat(names.as_str())));
        self.add_log(String::from_str("=== DEPLOYMENT STARTED ==="));
        let ghost logs0 = self@.logs;
        let ghost pre_loop = self@;
        let n = selected.len();
        let mut i: usize = 0;
        while i < n
            invariant
                n == selected@.len(),
                i <= n,
                self@.wf(),
                self@.logs == logs0 + selected@.take(i as int).map_values(
                    |t: DeploymentTarget| announce_line(t),
                ),
                self@ == (AppView { logs: self@.logs, ..pre_loop }),
            decreases n - i,
        {
            let line = String::from_str(">>> ").concat(Pipeline::target_label(&selected[i]));
            let ghost before = self@;
            self.add_log(line);
            proof {
                assert(selected@.take(i + 1).map_values(|t: DeploymentTarget| announce_line(t))
                    =~= selected@.take(i as int).map_values(|t: DeploymentTarget| announce_line(t)).push(
                    announce_line(selected@[i as int]),
                ));
            }
            i = i + 1;
        }
        assert(selected@.take(n as int) =~= selected@);
        self.focus = Focus::Logs;
        proof {
            let s1 = AppView { deploy_running: true, selected_menu: 0, ..s0 }.refresh_deploy_page();
            let s2 = s1.add_message(
                msg(SenderView::System, "Starting deployment: "@ + joined_labels(selected@)),
            );
            assert(logs0 == s2.logs.push("=== DEPLOYMENT STARTED ==="@));
            assert(self@ =~= deployment_started(s0, selected@));
        }
        Effect::Deploy { profile, targets: selected }
    }
}

// ---------------------------------------------------------------------------
// Profiles and connecting
// ---------------------------------------------------------------------------

fn take_string(s: &mut String) -> (r: String)
    ensures
        r@ == old(s)@,
        final(s)@ == Seq::<char>::empty(),
{
    let mut r = String::new();
    std::mem::swap(s, &mut r);
    r
}

/// The state after opening the profile form on the CONNECT VPS page.
pub open spec fn open_profile_form_spec(s: AppView, home: Option<Seq<char>>) -> AppView {
    AppView {
        selected_menu: 2,
        content_cursor: 0,
        profile_form: opened_form(home),
        focus: Focus::Content,
        ..s
    }
}

/// The port typed in the form: its value where it parses as a `u16`, else 22.
pub open spec fn form_port(port: Seq<char>) -> u16 {
    match parse_unsigned_spec(port, 65535) {
        Some(v) => v as u16,
        None => 22,
    }
}

/// What saving the profile form does: nothing without a host; otherwise
/// the typed profile is appended (named `user@host` when the name is
/// empty), the form is closed with its text fields but the port emptied,
/// the cursor moves to the new profile and the profile list is to be saved.
pub open spec fn save_profile_form_spec(s: AppView) -> (AppView, EffectView) {
    let f = s.profile_form;
    if f.host.len() == 0 {
        (s, EffectView::Nothing)
    } else {
        let name = if f.name.len() == 0 {
            f.username + "@"@ + f.host
        } else {
            f.name
        };
        let p = ProfileView {
            name,
            host: f.host,
            port: form_port(f.port),
            username: f.username,
            key_path: f.key_path,
        };
        let profiles = s.profiles.push(p);
        (
            AppView {
                profiles,
                profile_form: ProfileFormView {
                    active: false,
                    name: Seq::empty(),
                    host: Seq::empty(),
                    username: Seq::empty(),
                    key_path: Seq::empty(),
                    ..f
                },
                content_cursor: (profiles.len() - 1) as usize,
                ..s
            },
            EffectView::SaveProfiles,
        )
    }
}

/// What connecting to profile `idx` does: nothing for an unknown profile;
/// otherwise the profile is selected, the state is Connecting, the CONNECT
/// VPS page is shown with a note, the log says so, and a session is to be
/// opened.
pub open spec fn connect_to_spec(s: AppView, idx: usize) -> (AppView, EffectView) {
    if idx >= s.profiles.len() {
        (s, EffectView::Nothing)
    } else {
        let p = s.profiles[idx as int];
        let s1 = AppView {
            selected_profile: Some(idx),
            connection_state: ConnectionState::Connecting,
            selected_menu: 2,
            ..s
        };
        (
            s1.add_log("Connecting to "@ + p.username + "@"@ + p.host + "..."@).add_message(
                msg(
                    SenderView::System,
                    "Connecting to "@ + p.username + "@"@ + p.host + ":"@ + decimal(p.port as nat)
                        + "..."@,
                ),
            ),
            EffectView::Connect(p),
        )
    }
}

impl AppState {
    /// Replaces the messages of page `index`, if there is such a page.
    pub fn set_page_messages(&mut self, index: usize, msgs: Vec<Message>)
        ensures
            final(self)@ == (if index < old(self)@.pages.len() {
                AppView {
                    pages: old(self)@.pages.update(index as int, msgs.deep_view()),
                    ..old(self)@
                }
            } else {
                old(self)@
            }),
    {
        if index < self.pages.len() {
            let ghost old_pages = self.pages.deep_view();
            let ghost mv = msgs.deep_view();
            self.pages.set(index, msgs);
            assert(self.pages.deep_view() =~= old_pages.update(index as int, mv));
        }
    }

    /// Opens the profile form on the CONNECT VPS page; `home` is the value
    /// of `$HOME`, if set.
    pub fn open_profile_form(&mut self, home: Option<&str>)
        requires
            old(self)@.wf(),
        ensures
            final(self)@ == open_profile_form_spec(
                old(self)@,
                match home {
                    Some(h) => Some(h@),
                    None => None,
                },
            ),
            final(self)@.wf(),
    {
        self.selected_menu = 2;
        self.content_cursor = 0;
        self.profile_form = ProfileForm::open(home);
        self.focus = Focus::Content;
    }

    /// Saves the profile typed in the form, when it has a host.
    pub fn save_profile_form(&mut self) -> (e: Effect)
        requires
            old(self)@.wf(),
        ensures
            (final(self)@, e@) == save_profile_form_spec(old(self)@),
            final(self)@.wf(),
    {
        let host = take_string(&mut self.profile_form.host);
        if host.as_str().is_empty() {
            proof {
                assert(self.profile_form@.host =~= old(self).profile_form@.host);
                assert(self.profile_form@ =~= old(self).profile_form@);
                assert(self@ =~= old(self)@);
            }
            return Effect::Nothing;
        }
        let name = take_string(&mut self.profile_form.name);
        let name = if name.as_str().is_empty() {
            self.profile_form.username.clone().concat("@").concat(host.as_str())
        } else {
            name
        };
        let port: u16 = match parse_unsigned(self.profile_form.port.as_str(), 65535) {
            Some(v) => v as u16,
            None => 22,
        };
        let username = take_string(&mut self.profile_form.username);
        let key_path = take_string(&mut self.profile_form.key_path);
        let p = Profile { name, host, port, username, key_path };
        let ghost old_profiles = self.profiles.deep_view();
        let ghost pv = p@;
        self.profiles.push(p);
        assert(self.profiles.deep_view() =~= old_profiles.push(pv));
        self.profile_form.active = false;
        self.content_cursor = self.profiles.len() - 1;
        proof {
            assert(self@ =~= save_profile_form_spec(old(self)@).0);
        }
        Effect::SaveProfiles
    }

    /// Starts connecting to profile `profile_idx`, when there is one. The
    /// session itself is the returned effect.
    pub fn connect_to(&mut self, profile_idx: usize) -> (e: Effect)
        requires
            old(self)@.wf(),
        ensures
            (final(self)@, e@) == connect_to_spec(old(self)@, profile_idx),
            final(self)@.wf(),
    {
        if profile_idx >= self.profiles.len() {
            return Effect::Nothing;
        }
        self.selected_profile = Some(profile_idx);
        self.connection_state = ConnectionState::Connecting;
        self.selected_menu = 2;
        let profile = self.profiles[profile_idx].duplicate();
        let log = String::from_str("Connecting to ").concat(profile.username.as_str()).concat("@").concat(
            profile.host.as_str(),
        ).concat("...");
        self.add_log(log);
        let mut text = String::from_str("Connecting to ").concat(profile.username.as_str()).concat(
            "@",
        ).concat(profile.host.as_str()).concat(":");
        push_decimal(&mut text, profile.port as u64);
        text.append("...");
        self.add_message(system_message(text));
        Effect::Connect(profile)
    }
}

// ---------------------------------------------------------------------------
// SSH events
// ---------------------------------------------------------------------------

/// The state after one event from an SSH worker.
pub open spec fn apply_ssh_event_spec(s: AppView, ev: SshEventView) -> AppView {
    match ev {
        SshEventView::Line(line) => s.add_log(line),
        SshEventView::Error(e) => AppView {
            connection_state: ConnectionState::Failed,
            ..s.add_log("ERROR: "@ + e)
        }.add_message(msg(SenderView::System, "SSH error: "@ + e)),
        SshEventView::Done(code) => {
            let s1 = s.add_log("[exit code: "@ + signed_decimal(code as int) + "]"@);
            if s.deploy_running {
                AppView { deploy_running: false, ..s1 }.add_message_to(
                    0,
                    msg(SenderView::System, "Deployment finished."@),
                ).refresh_deploy_page()
            } else {
                s1.add_message(
                    msg(
                        SenderView::System,
                        "Command finished with exit code "@ + signed_decimal(code as int),
                    ),
                )
            }
        },
        SshEventView::Connected => AppView {
            connection_state: ConnectionState::Connected,
            ..s.add_log("SSH connected"@)
        }.add_message(msg(SenderView::System, "Connected to VPS."@)).add_message(
            msg(
                SenderView::Assistant,
                "Connection established. You can now run commands.\nType a command or select a target from DEPLOY."@,
            ),
        ),
    }
}

/// The state after the events `evs`, applied in order.
pub open spec fn apply_ssh_events_spec(s: AppView, evs: Seq<SshEventView>) -> AppView
    decreases evs.len(),
{
    if evs.len() == 0 {
        s
    } else {
        apply_ssh_event_spec(apply_ssh_events_spec(s, evs.drop_last()), evs.last())
    }
}

impl AppState {
    /// Applies one event from an SSH worker: output goes to the log; an
    /// error marks the connection failed; a finished command or deployment
    /// is reported; a new session marks the connection established.
    pub fn apply_ssh_event(&mut self, ev: SshEvent)
        requires
            old(self)@.wf(),
        ensures
            final(self)@ == apply_ssh_event_spec(old(self)@, ev@),
            final(self)@.wf(),
    {
        match ev {
            SshEvent::Line(line) => {
                self.add_log(line);
            },
            SshEvent::Error(e) => {
                self.add_log(String::from_str("ERROR: ").concat(e.as_str()));
                self.connection_state = ConnectionState::Failed;
                self.add_message(system_message(String::from_str("SSH error: ").concat(e.as_str())));
            },
            SshEvent::Done(code) => {
                let mut line = String::from_str("[exit code: ");
                push_signed_decimal(&mut line, code as i64);
                line.append("]");
                self.add_log(line);
                if self.deploy_running {
                    self.deploy_running = false;
                    self.push_to_page(0, system_message(String::from_str("Deployment finished.")));
                    self.refresh_deploy_page();
                } else {
                    let mut text = String::from_str("Command finished with exit code ");
                    push_signed_decimal(&mut text, code as i64);
                    self.add_message(system_message(text));
                }
            },
            SshEvent::Connected => {
                self.connection_state = ConnectionState::Connected;
                self.add_log(String::from_str("SSH connected"));
                self.add_message(system_message(String::from_str("Connected to VPS.")));
                self.add_message(
                    assistant_message(
                        String::from_str(
                            "Connection established. You can now run commands.\nType a command or select a target from DEPLOY.",
                        ),
                    ),
                );
            },
        }
    }

    /// Applies the events received from an SSH worker, in order.
    pub fn drain_ssh_events(&mut self, events: Vec<SshEvent>)
        requires
            old(self)@.wf(),
        ensures
            final(self)@ == apply_ssh_events_spec(old(self)@, events.deep_view()),
            final(self)@.wf(),
    {
        let ghost s0 = self@;
        let ghost evs = events.deep_view();
        let total = events.len();
        let mut rest = events;
        let mut k: usize = 0;
        while rest.len() > 0
            invariant
                self@.wf(),
                evs.len() == total,
                k <= evs.len(),
                rest.deep_view() == evs.skip(k as int),
                self@ == apply_ssh_events_spec(s0, evs.take(k as int)),
            decreases rest.len(),
        {
            let ghost before = rest.deep_view();
            let ghost before_exec = rest@;
            let ev = rest.remove(0);
            proof {
                assert(before == evs.skip(k as int));
                assert(before.len() == before_exec.len());
                assert(k < evs.len());
                assert(evs.skip(k as int)[0] == evs[k as int]);
                assert(ev@ == before[0]);
                assert(ev@ == evs[k as int]);
                assert forall|j: int| 0 <= j < rest@.len() implies rest.deep_view()[j] == evs.skip(
                    k + 1,
                )[j] by {
                    assert(rest@[j] == before_exec[j + 1]);
                    assert(before[j + 1] == evs.skip(k as int)[j + 1]);
                }
                assert(rest.deep_view() =~= evs.skip(k + 1));
                assert(evs.take(k + 1).drop_last() =~= evs.take(k as int));
            }
            k = k + 1;
            self.apply_ssh_event(ev);
        }
        assert(evs.take(k as int) =~= evs);
    }
}

// ---------------------------------------------------------------------------
// Typed input and commands
// ---------------------------------------------------------------------------

/// `Some` of the view of `home`, if there is one.
pub open spec fn home_view(home: Option<&str>) -> Option<Seq<char>> {
    match home {
        Some(h) => Some(h@),
        None => None,
    }
}

/// The text of `/help`.
pub open spec fn help_text() -> Seq<char> {
    "Available commands:\n  /help          - show this message\n  /connect <n>   - connect to profile by index\n  /disconnect    - close SSH connection\n  /profiles      - list saved profiles\n  /add-profile   - open profile form\n  /targets       - list deployment targets\n  /select <name> - toggle a deployment target\n  /deploy        - run all selected targets\n  /clear         - clear log panel"@
}

/// The answer to `/run`.
pub open spec fn run_text() -> Seq<char> {
    "Use a deployment target instead (navigate to DEPLOY and select targets).\nFor one-off commands, /connect first then type the command directly."@
}

/// One line of `/profiles`: `  i. user@host:port`.
pub open spec fn profile_row(i: int, p: ProfileView) -> Seq<char> {
    "  "@ + decimal(i as nat) + ". "@ + p.username + "@"@ + p.host + ":"@ + decimal(p.port as nat)
        + "\n"@
}

/// The lines of `/profiles`, numbered from 0.
pub open spec fn profile_rows(ps: Seq<ProfileView>) -> Seq<char>
    decreases ps.len(),
{
    if ps.len() == 0 {
        Seq::empty()
    } else {
        profile_rows(ps.drop_last()) + profile_row(ps.len() - 1, ps.last())
    }
}

/// `/connect n`: connects to profile `n`, or says that there is no such
/// profile or that the argument is missing or not a number.
pub open spec fn connect_command_spec(s: AppView, parts: Seq<Seq<char>>) -> (AppView, EffectView) {
    let idx = if parts.len() > 1 {
        parse_unsigned_spec(parts[1], usize::MAX as nat)
    } else {
        None
    };
    match idx {
        Some(i) => if i < s.profiles.len() {
            connect_to_spec(s, i as usize)
        } else {
            (
                s.add_message(
                    msg(
                        SenderView::System,
                        "Profile "@ + decimal(i) + " not found. Use /profiles to list them."@,
                    ),
                ),
                EffectView::Nothing,
            )
        },
        None => (
            s.add_message(msg(SenderView::System, "Usage: /connect <profile_index>"@)),
            EffectView::Nothing,
        ),
    }
}

/// `/profiles`: lists the saved profiles, or says there are none.
pub open spec fn profiles_command_spec(s: AppView) -> AppView {
    if s.profiles.len() == 0 {
        s.add_message(msg(SenderView::Assistant, "No profiles saved. Use /add-profile to create one."@))
    } else {
        s.add_message(msg(SenderView::Assistant, "Saved profiles:\n"@ + profile_rows(s.profiles)))
    }
}

/// `/save-profile`: appends a blank profile for `$HOME` (empty when unset).
pub open spec fn save_blank_profile_spec(s: AppView, home: Option<Seq<char>>) -> AppView {
    let h = match home {
        Some(h) => h,
        None => Seq::empty(),
    };
    AppView { profiles: s.profiles.push(blank_profile(h)), ..s }.add_message(
        msg(
            SenderView::System,
            "Blank profile saved (fill in details manually in ~/.config/deploykit/profiles.toml)"@,
        ),
    )
}

/// `/select name`: shows the deploy page and toggles the first target
/// matching `name` (the empty name when missing).
pub open spec fn select_command_spec(s: AppView, parts: Seq<Seq<char>>) -> AppView {
    let name = if parts.len() > 1 {
        parts[1]
    } else {
        Seq::empty()
    };
    toggle_target_spec(AppView { selected_menu: 0, ..s }, name)
}

fn profile_row_string(i: usize, p: &Profile) -> (r: String)
    ensures
        r@ == profile_row(i as int, p@),
{
    let mut s = String::from_str("  ");
    push_decimal(&mut s, i as u64);
    s.append(". ");
    s.append(p.username.as_str());
    s.append("@");
    s.append(p.host.as_str());
    s.append(":");
    push_decimal(&mut s, p.port as u64);
    s.append("\n");
    s
}

/// What the command `cmd` (the text after `/`) does; `home` is the value of
/// `$HOME`, if set. The first word names the command, the second is its
/// argument; an unknown command is reported.
pub open spec fn command_spec(s: AppView, cmd: Seq<char>, home: Option<Seq<char>>) -> (
    AppView,
    EffectView,
) {
    let parts = words_spec(cmd);
    let first = if parts.len() > 0 {
        parts[0]
    } else {
        Seq::empty()
    };
    if parts.len() > 0 && first == "help"@ {
        (s.add_message(msg(SenderView::Assistant, help_text())), EffectView::Nothing)
    } else if parts.len() > 0 && first == "connect"@ {
        connect_command_spec(s, parts)
    } else if parts.len() > 0 && first == "disconnect"@ {
        (
            AppView { connection_state: ConnectionState::Disconnected, ..s }.add_log(
                "Disconnected."@,
            ).add_message(msg(SenderView::System, "SSH connection closed."@)),
            EffectView::CloseConnection,
        )
    } else if parts.len() > 0 && first == "profiles"@ {
        (profiles_command_spec(s), EffectView::Nothing)
    } else if parts.len() > 0 && first == "add-profile"@ {
        (open_profile_form_spec(s, home), EffectView::Nothing)
    } else if parts.len() > 0 && first == "save-profile"@ {
        (save_blank_profile_spec(s, home), EffectView::SaveProfiles)
    } else if parts.len() > 0 && first == "run"@ {
        (s.add_message(msg(SenderView::Assistant, run_text())), EffectView::Nothing)
    } else if parts.len() > 0 && first == "clear"@ {
        (AppView { logs: Seq::empty(), ..s }, EffectView::Nothing)
    } else if parts.len() > 0 && first == "targets"@ {
        (AppView { selected_menu: 0, ..s }.refresh_deploy_page(), EffectView::Nothing)
    } else if parts.len() > 0 && first == "select"@ {
        (select_command_spec(s, parts), EffectView::Nothing)
    } else if parts.len() > 0 && first == "deploy"@ {
        start_deployment_spec(s)
    } else {
        (
            s.add_message(
                msg(
                    SenderView::Assistant,
                    "Unknown command: /"@ + first + ". Type /help for available commands."@,
                ),
            ),
            EffectView::Nothing,
        )
    }
}

/// What submitting the input line does: blank input (after trimming) is
/// ignored; otherwise the input is cleared, the trimmed text is posted as
/// the user's message, and text starting with `/` runs as a command.
pub open spec fn submit_input_spec(s: AppView, home: Option<Seq<char>>) -> (AppView, EffectView) {
    let text = trim_spec(s.input);
    if text.len() == 0 {
        (s, EffectView::Nothing)
    } else {
        let s1 = AppView { input: Seq::empty(), ..s }.add_message(msg(SenderView::User, text));
        if text[0] == '/' {
            command_spec(s1, text.drop_first(), home)
        } else {
            (s1, EffectView::Nothing)
        }
    }
}

fn is_word(s: &String, w: &str) -> (b: bool)
    ensures
        b == (s@ == w@),
{
    *s == String::from_str(w)
}

impl AppState {
    /// Posts the typed line and, when it starts with `/`, runs it as a
    /// command; `home` is the value of `$HOME`, if set. Outside work that the
    /// command needs is the returned effect.
    pub fn submit_input(&mut self, home: Option<&str>) -> (e: Effect)
        requires
            old(self)@.wf(),
        ensures
            (final(self)@, e@) == submit_input_spec(old(self)@, home_view(home)),
            final(self)@.wf(),
    {
        let text = trim(self.input.as_str());
        let n = text.as_str().unicode_len();
        if n == 0 {
            return Effect::Nothing;
        }
        self.input = String::new();
        let first = text.as_str().get_char(0);
        let cmd = String::from_str(text.as_str().substring_char(1, n));
        self.add_message(Message { sender: Sender::User, content: text });
        if first == '/' {
            proof {
                assert(cmd@ =~= trim_spec(old(self)@.input).drop_first());
            }
            self.handle_command(cmd.as_str(), home)
        } else {
            Effect::Nothing
        }
    }

    fn handle_command(&mut self, cmd: &str, home: Option<&str>) -> (e: Effect)
        requires
            old(self)@.wf(),
        ensures
            (final(self)@, e@) == command_spec(old(self)@, cmd@, home_view(home)),
            final(self)@.wf(),
    {
        let parts = split_whitespace(cmd);
        let ghost ws = words_spec(cmd@);
        assert(parts.len() > 0 ==> parts@[0]@ == ws[0]);
        assert(parts.len() > 1 ==> parts@[1]@ == ws[1]);
        if parts.len() > 0 && is_word(&parts[0], "help") {
            self.add_message(assistant_message(String::from_str("Available commands:\n  /help          - show this message\n  /connect <n>   - connect to profile by index\n  /disconnect    - close SSH connection\n  /profiles      - list saved profiles\n  /add-profile   - open profile form\n  /targets       - list deployment targets\n  /select <name> - toggle a deployment target\n  /deploy        - run all selected targets\n  /clear         - clear log panel")));
            Effect::Nothing
        } else if parts.len() > 0 && is_word(&parts[0], "connect") {
            self.connect_command(&parts)
        } else if parts.len() > 0 && is_word(&parts[0], "disconnect") {
            self.connection_state = ConnectionState::Disconnected;
            self.add_log(String::from_str("Disconnected."));
            self.add_message(system_message(String::from_str("SSH connection closed.")));
            Effect::CloseConnection
        } else if parts.len() > 0 && is_word(&parts[0], "profiles") {
            self.profiles_command();
            Effect::Nothing
        } else if parts.len() > 0 && is_word(&parts[0], "add-profile") {
            self.open_profile_form(home);
            Effect::Nothing
        } else if parts.len() > 0 && is_word(&parts[0], "save-profile") {
            self.save_blank_profile(home);
            Effect::SaveProfiles
        } else if parts.len() > 0 && is_word(&parts[0], "run") {
            self.add_message(assistant_message(String::from_str("Use a deployment target instead (navigate to DEPLOY and select targets).\nFor one-off commands, /connect first then type the command directly.")));
            Effect::Nothing
        } else if parts.len() > 0 && is_word(&parts[0], "clear") {
            self.logs = Vec::new();
            assert(self.logs.deep_view() =~= Seq::<Seq<char>>::empty());
            Effect::Nothing
        } else if parts.len() > 0 && is_word(&parts[0], "targets") {
            self.selected_menu = 0;
            self.refresh_deploy_page();
            Effect::Nothing
        } else if parts.len() > 0 && is_word(&parts[0], "select") {
            self.select_command(&parts);
            Effect::Nothing
        } else if parts.len() > 0 && is_word(&parts[0], "deploy") {
            self.start_deployment()
        } else {
            let first = if parts.len() > 0 {
                parts[0].as_str()
            } else {
                ""
            };
            proof {
                reveal_strlit("");
                assert(first@ == (if ws.len() > 0 { ws[0] } else { Seq::<char>::empty() }));
            }
            let text = String::from_str("Unknown command: /").concat(first).concat(
                ". Type /help for available commands.",
            );
            self.add_message(assistant_message(text));
            Effect::Nothing
        }
    }

    fn connect_command(&mut self, parts: &Vec<String>) -> (e: Effect)
        requires
            old(self)@.wf(),
        ensures
            (final(self)@, e@) == connect_command_spec(old(self)@, parts.deep_view()),
            final(self)@.wf(),
    {
        let idx = if parts.len() > 1 {
            parse_unsigned(parts[1].as_str(), usize::MAX as u64)
        } else {
            None
        };
        match idx {
            Some(i) => {
                if (i as usize) < self.profiles.len() {
                    self.connect_to(i as usize)
                } else {
                    let mut text = String::from_str("Profile ");
                    push_decimal(&mut text, i);
                    text.append(" not found. Use /profiles to list them.");
                    self.add_message(system_message(text));
                    Effect::Nothing
                }
            },
            None => {
                self.add_message(system_message(String::from_str("Usage: /connect <profile_index>")));
                Effect::Nothing
            },
        }
    }

    fn profiles_command(&mut self)
        requires
            old(self)@.wf(),
        ensures
            final(self)@ == profiles_command_spec(old(self)@),
            final(self)@.wf(),
    {
        if self.profiles.len() == 0 {
            self.add_message(
                assistant_message(String::from_str("No profiles saved. Use /add-profile to create one.")),
            );
        } else {
            let text = self.profile_list_text();
            self.add_message(assistant_message(text));
        }
    }

    fn save_blank_profile(&mut self, home: Option<&str>)
        requires
            old(self)@.wf(),
        ensures
            final(self)@ == save_blank_profile_spec(old(self)@, home_view(home)),
            final(self)@.wf(),
    {
        proof {
            reveal_strlit("");
        }
        let p = Profile::blank(
            match home {
                Some(h) => h,
                None => "",
            },
        );
        let ghost old_profiles = self.profiles.deep_view();
        let ghost pv = p@;
        self.profiles.push(p);
        assert(self.profiles.deep_view() =~= old_profiles.push(pv));
        self.add_message(
            system_message(
                String::from_str(
                    "Blank profile saved (fill in details manually in ~/.config/deploykit/profiles.toml)",
                ),
            ),
        );
    }

    fn select_command(&mut self, parts: &Vec<String>)
        requires
            old(self)@.wf(),
        ensures
            final(self)@ == select_command_spec(old(self)@, parts.deep_view()),
            final(self)@.wf(),
    {
        self.selected_menu = 0;
        assert(self@ =~= AppView { selected_menu: 0, ..old(self)@ });
        let ghost s1 = self@;
        if parts.len() > 1 {
            assert(parts.deep_view()[1] == parts@[1]@);
            self.toggle_target(parts[1].as_str());
        } else {
            proof {
                reveal_strlit("");
                assert(""@ =~= Seq::<char>::empty());
            }
            self.toggle_target("");
        }
    }

    fn profile_list_text(&self) -> (r: String)
        ensures
            r@ == "Saved profiles:\n"@ + profile_rows(self.profiles.deep_view()),
    {
        let mut s = String::from_str("Saved profiles:\n");
        let n = self.profiles.len();
        let mut i: usize = 0;
        while i < n
            invariant
                n == self.profiles@.len(),
                i <= n,
                s@ == "Saved profiles:\n"@ + profile_rows(self.profiles.deep_view().take(i as int)),
            decreases n - i,
        {
            let p = &self.profiles[i];
            let row = profile_row_string(i, p);
            s.append(row.as_str());
            proof {
                let ps = self.profiles.deep_view().take(i + 1);
                assert(ps.drop_last() =~= self.profiles.deep_view().take(i as int));
                assert(ps.last() == p@);
            }
            i = i + 1;
        }
        assert(self.profiles.deep_view().take(n as int) =~= self.profiles.deep_view());
        s
    }
}

} // verus!
