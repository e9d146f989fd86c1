//! The operator's panel: what it shows, and what the operator's actions do.

use vstd::prelude::*;
use vstd::string::*;

use crate::config::{
    law_accepted_settings_are_valid, settings_of, AddressView, LiveConnection, SidecarSettings,
};
use crate::control::{
    is_job_of, moved_to, new_client, ActionKind, ClientView, ControlClient, ControlCommand, ControlJob,
    ControlResult, ControlResultView, ResponseView,
};
use crate::double::{Double, TEN_BITS, TWO_BITS};
use crate::history::{opt_task, task_views, NativeReplayTask, ReplayTaskView};
use crate::http::{address_text, host_and_port, ControlEndpoint, EndpointView};
use crate::sidecar::unit_result;
use crate::status::{status_after_control, NativeStatusSnapshot, StatusView};
use crate::task::{
    active_word, can_stop_navigation, is_active_task_status, law_terminal_is_not_active,
};
use crate::text::{
    ascii_lower, clip_text, clipped, clone_opt, decimal, law_clipped, opt_is, opt_text, texts,
    trim_text, trimmed,
};

verus! {

/// The kinds of commands whose outcome is awaited.
#[derive(Debug)]
pub struct Pending {
    refresh: bool,
    status: bool,
    navigate: bool,
    stop: bool,
    recording: bool,
}

impl Pending {
    spec fn has(&self, kind: ActionKind) -> bool {
        match kind {
            ActionKind::Refresh => self.refresh,
            ActionKind::Status => self.status,
            ActionKind::Navigate => self.navigate,
            ActionKind::Stop => self.stop,
            ActionKind::Recording => self.recording,
        }
    }
}

impl View for Pending {
    type V = Set<ActionKind>;

    closed spec fn view(&self) -> Set<ActionKind> {
        Set::new(|kind: ActionKind| self.has(kind))
    }
}

impl Pending {
    pub fn new() -> (r: Pending)
        ensures
            r@ == Set::<ActionKind>::empty(),
    {
        let r = Pending {
            refresh: false,
            status: false,
            navigate: false,
            stop: false,
            recording: false,
        };
        assert(r@ == Set::<ActionKind>::empty());
        r
    }

    pub fn contains(&self, kind: ActionKind) -> (r: bool)
        ensures
            r == self@.contains(kind),
    {
        match kind {
            ActionKind::Refresh => self.refresh,
            ActionKind::Status => self.status,
            ActionKind::Navigate => self.navigate,
            ActionKind::Stop => self.stop,
            ActionKind::Recording => self.recording,
        }
    }

    fn set(&mut self, kind: ActionKind, value: bool)
        ensures
            forall|k: ActionKind| #[trigger]
                final(self)@.contains(k) == if k == kind {
                    value
                } else {
                    old(self)@.contains(k)
                },
    {
        match kind {
            ActionKind::Refresh => {
                self.refresh = value;
            },
            ActionKind::Status => {
                self.status = value;
            },
            ActionKind::Navigate => {
                self.navigate = value;
            },
            ActionKind::Stop => {
                self.stop = value;
            },
            ActionKind::Recording => {
                self.recording = value;
            },
        }
    }

    pub fn insert(&mut self, kind: ActionKind)
        ensures
            final(self)@ == old(self)@.insert(kind),
    {
        self.set(kind, true);
        assert(self@ == old(self)@.insert(kind));
    }

    pub fn remove(&mut self, kind: ActionKind)
        ensures
            final(self)@ == old(self)@.remove(kind),
    {
        self.set(kind, false);
        assert(self@ == old(self)@.remove(kind));
    }
}

/// A remark for the operator.
#[derive(Debug)]
pub struct Notice {
    pub text: String,
    pub is_error: bool,
}

pub struct NoticeView {
    pub text: Seq<char>,
    pub is_error: bool,
}

impl View for Notice {
    type V = NoticeView;

    open spec fn view(&self) -> NoticeView {
        NoticeView { text: self.text@, is_error: self.is_error }
    }
}

pub open spec fn info(text: Seq<char>) -> NoticeView {
    NoticeView { text, is_error: false }
}

pub open spec fn alarm(text: Seq<char>) -> NoticeView {
    NoticeView { text, is_error: true }
}

/// A connection that the operator asked for.
#[derive(Debug)]
pub struct ConnectionRequest {
    pub settings: SidecarSettings,
    pub connection: LiveConnection,
    pub save: bool,
}

pub struct RequestView {
    pub settings: AddressView,
    pub connection: AddressView,
    pub save: bool,
}

pub open spec fn opt_notice(o: Option<Notice>) -> Option<NoticeView> {
    match o {
        Some(notice) => Some(notice@),
        None => None,
    }
}

pub open spec fn opt_request(o: Option<ConnectionRequest>) -> Option<RequestView> {
    match o {
        Some(request) => Some(
            RequestView {
                settings: request.settings@,
                connection: request.connection@,
                save: request.save,
            },
        ),
        None => None,
    }
}

/// The form in which the operator puts in the robot's address.
#[derive(Debug)]
pub struct ConnectionForm {
    pub open: bool,
    pub advanced_open: bool,
    pub robot_ip: String,
    pub robot_port: u16,
    pub rerun_port: u16,
    pub save: bool,
    pub notice: Option<Notice>,
    /// There is an address to connect to.
    pub configured: bool,
    /// The connection that was asked for and is not set up yet.
    pub requested: Option<ConnectionRequest>,
}

pub struct FormView {
    pub open: bool,
    pub advanced_open: bool,
    pub robot_ip: Seq<char>,
    pub robot_port: u16,
    pub rerun_port: u16,
    pub save: bool,
    pub notice: Option<NoticeView>,
    pub configured: bool,
    pub requested: Option<RequestView>,
}

impl View for ConnectionForm {
    type V = FormView;

    open spec fn view(&self) -> FormView {
        FormView {
            open: self.open,
            advanced_open: self.advanced_open,
            robot_ip: self.robot_ip@,
            robot_port: self.robot_port,
            rerun_port: self.rerun_port,
            save: self.save,
            notice: opt_notice(self.notice),
            configured: self.configured,
            requested: opt_request(self.requested),
        }
    }
}

/// What the panel knows of the robot.
#[derive(Debug)]
pub struct RobotState {
    pub labels: Vec<String>,
    pub recording_enabled: bool,
    pub control_online: bool,
    pub upstream_connected: bool,
    pub upstream_error: Option<String>,
    /// When the last message came, in milliseconds since the epoch.
    pub last_upstream_message_at: Option<u64>,
    pub schema_version: String,
    pub task_id: Option<String>,
    pub task_status: String,
    pub task_goal: Option<String>,
    pub navigation_running: bool,
}

pub struct RobotView {
    pub labels: Seq<Seq<char>>,
    pub recording_enabled: bool,
    pub control_online: bool,
    pub upstream_connected: bool,
    pub upstream_error: Option<Seq<char>>,
    pub last_upstream_message_at: Option<u64>,
    pub schema_version: Seq<char>,
    pub task_id: Option<Seq<char>>,
    pub task_status: Seq<char>,
    pub task_goal: Option<Seq<char>>,
    pub navigation_running: bool,
}

impl View for RobotState {
    type V = RobotView;

    open spec fn view(&self) -> RobotView {
        RobotView {
            labels: texts(self.labels@),
            recording_enabled: self.recording_enabled,
            control_online: self.control_online,
            upstream_connected: self.upstream_connected,
            upstream_error: opt_text(self.upstream_error),
            last_upstream_message_at: self.last_upstream_message_at,
            schema_version: self.schema_version@,
            task_id: opt_text(self.task_id),
            task_status: self.task_status@,
            task_goal: opt_text(self.task_goal),
            navigation_running: self.navigation_running,
        }
    }
}

/// A robot of which nothing is known.
pub open spec fn unknown_robot() -> RobotView {
    RobotView {
        labels: Seq::empty(),
        recording_enabled: false,
        control_online: false,
        upstream_connected: false,
        upstream_error: None,
        last_upstream_message_at: None,
        schema_version: "—"@,
        task_id: None,
        task_status: "idle"@,
        task_goal: None,
        navigation_running: false,
    }
}

impl RobotState {
    /// A robot of which nothing is known.
    pub fn unknown() -> (r: RobotState)
        ensures
            r@ == unknown_robot(),
    {
        let r = RobotState {
            labels: Vec::new(),
            recording_enabled: false,
            control_online: false,
            upstream_connected: false,
            upstream_error: None,
            last_upstream_message_at: None,
            schema_version: "—".to_owned(),
            task_id: None,
            task_status: "idle".to_owned(),
            task_goal: None,
            navigation_running: false,
        };
        assert(texts(r.labels@) == Seq::<Seq<char>>::empty());
        r
    }
}

/// The recorded tasks, and what is shown: the live data or one of them.
#[derive(Debug)]
pub struct ReplayList {
    pub open: bool,
    pub loaded: bool,
    pub tasks: Vec<NativeReplayTask>,
    pub error: Option<String>,
    pub delete_confirmation: Option<NativeReplayTask>,
    /// The task that is shown.
    pub selected: Option<String>,
    pub source_label: String,
    /// The source that is to be opened.
    pub requested_source: Option<String>,
}

pub struct ReplayListView {
    pub open: bool,
    pub loaded: bool,
    pub tasks: Seq<ReplayTaskView>,
    pub error: Option<Seq<char>>,
    pub delete_confirmation: Option<ReplayTaskView>,
    pub selected: Option<Seq<char>>,
    pub source_label: Seq<char>,
    pub requested_source: Option<Seq<char>>,
}

impl View for ReplayList {
    type V = ReplayListView;

    open spec fn view(&self) -> ReplayListView {
        ReplayListView {
            open: self.open,
            loaded: self.loaded,
            tasks: task_views(self.tasks@),
            error: opt_text(self.error),
            delete_confirmation: opt_task(self.delete_confirmation),
            selected: opt_text(self.selected),
            source_label: self.source_label@,
            requested_source: opt_text(self.requested_source),
        }
    }
}

/// How the panel calls the live data.
pub open spec fn live_label() -> Seq<char> {
    "实时数据"@
}

/// The state of the operator's panel.
#[derive(Debug)]
pub struct ControlPanel {
    pub client: ControlClient,
    /// Where the configuration is, as text.
    pub config_path: String,
    pub connection: ConnectionForm,
    pub robot: RobotState,
    pub replays: ReplayList,
    pub diagnostics_open: bool,
    pub goal_text: String,
    pub dry_run: bool,
    pub pending: Pending,
    pub message: Notice,
}

pub struct PanelView {
    pub client: ClientView,
    pub config_path: Seq<char>,
    pub connection: FormView,
    pub robot: RobotView,
    pub replays: ReplayListView,
    pub diagnostics_open: bool,
    pub goal_text: Seq<char>,
    pub dry_run: bool,
    pub pending: Set<ActionKind>,
    pub message: NoticeView,
}

impl View for ControlPanel {
    type V = PanelView;

    open spec fn view(&self) -> PanelView {
        PanelView {
            client: self.client@,
            config_path: self.config_path@,
            connection: self.connection@,
            robot: self.robot@,
            replays: self.replays@,
            diagnostics_open: self.diagnostics_open,
            goal_text: self.goal_text@,
            dry_run: self.dry_run,
            pending: self.pending@,
            message: self.message@,
        }
    }
}

impl ReplayListView {
    /// While no recording is selected, the live data is shown.
    pub open spec fn well_formed(self) -> bool {
        self.selected is None ==> self.source_label == live_label()
    }
}

impl FormView {
    /// A connection that was asked for has an address that was checked.
    pub open spec fn well_formed(self) -> bool {
        self.requested matches Some(request) ==> request.settings.valid() && request.connection
            == request.settings
    }
}

/// The form at the start. `settings` is the address to connect to, if there is one.
pub open spec fn initial_form(
    endpoint: EndpointView,
    rerun_port: u16,
    settings: Option<AddressView>,
    start_error: Option<Seq<char>>,
) -> FormView {
    FormView {
        open: settings is None || start_error is Some,
        advanced_open: false,
        robot_ip: match settings {
            Some(a) => a.robot_ip,
            None => endpoint.host,
        },
        robot_port: match settings {
            Some(a) => a.robot_port,
            None => endpoint.port,
        },
        rerun_port,
        save: true,
        notice: match start_error {
            Some(error) => Some(alarm(error)),
            None => None,
        },
        configured: settings is Some,
        requested: None,
    }
}

pub open spec fn initial_replays() -> ReplayListView {
    ReplayListView {
        open: false,
        loaded: false,
        tasks: Seq::empty(),
        error: None,
        delete_confirmation: None,
        selected: None,
        source_label: live_label(),
        requested_source: None,
    }
}

/// The panel at the start.
pub open spec fn initial_panel(
    endpoint: EndpointView,
    rerun_port: u16,
    config_path: Seq<char>,
    settings: Option<AddressView>,
    start_error: Option<Seq<char>>,
) -> PanelView {
    PanelView {
        client: new_client(endpoint),
        config_path,
        connection: initial_form(endpoint, rerun_port, settings, start_error),
        robot: unknown_robot(),
        replays: initial_replays(),
        diagnostics_open: false,
        goal_text: Seq::empty(),
        dry_run: false,
        pending: Set::empty(),
        message: match (start_error, settings) {
            (Some(error), _) => alarm(error),
            (None, Some(_)) => info("正在启动内置数据服务并连接机器人…"@),
            (None, None) => info("首次使用，请在连接设置中输入机器人 IP"@),
        },
    }
}

pub open spec fn opt_address(o: Option<&SidecarSettings>) -> Option<AddressView> {
    match o {
        Some(settings) => Some(settings@),
        None => None,
    }
}

fn remark(text: &str) -> (r: Notice)
    ensures
        r@ == info(text@),
{
    Notice { text: text.to_owned(), is_error: false }
}

fn warning(text: String) -> (r: Notice)
    ensures
        r@ == alarm(text@),
{
    Notice { text, is_error: true }
}

impl ReplayList {
    fn new() -> (r: ReplayList)
        ensures
            r@ == initial_replays(),
    {
        let r = ReplayList {
            open: false,
            loaded: false,
            tasks: Vec::new(),
            error: None,
            delete_confirmation: None,
            selected: None,
            source_label: "实时数据".to_owned(),
            requested_source: None,
        };
        assert(task_views(r.tasks@) == Seq::<ReplayTaskView>::empty());
        r
    }
}

impl ConnectionForm {
    fn new(
        endpoint: &ControlEndpoint,
        rerun_port: u16,
        settings: Option<&SidecarSettings>,
        start_error: &Option<String>,
    ) -> (r: ConnectionForm)
        ensures
            r@ == initial_form(endpoint@, rerun_port, opt_address(settings), opt_text(*start_error)),
    {
        let configured = settings.is_some();
        let (robot_ip, robot_port) = match settings {
            Some(settings) => (settings.robot_ip.clone(), settings.robot_port),
            None => (endpoint.host.clone(), endpoint.port),
        };
        let notice = match start_error {
            Some(error) => Some(warning(error.clone())),
            None => None,
        };
        ConnectionForm {
            open: !configured || start_error.is_some(),
            advanced_open: false,
            robot_ip,
            robot_port,
            rerun_port,
            save: true,
            notice,
            configured,
            requested: None,
        }
    }
}

impl ControlPanel {
    /// The panel at the start. `settings` is the address to connect to, if there is one,
    /// and `start_error` what its data service failed with.
    pub fn new(
        endpoint: ControlEndpoint,
        rerun_port: u16,
        config_path: String,
        settings: Option<&SidecarSettings>,
        start_error: Option<String>,
    ) -> (r: ControlPanel)
        ensures
            r@ == initial_panel(
                endpoint@,
                rerun_port,
                config_path@,
                opt_address(settings),
                opt_text(start_error),
            ),
    {
        let connection = ConnectionForm::new(&endpoint, rerun_port, settings, &start_error);
        let message = match start_error {
            Some(error) => warning(error),
            None => if settings.is_some() {
                remark("正在启动内置数据服务并连接机器人…")
            } else {
                remark("首次使用，请在连接设置中输入机器人 IP")
            },
        };
        ControlPanel {
            client: ControlClient::new(endpoint),
            config_path,
            connection,
            robot: RobotState::unknown(),
            replays: ReplayList::new(),
            diagnostics_open: false,
            goal_text: String::new(),
            dry_run: false,
            pending: Pending::new(),
            message,
        }
    }
}

/// The panel after a command was sent. A status poll is not worth a message.
pub open spec fn after_dispatch(p: PanelView, kind: ActionKind) -> PanelView {
    PanelView {
        pending: p.pending.insert(kind),
        message: if kind == ActionKind::Status {
            p.message
        } else {
            info(kind.label_text() + "中…"@)
        },
        ..p
    }
}

/// The panel after the operator asked for a refresh without a connection.
pub open spec fn asked_to_connect(p: PanelView) -> PanelView {
    PanelView {
        connection: FormView { open: true, ..p.connection },
        message: info("请先输入机器人 IP 并点击“连接机器人”"@),
        ..p
    }
}

/// The panel after a refresh.
pub open spec fn refreshed(p: PanelView) -> PanelView {
    if p.connection.configured {
        after_dispatch(p, ActionKind::Refresh)
    } else {
        asked_to_connect(p)
    }
}

/// How long a status counts as new, in milliseconds.
pub const STATUS_POLL_MS: u64 = 1000;

/// Whether the status is to be asked for: not without a connection, not while it is
/// being asked for, and not too often.
pub open spec fn polls_status(p: PanelView, elapsed_ms: u64) -> bool {
    p.connection.configured && !p.pending.contains(ActionKind::Status) && elapsed_ms
        >= STATUS_POLL_MS
}

/// The panel after the source that is to be opened was handed out.
pub open spec fn source_taken(p: PanelView) -> PanelView {
    PanelView { replays: ReplayListView { requested_source: None, ..p.replays }, ..p }
}

/// The panel after the connection that was asked for was handed out.
pub open spec fn connection_taken(p: PanelView) -> PanelView {
    PanelView { connection: FormView { requested: None, ..p.connection }, ..p }
}

impl ControlPanel {
    /// Sends a command.
    pub fn dispatch(&mut self, command: ControlCommand) -> (r: ControlJob)
        ensures
            is_job_of(r, old(self)@.client, command),
            final(self)@ == after_dispatch(old(self)@, command.kind_of()),
    {
        let kind = command.kind();
        self.pending.insert(kind);
        if !matches!(kind, ActionKind::Status) {
            let text = kind.label().to_owned().concat("中…");
            self.message = Notice { text, is_error: false };
        }
        self.client.dispatch(command)
    }

    /// Asks the robot for everything that the panel shows.
    pub fn refresh(&mut self) -> (r: Option<ControlJob>)
        ensures
            final(self)@ == refreshed(old(self)@),
            match r {
                Some(job) => old(self)@.connection.configured && is_job_of(
                    job,
                    old(self)@.client,
                    ControlCommand::Refresh,
                ),
                None => !old(self)@.connection.configured,
            },
    {
        if !self.connection.configured {
            self.connection.open = true;
            self.message = remark("请先输入机器人 IP 并点击“连接机器人”");
            return None;
        }
        Some(self.dispatch(ControlCommand::Refresh))
    }

    /// Asks for the status now and then. `elapsed_ms` is the time since it was last
    /// asked for.
    pub fn poll_status(&mut self, elapsed_ms: u64) -> (r: Option<ControlJob>)
        ensures
            match r {
                Some(job) => {
                    &&& polls_status(old(self)@, elapsed_ms)
                    &&& is_job_of(job, old(self)@.client, ControlCommand::Status)
                    &&& final(self)@ == after_dispatch(old(self)@, ActionKind::Status)
                },
                None => !polls_status(old(self)@, elapsed_ms) && final(self)@ == old(self)@,
            },
    {
        if !self.connection.configured || self.pending.contains(ActionKind::Status) || elapsed_ms
            < STATUS_POLL_MS {
            return None;
        }
        Some(self.dispatch(ControlCommand::Status))
    }

    /// Hands out the source that is to be opened, if there is one.
    pub fn take_requested_source(&mut self) -> (r: Option<String>)
        ensures
            opt_text(r) == old(self)@.replays.requested_source,
            final(self)@ == source_taken(old(self)@),
    {
        self.replays.requested_source.take()
    }

    /// Hands out the connection that was asked for, if there is one.
    pub fn take_requested_connection(&mut self) -> (r: Option<ConnectionRequest>)
        ensures
            opt_request(r) == old(self)@.connection.requested,
            final(self)@ == connection_taken(old(self)@),
    {
        self.connection.requested.take()
    }

    pub fn config_path(&self) -> (r: &str)
        ensures
            r@ == self@.config_path,
    {
        self.config_path.as_str()
    }
}

/// What the operator is told about a new connection.
pub open spec fn connection_remark(
    config_path: Seq<char>,
    started: Result<(), Seq<char>>,
    saved: Option<Result<(), Seq<char>>>,
) -> NoticeView {
    match (started, saved) {
        (Err(error), _) => alarm(error),
        (Ok(()), Some(Ok(()))) => info("已连接，配置已保存到 "@ + config_path),
        (Ok(()), Some(Err(error))) => alarm("已连接，但"@ + error),
        (Ok(()), None) => info("已连接（配置未保存）"@),
    }
}

/// The message about a new connection.
pub open spec fn connection_message(
    settings: AddressView,
    started: Result<(), Seq<char>>,
) -> NoticeView {
    match started {
        Ok(()) => info(
            "正在连接机器人 "@ + host_and_port(settings.robot_ip, settings.robot_port) + "…"@,
        ),
        Err(error) => alarm(error),
    }
}

/// The list of recordings after a change of the robot.
pub open spec fn replays_unloaded(r: ReplayListView) -> ReplayListView {
    ReplayListView {
        loaded: false,
        tasks: Seq::empty(),
        error: None,
        selected: None,
        source_label: live_label(),
        ..r
    }
}

/// The panel after a change of the robot, before anything is known of it.
pub open spec fn connected_to(
    p: PanelView,
    settings: AddressView,
    connection: AddressView,
    started: Result<(), Seq<char>>,
    saved: Option<Result<(), Seq<char>>>,
) -> PanelView {
    PanelView {
        client: moved_to(
            p.client,
            EndpointView { host: connection.robot_ip, port: connection.robot_port },
        ),
        connection: FormView {
            configured: true,
            notice: Some(connection_remark(p.config_path, started, saved)),
            ..p.connection
        },
        robot: unknown_robot(),
        replays: replays_unloaded(p.replays),
        pending: Set::empty(),
        message: connection_message(settings, started),
        ..p
    }
}

pub open spec fn opt_saved(o: Option<Result<(), String>>) -> Option<Result<(), Seq<char>>> {
    match o {
        Some(result) => Some(unit_result(result)),
        None => None,
    }
}

fn remark_on_connection(
    config_path: &str,
    started: &Result<(), String>,
    saved: Option<Result<(), String>>,
) -> (r: Notice)
    ensures
        r@ == connection_remark(config_path@, unit_result(*started), opt_saved(saved)),
{
    match started {
        Err(error) => warning(error.clone()),
        Ok(()) => match saved {
            Some(Ok(())) => Notice {
                text: "已连接，配置已保存到 ".to_owned().concat(config_path),
                is_error: false,
            },
            Some(Err(error)) => warning("已连接，但".to_owned().concat(error.as_str())),
            None => remark("已连接（配置未保存）"),
        },
    }
}

impl ReplayList {
    fn unload(&mut self)
        ensures
            final(self)@ == replays_unloaded(old(self)@),
    {
        self.loaded = false;
        self.tasks = Vec::new();
        self.error = None;
        self.selected = None;
        self.source_label = "实时数据".to_owned();
        assert(task_views(self.tasks@) == Seq::<ReplayTaskView>::empty());
    }
}

impl ControlPanel {
    /// Goes over to another robot. `started` is what came of its data service, `saved`
    /// what came of saving its address, if that was asked for.
    pub fn apply_connection(
        &mut self,
        settings: &SidecarSettings,
        connection: &LiveConnection,
        started: Result<(), String>,
        saved: Option<Result<(), String>>,
    ) -> (r: Option<ControlJob>)
        ensures
            ({
                let p = connected_to(
                    old(self)@,
                    settings@,
                    connection@,
                    unit_result(started),
                    opt_saved(saved),
                );
                &&& final(self)@ == refreshed(p)
                &&& r matches Some(job) && is_job_of(job, p.client, ControlCommand::Refresh)
            }),
    {
        let notice = remark_on_connection(self.config_path.as_str(), &started, saved);
        self.connection.configured = true;
        self.connection.notice = Some(notice);
        self.client.set_endpoint(connection.control_endpoint());
        self.pending = Pending::new();
        self.robot = RobotState::unknown();
        self.replays.unload();
        self.message = match started {
            Ok(()) => {
                let address = address_text(settings.robot_ip.as_str(), settings.robot_port);
                Notice {
                    text: "正在连接机器人 ".to_owned().concat(address.as_str()).concat("…"),
                    is_error: false,
                }
            },
            Err(error) => warning(error),
        };
        self.refresh()
    }
}

/// What the data service tells the panel.
#[derive(Debug)]
pub struct SidecarReport {
    /// What its worker has ended with, if it has.
    pub exit: Option<String>,
    pub connected: bool,
    pub last_message_at: Option<u64>,
    pub status: NativeStatusSnapshot,
}

pub struct SidecarReportView {
    pub exit: Option<Seq<char>>,
    pub connected: bool,
    pub last_message_at: Option<u64>,
    pub status: StatusView,
}

impl View for SidecarReport {
    type V = SidecarReportView;

    open spec fn view(&self) -> SidecarReportView {
        SidecarReportView {
            exit: opt_text(self.exit),
            connected: self.connected,
            last_message_at: self.last_message_at,
            status: self.status@,
        }
    }
}

/// The robot as the data service sees it.
pub open spec fn robot_reported(r: RobotView, report: SidecarReportView) -> RobotView {
    RobotView {
        control_online: report.exit is None && r.control_online,
        upstream_connected: report.connected,
        last_upstream_message_at: report.last_message_at,
        schema_version: report.status.schema_version,
        task_id: report.status.task_id,
        task_status: report.status.task_status,
        task_goal: report.status.goal_text,
        navigation_running: report.status.navigation_running,
        recording_enabled: report.status.recording_enabled,
        ..r
    }
}

/// The panel after what the data service told it.
pub open spec fn after_report(p: PanelView, report: SidecarReportView) -> PanelView {
    PanelView {
        robot: robot_reported(p.robot, report),
        message: match report.exit {
            Some(error) => alarm(error),
            None => p.message,
        },
        connection: match report.exit {
            Some(error) => FormView { notice: Some(alarm(error)), ..p.connection },
            None => p.connection,
        },
        ..p
    }
}

/// The task's status after the operator's request to start or to stop was answered.
pub open spec fn shown_after_control(status: Seq<char>, running: bool) -> Seq<char> {
    if running && !active_word(ascii_lower(status)) {
        "accepted"@
    } else if !running && active_word(ascii_lower(status)) {
        "stopped"@
    } else {
        status
    }
}

/// The robot with a navigation under way, or without one.
pub open spec fn robot_running(r: RobotView, running: bool) -> RobotView {
    RobotView {
        navigation_running: running,
        task_status: shown_after_control(r.task_status, running),
        ..r
    }
}

/// The robot after the answer to a command.
pub open spec fn robot_answered(r: RobotView, data: ResponseView) -> RobotView {
    RobotView {
        control_online: true,
        labels: match data.labels {
            Some(labels) => labels,
            None => r.labels,
        },
        recording_enabled: match data.recording_enabled {
            Some(enabled) => enabled,
            None => r.recording_enabled,
        },
        navigation_running: match data.navigation_running {
            Some(running) => running,
            None => r.navigation_running,
        },
        task_status: match data.navigation_running {
            Some(running) => shown_after_control(r.task_status, running),
            None => r.task_status,
        },
        ..r
    }
}

/// The robot after a command that failed: a robot whose status cannot be had is offline.
pub open spec fn robot_failed(r: RobotView, kind: ActionKind) -> RobotView {
    RobotView {
        control_online: r.control_online && kind != ActionKind::Status && kind
            != ActionKind::Refresh,
        ..r
    }
}

/// The message after the outcome of a command. A status poll is not worth one.
pub open spec fn outcome_message(
    message: NoticeView,
    kind: ActionKind,
    result: Result<ResponseView, Seq<char>>,
) -> NoticeView {
    if kind == ActionKind::Status {
        message
    } else {
        match result {
            Ok(data) => NoticeView { text: data.summary, is_error: data.summary_is_error },
            Err(error) => alarm(error),
        }
    }
}

/// The panel after the outcome of a command. One that was sent to a former robot does
/// not count.
pub open spec fn after_outcome(p: PanelView, outcome: ControlResultView) -> PanelView {
    if outcome.generation != p.client.generation {
        p
    } else {
        PanelView {
            pending: p.pending.remove(outcome.kind),
            robot: match outcome.result {
                Ok(data) => robot_answered(p.robot, data),
                Err(_) => robot_failed(p.robot, outcome.kind),
            },
            message: outcome_message(p.message, outcome.kind, outcome.result),
            ..p
        }
    }
}

/// The panel after some outcomes, the first one first.
pub open spec fn after_outcomes(p: PanelView, outcomes: Seq<ControlResultView>) -> PanelView
    decreases outcomes.len(),
{
    if outcomes.len() == 0 {
        p
    } else {
        after_outcomes(after_outcome(p, outcomes[0]), outcomes.drop_first())
    }
}

/// Whether a navigation is under way, as far as an outcome tells.
pub open spec fn running_told(generation: u64, outcome: ControlResultView) -> Option<bool> {
    if outcome.generation == generation {
        match outcome.result {
            Ok(data) => data.navigation_running,
            Err(_) => None,
        }
    } else {
        None
    }
}

/// What some outcomes tell about whether a navigation is under way.
pub open spec fn runnings_told(generation: u64, outcomes: Seq<ControlResultView>) -> Seq<bool>
    decreases outcomes.len(),
{
    if outcomes.len() == 0 {
        Seq::empty()
    } else {
        let rest = runnings_told(generation, outcomes.drop_first());
        match running_told(generation, outcomes[0]) {
            Some(running) => seq![running] + rest,
            None => rest,
        }
    }
}

/// The panel without the outcomes that wait for it.
pub open spec fn without_inbox(p: PanelView) -> PanelView {
    PanelView { client: ClientView { inbox: Seq::empty(), ..p.client }, ..p }
}

impl RobotState {
    /// Takes in what the data service sees.
    pub fn take_report(&mut self, report: SidecarReport)
        ensures
            final(self)@ == robot_reported(old(self)@, report@),
    {
        if report.exit.is_some() {
            self.control_online = false;
        }
        self.upstream_connected = report.connected;
        self.last_upstream_message_at = report.last_message_at;
        let status = report.status;
        self.schema_version = status.schema_version;
        self.task_id = status.task_id;
        self.task_status = status.task_status;
        self.task_goal = status.goal_text;
        self.navigation_running = status.navigation_running;
        self.recording_enabled = status.recording_enabled;
    }

    /// Takes in that a navigation is under way, or is not.
    pub fn set_running(&mut self, running: bool)
        ensures
            final(self)@ == robot_running(old(self)@, running),
    {
        self.navigation_running = running;
        let active = is_active_task_status(self.task_status.as_str());
        if running && !active {
            self.task_status = "accepted".to_owned();
        } else if !running && active {
            self.task_status = "stopped".to_owned();
        }
    }
}

impl ControlPanel {
    /// Takes in what the data service tells.
    pub fn take_report(&mut self, report: SidecarReport)
        ensures
            final(self)@ == after_report(old(self)@, report@),
    {
        let exit = clone_opt(&report.exit);
        self.robot.take_report(report);
        match exit {
            Some(error) => {
                self.message = warning(error.clone());
                self.connection.notice = Some(warning(error));
            },
            None => {},
        }
    }

    /// Takes in the outcome of a command. Tells whether a navigation is under way,
    /// where the outcome does.
    pub fn take_outcome(&mut self, outcome: ControlResult) -> (r: Option<bool>)
        ensures
            final(self)@ == after_outcome(old(self)@, outcome@),
            r == running_told(old(self)@.client.generation, outcome@),
    {
        if outcome.generation != self.client.generation() {
            return None;
        }
        let kind = outcome.kind;
        self.pending.remove(kind);
        match outcome.result {
            Ok(data) => {
                self.robot.control_online = true;
                if !matches!(kind, ActionKind::Status) {
                    self.message = Notice { text: data.summary, is_error: data.summary_is_error };
                }
                match data.labels {
                    Some(labels) => {
                        self.robot.labels = labels;
                    },
                    None => {},
                }
                match data.recording_enabled {
                    Some(enabled) => {
                        self.robot.recording_enabled = enabled;
                    },
                    None => {},
                }
                match data.navigation_running {
                    Some(running) => {
                        self.robot.set_running(running);
                    },
                    None => {},
                }
                data.navigation_running
            },
            Err(error) => {
                match kind {
                    ActionKind::Status => {
                        self.robot.control_online = false;
                    },
                    ActionKind::Refresh => {
                        self.robot.control_online = false;
                        self.message = warning(error);
                    },
                    _ => {
                        self.message = warning(error);
                    },
                }
                None
            },
        }
    }

    /// Takes in what the data service tells, and then the outcomes that wait. Gives what
    /// they tell about whether a navigation is under way, for the data service.
    pub fn poll_results(&mut self, report: SidecarReport) -> (r: Vec<bool>)
        ensures
            ({
                let p = after_report(old(self)@, report@);
                &&& final(self)@ == after_outcomes(without_inbox(p), p.client.inbox)
                &&& r@ == runnings_told(p.client.generation, p.client.inbox)
            }),
    {
        self.take_report(report);
        let ghost p = self@;
        let mut told: Vec<bool> = Vec::new();
        loop
            invariant
                p == after_report(old(self)@, report@),
                self@.client.generation == p.client.generation,
                after_outcomes(without_inbox(p), p.client.inbox) == after_outcomes(
                    without_inbox(self@),
                    self@.client.inbox,
                ),
                runnings_told(p.client.generation, p.client.inbox) == told@ + runnings_told(
                    p.client.generation,
                    self@.client.inbox,
                ),
            ensures
                self@.client.inbox == Seq::<ControlResultView>::empty(),
            decreases self@.client.inbox.len(),
        {
            let ghost before = self@;
            let ghost had = told@;
            match self.client.try_recv() {
                Some(outcome) => {
                    match self.take_outcome(outcome) {
                        Some(running) => {
                            told.push(running);
                        },
                        None => {},
                    }
                    proof {
                        let rest = before.client.inbox.drop_first();
                        assert(self@.client.inbox == rest);
                        assert(without_inbox(self@) == after_outcome(
                            without_inbox(before),
                            before.client.inbox[0],
                        ));
                        assert(told@ + runnings_told(p.client.generation, rest) == had
                            + runnings_told(p.client.generation, before.client.inbox));
                    }
                },
                None => {
                    assert(self@.client.inbox == Seq::<ControlResultView>::empty());
                    break ;
                },
            }
        }
        assert(without_inbox(self@) == self@);
        assert(told@ + runnings_told(p.client.generation, self@.client.inbox) == told@);
        told
    }
}

/// Whether an age, in seconds, is at most the one with the given bits.
pub open spec fn is_at_most(age: Option<Double>, limit: u64) -> bool {
    age matches Some(age) && age.le(Double { bits: limit })
}

fn at_most(age: Option<Double>, limit: u64) -> (r: bool)
    ensures
        r == is_at_most(age, limit),
{
    match age {
        Some(age) => age.at_most(Double { bits: limit }),
        None => false,
    }
}

impl RobotView {
    /// Whether what is shown is live: the robot is connected, and its last message is at
    /// most ten seconds old. `age` is the age of that message in seconds.
    pub open spec fn is_live(self, age: Option<Double>) -> bool {
        self.upstream_connected && is_at_most(age, TEN_BITS)
    }

    /// Whether a navigation can be asked for.
    pub open spec fn is_ready(self, age: Option<Double>) -> bool {
        self.control_online && self.is_live(age)
    }
}

impl PanelView {
    /// How far the panel is on its way to a live picture.
    pub open spec fn stage_text(self, service_running: bool, age: Option<Double>) -> Seq<char> {
        if !self.connection.configured {
            "等待连接设置"@
        } else if !service_running {
            "正在启动内置服务"@
        } else if !self.robot.control_online {
            "正在连接控制服务"@
        } else if !self.robot.upstream_connected {
            "正在连接机器人"@
        } else if !self.robot.is_live(age) {
            "正在等待实时数据"@
        } else {
            "已就绪"@
        }
    }

    /// What the operator can do about a picture that is not live.
    pub open spec fn guidance_text(self, service_running: bool, age: Option<Double>) -> Seq<char> {
        let address = host_and_port(self.connection.robot_ip, self.connection.robot_port);
        if !self.connection.configured {
            "请打开“连接设置”，输入机器人 IP 后点击“连接机器人”"@
        } else if !service_running {
            "内置数据服务未运行，请展开“机器人连接”后重新连接"@
        } else if !self.robot.control_online {
            "无法连接机器人控制服务 "@ + address + "，请检查 IP、网络和机器人服务"@
        } else if !self.robot.upstream_connected {
            "无法连接机器人 "@ + address + "，请检查 IP、网络和机器人服务"@
        } else if !self.robot.is_live(age) {
            "机器人连接存在，但实时数据已中断，请尝试重新连接"@
        } else {
            "实时画面正在加载，请稍候"@
        }
    }
}

impl ControlPanel {
    /// Whether what is shown is live. `age` is the age of the last message in seconds.
    pub fn data_is_live(&self, age: Option<Double>) -> (r: bool)
        ensures
            r == self@.robot.is_live(age),
    {
        self.robot.upstream_connected && at_most(age, TEN_BITS)
    }

    /// Whether a navigation can be asked for.
    pub fn navigation_ready(&self, age: Option<Double>) -> (r: bool)
        ensures
            r == self@.robot.is_ready(age),
    {
        self.robot.control_online && self.data_is_live(age)
    }

    pub fn startup_label(&self, service_running: bool, age: Option<Double>) -> (r: &'static str)
        ensures
            r@ == self@.stage_text(service_running, age),
    {
        if !self.connection.configured {
            "等待连接设置"
        } else if !service_running {
            "正在启动内置服务"
        } else if !self.robot.control_online {
            "正在连接控制服务"
        } else if !self.robot.upstream_connected {
            "正在连接机器人"
        } else if !self.data_is_live(age) {
            "正在等待实时数据"
        } else {
            "已就绪"
        }
    }

    pub fn connection_guidance(&self, service_running: bool, age: Option<Double>) -> (r: String)
        ensures
            r@ == self@.guidance_text(service_running, age),
    {
        if !self.connection.configured {
            return "请打开“连接设置”，输入机器人 IP 后点击“连接机器人”".to_owned();
        }
        if !service_running {
            return "内置数据服务未运行，请展开“机器人连接”后重新连接".to_owned();
        }
        let address = address_text(self.connection.robot_ip.as_str(), self.connection.robot_port);
        if !self.robot.control_online {
            return "无法连接机器人控制服务 ".to_owned().concat(address.as_str()).concat(
                "，请检查 IP、网络和机器人服务",
            );
        }
        if !self.robot.upstream_connected {
            return "无法连接机器人 ".to_owned().concat(address.as_str()).concat(
                "，请检查 IP、网络和机器人服务",
            );
        }
        if !self.data_is_live(age) {
            return "机器人连接存在，但实时数据已中断，请尝试重新连接".to_owned();
        }
        "实时画面正在加载，请稍候".to_owned()
    }
}

/// The form after the operator pressed the button to connect.
pub open spec fn connect_pressed(f: FormView) -> FormView {
    match settings_of(f.robot_ip, f.robot_port, f.rerun_port) {
        Ok(settings) => FormView {
            robot_ip: settings.robot_ip,
            requested: Some(RequestView { settings, connection: settings, save: f.save }),
            notice: Some(info("正在连接机器人…"@)),
            ..f
        },
        Err(error) => FormView { notice: Some(alarm(error)), ..f },
    }
}

/// The form after the operator changed the address: the remark is out of date.
pub open spec fn form_edited(f: FormView) -> FormView {
    FormView { notice: None, ..f }
}

/// The form with the ports shown where they were hidden, and the other way round.
pub open spec fn ports_toggled(f: FormView) -> FormView {
    FormView { advanced_open: !f.advanced_open, ..f }
}

impl ConnectionForm {
    /// Notes that the operator changed the address.
    pub fn edited(&mut self)
        ensures
            final(self)@ == form_edited(old(self)@),
    {
        self.notice = None;
    }

    /// Shows or hides the ports.
    pub fn toggle_advanced(&mut self)
        ensures
            final(self)@ == ports_toggled(old(self)@),
    {
        self.advanced_open = !self.advanced_open;
    }

    /// Asks for a connection to the address in the form.
    pub fn connect(&mut self)
        ensures
            final(self)@ == connect_pressed(old(self)@),
    {
        match SidecarSettings::from_input(self.robot_ip.as_str(), self.robot_port, self.rerun_port) {
            Ok(settings) => {
                self.robot_ip = settings.robot_ip.clone();
                let connection = settings.connection();
                self.requested = Some(ConnectionRequest { settings, connection, save: self.save });
                self.notice = Some(remark("正在连接机器人…"));
            },
            Err(error) => {
                self.notice = Some(warning(error));
            },
        }
    }
}

/// How many recordings the list shows.
pub const REPLAY_LIMIT: usize = 30;

/// How many characters of a task's identifier are shown.
pub const SHORT_ID: usize = 8;

/// How a goal is called.
pub open spec fn goal_name(goal: Option<Seq<char>>) -> Seq<char> {
    match goal {
        Some(goal) => goal,
        None => "未命名任务"@,
    }
}

fn name_of_goal(goal: &Option<String>) -> (r: String)
    ensures
        r@ == goal_name(opt_text(*goal)),
{
    match goal {
        Some(goal) => goal.clone(),
        None => "未命名任务".to_owned(),
    }
}

/// A line of the list of recordings.
#[derive(Debug)]
pub struct ReplayRow {
    /// The recording's place among the tasks.
    pub index: usize,
    pub label: String,
    pub selected: bool,
}

pub struct ReplayRowView {
    pub index: usize,
    pub label: Seq<char>,
    pub selected: bool,
}

impl View for ReplayRow {
    type V = ReplayRowView;

    open spec fn view(&self) -> ReplayRowView {
        ReplayRowView { index: self.index, label: self.label@, selected: self.selected }
    }
}

pub open spec fn row_views(v: Seq<ReplayRow>) -> Seq<ReplayRowView> {
    v.map_values(|row: ReplayRow| row@)
}

/// The line for a recording.
pub open spec fn row_of(
    index: usize,
    task: ReplayTaskView,
    selected: Option<Seq<char>>,
) -> ReplayRowView {
    ReplayRowView {
        index,
        label: goal_name(task.goal_text) + "\n"@ + clipped(task.task_id, SHORT_ID as nat) + " · "@
            + task.status,
        selected: selected == Some(task.task_id),
    }
}

/// The list of recordings: the first ones of the tasks that have a recording.
pub open spec fn rows_of(tasks: Seq<ReplayTaskView>, selected: Option<Seq<char>>) -> Seq<
    ReplayRowView,
>
    decreases tasks.len(),
{
    if tasks.len() == 0 {
        Seq::empty()
    } else {
        let head = rows_of(tasks.drop_last(), selected);
        if tasks.last().has_rerun_recording && head.len() < REPLAY_LIMIT {
            head.push(row_of((tasks.len() - 1) as usize, tasks.last(), selected))
        } else {
            head
        }
    }
}

/// The list with the live data on show.
pub open spec fn showing_live(r: ReplayListView, rerun_url: Seq<char>) -> ReplayListView {
    ReplayListView {
        selected: None,
        source_label: live_label(),
        requested_source: Some(rerun_url),
        ..r
    }
}

/// The list with a recording on show.
pub open spec fn showing_task(r: ReplayListView, task: ReplayTaskView) -> ReplayListView {
    ReplayListView {
        requested_source: Some(task.recording_source),
        selected: Some(task.task_id),
        source_label: "回放："@ + goal_name(task.goal_text),
        ..r
    }
}

/// The list with the given tasks.
pub open spec fn with_tasks(r: ReplayListView, tasks: Seq<ReplayTaskView>) -> ReplayListView {
    ReplayListView { tasks, loaded: true, error: None, ..r }
}

/// What came of deleting a recording.
#[derive(Debug)]
pub enum Deletion {
    /// It was deleted, and these tasks are left.
    Done(Vec<NativeReplayTask>),
    Failed(String),
}

/// The list after a recording was deleted. Where it was on show, the live data is.
pub open spec fn after_deletion(
    r: ReplayListView,
    task: ReplayTaskView,
    left: Seq<ReplayTaskView>,
    rerun_url: Seq<char>,
) -> ReplayListView {
    let shown = if r.selected == Some(task.task_id) {
        showing_live(r, rerun_url)
    } else {
        r
    };
    ReplayListView { tasks: left, delete_confirmation: None, error: None, ..shown }
}

/// The list after what came of deleting the recording that the operator was asked about.
pub open spec fn deletion_settled(
    r: ReplayListView,
    outcome: Deletion,
    rerun_url: Seq<char>,
) -> ReplayListView {
    match (r.delete_confirmation, outcome) {
        (None, _) => r,
        (Some(task), Deletion::Done(left)) => after_deletion(
            r,
            task,
            task_views(left@),
            rerun_url,
        ),
        (Some(_), Deletion::Failed(error)) => ReplayListView {
            error: Some(error@),
            delete_confirmation: None,
            ..r
        },
    }
}

/// The list while the operator is asked whether a recording is to be deleted.
pub open spec fn deletion_asked(r: ReplayListView, task: ReplayTaskView) -> ReplayListView {
    ReplayListView { delete_confirmation: Some(task), error: None, ..r }
}

/// The list after the operator decided against deleting.
pub open spec fn deletion_cancelled(r: ReplayListView) -> ReplayListView {
    ReplayListView { delete_confirmation: None, ..r }
}

/// The question whether a recording is to be deleted.
pub open spec fn question_of(r: ReplayListView) -> Option<Seq<char>> {
    match r.delete_confirmation {
        Some(task) => Some("确认永久删除“"@ + goal_name(task.goal_text) + "”？此操作无法撤销。"@),
        None => None,
    }
}

/// Whether there is nothing to list, although the tasks were looked up.
pub open spec fn lists_nothing(r: ReplayListView) -> bool {
    r.loaded && rows_of(r.tasks, r.selected).len() == 0 && r.error is None
}

/// The list on show.
pub open spec fn list_opened(r: ReplayListView) -> ReplayListView {
    ReplayListView { open: true, ..r }
}

impl ReplayList {
    /// Makes the list of recordings.
    pub fn rows(&self) -> (r: Vec<ReplayRow>)
        ensures
            row_views(r@) == rows_of(self@.tasks, self@.selected),
    {
        let mut rows: Vec<ReplayRow> = Vec::new();
        let ghost tasks = self@.tasks;
        let mut i: usize = 0;
        while i < self.tasks.len()
            invariant
                i <= self.tasks@.len(),
                tasks == self@.tasks,
                row_views(rows@) == rows_of(tasks.take(i as int), self@.selected),
            decreases self.tasks.len() - i,
        {
            let task = &self.tasks[i];
            assert(tasks.take(i + 1).drop_last() == tasks.take(i as int));
            assert(tasks[i as int] == task@);
            assert(rows@.len() == row_views(rows@).len());
            if task.has_rerun_recording && rows.len() < REPLAY_LIMIT {
                let short = clip_text(task.task_id.as_str(), SHORT_ID);
                let label = name_of_goal(&task.goal_text).concat("\n").concat(
                    short.as_str(),
                ).concat(" · ").concat(task.status.as_str());
                let selected = opt_is(&self.selected, task.task_id.as_str());
                let ghost before = rows@;
                rows.push(ReplayRow { index: i, label, selected });
                assert(row_views(rows@) == row_views(before).push(
                    row_of(i, task@, self@.selected),
                ));
            }
            i = i + 1;
        }
        assert(tasks.take(i as int) == tasks);
        rows
    }

    /// Whether there is nothing to list, although the tasks were looked up.
    pub fn nothing_to_list(&self) -> (r: bool)
        ensures
            r == lists_nothing(self@),
    {
        let rows = self.rows();
        assert(rows@.len() == row_views(rows@).len());
        self.loaded && rows.len() == 0 && self.error.is_none()
    }

    /// Goes back to the live data.
    pub fn show_live(&mut self, rerun_url: &str)
        ensures
            final(self)@ == showing_live(old(self)@, rerun_url@),
    {
        self.selected = None;
        self.source_label = "实时数据".to_owned();
        self.requested_source = Some(rerun_url.to_owned());
    }

    /// Shows a recording.
    pub fn show_task(&mut self, index: usize)
        requires
            index < old(self)@.tasks.len(),
        ensures
            final(self)@ == showing_task(old(self)@, old(self)@.tasks[index as int]),
    {
        let task = self.tasks[index].duplicate();
        self.source_label = "回放：".to_owned().concat(name_of_goal(&task.goal_text).as_str());
        self.requested_source = Some(task.recording_source);
        self.selected = Some(task.task_id);
    }

    /// Takes over the tasks that were looked up.
    pub fn load(&mut self, tasks: Vec<NativeReplayTask>)
        ensures
            final(self)@ == with_tasks(old(self)@, task_views(tasks@)),
    {
        self.tasks = tasks;
        self.loaded = true;
        self.error = None;
    }

    /// Asks the operator whether a recording is to be deleted.
    pub fn request_deletion(&mut self, index: usize)
        requires
            index < old(self)@.tasks.len(),
        ensures
            final(self)@ == deletion_asked(old(self)@, old(self)@.tasks[index as int]),
    {
        self.delete_confirmation = Some(self.tasks[index].duplicate());
        self.error = None;
    }

    /// The question whether a recording is to be deleted.
    pub fn deletion_question(&self) -> (r: Option<String>)
        ensures
            opt_text(r) == question_of(self@),
    {
        match &self.delete_confirmation {
            Some(task) => Some(
                "确认永久删除“".to_owned().concat(name_of_goal(&task.goal_text).as_str()).concat(
                    "”？此操作无法撤销。",
                ),
            ),
            None => None,
        }
    }

    pub fn cancel_deletion(&mut self)
        ensures
            final(self)@ == deletion_cancelled(old(self)@),
    {
        self.delete_confirmation = None;
    }

    /// Takes in what came of deleting the recording that the operator was asked about.
    pub fn deletion_over(&mut self, outcome: Deletion, rerun_url: &str)
        ensures
            final(self)@ == deletion_settled(old(self)@, outcome, rerun_url@),
    {
        match self.delete_confirmation.take() {
            Some(task) => match outcome {
                Deletion::Done(left) => {
                    if opt_is(&self.selected, task.task_id.as_str()) {
                        self.show_live(rerun_url);
                    }
                    self.tasks = left;
                    self.error = None;
                },
                Deletion::Failed(error) => {
                    self.error = Some(error);
                },
            },
            None => {},
        }
    }

    /// Whether the tasks are to be looked up when the list is opened.
    pub fn needs_loading(&self) -> (r: bool)
        ensures
            r == !self@.loaded,
    {
        !self.loaded
    }

    /// Opens the list.
    pub fn show(&mut self)
        ensures
            final(self)@ == list_opened(old(self)@),
    {
        self.open = true;
    }
}

/// The panel after the operator asked for the live picture again.
pub open spec fn reload_pressed(p: PanelView) -> PanelView {
    let q = PanelView {
        replays: ReplayListView {
            selected: None,
            source_label: live_label(),
            ..p.replays
        },
        ..p
    };
    match settings_of(p.connection.robot_ip, p.connection.robot_port, p.connection.rerun_port) {
        Ok(settings) => PanelView {
            connection: FormView {
                requested: Some(RequestView { settings, connection: settings, save: false }),
                ..p.connection
            },
            ..q
        },
        Err(error) => PanelView { message: alarm(error), ..q },
    }
}

impl ControlPanel {
    /// Asks for the live picture again.
    pub fn reload_live(&mut self)
        ensures
            final(self)@ == reload_pressed(old(self)@),
    {
        self.replays.selected = None;
        self.replays.source_label = "实时数据".to_owned();
        match SidecarSettings::from_input(
            self.connection.robot_ip.as_str(),
            self.connection.robot_port,
            self.connection.rerun_port,
        ) {
            Ok(settings) => {
                let connection = settings.connection();
                self.connection.requested = Some(
                    ConnectionRequest { settings, connection, save: false },
                );
            },
            Err(error) => {
                self.message = warning(error);
            },
        }
    }

    /// The task's identifier, as it is shown.
    pub fn short_task_id(&self) -> (r: String)
        ensures
            r@ == self@.task_word(),
    {
        match &self.robot.task_id {
            Some(id) => clip_text(id.as_str(), SHORT_ID),
            None => "—".to_owned(),
        }
    }

    /// What is known about a connection that failed.
    pub fn connection_detail(&self) -> (r: Option<String>)
        ensures
            opt_text(r) == self@.detail_text(),
    {
        match &self.robot.upstream_error {
            Some(error) => Some("连接详情：".to_owned().concat(error.as_str())),
            None => None,
        }
    }

    /// The goal of the task, as it is shown.
    pub fn goal_line(&self) -> (r: Option<String>)
        ensures
            opt_text(r) == self@.goal_line_text(),
    {
        match &self.robot.task_goal {
            Some(goal) => Some("目标：".to_owned().concat(goal.as_str())),
            None => None,
        }
    }
}

/// How the panel's state is coloured.
#[derive(Clone, Copy, Debug, PartialEq, Eq, Structural)]
pub enum Stage {
    Ready,
    Failed,
    Waiting,
}

impl ControlPanel {
    /// How the panel's state is coloured. `loaded` tells whether there is a picture.
    pub fn stage(&self, age: Option<Double>, loaded: bool) -> (r: Stage)
        ensures
            r == self@.stage_of(age, loaded),
    {
        if self.navigation_ready(age) && loaded {
            Stage::Ready
        } else if self.message.is_error {
            Stage::Failed
        } else {
            Stage::Waiting
        }
    }

    pub fn service_label(&self, service_running: bool) -> (r: &'static str)
        ensures
            r@ == self@.service_word(service_running),
    {
        if !service_running {
            "未运行"
        } else if self.robot.control_online {
            "运行中"
        } else {
            "准备中"
        }
    }

    pub fn robot_label(&self) -> (r: &'static str)
        ensures
            r@ == self@.robot_word(),
    {
        if self.robot.upstream_connected {
            "已连接"
        } else {
            "未连接"
        }
    }

    /// How old the picture is. `loaded` tells whether there is one.
    pub fn picture_label(&self, age: Option<Double>, loaded: bool) -> (r: &'static str)
        ensures
            r@ == picture_word(age, loaded),
    {
        if at_most(age, TWO_BITS) && loaded {
            "实时"
        } else if at_most(age, TEN_BITS) {
            "略有延迟"
        } else if age.is_some() {
            "数据中断"
        } else {
            "正在等待"
        }
    }

    pub fn message_title(&self) -> (r: &'static str)
        ensures
            r@ == self@.message_word(),
    {
        if self.message.is_error {
            "需要处理"
        } else {
            "操作提示"
        }
    }
}

impl PanelView {
    /// Whether there is a navigation to send: a goal, and none under way or on its way.
    pub open spec fn can_navigate(self) -> bool {
        &&& trimmed(self.goal_text).len() > 0
        &&& !self.pending.contains(ActionKind::Navigate)
        &&& !self.robot.navigation_running
    }

    /// Whether the button that starts a navigation can be pressed: there is one to send,
    /// and the robot is ready for it.
    pub open spec fn can_start(self, age: Option<Double>) -> bool {
        self.robot.is_ready(age) && self.can_navigate()
    }

    /// Whether the button that stops the navigation can be pressed.
    pub open spec fn can_stop(self) -> bool {
        &&& self.robot.control_online
        &&& self.robot.navigation_running
        &&& !self.pending.contains(ActionKind::Stop)
    }
}

/// The navigation that the operator put in: the goal without the white space around it,
/// and whether it is only to be simulated.
pub open spec fn navigation_asked(p: PanelView) -> (Seq<char>, bool) {
    (trimmed(p.goal_text), p.dry_run)
}

/// The panel after the operator switched the recording.
pub open spec fn recording_set(p: PanelView, enabled: bool) -> PanelView {
    after_dispatch(
        PanelView { robot: RobotView { recording_enabled: enabled, ..p.robot }, ..p },
        ActionKind::Recording,
    )
}

impl PanelView {
    /// The task's identifier, as it is shown.
    pub open spec fn task_word(self) -> Seq<char> {
        match self.robot.task_id {
            Some(id) => clipped(id, SHORT_ID as nat),
            None => "—"@,
        }
    }

    /// What is known about a connection that failed.
    pub open spec fn detail_text(self) -> Option<Seq<char>> {
        match self.robot.upstream_error {
            Some(error) => Some("连接详情："@ + error),
            None => None,
        }
    }

    /// The goal of the task, as it is shown.
    pub open spec fn goal_line_text(self) -> Option<Seq<char>> {
        match self.robot.task_goal {
            Some(goal) => Some("目标："@ + goal),
            None => None,
        }
    }

    /// How the panel's state is coloured.
    pub open spec fn stage_of(self, age: Option<Double>, loaded: bool) -> Stage {
        if self.robot.is_ready(age) && loaded {
            Stage::Ready
        } else if self.message.is_error {
            Stage::Failed
        } else {
            Stage::Waiting
        }
    }

    pub open spec fn service_word(self, service_running: bool) -> Seq<char> {
        if !service_running {
            "未运行"@
        } else if self.robot.control_online {
            "运行中"@
        } else {
            "准备中"@
        }
    }

    pub open spec fn robot_word(self) -> Seq<char> {
        if self.robot.upstream_connected {
            "已连接"@
        } else {
            "未连接"@
        }
    }

    pub open spec fn message_word(self) -> Seq<char> {
        if self.message.is_error {
            "需要处理"@
        } else {
            "操作提示"@
        }
    }

    pub open spec fn navigate_word(self) -> Seq<char> {
        if self.pending.contains(ActionKind::Navigate) {
            "正在提交…"@
        } else if self.dry_run {
            "开始模拟规划"@
        } else {
            "开始导航"@
        }
    }

    /// Whether there is something to stop.
    pub open spec fn has_stop(self) -> bool {
        self.robot.navigation_running || self.pending.contains(ActionKind::Stop)
    }

    pub open spec fn stop_word(self) -> Seq<char> {
        if self.pending.contains(ActionKind::Stop) {
            "正在停止…"@
        } else if self.robot.navigation_running {
            "停止导航"@
        } else {
            "当前无导航任务"@
        }
    }

    /// Why the navigation cannot be stopped.
    pub open spec fn stop_reason(self) -> Seq<char> {
        if !self.robot.control_online {
            "连接机器人控制服务后可用"@
        } else if !self.robot.navigation_running {
            "当前没有正在执行的导航任务"@
        } else {
            "停止请求正在处理中"@
        }
    }
}

/// How old the picture is, in a word.
pub open spec fn picture_word(age: Option<Double>, loaded: bool) -> Seq<char> {
    if is_at_most(age, TWO_BITS) && loaded {
        "实时"@
    } else if is_at_most(age, TEN_BITS) {
        "略有延迟"@
    } else if age is Some {
        "数据中断"@
    } else {
        "正在等待"@
    }
}

impl ControlPanel {
    /// Whether there is a navigation to send.
    pub fn can_navigate(&self) -> (r: bool)
        ensures
            r == self@.can_navigate(),
    {
        !trim_text(self.goal_text.as_str()).as_str().is_empty() && !self.pending.contains(
            ActionKind::Navigate,
        ) && !self.robot.navigation_running
    }

    /// Whether the button that starts a navigation can be pressed. `age` is the age of
    /// the last message in seconds.
    pub fn can_start(&self, age: Option<Double>) -> (r: bool)
        ensures
            r == self@.can_start(age),
    {
        self.navigation_ready(age) && self.can_navigate()
    }

    pub fn navigate_text(&self) -> (r: &'static str)
        ensures
            r@ == self@.navigate_word(),
    {
        if self.pending.contains(ActionKind::Navigate) {
            "正在提交…"
        } else if self.dry_run {
            "开始模拟规划"
        } else {
            "开始导航"
        }
    }

    /// Sends the navigation that the operator put in.
    pub fn navigate(&mut self) -> (r: ControlJob)
        ensures
            r.endpoint@ == old(self)@.client.endpoint,
            r.generation == old(self)@.client.generation,
            r.command matches ControlCommand::Navigate { goal_text, dry_run } && (goal_text@, dry_run)
                == navigation_asked(old(self)@),
            final(self)@ == after_dispatch(old(self)@, ActionKind::Navigate),
    {
        let goal_text = trim_text(self.goal_text.as_str());
        let dry_run = self.dry_run;
        self.dispatch(ControlCommand::Navigate { goal_text, dry_run })
    }

    /// Switches the recording of the dynamic map.
    pub fn set_recording(&mut self, enabled: bool) -> (r: ControlJob)
        ensures
            is_job_of(r, old(self)@.client, ControlCommand::SetRecording(enabled)),
            final(self)@ == recording_set(old(self)@, enabled),
    {
        self.robot.recording_enabled = enabled;
        self.dispatch(ControlCommand::SetRecording(enabled))
    }

    pub fn can_stop(&self) -> (r: bool)
        ensures
            r == self@.can_stop(),
    {
        can_stop_navigation(
            self.robot.control_online,
            self.robot.navigation_running,
            self.pending.contains(ActionKind::Stop),
        )
    }

    /// Whether there is something to stop.
    pub fn stop_is_active(&self) -> (r: bool)
        ensures
            r == self@.has_stop(),
    {
        self.robot.navigation_running || self.pending.contains(ActionKind::Stop)
    }

    pub fn stop_text(&self) -> (r: &'static str)
        ensures
            r@ == self@.stop_word(),
    {
        if self.pending.contains(ActionKind::Stop) {
            "正在停止…"
        } else if self.robot.navigation_running {
            "停止导航"
        } else {
            "当前无导航任务"
        }
    }

    /// Why the navigation cannot be stopped.
    pub fn stop_disabled_reason(&self) -> (r: &'static str)
        ensures
            r@ == self@.stop_reason(),
    {
        if !self.robot.control_online {
            "连接机器人控制服务后可用"
        } else if !self.robot.navigation_running {
            "当前没有正在执行的导航任务"
        } else {
            "停止请求正在处理中"
        }
    }
}

/// An outcome that was sent to a former robot changes nothing: after a change of the
/// robot, what was on its way before does not count.
pub proof fn law_former_outcomes_do_not_count(
    p: PanelView,
    settings: AddressView,
    connection: AddressView,
    started: Result<(), Seq<char>>,
    saved: Option<Result<(), Seq<char>>>,
    outcome: ControlResultView,
)
    requires
        outcome.generation == p.client.generation,
    ensures
        ({
            let q = refreshed(connected_to(p, settings, connection, started, saved));
            after_outcome(q, outcome) == q
        }),
{
}

/// After a change of the robot only the refresh is awaited, and nothing that the former
/// robot said is left.
pub proof fn law_new_connection_starts_afresh(
    p: PanelView,
    settings: AddressView,
    connection: AddressView,
    started: Result<(), Seq<char>>,
    saved: Option<Result<(), Seq<char>>>,
)
    ensures
        ({
            let q = refreshed(connected_to(p, settings, connection, started, saved));
            &&& q.pending == set![ActionKind::Refresh]
            &&& q.robot == unknown_robot()
            &&& !q.can_stop()
            &&& forall|age: Option<Double>| !#[trigger] q.can_start(age)
            &&& q.replays.selected is None
        }),
{
    assert(Set::<ActionKind>::empty().insert(ActionKind::Refresh) == set![ActionKind::Refresh]);
}

/// A status is asked for once at a time: after it was asked for, it is not asked for
/// again until its outcome has come.
pub proof fn law_one_status_poll_at_a_time(
    p: PanelView,
    elapsed_ms: u64,
    outcome: ControlResultView,
)
    ensures
        !polls_status(after_dispatch(p, ActionKind::Status), elapsed_ms),
        p.pending.contains(ActionKind::Status) && polls_status(
            after_outcome(p, outcome),
            elapsed_ms,
        ) ==> outcome.kind == ActionKind::Status && outcome.generation == p.client.generation,
{
}

/// The answer to a request to stop ends the navigation in the panel, and the next report
/// of the data service, which was told so, leaves it at that.
pub proof fn law_a_stop_lasts(
    p: PanelView,
    data: ResponseView,
    known: StatusView,
    report: SidecarReportView,
)
    requires
        data.navigation_running == Some(false),
        report.status == status_after_control(known, false),
    ensures
        ({
            let q = after_outcome(
                p,
                ControlResultView {
                    generation: p.client.generation,
                    kind: ActionKind::Stop,
                    result: Ok(data),
                },
            );
            &&& !q.robot.navigation_running
            &&& !q.can_stop()
            &&& !active_word(ascii_lower(q.robot.task_status))
            &&& !after_report(q, report).robot.navigation_running
            &&& !after_report(q, report).can_stop()
        }),
{
    reveal_strlit("stopped");
    assert(ascii_lower("stopped"@) == "stopped"@);
    law_terminal_is_not_active("stopped"@);
}

/// The panel and the data service take over the answer to a request to start or to stop
/// in the same way, where the status is in lower case, as the data service keeps it.
pub proof fn law_panel_and_service_agree(r: RobotView, s: StatusView, data: ResponseView)
    requires
        data.navigation_running is Some,
        r.navigation_running == s.navigation_running,
        r.task_status == s.task_status,
        ascii_lower(s.task_status) == s.task_status,
    ensures
        ({
            let running = data.navigation_running->Some_0;
            let q = robot_answered(r, data);
            let t = status_after_control(s, running);
            q.navigation_running == t.navigation_running && q.task_status == t.task_status
        }),
{
}

/// The list of recordings is short, and holds only tasks that have a recording.
pub proof fn law_only_recordings_are_listed(
    tasks: Seq<ReplayTaskView>,
    selected: Option<Seq<char>>,
)
    requires
        tasks.len() <= usize::MAX,
    ensures
        rows_of(tasks, selected).len() <= REPLAY_LIMIT,
        forall|k: int|
            0 <= k < rows_of(tasks, selected).len() ==> {
                let row = #[trigger] rows_of(tasks, selected)[k];
                row.index < tasks.len() && tasks[row.index as int].has_rerun_recording
            },
    decreases tasks.len(),
{
    if tasks.len() > 0 {
        law_only_recordings_are_listed(tasks.drop_last(), selected);
        let head = rows_of(tasks.drop_last(), selected);
        let all = rows_of(tasks, selected);
        assert forall|k: int| 0 <= k < all.len() implies {
            let row = #[trigger] all[k];
            row.index < tasks.len() && tasks[row.index as int].has_rerun_recording
        } by {
            if k < head.len() {
                assert(all[k] == head[k]);
            }
        }
    }
}

/// What every action on the list keeps: while no recording is selected, the live data
/// is shown.
pub proof fn law_replays_stay_well_formed(
    r: ReplayListView,
    task: ReplayTaskView,
    tasks: Seq<ReplayTaskView>,
    rerun_url: Seq<char>,
)
    requires
        r.well_formed(),
    ensures
        initial_replays().well_formed(),
        replays_unloaded(r).well_formed(),
        showing_live(r, rerun_url).well_formed(),
        showing_task(r, task).well_formed(),
        with_tasks(r, tasks).well_formed(),
        after_deletion(r, task, tasks, rerun_url).well_formed(),
{
}

/// A recording that was deleted is not on show any more.
pub proof fn law_deleted_task_is_not_shown(
    r: ReplayListView,
    task: ReplayTaskView,
    left: Seq<ReplayTaskView>,
    rerun_url: Seq<char>,
)
    ensures
        after_deletion(r, task, left, rerun_url).selected != Some(task.task_id),
{
}

/// A connection is only asked for with an address that was checked, by the button in the
/// form and by the one that loads the picture anew.
pub proof fn law_requested_connections_are_valid(p: PanelView)
    requires
        p.connection.well_formed(),
    ensures
        connect_pressed(p.connection).well_formed(),
        reload_pressed(p).connection.well_formed(),
{
    law_accepted_settings_are_valid(
        p.connection.robot_ip,
        p.connection.robot_port,
        p.connection.rerun_port,
    );
}

/// At the start nothing is known, nothing is awaited, the live data is shown and the
/// form holds the address to connect to, or else that of the endpoint. The form is open
/// where there is no address or the start failed, and the operator is told which.
pub proof fn law_the_panel_at_the_start(
    endpoint: EndpointView,
    rerun_port: u16,
    config_path: Seq<char>,
    settings: Option<AddressView>,
    start_error: Option<Seq<char>>,
)
    ensures
        ({
            let p = initial_panel(endpoint, rerun_port, config_path, settings, start_error);
            let f = p.connection;
            &&& p.client.endpoint == endpoint && p.client.generation == 0 && p.client.inbox.len()
                == 0
            &&& p.config_path == config_path && f.rerun_port == rerun_port
            &&& settings matches Some(a) ==> f.configured && f.robot_ip == a.robot_ip
                && f.robot_port == a.robot_port
            &&& settings is None ==> !f.configured && f.robot_ip == endpoint.host && f.robot_port
                == endpoint.port
            &&& f.open == (settings is None || start_error is Some)
            &&& f.save && !f.advanced_open && f.requested is None
            &&& start_error matches Some(error) ==> p.message.is_error && p.message.text == error
                && (f.notice matches Some(notice) && notice.is_error && notice.text == error)
            &&& start_error is None ==> !p.message.is_error && f.notice is None
            &&& start_error is None && settings is Some ==> p.message.text
                == "正在启动内置数据服务并连接机器人…"@
            &&& start_error is None && settings is None ==> p.message.text
                == "首次使用，请在连接设置中输入机器人 IP"@
            &&& p.goal_text.len() == 0 && !p.dry_run && !p.diagnostics_open
            &&& forall|kind: ActionKind| !#[trigger] p.pending.contains(kind)
            &&& p.replays.tasks.len() == 0 && !p.replays.loaded && !p.replays.open
            &&& p.replays.selected is None && p.replays.source_label == "实时数据"@
            &&& p.replays.requested_source is None && p.replays.error is None
            &&& p.replays.delete_confirmation is None
            &&& p.robot == unknown_robot()
        }),
{
}

/// Of an unknown robot no label, task, message or error is known; it is neither online
/// nor connected, nothing is running and nothing recorded.
pub proof fn law_nothing_is_known_of_an_unknown_robot()
    ensures
        ({
            let r = unknown_robot();
            &&& r.labels.len() == 0 && !r.recording_enabled && !r.navigation_running
            &&& !r.control_online && !r.upstream_connected && r.upstream_error is None
            &&& r.last_upstream_message_at is None && r.task_id is None && r.task_goal is None
            &&& r.schema_version == "—"@ && r.task_status == "idle"@
        }),
{
}

/// A command that was sent is awaited, and the operator is told which, but for a status
/// poll. Nothing else changes.
pub proof fn law_sent_commands_are_awaited(p: PanelView, kind: ActionKind, other: ActionKind)
    ensures
        ({
            let q = after_dispatch(p, kind);
            &&& q.pending.contains(kind)
            &&& other != kind ==> q.pending.contains(other) == p.pending.contains(other)
            &&& kind is Status ==> q.message == p.message
            &&& !(kind is Status) ==> !q.message.is_error && q.message.text == kind.label_text()
                + "中…"@
            &&& q == (PanelView { pending: q.pending, message: q.message, ..p })
        }),
{
}

/// A refresh is sent where there is an address to connect to. Where there is none, the
/// form is opened and the operator is asked for one.
pub proof fn law_refreshes_need_an_address(p: PanelView)
    ensures
        p.connection.configured ==> refreshed(p) == after_dispatch(p, ActionKind::Refresh),
        !p.connection.configured ==> {
            let q = refreshed(p);
            &&& q.connection.open && !q.message.is_error && q.message.text
                == "请先输入机器人 IP 并点击“连接机器人”"@
            &&& q == (PanelView {
                connection: FormView { open: true, ..p.connection },
                message: q.message,
                ..p
            })
        },
{
}

/// The status is asked for every second, with an address to connect to and while no
/// question for it is on its way.
pub proof fn law_when_the_status_is_polled(p: PanelView, elapsed_ms: u64)
    ensures
        polls_status(p, elapsed_ms) <==> p.connection.configured && !p.pending.contains(
            ActionKind::Status,
        ) && elapsed_ms >= 1000,
{
}

/// What is handed out is handed out once: a source to be opened and a connection to be
/// set up are not asked for any more, and nothing else changes.
pub proof fn law_requests_are_handed_out_once(p: PanelView)
    ensures
        source_taken(p).replays.requested_source is None,
        source_taken(p) == (PanelView { replays: source_taken(p).replays, ..p }),
        source_taken(p).replays.selected == p.replays.selected,
        source_taken(p).replays.tasks == p.replays.tasks,
        source_taken(p).replays.source_label == p.replays.source_label,
        connection_taken(p).connection.requested is None,
        connection_taken(p) == (PanelView { connection: connection_taken(p).connection, ..p }),
        connection_taken(p).connection.robot_ip == p.connection.robot_ip,
        connection_taken(p).connection.notice == p.connection.notice,
        connection_taken(p).connection.configured == p.connection.configured,
{
}

/// After a change of the robot, commands go to its address, and outcomes of former
/// commands bear another generation. The operator is told where the viewer connects to,
/// or why it does not, and whether the address was saved.
pub proof fn law_connections_are_applied(
    p: PanelView,
    settings: AddressView,
    connection: AddressView,
    started: Result<(), Seq<char>>,
    saved: Option<Result<(), Seq<char>>>,
)
    ensures
        ({
            let q = connected_to(p, settings, connection, started, saved);
            let notice = q.connection.notice;
            &&& q.client.endpoint.host == connection.robot_ip && q.client.endpoint.port
                == connection.robot_port
            &&& q.client.generation != p.client.generation
            &&& q.client.inbox == p.client.inbox
            &&& q.connection.configured && q.robot == unknown_robot()
            &&& q.replays.tasks.len() == 0 && !q.replays.loaded && q.replays.error is None
            &&& q.replays.selected is None && q.replays.source_label == "实时数据"@
            &&& forall|kind: ActionKind| !#[trigger] q.pending.contains(kind)
            &&& started is Ok ==> !q.message.is_error && q.message.text == "正在连接机器人 "@ + (
            settings.robot_ip + ":"@ + decimal(settings.robot_port as nat)) + "…"@
            &&& started matches Err(error) ==> q.message.is_error && q.message.text == error && (
            notice matches Some(n) && n.is_error && n.text == error)
            &&& started is Ok && saved is None ==> (notice matches Some(n) && !n.is_error && n.text
                == "已连接（配置未保存）"@)
            &&& started is Ok && (saved matches Some(Ok(()))) ==> (notice matches Some(n)
                && !n.is_error && n.text == "已连接，配置已保存到 "@ + p.config_path)
            &&& started is Ok && (saved matches Some(Err(_))) ==> (notice matches Some(n)
                && n.is_error && n.text == "已连接，但"@ + saved->Some_0->Err_0)
            &&& q.goal_text == p.goal_text && q.dry_run == p.dry_run && q.config_path
                == p.config_path
            &&& q.connection == (FormView { configured: true, notice, ..p.connection })
            &&& q.replays.open == p.replays.open && q.replays.requested_source
                == p.replays.requested_source
            &&& q.replays.delete_confirmation == p.replays.delete_confirmation
            &&& q.diagnostics_open == p.diagnostics_open
        }),
{
}

/// What the data service tells is shown: the connection, the time of the last message,
/// the version, the task, its goal and state, whether a navigation runs and whether the
/// map is recorded. A service that has ended is told as an error, and the robot is not
/// online then. The labels and all else stay.
pub proof fn law_reports_are_shown(p: PanelView, report: SidecarReportView)
    ensures
        ({
            let q = after_report(p, report);
            let r = q.robot;
            &&& r.upstream_connected == report.connected
            &&& r.last_upstream_message_at == report.last_message_at
            &&& r.schema_version == report.status.schema_version
            &&& r.task_id == report.status.task_id && r.task_goal == report.status.goal_text
            &&& r.task_status == report.status.task_status
            &&& r.navigation_running == report.status.navigation_running
            &&& r.recording_enabled == report.status.recording_enabled
            &&& r.labels == p.robot.labels && r.upstream_error == p.robot.upstream_error
            &&& report.exit is None ==> r.control_online == p.robot.control_online && q.message
                == p.message && q.connection == p.connection
            &&& report.exit matches Some(error) ==> {
                &&& !r.control_online
                &&& q.message.is_error && q.message.text == error
                &&& q.connection.notice matches Some(n) && n.is_error && n.text == error
            }
            &&& q.client == p.client && q.pending == p.pending && q.replays == p.replays
            &&& q.goal_text == p.goal_text && q.dry_run == p.dry_run
        }),
{
}

/// The answer to a command is taken in: it is awaited no more, the robot is online, and
/// what the answer tells of labels, recording and navigation is shown; what it does not
/// tell stays. The operator reads its summary, but for a status poll.
pub proof fn law_answers_are_taken_in(
    p: PanelView,
    kind: ActionKind,
    data: ResponseView,
    other: ActionKind,
)
    ensures
        ({
            let q = after_outcome(
                p,
                ControlResultView {
                    generation: p.client.generation,
                    kind,
                    result: Ok(data),
                },
            );
            let r = q.robot;
            &&& !q.pending.contains(kind)
            &&& other != kind ==> q.pending.contains(other) == p.pending.contains(other)
            &&& r.control_online
            &&& data.labels matches Some(labels) ==> r.labels == labels
            &&& data.labels is None ==> r.labels == p.robot.labels
            &&& data.recording_enabled matches Some(on) ==> r.recording_enabled == on
            &&& data.recording_enabled is None ==> r.recording_enabled == p.robot.recording_enabled
            &&& data.navigation_running matches Some(running) ==> r.navigation_running == running
            &&& data.navigation_running is None ==> r.navigation_running
                == p.robot.navigation_running && r.task_status == p.robot.task_status
            &&& data.navigation_running == Some(true) ==> r.task_status == if active_word(
                ascii_lower(p.robot.task_status),
            ) {
                p.robot.task_status
            } else {
                "accepted"@
            }
            &&& data.navigation_running == Some(false) ==> r.task_status == if active_word(
                ascii_lower(p.robot.task_status),
            ) {
                "stopped"@
            } else {
                p.robot.task_status
            }
            &&& kind is Status ==> q.message == p.message
            &&& !(kind is Status) ==> q.message.text == data.summary && q.message.is_error
                == data.summary_is_error
            &&& r.task_id == p.robot.task_id && r.task_goal == p.robot.task_goal
            &&& r.upstream_connected == p.robot.upstream_connected
            &&& q.client == p.client && q.connection == p.connection && q.replays == p.replays
        }),
{
}

/// A command that failed is awaited no more, and the operator reads why, but for a
/// status poll. Where the status or everything was asked for, the robot is not online
/// then. Nothing else that is known of it changes.
pub proof fn law_failures_are_taken_in(
    p: PanelView,
    kind: ActionKind,
    error: Seq<char>,
    other: ActionKind,
)
    ensures
        ({
            let q = after_outcome(
                p,
                ControlResultView {
                    generation: p.client.generation,
                    kind,
                    result: Err(error),
                },
            );
            &&& !q.pending.contains(kind)
            &&& other != kind ==> q.pending.contains(other) == p.pending.contains(other)
            &&& kind is Status || kind is Refresh ==> !q.robot.control_online
            &&& !(kind is Status || kind is Refresh) ==> q.robot.control_online
                == p.robot.control_online
            &&& q.robot == (RobotView { control_online: q.robot.control_online, ..p.robot })
            &&& kind is Status ==> q.message == p.message
            &&& !(kind is Status) ==> q.message.is_error && q.message.text == error
            &&& q.client == p.client && q.connection == p.connection && q.replays == p.replays
        }),
{
}

/// An outcome of another generation changes nothing and tells nothing of a navigation.
/// One of the present generation tells what its answer does.
pub proof fn law_only_present_outcomes_count(p: PanelView, outcome: ControlResultView)
    ensures
        outcome.generation != p.client.generation ==> after_outcome(p, outcome) == p
            && running_told(p.client.generation, outcome) is None,
        outcome.generation == p.client.generation ==> {
            &&& outcome.result matches Ok(data) ==> running_told(p.client.generation, outcome)
                == data.navigation_running
            &&& outcome.result is Err ==> running_told(p.client.generation, outcome) is None
        },
{
}

/// Outcomes are taken in one after the other, in their order, and none is lost.
pub proof fn law_outcomes_are_taken_in_order(
    p: PanelView,
    a: Seq<ControlResultView>,
    outcome: ControlResultView,
    generation: u64,
)
    ensures
        after_outcomes(p, a.push(outcome)) == after_outcome(after_outcomes(p, a), outcome),
        after_outcomes(p, Seq::empty()) == p,
        runnings_told(generation, a.push(outcome)) == runnings_told(generation, a) + (
        match running_told(generation, outcome) {
            Some(running) => seq![running],
            None => Seq::empty(),
        }),
        runnings_told(generation, Seq::empty()).len() == 0,
    decreases a.len(),
{
    let more = a.push(outcome);
    let last = match running_told(generation, outcome) {
        Some(running) => seq![running],
        None => Seq::<bool>::empty(),
    };
    if a.len() == 0 {
        assert(more.drop_first() == Seq::<ControlResultView>::empty());
        assert(after_outcomes(after_outcome(p, outcome), more.drop_first()) == after_outcome(
            p,
            outcome,
        ));
        assert(runnings_told(generation, more.drop_first()) == Seq::<bool>::empty());
        assert(runnings_told(generation, more) == last);
        assert(runnings_told(generation, a) + last == last);
    } else {
        assert(more.drop_first() == a.drop_first().push(outcome));
        assert(more[0] == a[0]);
        law_outcomes_are_taken_in_order(
            after_outcome(p, a[0]),
            a.drop_first(),
            outcome,
            generation,
        );
        let rest = runnings_told(generation, a.drop_first());
        match running_told(generation, a[0]) {
            Some(running) => {
                assert(seq![running] + (rest + last) == seq![running] + rest + last);
            },
            None => {},
        }
    }
}

/// What is shown is live with an open stream and a last message that is at most ten
/// seconds old, and a navigation can be asked for where also the control service is
/// online.
pub proof fn law_when_the_picture_is_live(r: RobotView, age: Option<Double>)
    ensures
        r.is_live(age) <==> r.upstream_connected && (age matches Some(a) && a.le(
            Double { bits: 0x4024_0000_0000_0000 },
        )),
        r.is_ready(age) <==> r.control_online && r.is_live(age),
        age is None ==> !r.is_live(age),
{
}

/// The stages on the way to a live picture, the first that is not reached counts. What
/// the operator is advised to do goes by the same order, and names the robot's address
/// where it cannot be reached.
pub proof fn law_stages(p: PanelView, service_running: bool, age: Option<Double>)
    ensures
        ({
            let stage = p.stage_text(service_running, age);
            let advice = p.guidance_text(service_running, age);
            let address = p.connection.robot_ip + ":"@ + decimal(p.connection.robot_port as nat);
            let configured = p.connection.configured;
            let online = configured && service_running && p.robot.control_online;
            let connected = online && p.robot.upstream_connected;
            &&& !configured ==> stage == "等待连接设置"@ && advice
                == "请打开“连接设置”，输入机器人 IP 后点击“连接机器人”"@
            &&& configured && !service_running ==> stage == "正在启动内置服务"@ && advice
                == "内置数据服务未运行，请展开“机器人连接”后重新连接"@
            &&& configured && service_running && !online ==> stage == "正在连接控制服务"@ && advice
                == "无法连接机器人控制服务 "@ + address + "，请检查 IP、网络和机器人服务"@
            &&& online && !connected ==> stage == "正在连接机器人"@ && advice
                == "无法连接机器人 "@ + address + "，请检查 IP、网络和机器人服务"@
            &&& connected && !p.robot.is_live(age) ==> stage == "正在等待实时数据"@ && advice
                == "机器人连接存在，但实时数据已中断，请尝试重新连接"@
            &&& connected && p.robot.is_live(age) ==> stage == "已就绪"@ && advice
                == "实时画面正在加载，请稍候"@
        }),
{
}

/// The panel is coloured as ready with a live picture on show and the robot online, and
/// else by whether the operator was told of an error.
pub proof fn law_colours(p: PanelView, age: Option<Double>, loaded: bool)
    ensures
        p.stage_of(age, loaded) is Ready <==> p.robot.is_ready(age) && loaded,
        p.stage_of(age, loaded) is Failed <==> !(p.robot.is_ready(age) && loaded)
            && p.message.is_error,
        p.stage_of(age, loaded) is Waiting <==> !(p.robot.is_ready(age) && loaded)
            && !p.message.is_error,
{
}

/// A navigation can be started with a goal that is more than white space, on a robot that
/// is ready, while none is running and none is on its way. It can be stopped while one
/// is running, on a robot that is online, and while no stop is on its way. So it can
/// never be started and stopped at once.
pub proof fn law_when_buttons_can_be_pressed(p: PanelView, age: Option<Double>)
    ensures
        p.can_start(age) <==> trimmed(p.goal_text).len() > 0 && p.robot.control_online
            && p.robot.is_live(age) && !p.robot.navigation_running && !p.pending.contains(
            ActionKind::Navigate,
        ),
        p.can_stop() <==> p.robot.control_online && p.robot.navigation_running
            && !p.pending.contains(ActionKind::Stop),
        !(p.can_start(age) && p.can_stop()),
        p.can_navigate() <==> trimmed(p.goal_text).len() > 0 && !p.robot.navigation_running
            && !p.pending.contains(ActionKind::Navigate),
        p.has_stop() <==> p.robot.navigation_running || p.pending.contains(ActionKind::Stop),
        p.can_stop() ==> p.has_stop(),
{
}

/// What stands on the buttons, and why a stop cannot be pressed.
pub proof fn law_buttons_are_named(p: PanelView)
    ensures
        p.pending.contains(ActionKind::Navigate) ==> p.navigate_word() == "正在提交…"@,
        !p.pending.contains(ActionKind::Navigate) && p.dry_run ==> p.navigate_word()
            == "开始模拟规划"@,
        !p.pending.contains(ActionKind::Navigate) && !p.dry_run ==> p.navigate_word()
            == "开始导航"@,
        p.pending.contains(ActionKind::Stop) ==> p.stop_word() == "正在停止…"@,
        !p.pending.contains(ActionKind::Stop) && p.robot.navigation_running ==> p.stop_word()
            == "停止导航"@,
        !p.has_stop() ==> p.stop_word() == "当前无导航任务"@,
        !p.robot.control_online ==> p.stop_reason() == "连接机器人控制服务后可用"@,
        p.robot.control_online && !p.robot.navigation_running ==> p.stop_reason()
            == "当前没有正在执行的导航任务"@,
        p.robot.control_online && p.robot.navigation_running ==> p.stop_reason()
            == "停止请求正在处理中"@,
{
}

/// What the panel says about the service, the robot, its messages, and the task.
pub proof fn law_states_are_named(p: PanelView, service_running: bool)
    ensures
        !service_running ==> p.service_word(service_running) == "未运行"@,
        service_running && p.robot.control_online ==> p.service_word(service_running)
            == "运行中"@,
        service_running && !p.robot.control_online ==> p.service_word(service_running)
            == "准备中"@,
        p.robot.upstream_connected ==> p.robot_word() == "已连接"@,
        !p.robot.upstream_connected ==> p.robot_word() == "未连接"@,
        p.message.is_error ==> p.message_word() == "需要处理"@,
        !p.message.is_error ==> p.message_word() == "操作提示"@,
        p.robot.task_id matches Some(id) ==> {
            &&& p.task_word().is_prefix_of(id)
            &&& p.task_word().len() == if id.len() < 8 {
                id.len()
            } else {
                8
            }
        },
        p.robot.task_id is None ==> p.task_word() == "—"@,
        p.robot.task_goal matches Some(goal) ==> p.goal_line_text() == Some("目标："@ + goal),
        p.robot.task_goal is None ==> p.goal_line_text() is None,
        p.robot.upstream_error matches Some(error) ==> p.detail_text() == Some(
            "连接详情："@ + error,
        ),
        p.robot.upstream_error is None ==> p.detail_text() is None,
{
    match p.robot.task_id {
        Some(id) => law_clipped(id, 8),
        None => {},
    }
}

/// The picture counts as live up to two seconds, as late up to ten, as broken off after
/// that, and as awaited before the first message.
pub proof fn law_the_age_of_the_picture(age: Option<Double>, loaded: bool)
    ensures
        age is None ==> picture_word(age, loaded) == "正在等待"@,
        age matches Some(a) ==> {
            let two = Double { bits: 0x4000_0000_0000_0000 };
            let ten = Double { bits: 0x4024_0000_0000_0000 };
            &&& a.le(two) && loaded ==> picture_word(age, loaded) == "实时"@
            &&& a.le(ten) && !(a.le(two) && loaded) ==> picture_word(age, loaded) == "略有延迟"@
            &&& !a.le(ten) ==> picture_word(age, loaded) == "数据中断"@
        },
{
}

/// The button that connects asks for a connection to the address in the form, without
/// the white space around it, where the input is accepted, and for the address to be
/// saved where that is ticked. Else it asks for nothing and tells what is wrong.
pub proof fn law_connections_are_asked_for(f: FormView)
    ensures
        ({
            let g = connect_pressed(f);
            let checked = settings_of(f.robot_ip, f.robot_port, f.rerun_port);
            &&& checked matches Ok(a) ==> {
                &&& g.requested matches Some(request) && request.settings == a
                    && request.connection == a && request.save == f.save
                &&& g.robot_ip == a.robot_ip
                &&& g.notice matches Some(n) && !n.is_error && n.text == "正在连接机器人…"@
            }
            &&& checked matches Err(error) ==> {
                &&& g.requested == f.requested && g.robot_ip == f.robot_ip
                &&& g.notice matches Some(n) && n.is_error && n.text == error
            }
            &&& g.robot_port == f.robot_port && g.rerun_port == f.rerun_port && g.save == f.save
            &&& g.open == f.open && g.advanced_open == f.advanced_open && g.configured
                == f.configured
            &&& form_edited(f).notice is None
            &&& form_edited(f) == (FormView { notice: None, ..f })
            &&& ports_toggled(f).advanced_open != f.advanced_open
            &&& ports_toggled(ports_toggled(f)) == f
        }),
{
}

/// The button that loads the picture anew goes back to the live data and asks for the
/// connection in the form again, without saving it; where the input is not accepted it
/// tells what is wrong.
pub proof fn law_the_picture_is_asked_for_again(p: PanelView)
    ensures
        ({
            let q = reload_pressed(p);
            let f = p.connection;
            let checked = settings_of(f.robot_ip, f.robot_port, f.rerun_port);
            &&& q.replays.selected is None && q.replays.source_label == "实时数据"@
            &&& q.replays.tasks == p.replays.tasks && q.replays.requested_source
                == p.replays.requested_source
            &&& checked matches Ok(a) ==> {
                &&& q.connection.requested matches Some(request) && request.settings == a
                    && request.connection == a && !request.save
                &&& q.message == p.message
            }
            &&& checked matches Err(error) ==> {
                &&& q.connection == p.connection
                &&& q.message.is_error && q.message.text == error
            }
            &&& q.robot == p.robot && q.client == p.client && q.pending == p.pending
        }),
{
}

/// The list of recordings, task by task: one more task at the end has a line at the end
/// where it has a recording and there are fewer than thirty lines. A line names the goal,
/// the first eight characters of the identifier and the state, and is marked where the
/// task is on show.
pub proof fn law_recordings_are_listed(
    tasks: Seq<ReplayTaskView>,
    task: ReplayTaskView,
    selected: Option<Seq<char>>,
)
    requires
        tasks.len() <= usize::MAX,
    ensures
        ({
            let before = rows_of(tasks, selected);
            let after = rows_of(tasks.push(task), selected);
            &&& !task.has_rerun_recording || before.len() >= 30 ==> after == before
            &&& task.has_rerun_recording && before.len() < 30 ==> {
                let row = after.last();
                &&& after.len() == before.len() + 1 && after.drop_last() == before
                &&& row.index == tasks.len()
                &&& row.selected <==> selected == Some(task.task_id)
                &&& row.label == (match task.goal_text {
                    Some(goal) => goal,
                    None => "未命名任务"@,
                }) + "\n"@ + (if task.task_id.len() <= 8 {
                    task.task_id
                } else {
                    task.task_id.take(8)
                }) + " · "@ + task.status
            }
            &&& rows_of(Seq::empty(), selected).len() == 0
        }),
{
    let more = tasks.push(task);
    assert(more.drop_last() == tasks);
    assert(more.last() == task);
    let before = rows_of(tasks, selected);
    if task.has_rerun_recording && before.len() < 30 {
        assert(rows_of(more, selected).drop_last() == before);
    }
}

/// Going back to the live data opens its stream, and showing a recording opens the
/// recording; the list says which is on show.
pub proof fn law_what_is_on_show(r: ReplayListView, task: ReplayTaskView, rerun_url: Seq<char>)
    ensures
        ({
            let live = showing_live(r, rerun_url);
            let replay = showing_task(r, task);
            &&& live.requested_source == Some(rerun_url) && live.selected is None
                && live.source_label == "实时数据"@
            &&& replay.requested_source == Some(task.recording_source) && replay.selected == Some(
                task.task_id,
            )
            &&& task.goal_text matches Some(goal) ==> replay.source_label == "回放："@ + goal
            &&& task.goal_text is None ==> replay.source_label == "回放："@ + "未命名任务"@
            &&& live.tasks == r.tasks && replay.tasks == r.tasks
            &&& live.loaded == r.loaded && replay.loaded == r.loaded
            &&& live.delete_confirmation == r.delete_confirmation && replay.delete_confirmation
                == r.delete_confirmation
        }),
{
}

/// The tasks that were looked up are those of the list, and an error about them is over.
/// What is on show stays. Nothing to list is told once they were looked up, and only
/// without an error.
pub proof fn law_tasks_are_loaded(r: ReplayListView, tasks: Seq<ReplayTaskView>)
    ensures
        ({
            let q = with_tasks(r, tasks);
            &&& q.tasks == tasks && q.loaded && q.error is None
            &&& q.selected == r.selected && q.source_label == r.source_label
            &&& q.requested_source == r.requested_source && q.delete_confirmation
                == r.delete_confirmation
            &&& tasks.len() == 0 ==> lists_nothing(q)
        }),
        lists_nothing(r) ==> r.loaded && r.error is None && rows_of(r.tasks, r.selected).len()
            == 0,
        list_opened(r).open && list_opened(r).tasks == r.tasks && list_opened(r).selected
            == r.selected,
{
}

/// A recording is deleted only after the operator was asked: the question names its goal.
/// After that the tasks are those that are left, and where the recording was on show the
/// live data is. A failure is told, and leaves the tasks and what is on show.
pub proof fn law_deletions_are_asked_for(
    r: ReplayListView,
    task: ReplayTaskView,
    outcome: Deletion,
    rerun_url: Seq<char>,
)
    ensures
        ({
            let asked = deletion_asked(r, task);
            let after = deletion_settled(asked, outcome, rerun_url);
            &&& asked.delete_confirmation == Some(task) && asked.error is None
            &&& asked.tasks == r.tasks && asked.selected == r.selected
            &&& task.goal_text matches Some(goal) ==> question_of(asked) == Some(
                "确认永久删除“"@ + goal + "”？此操作无法撤销。"@,
            )
            &&& task.goal_text is None ==> question_of(asked) == Some(
                "确认永久删除“"@ + "未命名任务"@ + "”？此操作无法撤销。"@,
            )
            &&& after.delete_confirmation is None && question_of(after) is None
            &&& outcome matches Deletion::Done(left) ==> {
                &&& after.tasks == task_views(left@) && after.error is None
                &&& r.selected == Some(task.task_id) ==> after.selected is None
                    && after.requested_source == Some(rerun_url) && after.source_label
                    == "实时数据"@
                &&& r.selected != Some(task.task_id) ==> after.selected == r.selected
                    && after.requested_source == r.requested_source && after.source_label
                    == r.source_label
            }
            &&& outcome matches Deletion::Failed(error) ==> {
                &&& after.error == Some(error@) && after.tasks == r.tasks
                &&& after.selected == r.selected && after.requested_source == r.requested_source
            }
            &&& deletion_cancelled(asked).delete_confirmation is None
            &&& deletion_cancelled(asked).tasks == r.tasks
            &&& r.delete_confirmation is None ==> deletion_settled(r, outcome, rerun_url) == r
        }),
{
}

/// The switch of the recording is shown as it was set while its outcome is awaited.
pub proof fn law_the_recording_is_switched(p: PanelView, enabled: bool)
    ensures
        ({
            let q = recording_set(p, enabled);
            &&& q.robot.recording_enabled == enabled && q.pending.contains(ActionKind::Recording)
            &&& q.robot == (RobotView { recording_enabled: enabled, ..p.robot })
            &&& q.message.text == "更新录制"@ + "中…"@ && !q.message.is_error
        }),
{
}

/// A robot that is told to run a navigation, or not, is shown so, with a state that
/// agrees.
pub proof fn law_running_is_shown(r: RobotView, running: bool)
    ensures
        ({
            let q = robot_running(r, running);
            &&& q.navigation_running == running
            &&& running && active_word(ascii_lower(r.task_status)) ==> q.task_status
                == r.task_status
            &&& running && !active_word(ascii_lower(r.task_status)) ==> q.task_status
                == "accepted"@
            &&& !running && active_word(ascii_lower(r.task_status)) ==> q.task_status
                == "stopped"@
            &&& !running && !active_word(ascii_lower(r.task_status)) ==> q.task_status
                == r.task_status
            &&& q == (RobotView {
                navigation_running: q.navigation_running,
                task_status: q.task_status,
                ..r
            })
        }),
{
}

/// The navigation that is sent has the goal as the operator put it in, but for the white
/// space around it, and is a simulation exactly where that is ticked.
pub proof fn law_navigations_are_sent_as_put_in(p: PanelView, q: PanelView)
    ensures
        navigation_asked(p).0 == trimmed(p.goal_text),
        navigation_asked(p).1 == p.dry_run,
        p.can_navigate() ==> navigation_asked(p).0.len() > 0,
        p.goal_text == q.goal_text && p.dry_run == q.dry_run ==> navigation_asked(p)
            == navigation_asked(q),
{
}

/// While the outcomes are taken in, none waits any more, and nothing else is touched.
pub proof fn law_the_inbox_is_emptied(p: PanelView)
    ensures
        without_inbox(p).client.inbox.len() == 0,
        without_inbox(p).client.endpoint == p.client.endpoint,
        without_inbox(p).client.generation == p.client.generation,
        without_inbox(p) == (PanelView { client: without_inbox(p).client, ..p }),
{
}

} // verus!
