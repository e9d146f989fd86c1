//! The data service: a worker that follows the robot's data stream, and the state that
//! it shares with the operator's panel.

use std::path::PathBuf;
use vstd::prelude::*;
use vstd::string::*;

use crate::config::{AddressView, SidecarSettings};
use crate::http::{address_text, host_and_port};
use crate::json::{json_parse, parse_json, parse_view, Json, JsonView};
use crate::status::{
    is_in_small_letters, law_control_keeps_coherence, law_messages_keep_coherence, law_unknown_status_is_coherent,
    status_after, status_after_control, unknown_status, update_native_status, NativeStatusSnapshot,
    StatusView,
};
use crate::text::{decimal, decimal_text, opt_text, texts};

verus! {

/// What the worker works with.
#[derive(Debug)]
pub struct NativeSidecarSettings {
    pub robot_ip: String,
    pub robot_port: u16,
    pub rerun_port: u16,
    pub history_dir: PathBuf,
}

pub struct NativeSettingsView {
    pub robot_ip: Seq<char>,
    pub robot_port: u16,
    pub rerun_port: u16,
    pub history_dir: PathBuf,
}

impl View for NativeSidecarSettings {
    type V = NativeSettingsView;

    open spec fn view(&self) -> NativeSettingsView {
        NativeSettingsView {
            robot_ip: self.robot_ip@,
            robot_port: self.robot_port,
            rerun_port: self.rerun_port,
            history_dir: self.history_dir,
        }
    }
}

impl NativeSidecarSettings {
    /// A copy of the settings.
    pub fn duplicate(&self) -> (r: NativeSidecarSettings)
        ensures
            r@ == self@,
    {
        NativeSidecarSettings {
            robot_ip: self.robot_ip.clone(),
            robot_port: self.robot_port,
            rerun_port: self.rerun_port,
            history_dir: self.history_dir.clone(),
        }
    }
}

/// The state of the data service.
#[derive(Debug)]
pub struct NativeSidecar {
    stop: bool,
    reconnect: bool,
    connected: bool,
    running: bool,
    last_message_ms: u64,
    status: NativeStatusSnapshot,
    settings: NativeSidecarSettings,
    errors: Vec<String>,
}

pub struct SidecarView {
    /// The worker is to end.
    pub stop: bool,
    /// The worker is to leave its connection for a new one.
    pub reconnect: bool,
    /// The data stream is open.
    pub connected: bool,
    /// The worker is at work.
    pub running: bool,
    /// When the last message came, or 0.
    pub last_message_ms: u64,
    pub status: StatusView,
    pub settings: NativeSettingsView,
    /// What the worker gave up with and nobody was told yet, the oldest first.
    pub errors: Seq<Seq<char>>,
}

impl View for NativeSidecar {
    type V = SidecarView;

    closed spec fn view(&self) -> SidecarView {
        SidecarView {
            stop: self.stop,
            reconnect: self.reconnect,
            connected: self.connected,
            running: self.running,
            last_message_ms: self.last_message_ms,
            status: self.status@,
            settings: self.settings@,
            errors: texts(self.errors@),
        }
    }
}

/// A worker that has just been started.
pub open spec fn started(settings: NativeSettingsView) -> SidecarView {
    SidecarView {
        stop: false,
        reconnect: false,
        connected: false,
        running: true,
        last_message_ms: 0,
        status: unknown_status(),
        settings,
        errors: Seq::empty(),
    }
}

/// A worker that was given other settings: what the former robot said is forgotten.
pub open spec fn reconfigured(s: SidecarView, settings: NativeSettingsView) -> SidecarView {
    SidecarView {
        settings,
        connected: false,
        last_message_ms: 0,
        status: unknown_status(),
        reconnect: true,
        ..s
    }
}

/// A worker that has taken in a message.
pub open spec fn informed(s: SidecarView, now_ms: u64, message: JsonView) -> SidecarView {
    SidecarView { last_message_ms: now_ms, status: status_after(s.status, message), ..s }
}

/// What a start that takes too long fails with.
pub open spec fn late_start(rerun_port: u16) -> Seq<char> {
    "内置 Rerun 服务未能在 "@ + decimal(rerun_port as nat) + " 端口及时启动"@
}

pub open spec fn unit_result(r: Result<(), String>) -> Result<(), Seq<char>> {
    match r {
        Ok(()) => Ok(()),
        Err(message) => Err(message@),
    }
}

pub open spec fn opt_unit_result(r: Option<Result<(), String>>) -> Option<Result<(), Seq<char>>> {
    match r {
        Some(result) => Some(unit_result(result)),
        None => None,
    }
}

/// A worker without the oldest of its errors.
pub open spec fn told(s: SidecarView) -> SidecarView {
    SidecarView {
        errors: if s.errors.len() > 0 {
            s.errors.drop_first()
        } else {
            s.errors
        },
        ..s
    }
}

/// The oldest error of a worker that was not told yet.
pub open spec fn oldest_error(s: SidecarView) -> Option<Seq<char>> {
    if s.errors.len() > 0 {
        Some(s.errors[0])
    } else {
        None
    }
}

/// When the last message came to a worker.
pub open spec fn message_time(s: SidecarView) -> Option<u64> {
    if s.last_message_ms != 0 {
        Some(s.last_message_ms)
    } else {
        None
    }
}

/// Whether a worker can go over to other settings: the port of the local stream has to
/// stay.
pub open spec fn reconfiguration(s: SidecarView, settings: NativeSettingsView) -> Result<
    (),
    Seq<char>,
> {
    if s.settings.rerun_port != settings.rerun_port {
        Err("本机 Rerun 端口已变化，需要重启数据服务"@)
    } else {
        Ok(())
    }
}

/// A worker that is to end.
pub open spec fn stopping(s: SidecarView) -> SidecarView {
    SidecarView { stop: true, ..s }
}

/// A worker that has come to its end, with what it gave up with.
pub open spec fn worker_gone(s: SidecarView, error: Option<Seq<char>>) -> SidecarView {
    SidecarView {
        running: false,
        errors: match error {
            Some(message) => s.errors.push(message),
            None => s.errors,
        },
        ..s
    }
}

/// A worker that knows of the answer to the operator's request to start or to stop.
pub open spec fn controlled(s: SidecarView, running: bool) -> SidecarView {
    SidecarView { status: status_after_control(s.status, running), ..s }
}

/// How a start is going.
pub open spec fn start_outcome(s: SidecarView, reachable: bool, time_is_over: bool) -> Option<
    Result<(), Seq<char>>,
> {
    if time_is_over {
        Some(Err(late_start(s.settings.rerun_port)))
    } else if reachable {
        Some(Ok(()))
    } else {
        match oldest_error(s) {
            Some(error) => Some(Err(error)),
            None => None,
        }
    }
}

/// A worker after the question how its start is going: one that has failed is to end.
pub open spec fn start_asked(s: SidecarView, reachable: bool, time_is_over: bool) -> SidecarView {
    if time_is_over {
        stopping(s)
    } else if !reachable && s.errors.len() > 0 {
        stopping(told(s))
    } else {
        s
    }
}

/// A worker that was ended.
pub open spec fn ended(s: SidecarView) -> SidecarView {
    SidecarView { stop: true, running: false, ..s }
}

impl NativeSidecar {
    /// The state of a worker that has just been started.
    pub fn start(settings: NativeSidecarSettings) -> (r: NativeSidecar)
        ensures
            r@ == started(settings@),
    {
        let r = NativeSidecar {
            stop: false,
            reconnect: false,
            connected: false,
            running: true,
            last_message_ms: 0,
            status: NativeStatusSnapshot::default(),
            settings,
            errors: Vec::new(),
        };
        assert(texts(r.errors@) == Seq::<Seq<char>>::empty());
        r
    }

    pub fn is_running(&self) -> (r: bool)
        ensures
            r == self@.running,
    {
        self.running
    }

    /// Tells the oldest error that was not told yet.
    pub fn poll_error(&mut self) -> (r: Option<String>)
        ensures
            opt_text(r) == oldest_error(old(self)@),
            final(self)@ == told(old(self)@),
    {
        if self.errors.len() == 0 {
            None
        } else {
            let ghost before = self.errors@;
            let error = self.errors.remove(0);
            assert(texts(self.errors@) == texts(before).drop_first());
            Some(error)
        }
    }

    pub fn is_connected(&self) -> (r: bool)
        ensures
            r == self@.connected,
    {
        self.connected
    }

    /// When the last message came, in milliseconds since the epoch.
    pub fn last_message_at(&self) -> (r: Option<u64>)
        ensures
            r == message_time(self@),
    {
        if self.last_message_ms != 0 {
            Some(self.last_message_ms)
        } else {
            None
        }
    }

    pub fn status(&self) -> (r: NativeStatusSnapshot)
        ensures
            r@ == self@.status,
    {
        self.status.duplicate()
    }

    pub fn rerun_port(&self) -> (r: u16)
        ensures
            r == self@.settings.rerun_port,
    {
        self.settings.rerun_port
    }

    /// Goes over to another robot. The port of the local stream has to stay.
    pub fn reconfigure(&mut self, settings: NativeSidecarSettings) -> (r: Result<(), String>)
        ensures
            unit_result(r) == reconfiguration(old(self)@, settings@),
            final(self)@ == if r is Ok {
                reconfigured(old(self)@, settings@)
            } else {
                old(self)@
            },
    {
        if self.settings.rerun_port != settings.rerun_port {
            return Err("本机 Rerun 端口已变化，需要重启数据服务".to_owned());
        }
        self.settings = settings;
        self.connected = false;
        self.last_message_ms = 0;
        self.status = NativeStatusSnapshot::default();
        self.reconnect = true;
        Ok(())
    }

    /// Tells the worker to end.
    pub fn request_stop(&mut self)
        ensures
            final(self)@ == stopping(old(self)@),
    {
        self.stop = true;
    }

    /// Ends the worker. Its thread has been waited for.
    pub fn stop(&mut self)
        ensures
            final(self)@ == ended(old(self)@),
    {
        self.stop = true;
        self.running = false;
    }

    /// Notes that the worker has come to its end, and what it gave up with.
    pub fn worker_ended(&mut self, error: Option<String>)
        ensures
            final(self)@ == worker_gone(old(self)@, opt_text(error)),
    {
        self.running = false;
        match error {
            Some(message) => {
                let ghost before = self.errors@;
                self.errors.push(message);
                assert(texts(self.errors@) == texts(before).push(message@));
            },
            None => {},
        }
    }

    /// Takes over that the operator's request to start or to stop was answered.
    pub fn set_navigation_running_from_control(&mut self, running: bool)
        ensures
            final(self)@ == controlled(old(self)@, running),
    {
        self.status.set_navigation_running_from_control(running);
    }

    /// How a start is going: it has succeeded once the local port can be reached, and
    /// has failed once the worker gave up or the time is over.
    pub fn start_progress(&mut self, reachable: bool, time_is_over: bool) -> (r: Option<
        Result<(), String>,
    >)
        ensures
            opt_unit_result(r) == start_outcome(old(self)@, reachable, time_is_over),
            final(self)@ == start_asked(old(self)@, reachable, time_is_over),
    {
        if time_is_over {
            self.stop = true;
            let port = decimal_text(self.settings.rerun_port as u64);
            return Some(
                Err("内置 Rerun 服务未能在 ".to_owned().concat(port.as_str()).concat(" 端口及时启动")),
            );
        }
        if reachable {
            return Some(Ok(()));
        }
        match self.poll_error() {
            Some(error) => {
                self.stop = true;
                Some(Err(error))
            },
            None => None,
        }
    }
}

/// The shortest wait before the worker tries again, in seconds.
pub const FIRST_WAIT: u64 = 1;

/// The longest wait before the worker tries again, in seconds.
pub const LONGEST_WAIT: u64 = 10;

/// The wait after the one of the given length.
pub open spec fn longer_wait(seconds: u64) -> u64 {
    if 2 * seconds > LONGEST_WAIT {
        LONGEST_WAIT
    } else {
        (2 * seconds) as u64
    }
}

pub open spec fn opt_settings(o: Option<NativeSidecarSettings>) -> Option<NativeSettingsView> {
    match o {
        Some(settings) => Some(settings@),
        None => None,
    }
}

/// The settings of the next connection: none for a worker that is to end.
pub open spec fn session_settings(s: SidecarView) -> Option<NativeSettingsView> {
    if s.stop {
        None
    } else {
        Some(s.settings)
    }
}

/// A worker that begins a connection, or ends.
pub open spec fn session_begun(s: SidecarView) -> SidecarView {
    if s.stop {
        SidecarView { connected: false, ..s }
    } else {
        SidecarView { reconnect: false, ..s }
    }
}

/// A worker whose data stream is open.
pub open spec fn stream_open(s: SidecarView) -> SidecarView {
    SidecarView { connected: true, ..s }
}

/// Whether a worker can go on with what it is doing.
pub open spec fn goes_on(s: SidecarView) -> bool {
    !s.stop && !s.reconnect
}

/// A worker after the end of a connection.
pub open spec fn session_ended(s: SidecarView, outcome: Result<(), Seq<char>>) -> SidecarView {
    if outcome is Err {
        SidecarView { connected: false, ..s }
    } else {
        s
    }
}

/// What is noted down about the end of a connection.
pub open spec fn session_event(outcome: Result<(), Seq<char>>) -> Option<Seq<char>> {
    match outcome {
        Ok(()) => None,
        Err(message) => Some("上游连接中断："@ + message),
    }
}

/// How long a worker waits after a connection, if it does, and how long the next time.
pub open spec fn session_wait(s: SidecarView, outcome: Result<(), Seq<char>>, wait: u64) -> (
    Option<u64>,
    u64,
) {
    if outcome is Ok && s.stop {
        (None, wait)
    } else if s.reconnect {
        (None, FIRST_WAIT)
    } else {
        (Some(wait), longer_wait(wait))
    }
}

/// What follows on the end of a connection.
#[derive(Debug)]
pub struct SessionEnd {
    /// What is noted down as an event.
    pub event: Option<String>,
    /// How long to wait before the next try, in seconds.
    pub wait: Option<u64>,
}

impl NativeSidecar {
    /// Begins a connection with the present settings, unless the worker is to end.
    pub fn begin_session(&mut self) -> (r: Option<NativeSidecarSettings>)
        ensures
            opt_settings(r) == session_settings(old(self)@),
            final(self)@ == session_begun(old(self)@),
    {
        if self.stop {
            self.connected = false;
            None
        } else {
            self.reconnect = false;
            Some(self.settings.duplicate())
        }
    }

    /// Notes that the data stream is open.
    pub fn stream_opened(&mut self)
        ensures
            final(self)@ == stream_open(old(self)@),
    {
        self.connected = true;
    }

    /// Whether the worker can go on with what it is doing.
    pub fn undisturbed(&self) -> (r: bool)
        ensures
            r == goes_on(self@),
    {
        !self.stop && !self.reconnect
    }

    /// Decides what follows on the end of a connection. `wait` is the length of the
    /// next wait, in seconds.
    pub fn session_over(&mut self, outcome: Result<(), String>, wait: &mut u64) -> (r: SessionEnd)
        ensures
            final(self)@ == session_ended(old(self)@, unit_result(outcome)),
            opt_text(r.event) == session_event(unit_result(outcome)),
            (r.wait, *final(wait)) == session_wait(old(self)@, unit_result(outcome), *old(wait)),
    {
        let ended_well = outcome.is_ok();
        let event = match outcome {
            Ok(()) => None,
            Err(message) => {
                self.connected = false;
                Some("上游连接中断：".to_owned().concat(message.as_str()))
            },
        };
        if ended_well && self.stop {
            SessionEnd { event, wait: None }
        } else if self.reconnect {
            *wait = FIRST_WAIT;
            SessionEnd { event, wait: None }
        } else {
            let now: u64 = *wait;
            *wait = if now > LONGEST_WAIT / 2 {
                LONGEST_WAIT
            } else {
                2 * now
            };
            SessionEnd { event, wait: Some(now) }
        }
    }
}

/// What came of reading from the data stream.
#[derive(Debug)]
pub enum StreamEvent {
    Text(String),
    Binary,
    Ping,
    Close,
    /// Another frame without a message.
    Other,
    /// Nothing came for a while.
    Quiet,
    Failed(String),
}

/// What is to be done about it.
#[derive(Debug)]
pub enum StreamReply {
    Nothing,
    Pong,
    /// The message was taken in and is to be drawn.
    Message(Json),
}

pub enum StreamReplyView {
    Nothing,
    Pong,
    Message(JsonView),
}

impl View for StreamReply {
    type V = StreamReplyView;

    open spec fn view(&self) -> StreamReplyView {
        match *self {
            StreamReply::Nothing => StreamReplyView::Nothing,
            StreamReply::Pong => StreamReplyView::Pong,
            StreamReply::Message(message) => StreamReplyView::Message(message.view()),
        }
    }
}

pub open spec fn reply_result(r: Result<StreamReply, String>) -> Result<
    StreamReplyView,
    Seq<char>,
> {
    match r {
        Ok(reply) => Ok(reply@),
        Err(message) => Err(message@),
    }
}

/// What is to be done about a text that was read as a document, or was not.
pub open spec fn reply_to(parsed: Result<JsonView, Seq<char>>) -> Result<
    StreamReplyView,
    Seq<char>,
> {
    match parsed {
        Ok(message) => Ok(StreamReplyView::Message(message)),
        Err(message) => Err("数据流 JSON 无效："@ + message),
    }
}

/// The state after a text that was read as a document, or was not.
pub open spec fn after_text(
    s: SidecarView,
    now_ms: u64,
    parsed: Result<JsonView, Seq<char>>,
) -> SidecarView {
    match parsed {
        Ok(message) => informed(s, now_ms, message),
        Err(_) => s,
    }
}

impl NativeSidecar {
    /// Takes in what came of reading from the data stream. An error ends the connection.
    pub fn receive(&mut self, event: StreamEvent, now_ms: u64) -> (r: Result<StreamReply, String>)
        ensures
            reply_result(r) == reply_to_event(event),
            final(self)@ == after_event(old(self)@, event, now_ms),
            event matches StreamEvent::Text(text) ==> (json_parse(text@) matches Ok(m)
                ==> is_in_small_letters(final(self)@.status, m)),
    {
        match event {
            StreamEvent::Text(text) => {
                let parsed = parse_json(text.as_str());
                self.receive_parsed(parsed, now_ms)
            },
            StreamEvent::Ping => Ok(StreamReply::Pong),
            StreamEvent::Close => Err("机器人关闭了数据流".to_owned()),
            StreamEvent::Failed(message) => Err(message),
            StreamEvent::Binary | StreamEvent::Other | StreamEvent::Quiet => Ok(
                StreamReply::Nothing,
            ),
        }
    }

    /// Takes in a text of the data stream that was read as a document, or was not.
    pub fn receive_parsed(&mut self, parsed: Result<Json, String>, now_ms: u64) -> (r: Result<
        StreamReply,
        String,
    >)
        ensures
            reply_result(r) == reply_to(parse_view(parsed)),
            final(self)@ == after_text(old(self)@, now_ms, parse_view(parsed)),
            parse_view(parsed) matches Ok(m) ==> is_in_small_letters(final(self)@.status, m),
    {
        match parsed {
            Ok(message) => {
                self.last_message_ms = now_ms;
                update_native_status(&mut self.status, &message);
                Ok(StreamReply::Message(message))
            },
            Err(message) => Err("数据流 JSON 无效：".to_owned().concat(message.as_str())),
        }
    }
}

/// What is to be done about what came of reading from the data stream.
pub open spec fn reply_to_event(event: StreamEvent) -> Result<StreamReplyView, Seq<char>> {
    match event {
        StreamEvent::Text(text) => reply_to(json_parse(text@)),
        StreamEvent::Ping => Ok(StreamReplyView::Pong),
        StreamEvent::Close => Err("机器人关闭了数据流"@),
        StreamEvent::Failed(message) => Err(message@),
        _ => Ok(StreamReplyView::Nothing),
    }
}

/// A worker after what came of reading from the data stream.
pub open spec fn after_event(s: SidecarView, event: StreamEvent, now_ms: u64) -> SidecarView {
    match event {
        StreamEvent::Text(text) => after_text(s, now_ms, json_parse(text@)),
        _ => s,
    }
}

/// How long the map is taken to be unchanged, in milliseconds.
pub const MAP_POLL_MS: u64 = 5000;

/// Whether the map is to be asked for again after some time.
pub open spec fn polls_map(elapsed_ms: u64) -> bool {
    elapsed_ms >= MAP_POLL_MS
}

/// Whether the map is to be asked for again.
pub fn map_poll_due(elapsed_ms: u64) -> (r: bool)
    ensures
        r == polls_map(elapsed_ms),
{
    elapsed_ms >= MAP_POLL_MS
}

/// What a question for the map means for the connection.
pub open spec fn map_poll_outcome(first: bool, outcome: Result<(), Seq<char>>) -> Result<
    (),
    Seq<char>,
> {
    if first {
        outcome
    } else {
        Ok(())
    }
}

/// Whether a connection goes on after the map was asked for: without the first answer it
/// does not, later on it does without.
pub fn after_map_poll(first: bool, outcome: Result<(), String>) -> (r: Result<(), String>)
    ensures
        unit_result(r) == map_poll_outcome(first, unit_result(outcome)),
{
    if first {
        outcome
    } else {
        Ok(())
    }
}

/// Why no data stream could be opened, with what the system said about it.
#[derive(Debug)]
pub enum StreamFailure {
    /// The address could not be looked up.
    Lookup(String),
    /// The address stands for no host.
    NoHost,
    Connect(String),
    Timeouts(String),
    Handshake(String),
}

/// What the operator is told about a data stream that could not be opened.
pub open spec fn stream_failure_of(address: Seq<char>, failure: StreamFailure) -> Seq<char> {
    match failure {
        StreamFailure::Lookup(detail) => "无法解析机器人地址 "@ + address + "："@ + detail@,
        StreamFailure::NoHost => "无法解析机器人地址 "@ + address,
        StreamFailure::Connect(detail) => "无法连接机器人数据流："@ + detail@,
        StreamFailure::Timeouts(detail) => "无法设置数据流超时："@ + detail@,
        StreamFailure::Handshake(detail) => "WebSocket 握手失败："@ + detail@,
    }
}

pub fn stream_failure_text(address: &str, failure: StreamFailure) -> (r: String)
    ensures
        r@ == stream_failure_of(address@, failure),
{
    match failure {
        StreamFailure::Lookup(detail) => "无法解析机器人地址 ".to_owned().concat(address).concat(
            "：",
        ).concat(detail.as_str()),
        StreamFailure::NoHost => "无法解析机器人地址 ".to_owned().concat(address),
        StreamFailure::Connect(detail) => "无法连接机器人数据流：".to_owned().concat(detail.as_str()),
        StreamFailure::Timeouts(detail) => "无法设置数据流超时：".to_owned().concat(detail.as_str()),
        StreamFailure::Handshake(detail) => "WebSocket 握手失败：".to_owned().concat(
            detail.as_str(),
        ),
    }
}

/// Where the robot's data stream is.
pub open spec fn stream_address(settings: NativeSettingsView) -> Seq<char> {
    "ws://"@ + host_and_port(settings.robot_ip, settings.robot_port) + "/viz/ws"@
}

/// Milliseconds that fit, or the largest number that does.
pub open spec fn kept_millis(millis: u128) -> u64 {
    if millis > u64::MAX {
        u64::MAX
    } else {
        millis as u64
    }
}

impl NativeSidecarSettings {
    /// The robot's host and port.
    pub fn address(&self) -> (r: String)
        ensures
            r@ == host_and_port(self@.robot_ip, self@.robot_port),
    {
        address_text(self.robot_ip.as_str(), self.robot_port)
    }

    /// Where the robot's data stream is.
    pub fn stream_url(&self) -> (r: String)
        ensures
            r@ == stream_address(self@),
    {
        let address = self.address();
        "ws://".to_owned().concat(address.as_str()).concat("/viz/ws")
    }

    /// Where the robot's services are.
    pub fn base_url(&self) -> (r: String)
        ensures
            r@ == "http://"@ + host_and_port(self@.robot_ip, self@.robot_port),
    {
        let address = self.address();
        "http://".to_owned().concat(address.as_str())
    }
}

/// Milliseconds as they are kept: what does not fit is the largest number.
pub fn clamp_millis(millis: u128) -> (r: u64)
    ensures
        r == kept_millis(millis),
{
    if millis > u64::MAX as u128 {
        u64::MAX
    } else {
        millis as u64
    }
}

/// Starts, replaces and ends the data service.
#[derive(Debug)]
pub struct SidecarManager {
    worker: Option<NativeSidecar>,
    history_dir: PathBuf,
}

pub struct ManagerView {
    pub worker: Option<SidecarView>,
    pub history_dir: PathBuf,
}

pub open spec fn opt_sidecar(o: Option<NativeSidecar>) -> Option<SidecarView> {
    match o {
        Some(worker) => Some(worker@),
        None => None,
    }
}

impl View for SidecarManager {
    type V = ManagerView;

    closed spec fn view(&self) -> ManagerView {
        ManagerView { worker: opt_sidecar(self.worker), history_dir: self.history_dir }
    }
}

/// How to go over to other settings.
#[derive(Debug)]
pub enum Restart {
    /// The worker at work has taken them over.
    Done,
    /// A new worker is to be started with them, after the end of the present one.
    Launch(NativeSidecarSettings),
}

impl ManagerView {
    /// The settings of a worker for the given address.
    pub open spec fn settings_for(self, a: AddressView) -> NativeSettingsView {
        NativeSettingsView {
            robot_ip: a.robot_ip,
            robot_port: a.robot_port,
            rerun_port: a.rerun_port,
            history_dir: self.history_dir,
        }
    }

    /// Whether the worker at work can take over settings with the given local port.
    pub open spec fn can_take_over(self, rerun_port: u16) -> bool {
        self.worker matches Some(worker) && worker.running && worker.settings.rerun_port
            == rerun_port
    }

    /// What is known of the robot.
    pub open spec fn status(self) -> StatusView {
        match self.worker {
            Some(worker) => worker.status,
            None => unknown_status(),
        }
    }

    pub open spec fn is_running(self) -> bool {
        self.worker matches Some(worker) && worker.running
    }

    pub open spec fn is_connected(self) -> bool {
        self.worker matches Some(worker) && worker.connected
    }

    pub open spec fn last_message_at(self) -> Option<u64> {
        match self.worker {
            Some(worker) => message_time(worker),
            None => None,
        }
    }

    /// What is to be told about a worker that has come to its end.
    pub open spec fn exit(self) -> Option<Seq<char>> {
        match self.worker {
            Some(worker) => if worker.errors.len() > 0 {
                Some(worker.errors[0])
            } else if !worker.running {
                Some("内置数据服务已退出"@)
            } else {
                None
            },
            None => None,
        }
    }
}

/// The settings that a new worker is to be started with, if one is.
pub open spec fn restart_view(r: Restart) -> Option<NativeSettingsView> {
    match r {
        Restart::Done => None,
        Restart::Launch(settings) => Some(settings@),
    }
}

/// The settings of the new worker that a change of the settings needs, if it needs one.
pub open spec fn to_launch(m: ManagerView, a: AddressView) -> Option<NativeSettingsView> {
    if m.can_take_over(a.rerun_port) {
        None
    } else {
        Some(m.settings_for(a))
    }
}

/// After a change of the settings, before a new worker is started.
pub open spec fn restarted(m: ManagerView, a: AddressView) -> ManagerView {
    if m.can_take_over(a.rerun_port) {
        ManagerView {
            worker: Some(reconfigured(m.worker->Some_0, m.settings_for(a))),
            ..m
        }
    } else {
        m
    }
}

/// After a new worker was started.
pub open spec fn launched(m: ManagerView, settings: NativeSettingsView) -> ManagerView {
    ManagerView { worker: Some(started(settings)), ..m }
}

/// After the operator's request to start or to stop was answered.
pub open spec fn manager_controlled(m: ManagerView, running: bool) -> ManagerView {
    ManagerView {
        worker: match m.worker {
            Some(worker) => Some(controlled(worker, running)),
            None => None,
        },
        ..m
    }
}

/// After the question how the worker has ended: one that gave up is let go.
pub open spec fn exit_told(m: ManagerView) -> ManagerView {
    match m.worker {
        Some(worker) => if worker.errors.len() > 0 {
            ManagerView { worker: None, ..m }
        } else {
            m
        },
        None => m,
    }
}

impl SidecarManager {
    pub fn new(history_dir: PathBuf) -> (r: SidecarManager)
        ensures
            r@ == (ManagerView { worker: None, history_dir }),
    {
        SidecarManager { worker: None, history_dir }
    }

    /// Goes over to other settings: by the worker at work where the local port stays,
    /// else by a new one.
    pub fn restart(&mut self, settings: &SidecarSettings) -> (r: Restart)
        ensures
            restart_view(r) == to_launch(old(self)@, settings@),
            final(self)@ == restarted(old(self)@, settings@),
    {
        let native = NativeSidecarSettings {
            robot_ip: settings.robot_ip.clone(),
            robot_port: settings.robot_port,
            rerun_port: settings.rerun_port,
            history_dir: self.history_dir.clone(),
        };
        match self.worker.take() {
            Some(worker) => {
                let mut worker = worker;
                if worker.is_running() && worker.rerun_port() == settings.rerun_port {
                    let _ = worker.reconfigure(native);
                    self.worker = Some(worker);
                    return Restart::Done;
                }
                self.worker = Some(worker);
            },
            None => {},
        }
        Restart::Launch(native)
    }

    /// Puts a new worker in the place of the former one.
    pub fn launch(&mut self, settings: NativeSidecarSettings)
        ensures
            final(self)@ == launched(old(self)@, settings@),
    {
        self.worker = Some(NativeSidecar::start(settings));
    }

    /// The worker, for its thread.
    pub fn take_worker(&mut self) -> (r: Option<NativeSidecar>)
        ensures
            opt_sidecar(r) == old(self)@.worker,
            final(self)@ == (ManagerView { worker: None, ..old(self)@ }),
    {
        self.worker.take()
    }

    /// Puts a worker back that was taken.
    pub fn put_worker(&mut self, worker: NativeSidecar)
        ensures
            final(self)@ == (ManagerView { worker: Some(worker@), ..old(self)@ }),
    {
        self.worker = Some(worker);
    }

    /// Tells how the worker has ended, if it has.
    pub fn poll_exit(&mut self) -> (r: Option<String>)
        ensures
            opt_text(r) == old(self)@.exit(),
            final(self)@ == exit_told(old(self)@),
    {
        match self.worker.take() {
            Some(worker) => {
                let mut worker = worker;
                match worker.poll_error() {
                    Some(error) => Some(error),
                    None => {
                        let running = worker.is_running();
                        self.worker = Some(worker);
                        if running {
                            None
                        } else {
                            Some("内置数据服务已退出".to_owned())
                        }
                    },
                }
            },
            None => None,
        }
    }

    pub fn is_running(&self) -> (r: bool)
        ensures
            r == self@.is_running(),
    {
        match &self.worker {
            Some(worker) => worker.is_running(),
            None => false,
        }
    }

    pub fn is_connected(&self) -> (r: bool)
        ensures
            r == self@.is_connected(),
    {
        match &self.worker {
            Some(worker) => worker.is_connected(),
            None => false,
        }
    }

    pub fn last_message_at(&self) -> (r: Option<u64>)
        ensures
            r == self@.last_message_at(),
    {
        match &self.worker {
            Some(worker) => worker.last_message_at(),
            None => None,
        }
    }

    pub fn status(&self) -> (r: NativeStatusSnapshot)
        ensures
            r@ == self@.status(),
    {
        match &self.worker {
            Some(worker) => worker.status(),
            None => NativeStatusSnapshot::default(),
        }
    }

    pub fn set_navigation_running_from_control(&mut self, running: bool)
        ensures
            final(self)@ == manager_controlled(old(self)@, running),
    {
        match self.worker.take() {
            Some(worker) => {
                let mut worker = worker;
                worker.set_navigation_running_from_control(running);
                self.worker = Some(worker);
            },
            None => {},
        }
    }

    /// Where the tasks are recorded.
    pub fn history_dir(&self) -> (r: &PathBuf)
        ensures
            *r == self@.history_dir,
    {
        &self.history_dir
    }

    /// Lets the worker go, ended.
    pub fn stop(&mut self)
        ensures
            final(self)@ == (ManagerView { worker: None, ..old(self)@ }),
    {
        self.worker = None;
    }
}

/// The length of a wait after the given number of failed tries, in seconds.
pub open spec fn wait_after(tries: nat) -> u64
    decreases tries,
{
    if tries == 0 {
        FIRST_WAIT
    } else {
        longer_wait(wait_after((tries - 1) as nat))
    }
}

/// The waits between failed tries are 1, 2, 4 and 8 seconds, and then always 10.
pub proof fn law_waits_grow_to_ten_seconds(tries: nat)
    ensures
        wait_after(tries) == if tries == 0 {
            1
        } else if tries == 1 {
            2
        } else if tries == 2 {
            4
        } else if tries == 3 {
            8
        } else {
            10int
        },
    decreases tries,
{
    if tries > 0 {
        law_waits_grow_to_ten_seconds((tries - 1) as nat);
    }
}

/// A worker that is to end stays so: neither a message nor other settings nor a question
/// about its errors calls it back.
pub proof fn law_stop_is_final(
    s: SidecarView,
    settings: NativeSettingsView,
    now_ms: u64,
    parsed: Result<JsonView, Seq<char>>,
)
    requires
        s.stop,
    ensures
        reconfigured(s, settings).stop,
        after_text(s, now_ms, parsed).stop,
        told(s).stop,
        ended(s).stop,
{
}

/// In every state of the worker a navigation counts as running exactly while the task's
/// status is that of a task under way.
pub proof fn law_worker_is_coherent(
    s: SidecarView,
    settings: NativeSettingsView,
    now_ms: u64,
    parsed: Result<JsonView, Seq<char>>,
    running: bool,
)
    requires
        s.status.coherent(),
    ensures
        started(settings).status.coherent(),
        reconfigured(s, settings).status.coherent(),
        after_text(s, now_ms, parsed).status.coherent(),
        status_after_control(s.status, running).coherent(),
{
    law_unknown_status_is_coherent();
    law_control_keeps_coherence(s.status, running);
    match parsed {
        Ok(message) => law_messages_keep_coherence(s.status, message),
        Err(_) => {},
    }
}

/// After a change of the robot nothing is left of what the former robot said: two
/// workers that did not know the same before know the same after it.
pub proof fn law_former_robot_is_forgotten(
    s: SidecarView,
    t: SidecarView,
    settings: NativeSettingsView,
)
    ensures
        ({
            let x = reconfigured(s, settings);
            let y = reconfigured(t, settings);
            &&& x.status == y.status
            &&& x.connected == y.connected
            &&& x.last_message_ms == y.last_message_ms
            &&& x.settings == y.settings
            &&& x.reconnect && y.reconnect
        }),
{
}

/// A worker starts out at work and not connected, with nothing known and no errors.
pub proof fn law_workers_start_afresh(settings: NativeSettingsView)
    ensures
        ({
            let s = started(settings);
            &&& s.running && !s.stop && !s.reconnect && !s.connected
            &&& s.errors.len() == 0 && message_time(s) is None
            &&& s.settings == settings
            &&& s.status == unknown_status()
            &&& goes_on(s) && session_settings(s) == Some(settings)
        }),
{
}

/// After a change of the robot the worker is to connect anew, with the new settings and
/// nothing known; until then it does not go on. It is as much at work, and has the same
/// errors to tell, as before. The port of the local stream cannot change.
pub proof fn law_workers_change_the_robot(s: SidecarView, settings: NativeSettingsView)
    ensures
        reconfiguration(s, settings) is Ok <==> s.settings.rerun_port == settings.rerun_port,
        reconfiguration(s, settings) matches Err(message) ==> message
            == "本机 Rerun 端口已变化，需要重启数据服务"@,
        ({
            let t = reconfigured(s, settings);
            &&& t.settings == settings && t.status == unknown_status()
            &&& !t.connected && message_time(t) is None
            &&& t.reconnect && !goes_on(t)
            &&& t.running == s.running && t.stop == s.stop && t.errors == s.errors
            &&& !s.stop ==> session_settings(t) == Some(settings) && goes_on(session_begun(t))
        }),
{
}

/// A worker that is to end begins no connection any more, is not connected, and does not
/// go on; another one connects with its present settings.
pub proof fn law_connections_begin(s: SidecarView)
    ensures
        s.stop ==> session_settings(s) is None && !session_begun(s).connected && !goes_on(
            session_begun(s),
        ),
        !s.stop ==> session_settings(s) == Some(s.settings) && goes_on(session_begun(s)),
        !s.stop ==> session_begun(s) == (SidecarView { reconnect: false, ..s }),
        s.stop ==> session_begun(s) == (SidecarView { connected: false, ..s }),
        goes_on(s) <==> !s.stop && !s.reconnect,
        stream_open(s) == (SidecarView { connected: true, ..s }),
        stopping(s) == (SidecarView { stop: true, ..s }),
        ended(s) == (SidecarView { stop: true, running: false, ..s }),
{
}

/// After the end of a connection the worker waits, each time twice as long and at most
/// ten seconds. It does not wait where the connection ended because it was told to end,
/// nor where another robot is to be shown; then the waits begin anew with one second.
pub proof fn law_waits_after_connections(
    s: SidecarView,
    outcome: Result<(), Seq<char>>,
    wait: u64,
)
    ensures
        outcome is Ok && s.stop ==> session_wait(s, outcome, wait) == (None::<u64>, wait),
        !(outcome is Ok && s.stop) && s.reconnect ==> session_wait(s, outcome, wait) == (
            None::<u64>,
            1u64,
        ),
        !(outcome is Ok && s.stop) && !s.reconnect ==> session_wait(s, outcome, wait).0 == Some(
            wait,
        ),
        !(outcome is Ok && s.stop) && !s.reconnect && wait <= 5 ==> session_wait(
            s,
            outcome,
            wait,
        ).1 == 2 * wait,
        !(outcome is Ok && s.stop) && !s.reconnect && wait > 5 ==> session_wait(
            s,
            outcome,
            wait,
        ).1 == 10,
        FIRST_WAIT == 1,
{
}

/// A connection that broke is noted down with the reason, and the stream is not open any
/// more. One that came to its end leaves everything as it was.
pub proof fn law_broken_connections_are_noted(s: SidecarView, message: Seq<char>)
    ensures
        session_event(Err(message)) == Some("上游连接中断："@ + message),
        session_ended(s, Err(message)) == (SidecarView { connected: false, ..s }),
        session_event(Ok(())) is None,
        session_ended(s, Ok(())) == s,
{
}

/// A message is taken in where it is a document: it is handed on as it came, what it says
/// is known from then on, and its time is that of the last message. A text that is none
/// ends the connection, and changes nothing else.
pub proof fn law_messages_are_taken_in(
    s: SidecarView,
    event: StreamEvent,
    now_ms: u64,
    m: JsonView,
    message: Seq<char>,
)
    requires
        event matches StreamEvent::Text(text),
    ensures
        json_parse(event->Text_0@) == Ok::<JsonView, Seq<char>>(m) ==> {
            let after = after_event(s, event, now_ms);
            &&& reply_to_event(event) == Ok::<StreamReplyView, Seq<char>>(
                StreamReplyView::Message(m),
            )
            &&& after.status == status_after(s.status, m)
            &&& now_ms != 0 ==> message_time(after) == Some(now_ms)
            &&& after == (SidecarView {
                status: after.status,
                last_message_ms: now_ms,
                ..s
            })
        },
        json_parse(event->Text_0@) == Err::<JsonView, Seq<char>>(message) ==> {
            &&& reply_to_event(event) == Err::<StreamReplyView, Seq<char>>(
                "数据流 JSON 无效："@ + message,
            )
            &&& after_event(s, event, now_ms) == s
        },
{
}

/// A ping is answered; the end of the stream and a failure end the connection, the
/// latter with its reason; anything else is passed over. None of these changes anything.
pub proof fn law_other_events(s: SidecarView, event: StreamEvent, now_ms: u64)
    requires
        !(event is Text),
    ensures
        event is Ping ==> reply_to_event(event) == Ok::<StreamReplyView, Seq<char>>(
            StreamReplyView::Pong,
        ),
        event is Close ==> reply_to_event(event) == Err::<StreamReplyView, Seq<char>>(
            "机器人关闭了数据流"@,
        ),
        event matches StreamEvent::Failed(message) ==> reply_to_event(event) == Err::<
            StreamReplyView,
            Seq<char>,
        >(message@),
        event is Binary || event is Other || event is Quiet ==> reply_to_event(event) == Ok::<
            StreamReplyView,
            Seq<char>,
        >(StreamReplyView::Nothing),
        after_event(s, event, now_ms) == s,
{
}

/// Errors are told one by one, in the order in which they came, and each once.
pub proof fn law_errors_are_told_in_order(s: SidecarView, error: Seq<char>)
    ensures
        worker_gone(s, Some(error)).errors == s.errors + seq![error],
        worker_gone(s, None).errors == s.errors,
        !worker_gone(s, Some(error)).running && !worker_gone(s, None).running,
        worker_gone(s, None) == (SidecarView { running: false, ..s }),
        s.errors.len() > 0 ==> oldest_error(s) == Some(s.errors[0]) && seq![s.errors[0]] + told(
            s,
        ).errors == s.errors,
        s.errors.len() == 0 ==> oldest_error(s) is None && told(s) == s,
        told(s) == (SidecarView { errors: told(s).errors, ..s }),
{
    assert(s.errors.push(error) == s.errors + seq![error]);
    if s.errors.len() > 0 {
        assert(seq![s.errors[0]] + s.errors.drop_first() == s.errors);
    }
}

/// A start has failed once its time is over, and names the port then; before, it has
/// succeeded once the port can be reached, and has failed once the worker gave up, with
/// the reason. A worker that has failed to start is to end.
pub proof fn law_starts_are_watched(s: SidecarView, reachable: bool)
    ensures
        start_outcome(s, reachable, true) == Some(
            Err::<(), Seq<char>>(
                "内置 Rerun 服务未能在 "@ + decimal(s.settings.rerun_port as nat)
                    + " 端口及时启动"@,
            ),
        ),
        start_asked(s, reachable, true) == (SidecarView { stop: true, ..s }),
        start_outcome(s, true, false) == Some(Ok::<(), Seq<char>>(())),
        start_asked(s, true, false) == s,
        s.errors.len() > 0 ==> {
            &&& start_outcome(s, false, false) == Some(Err::<(), Seq<char>>(s.errors[0]))
            &&& start_asked(s, false, false).stop
            &&& start_asked(s, false, false).errors == s.errors.drop_first()
        },
        s.errors.len() == 0 ==> start_outcome(s, false, false) is None && start_asked(
            s,
            false,
            false,
        ) == s,
{
}

/// The map is asked for every five seconds. Without an answer to the first question the
/// connection fails with the reason, later on it goes on.
pub proof fn law_the_map_is_polled(elapsed_ms: u64, outcome: Result<(), Seq<char>>)
    ensures
        polls_map(elapsed_ms) <==> elapsed_ms >= 5000,
        map_poll_outcome(true, outcome) == outcome,
        map_poll_outcome(false, outcome) is Ok,
{
}

/// The data stream is found at the robot's address and port, under `/viz/ws`.
pub proof fn law_the_stream_is_on_the_robot(settings: NativeSettingsView)
    ensures
        stream_address(settings) == "ws://"@ + settings.robot_ip + ":"@ + decimal(
            settings.robot_port as nat,
        ) + "/viz/ws"@,
{
    assert("ws://"@ + (settings.robot_ip + ":"@ + decimal(settings.robot_port as nat)) == "ws://"@
        + settings.robot_ip + ":"@ + decimal(settings.robot_port as nat));
}

/// Why no data stream could be opened is told in words, each way in its own, with what
/// the system said about it.
pub proof fn law_stream_failures_are_told(address: Seq<char>, failure: StreamFailure)
    ensures
        ({
            let told = stream_failure_of(address, failure);
            match failure {
                StreamFailure::Lookup(detail) => told == "无法解析机器人地址 "@ + address + "："@
                    + detail@,
                StreamFailure::NoHost => told == "无法解析机器人地址 "@ + address,
                StreamFailure::Connect(detail) => told == "无法连接机器人数据流："@ + detail@,
                StreamFailure::Timeouts(detail) => told == "无法设置数据流超时："@ + detail@,
                StreamFailure::Handshake(detail) => told == "WebSocket 握手失败："@ + detail@,
            }
        }),
{
}

/// A time that fits is kept as it is, and a later one is never taken for an earlier one.
pub proof fn law_times_are_kept(a: u128, b: u128)
    ensures
        a <= u64::MAX ==> kept_millis(a) == a,
        a <= b ==> kept_millis(a) <= kept_millis(b),
        a > u64::MAX ==> kept_millis(a) == u64::MAX,
{
}

/// A change of the settings is taken over by the worker where one is at work and the
/// local port stays. Else a new worker is to be started with the new settings, and
/// nothing changes before.
pub proof fn law_settings_are_taken_over(m: ManagerView, a: AddressView)
    ensures
        ({
            let settings = NativeSettingsView {
                robot_ip: a.robot_ip,
                robot_port: a.robot_port,
                rerun_port: a.rerun_port,
                history_dir: m.history_dir,
            };
            let keeps = m.worker matches Some(worker) && worker.running
                && worker.settings.rerun_port == a.rerun_port;
            &&& keeps ==> to_launch(m, a) is None && restarted(m, a).worker == Some(
                reconfigured(m.worker->Some_0, settings),
            )
            &&& !keeps ==> to_launch(m, a) == Some(settings) && restarted(m, a) == m
            &&& launched(m, settings).worker == Some(started(settings))
            &&& restarted(m, a).history_dir == m.history_dir
            &&& launched(m, settings).history_dir == m.history_dir
        }),
{
}

/// What is known of the robot is what the worker knows; without a worker it is nothing.
pub proof fn law_the_service_tells_what_its_worker_knows(m: ManagerView, running: bool)
    ensures
        m.worker matches Some(worker) ==> {
            &&& m.status() == worker.status
            &&& m.is_running() == worker.running
            &&& m.is_connected() == worker.connected
            &&& worker.last_message_ms != 0 ==> m.last_message_at() == Some(worker.last_message_ms)
            &&& worker.last_message_ms == 0 ==> m.last_message_at() is None
            &&& manager_controlled(m, running).status() == status_after_control(
                worker.status,
                running,
            )
            &&& manager_controlled(m, running).worker == Some(
                SidecarView { status: status_after_control(worker.status, running), ..worker },
            )
        },
        m.worker is None ==> {
            &&& m.status() == unknown_status()
            &&& !m.is_running() && !m.is_connected() && m.last_message_at() is None
            &&& manager_controlled(m, running) == m
        },
{
}

/// The end of a worker is told: by its oldest error, and then it is let go; or, where it
/// ended without one, in general words. Of one at work without errors there is nothing
/// to tell.
pub proof fn law_the_end_of_a_worker_is_told(m: ManagerView)
    ensures
        m.worker is None ==> m.exit() is None && exit_told(m) == m,
        m.worker matches Some(worker) ==> {
            &&& worker.errors.len() > 0 ==> m.exit() == Some(worker.errors[0]) && exit_told(m)
                == (ManagerView { worker: None, ..m })
            &&& worker.errors.len() == 0 && !worker.running ==> m.exit() == Some(
                "内置数据服务已退出"@,
            ) && exit_told(m) == m
            &&& worker.errors.len() == 0 && worker.running ==> m.exit() is None && exit_told(m)
                == m
        },
{
}

} // verus!
