//! The operator's commands: the requests that carry them out and what the answers mean.

use vstd::prelude::*;
use vstd::string::*;

use crate::http::{summarize_document, summary_of, text_result, ControlEndpoint, EndpointView};
use crate::json::{
    add_member, flag_in, is_flat, item_views, items_in, json_parse, member, opt_json, parse_json,
    printed, reads_back, same_members, Json, JsonView,
};
use crate::status::flag_value;
use crate::text::{decimal, decimal_text, texts};

verus! {

/// What kind of command it is.
#[derive(Clone, Copy, Debug, PartialEq, Eq, Hash, Structural)]
pub enum ActionKind {
    Refresh,
    Status,
    Navigate,
    Stop,
    Recording,
}

impl ActionKind {
    pub open spec fn label_text(self) -> Seq<char> {
        match self {
            ActionKind::Refresh => "刷新状态"@,
            ActionKind::Status => "同步状态"@,
            ActionKind::Navigate => "提交导航"@,
            ActionKind::Stop => "停止导航"@,
            ActionKind::Recording => "更新录制"@,
        }
    }

    /// The kind's name, as the operator reads it.
    pub fn label(self) -> (r: &'static str)
        ensures
            r@ == self.label_text(),
    {
        match self {
            ActionKind::Refresh => "刷新状态",
            ActionKind::Status => "同步状态",
            ActionKind::Navigate => "提交导航",
            ActionKind::Stop => "停止导航",
            ActionKind::Recording => "更新录制",
        }
    }
}

/// A command to the robot.
#[derive(Clone, Debug)]
pub enum ControlCommand {
    Refresh,
    Status,
    Navigate { goal_text: String, dry_run: bool },
    Stop,
    SetRecording(bool),
}

impl ControlCommand {
    pub open spec fn kind_of(self) -> ActionKind {
        match self {
            ControlCommand::Refresh => ActionKind::Refresh,
            ControlCommand::Status => ActionKind::Status,
            ControlCommand::Navigate { .. } => ActionKind::Navigate,
            ControlCommand::Stop => ActionKind::Stop,
            ControlCommand::SetRecording(_) => ActionKind::Recording,
        }
    }

    pub fn kind(&self) -> (r: ActionKind)
        ensures
            r == self.kind_of(),
    {
        match self {
            ControlCommand::Refresh => ActionKind::Refresh,
            ControlCommand::Status => ActionKind::Status,
            ControlCommand::Navigate { .. } => ActionKind::Navigate,
            ControlCommand::Stop => ActionKind::Stop,
            ControlCommand::SetRecording(_) => ActionKind::Recording,
        }
    }
}

/// What an answer tells.
#[derive(Debug)]
pub struct ResponseData {
    pub summary: String,
    pub summary_is_error: bool,
    pub labels: Option<Vec<String>>,
    pub recording_enabled: Option<bool>,
    pub navigation_running: Option<bool>,
}

pub struct ResponseView {
    pub summary: Seq<char>,
    pub summary_is_error: bool,
    pub labels: Option<Seq<Seq<char>>>,
    pub recording_enabled: Option<bool>,
    pub navigation_running: Option<bool>,
}

impl View for ResponseData {
    type V = ResponseView;

    open spec fn view(&self) -> ResponseView {
        ResponseView {
            summary: self.summary@,
            summary_is_error: self.summary_is_error,
            labels: match self.labels {
                Some(labels) => Some(texts(labels@)),
                None => None,
            },
            recording_enabled: self.recording_enabled,
            navigation_running: self.navigation_running,
        }
    }
}

/// An answer of which nothing is known but its summary.
pub open spec fn plain_response(summary: Seq<char>) -> ResponseView {
    ResponseView {
        summary,
        summary_is_error: false,
        labels: None,
        recording_enabled: None,
        navigation_running: None,
    }
}

fn respond(summary: String) -> (r: ResponseData)
    ensures
        r@ == plain_response(summary@),
{
    ResponseData {
        summary,
        summary_is_error: false,
        labels: None,
        recording_enabled: None,
        navigation_running: None,
    }
}

impl Default for ResponseData {
    fn default() -> (r: Self)
        ensures
            r@ == plain_response(Seq::empty()),
    {
        respond(String::new())
    }
}

/// The outcome of a command.
#[derive(Debug)]
pub struct ControlResult {
    pub generation: u64,
    pub kind: ActionKind,
    pub result: Result<ResponseData, String>,
}

pub struct ControlResultView {
    pub generation: u64,
    pub kind: ActionKind,
    pub result: Result<ResponseView, Seq<char>>,
}

pub open spec fn response_result(r: Result<ResponseData, String>) -> Result<ResponseView, Seq<char>> {
    match r {
        Ok(data) => Ok(data@),
        Err(message) => Err(message@),
    }
}

impl View for ControlResult {
    type V = ControlResultView;

    open spec fn view(&self) -> ControlResultView {
        ControlResultView {
            generation: self.generation,
            kind: self.kind,
            result: response_result(self.result),
        }
    }
}

/// A command on its way, with the endpoint that it goes to.
#[derive(Debug)]
pub struct ControlJob {
    pub endpoint: ControlEndpoint,
    pub generation: u64,
    pub command: ControlCommand,
}

/// Sends commands and gathers their outcomes.
///
/// Outcomes come in while the endpoint may change: each carries the generation of the
/// endpoint that its command went to.
#[derive(Debug)]
pub struct ControlClient {
    endpoint: ControlEndpoint,
    generation: u64,
    inbox: Vec<ControlResult>,
}

pub struct ClientView {
    pub endpoint: EndpointView,
    pub generation: u64,
    /// The outcomes that were not handed out yet, the oldest first.
    pub inbox: Seq<ControlResultView>,
}

pub open spec fn result_views(v: Seq<ControlResult>) -> Seq<ControlResultView> {
    v.map_values(|r: ControlResult| r@)
}

impl View for ControlClient {
    type V = ClientView;

    closed spec fn view(&self) -> ClientView {
        ClientView {
            endpoint: self.endpoint@,
            generation: self.generation,
            inbox: result_views(self.inbox@),
        }
    }
}

/// The generation after a change of the endpoint.
pub open spec fn next_generation(generation: u64) -> u64 {
    if generation == u64::MAX {
        0
    } else {
        (generation + 1) as u64
    }
}

/// A client that has sent nothing yet.
pub open spec fn new_client(endpoint: EndpointView) -> ClientView {
    ClientView { endpoint, generation: 0, inbox: Seq::empty() }
}

pub open spec fn opt_outcome(o: Option<ControlResult>) -> Option<ControlResultView> {
    match o {
        Some(outcome) => Some(outcome@),
        None => None,
    }
}

/// The outcome that is handed out next.
pub open spec fn oldest_outcome(c: ClientView) -> Option<ControlResultView> {
    if c.inbox.len() > 0 {
        Some(c.inbox[0])
    } else {
        None
    }
}

/// A client that has handed out an outcome, where there was one.
pub open spec fn without_oldest(c: ClientView) -> ClientView {
    if c.inbox.len() > 0 {
        ClientView { inbox: c.inbox.drop_first(), ..c }
    } else {
        c
    }
}

/// A client that went over to another endpoint.
pub open spec fn moved_to(c: ClientView, endpoint: EndpointView) -> ClientView {
    ClientView { endpoint, generation: next_generation(c.generation), ..c }
}

/// A client that has taken in an outcome.
pub open spec fn with_outcome(c: ClientView, outcome: ControlResultView) -> ClientView {
    ClientView { inbox: c.inbox.push(outcome), ..c }
}

/// Whether a job carries a command to the client's present endpoint.
pub open spec fn is_job_of(job: ControlJob, client: ClientView, command: ControlCommand) -> bool {
    &&& job.endpoint@ == client.endpoint
    &&& job.generation == client.generation
    &&& job.command == command
}

impl ControlClient {
    pub fn new(endpoint: ControlEndpoint) -> (r: ControlClient)
        ensures
            r@ == new_client(endpoint@),
    {
        let r = ControlClient { endpoint, generation: 0, inbox: Vec::new() };
        assert(result_views(r.inbox@) == Seq::<ControlResultView>::empty());
        r
    }

    pub fn endpoint(&self) -> (r: &ControlEndpoint)
        ensures
            r@ == self@.endpoint,
    {
        &self.endpoint
    }

    /// Goes over to another endpoint, and to the next generation.
    pub fn set_endpoint(&mut self, endpoint: ControlEndpoint)
        ensures
            final(self)@ == moved_to(old(self)@, endpoint@),
    {
        self.endpoint = endpoint;
        self.generation = self.generation.wrapping_add(1);
    }

    pub fn generation(&self) -> (r: u64)
        ensures
            r == self@.generation,
    {
        self.generation
    }

    /// Makes a job of a command, for the present endpoint and generation.
    pub fn dispatch(&self, command: ControlCommand) -> (r: ControlJob)
        ensures
            is_job_of(r, self@, command),
    {
        ControlJob { endpoint: self.endpoint.duplicate(), generation: self.generation, command }
    }

    /// Takes in an outcome.
    pub fn deliver(&mut self, result: ControlResult)
        ensures
            final(self)@ == with_outcome(old(self)@, result@),
    {
        let ghost before = self.inbox@;
        self.inbox.push(result);
        assert(result_views(self.inbox@) == result_views(before).push(result@));
    }

    /// Hands out the oldest outcome, if there is one.
    pub fn try_recv(&mut self) -> (r: Option<ControlResult>)
        ensures
            opt_outcome(r) == oldest_outcome(old(self)@),
            final(self)@ == without_oldest(old(self)@),
    {
        if self.inbox.len() == 0 {
            None
        } else {
            let ghost before = self.inbox@;
            let result = self.inbox.remove(0);
            assert(result_views(self.inbox@) == result_views(before).drop_first());
            Some(result)
        }
    }
}

#[derive(Clone, Copy, Debug, PartialEq, Eq, Structural)]
pub enum Method {
    Get,
    Post,
}

impl Method {
    pub open spec fn word_text(self) -> Seq<char> {
        match self {
            Method::Get => "GET"@,
            Method::Post => "POST"@,
        }
    }

    /// The method's name in a request.
    pub fn word(self) -> (r: &'static str)
        ensures
            r@ == self.word_text(),
    {
        match self {
            Method::Get => "GET",
            Method::Post => "POST",
        }
    }
}

/// A request to be made.
#[derive(Debug)]
pub struct HttpCall {
    pub method: Method,
    pub path: &'static str,
    pub body: Option<String>,
}

pub struct CallView {
    pub method: Method,
    pub path: Seq<char>,
    pub body: Option<Seq<char>>,
}

impl View for HttpCall {
    type V = CallView;

    open spec fn view(&self) -> CallView {
        CallView {
            method: self.method,
            path: self.path@,
            body: match self.body {
                Some(body) => Some(body@),
                None => None,
            },
        }
    }
}

/// How far a command has been carried out: each state stands for the request that is
/// to be made next.
#[derive(Debug)]
pub enum Execution {
    /// Of a refresh, the map's labels are asked for.
    RefreshLabels,
    /// Of a refresh, the service's state is asked for.
    RefreshStatus { labels: Vec<String> },
    /// Of a refresh, the state of the recording is asked for.
    RefreshRecording { labels: Vec<String> },
    Status,
    Navigate { goal_text: String, dry_run: bool },
    Stop,
    SetRecording(bool),
}

pub enum ExecutionView {
    RefreshLabels,
    RefreshStatus { labels: Seq<Seq<char>> },
    RefreshRecording { labels: Seq<Seq<char>> },
    Status,
    Navigate { goal_text: Seq<char>, dry_run: bool },
    Stop,
    SetRecording(bool),
}

impl View for Execution {
    type V = ExecutionView;

    open spec fn view(&self) -> ExecutionView {
        match *self {
            Execution::RefreshLabels => ExecutionView::RefreshLabels,
            Execution::RefreshStatus { labels } => ExecutionView::RefreshStatus {
                labels: texts(labels@),
            },
            Execution::RefreshRecording { labels } => ExecutionView::RefreshRecording {
                labels: texts(labels@),
            },
            Execution::Status => ExecutionView::Status,
            Execution::Navigate { goal_text, dry_run } => ExecutionView::Navigate {
                goal_text: goal_text@,
                dry_run,
            },
            Execution::Stop => ExecutionView::Stop,
            Execution::SetRecording(enabled) => ExecutionView::SetRecording(enabled),
        }
    }
}

/// The state in which a command starts.
pub open spec fn start_of(command: ControlCommand) -> ExecutionView {
    match command {
        ControlCommand::Refresh => ExecutionView::RefreshLabels,
        ControlCommand::Status => ExecutionView::Status,
        ControlCommand::Navigate { goal_text, dry_run } => ExecutionView::Navigate {
            goal_text: goal_text@,
            dry_run,
        },
        ControlCommand::Stop => ExecutionView::Stop,
        ControlCommand::SetRecording(enabled) => ExecutionView::SetRecording(enabled),
    }
}

/// The document that asks for a navigation.
pub open spec fn navigation_request(goal_text: Seq<char>, dry_run: bool) -> JsonView {
    JsonView::Object(
        seq![
            ("dry_run"@, JsonView::Bool(dry_run)),
            ("goal_text"@, JsonView::Text(goal_text)),
        ],
    )
}

/// The document that switches the recording.
pub open spec fn recording_request(enabled: bool) -> JsonView {
    JsonView::Object(seq![("enabled"@, JsonView::Bool(enabled))])
}

/// The request of a state.
pub open spec fn call_of(state: ExecutionView) -> CallView {
    match state {
        ExecutionView::RefreshLabels
        | ExecutionView::RefreshStatus { .. }
        | ExecutionView::Status => CallView {
            method: Method::Get,
            path: "/viz/api/map/metadata"@,
            body: None,
        },
        ExecutionView::RefreshRecording { .. } => CallView {
            method: Method::Get,
            path: "/viz/api/dynamic-map/recording"@,
            body: None,
        },
        ExecutionView::Navigate { goal_text, dry_run } => CallView {
            method: Method::Post,
            path: "/viz/api/navigation/text"@,
            body: Some(printed(navigation_request(goal_text, dry_run))),
        },
        ExecutionView::Stop => CallView {
            method: Method::Post,
            path: "/viz/api/navigation/stop"@,
            body: Some("{}"@),
        },
        ExecutionView::SetRecording(enabled) => CallView {
            method: Method::Post,
            path: "/viz/api/dynamic-map/recording"@,
            body: Some(printed(recording_request(enabled))),
        },
    }
}

/// The texts of a list, without what is none.
pub open spec fn texts_in(items: Seq<JsonView>) -> Seq<Seq<char>>
    decreases items.len(),
{
    if items.len() == 0 {
        Seq::empty()
    } else {
        let head = texts_in(items.drop_last());
        match items.last().text() {
            Some(text) => head.push(text),
            None => head,
        }
    }
}

/// The labels in the description of a map.
pub open spec fn labels_of(metadata: JsonView) -> Seq<Seq<char>> {
    match items_in(metadata.get("labels"@)) {
        Some(items) => texts_in(items),
        None => Seq::empty(),
    }
}

/// What the answer to a navigation request tells: it was accepted, unless it says that
/// it was not.
pub open spec fn navigation_answer(body: Seq<char>, document: JsonView) -> ResponseView {
    let refused = flag_in(document.get("accepted"@)) == Some(false);
    ResponseView {
        summary_is_error: refused,
        navigation_running: if refused {
            None
        } else {
            Some(true)
        },
        ..plain_response(summary_of(body, Some(document)))
    }
}

pub open spec fn stop_answer(body: Seq<char>, document: Option<JsonView>) -> ResponseView {
    ResponseView {
        navigation_running: Some(false),
        ..plain_response(summary_of(body, document))
    }
}

pub open spec fn recording_answer(enabled: bool, document: JsonView) -> ResponseView {
    ResponseView {
        recording_enabled: flag_in(document.get("enabled"@)),
        ..plain_response(
            if enabled {
                "动态地图录制已开启"@
            } else {
                "动态地图录制已关闭"@
            },
        )
    }
}

/// What a refresh tells. The state of the recording may be unknown.
pub open spec fn refresh_answer(
    labels: Seq<Seq<char>>,
    recording: Option<JsonView>,
) -> ResponseView {
    ResponseView {
        labels: Some(labels),
        recording_enabled: match recording {
            Some(document) => flag_in(document.get("enabled"@)),
            None => None,
        },
        ..plain_response("控制服务在线，已加载 "@ + decimal(labels.len()) + " 个地点"@)
    }
}

pub enum Progress {
    /// Another request is to be made.
    Next(Execution),
    /// The command is over.
    Done(Result<ResponseData, String>),
}

pub enum ProgressView {
    Next(ExecutionView),
    Done(Result<ResponseView, Seq<char>>),
}

impl View for Progress {
    type V = ProgressView;

    open spec fn view(&self) -> ProgressView {
        match *self {
            Progress::Next(state) => ProgressView::Next(state@),
            Progress::Done(result) => ProgressView::Done(response_result(result)),
        }
    }
}

/// What follows from an answer that is a document, or is none for the given reason.
pub open spec fn after_document(
    state: ExecutionView,
    body: Seq<char>,
    parsed: Result<JsonView, Seq<char>>,
) -> ProgressView {
    match (state, parsed) {
        (ExecutionView::RefreshLabels, Ok(document)) => ProgressView::Next(
            ExecutionView::RefreshStatus { labels: labels_of(document) },
        ),
        (ExecutionView::RefreshLabels, Err(message)) => ProgressView::Done(
            Err("地图元数据不是有效 JSON："@ + message),
        ),
        (ExecutionView::RefreshStatus { labels }, Ok(_)) => ProgressView::Next(
            ExecutionView::RefreshRecording { labels },
        ),
        (ExecutionView::RefreshStatus { .. }, Err(message)) => ProgressView::Done(
            Err("地图状态不是有效 JSON："@ + message),
        ),
        (ExecutionView::RefreshRecording { labels }, Ok(document)) => ProgressView::Done(
            Ok(refresh_answer(labels, Some(document))),
        ),
        (ExecutionView::RefreshRecording { labels }, Err(_)) => ProgressView::Done(
            Ok(refresh_answer(labels, None)),
        ),
        (ExecutionView::Status, Ok(_)) => ProgressView::Done(
            Ok(plain_response("机器人控制服务在线"@)),
        ),
        (ExecutionView::Status, Err(message)) => ProgressView::Done(
            Err("地图状态不是有效 JSON："@ + message),
        ),
        (ExecutionView::Navigate { .. }, Ok(document)) => ProgressView::Done(
            Ok(navigation_answer(body, document)),
        ),
        (ExecutionView::Navigate { .. }, Err(message)) => ProgressView::Done(
            Err("导航响应不是有效 JSON："@ + message),
        ),
        (ExecutionView::Stop, Ok(document)) => ProgressView::Done(
            Ok(stop_answer(body, Some(document))),
        ),
        (ExecutionView::Stop, Err(_)) => ProgressView::Done(Ok(stop_answer(body, None))),
        (ExecutionView::SetRecording(enabled), Ok(document)) => ProgressView::Done(
            Ok(recording_answer(enabled, document)),
        ),
        (ExecutionView::SetRecording(_), Err(message)) => ProgressView::Done(
            Err("录制响应不是有效 JSON："@ + message),
        ),
    }
}

/// What follows where no answer came: the command has failed, but for a refresh that
/// only lacks the state of the recording.
pub open spec fn after_failure(state: ExecutionView, message: Seq<char>) -> ProgressView {
    match state {
        ExecutionView::RefreshRecording { labels } => ProgressView::Done(
            Ok(refresh_answer(labels, None)),
        ),
        _ => ProgressView::Done(Err(message)),
    }
}

/// What follows from the reply to a state's request.
pub open spec fn after_reply(
    state: ExecutionView,
    reply: Result<Seq<char>, Seq<char>>,
) -> ProgressView {
    match reply {
        Ok(body) => after_document(state, body, json_parse(body)),
        Err(message) => after_failure(state, message),
    }
}

/// Reads the labels in the description of a map.
pub fn read_labels(metadata: &Json) -> (r: Vec<String>)
    ensures
        texts(r@) == labels_of(metadata.view()),
{
    let mut labels: Vec<String> = Vec::new();
    assert(texts(labels@) == Seq::<Seq<char>>::empty());
    let items = match metadata.get("labels") {
        Some(value) => value.as_items(),
        None => None,
    };
    match items {
        Some(items) => {
            let ghost views = item_views(items@);
            let mut i: usize = 0;
            while i < items.len()
                invariant
                    i <= items.len(),
                    views == item_views(items@),
                    texts(labels@) == texts_in(views.take(i as int)),
                decreases items.len() - i,
            {
                let ghost before = labels@;
                assert(views.take(i + 1).drop_last() == views.take(i as int));
                assert(views.take(i + 1).last() == items@[i as int].view());
                match items[i].as_text() {
                    Some(text) => {
                        labels.push(text.to_owned());
                        assert(texts(labels@) == texts(before).push(text@));
                    },
                    None => {},
                }
                i = i + 1;
            }
            assert(views.take(i as int) == views);
            labels
        },
        None => labels,
    }
}

impl Execution {
    /// Starts to carry out a command.
    pub fn start(command: ControlCommand) -> (r: Execution)
        ensures
            r@ == start_of(command),
    {
        match command {
            ControlCommand::Refresh => Execution::RefreshLabels,
            ControlCommand::Status => Execution::Status,
            ControlCommand::Navigate { goal_text, dry_run } => Execution::Navigate {
                goal_text,
                dry_run,
            },
            ControlCommand::Stop => Execution::Stop,
            ControlCommand::SetRecording(enabled) => Execution::SetRecording(enabled),
        }
    }

    /// The request that is to be made next.
    pub fn call(&self) -> (r: HttpCall)
        ensures
            r@ == call_of(self@),
    {
        match self {
            Execution::RefreshLabels
            | Execution::RefreshStatus { .. }
            | Execution::Status => HttpCall {
                method: Method::Get,
                path: "/viz/api/map/metadata",
                body: None,
            },
            Execution::RefreshRecording { .. } => HttpCall {
                method: Method::Get,
                path: "/viz/api/dynamic-map/recording",
                body: None,
            },
            Execution::Navigate { goal_text, dry_run } => {
                let mut members: Vec<(String, Json)> = Vec::new();
                add_member(&mut members, "dry_run", Json::Bool(*dry_run));
                add_member(&mut members, "goal_text", Json::Text(goal_text.clone()));
                let document = Json::object(members);
                assert(document.view()->Object_0 == navigation_request(
                    goal_text@,
                    *dry_run,
                )->Object_0);
                HttpCall {
                    method: Method::Post,
                    path: "/viz/api/navigation/text",
                    body: Some(document.to_text()),
                }
            },
            Execution::Stop => HttpCall {
                method: Method::Post,
                path: "/viz/api/navigation/stop",
                body: Some("{}".to_owned()),
            },
            Execution::SetRecording(enabled) => {
                let mut members: Vec<(String, Json)> = Vec::new();
                add_member(&mut members, "enabled", Json::Bool(*enabled));
                let document = Json::object(members);
                assert(document.view()->Object_0 == recording_request(*enabled)->Object_0);
                HttpCall {
                    method: Method::Post,
                    path: "/viz/api/dynamic-map/recording",
                    body: Some(document.to_text()),
                }
            },
        }
    }

    /// Goes on with the reply to the request: the body of an answer, or the reason why
    /// there is none.
    pub fn advance(self, reply: Result<String, String>) -> (r: Progress)
        ensures
            r@ == after_reply(self@, text_result(reply)),
    {
        match reply {
            Ok(body) => {
                let parsed = parse_json(body.as_str());
                self.advance_document(body.as_str(), parsed)
            },
            Err(message) => self.advance_failure(message),
        }
    }

    /// Goes on without an answer.
    pub fn advance_failure(self, message: String) -> (r: Progress)
        ensures
            r@ == after_failure(self@, message@),
    {
        match self {
            Execution::RefreshRecording { labels } => Progress::Done(
                Ok(refresh_response(labels, None)),
            ),
            _ => Progress::Done(Err(message)),
        }
    }

    /// Goes on with an answer that was read already.
    pub fn advance_document(self, body: &str, parsed: Result<Json, String>) -> (r: Progress)
        ensures
            r@ == after_document(
                self@,
                body@,
                match parsed {
                    Ok(document) => Ok(document.view()),
                    Err(message) => Err(message@),
                },
            ),
    {
        match parsed {
            Ok(document) => match self {
                Execution::RefreshLabels => Progress::Next(
                    Execution::RefreshStatus { labels: read_labels(&document) },
                ),
                Execution::RefreshStatus { labels } => Progress::Next(
                    Execution::RefreshRecording { labels },
                ),
                Execution::RefreshRecording { labels } => Progress::Done(
                    Ok(refresh_response(labels, Some(&document))),
                ),
                Execution::Status => Progress::Done(
                    Ok(respond("机器人控制服务在线".to_owned())),
                ),
                Execution::Navigate { .. } => {
                    let refused = flag_value(document.get("accepted")) == Some(false);
                    let mut response = respond(summarize_document(body, Some(&document)));
                    response.summary_is_error = refused;
                    response.navigation_running = if refused {
                        None
                    } else {
                        Some(true)
                    };
                    Progress::Done(Ok(response))
                },
                Execution::Stop => {
                    let mut response = respond(summarize_document(body, Some(&document)));
                    response.navigation_running = Some(false);
                    Progress::Done(Ok(response))
                },
                Execution::SetRecording(enabled) => {
                    let mut response = respond(
                        if enabled {
                            "动态地图录制已开启".to_owned()
                        } else {
                            "动态地图录制已关闭".to_owned()
                        },
                    );
                    response.recording_enabled = flag_value(document.get("enabled"));
                    Progress::Done(Ok(response))
                },
            },
            Err(message) => match self {
                Execution::RefreshLabels => Progress::Done(
                    Err("地图元数据不是有效 JSON：".to_owned().concat(message.as_str())),
                ),
                Execution::RefreshStatus { .. } | Execution::Status => Progress::Done(
                    Err("地图状态不是有效 JSON：".to_owned().concat(message.as_str())),
                ),
                Execution::RefreshRecording { labels } => Progress::Done(
                    Ok(refresh_response(labels, None)),
                ),
                Execution::Navigate { .. } => Progress::Done(
                    Err("导航响应不是有效 JSON：".to_owned().concat(message.as_str())),
                ),
                Execution::Stop => {
                    let mut response = respond(summarize_document(body, None));
                    response.navigation_running = Some(false);
                    Progress::Done(Ok(response))
                },
                Execution::SetRecording(_) => Progress::Done(
                    Err("录制响应不是有效 JSON：".to_owned().concat(message.as_str())),
                ),
            },
        }
    }
}

/// A job that is being carried out.
pub struct Errand {
    endpoint: ControlEndpoint,
    generation: u64,
    kind: ActionKind,
    state: Execution,
}

pub struct ErrandView {
    pub endpoint: EndpointView,
    pub generation: u64,
    pub kind: ActionKind,
    pub state: ExecutionView,
}

impl View for Errand {
    type V = ErrandView;

    closed spec fn view(&self) -> ErrandView {
        ErrandView {
            endpoint: self.endpoint@,
            generation: self.generation,
            kind: self.kind,
            state: self.state@,
        }
    }
}

/// What a job begins with.
pub open spec fn errand_of(job: ControlJob) -> ErrandView {
    ErrandView {
        endpoint: job.endpoint@,
        generation: job.generation,
        kind: job.command.kind_of(),
        state: start_of(job.command),
    }
}

pub enum Advance {
    /// Another request is to be made.
    Next(Errand),
    /// The job is over.
    Over(ControlResult),
}

pub enum AdvanceView {
    Next(ErrandView),
    Over(ControlResultView),
}

impl View for Advance {
    type V = AdvanceView;

    open spec fn view(&self) -> AdvanceView {
        match *self {
            Advance::Next(errand) => AdvanceView::Next(errand@),
            Advance::Over(outcome) => AdvanceView::Over(outcome@),
        }
    }
}

/// What becomes of an errand with the reply to its request. Its outcome is marked with
/// the generation that the job was sent in.
pub open spec fn errand_after(
    e: ErrandView,
    reply: Result<Seq<char>, Seq<char>>,
) -> AdvanceView {
    match after_reply(e.state, reply) {
        ProgressView::Next(state) => AdvanceView::Next(ErrandView { state, ..e }),
        ProgressView::Done(result) => AdvanceView::Over(
            ControlResultView { generation: e.generation, kind: e.kind, result },
        ),
    }
}

impl ControlJob {
    /// Begins to carry out the job.
    pub fn start(self) -> (r: Errand)
        ensures
            r@ == errand_of(self),
    {
        let kind = self.command.kind();
        Errand {
            endpoint: self.endpoint,
            generation: self.generation,
            kind,
            state: Execution::start(self.command),
        }
    }
}

impl Errand {
    /// The endpoint that the requests go to.
    pub fn endpoint(&self) -> (r: &ControlEndpoint)
        ensures
            r@ == self@.endpoint,
    {
        &self.endpoint
    }

    /// The request that is to be made next.
    pub fn call(&self) -> (r: HttpCall)
        ensures
            r@ == call_of(self@.state),
    {
        self.state.call()
    }

    /// Goes on with the reply to the request: the body of an answer, or the reason why
    /// there is none.
    pub fn advance(self, reply: Result<String, String>) -> (r: Advance)
        ensures
            r@ == errand_after(self@, text_result(reply)),
    {
        match self.state.advance(reply) {
            Progress::Next(state) => Advance::Next(
                Errand { endpoint: self.endpoint, generation: self.generation, kind: self.kind, state },
            ),
            Progress::Done(result) => Advance::Over(
                ControlResult { generation: self.generation, kind: self.kind, result },
            ),
        }
    }
}

fn refresh_response(labels: Vec<String>, recording: Option<&Json>) -> (r: ResponseData)
    ensures
        r@ == refresh_answer(texts(labels@), opt_json(recording)),
{
    let count = decimal_text(labels.len() as u64);
    let summary = "控制服务在线，已加载 ".to_owned().concat(count.as_str()).concat(" 个地点");
    let mut response = respond(summary);
    response.labels = Some(labels);
    match recording {
        Some(document) => {
            response.recording_enabled = flag_value(document.get("enabled"));
        },
        None => {},
    }
    response
}

/// The states that only observe the robot.
pub open spec fn observes(state: ExecutionView) -> bool {
    state is RefreshLabels || state is RefreshStatus || state is RefreshRecording || state is Status
}

/// Only a command to navigate, to stop or to switch the recording sends the robot
/// anything but a question: observing it never does, at no step.
pub proof fn law_observing_only_asks(command: ControlCommand)
    ensures
        call_of(start_of(command)).method == Method::Post <==> (command is Navigate || command is Stop
            || command is SetRecording),
        command is Refresh || command is Status ==> observes(start_of(command)),
{
}

/// A step that only observes asks, and the step after it only observes too.
pub proof fn law_observing_goes_on_observing(
    state: ExecutionView,
    reply: Result<Seq<char>, Seq<char>>,
)
    requires
        observes(state),
    ensures
        call_of(state).method == Method::Get,
        call_of(state).body is None,
        after_reply(state, reply) matches ProgressView::Next(next) ==> observes(next),
{
}

/// How many requests a state still has to make at most.
pub open spec fn requests_left(state: ExecutionView) -> nat {
    match state {
        ExecutionView::RefreshLabels => 3,
        ExecutionView::RefreshStatus { .. } => 2,
        _ => 1,
    }
}

/// Every command is over after three requests at most, and a command that changes
/// something after one.
pub proof fn law_commands_end(state: ExecutionView, reply: Result<Seq<char>, Seq<char>>)
    ensures
        after_reply(state, reply) matches ProgressView::Next(next) ==> requests_left(next)
            < requests_left(state),
        requests_left(state) <= 3,
        !observes(state) ==> after_reply(state, reply) is Done,
{
}

/// An outcome from before a change of the endpoint bears another generation than the
/// present one.
pub proof fn law_generations_differ(generation: u64)
    ensures
        next_generation(generation) != generation,
{
}

/// What a state comes to with some replies, one after the other, if they suffice.
pub open spec fn ending(
    state: ExecutionView,
    replies: Seq<Result<Seq<char>, Seq<char>>>,
) -> Option<Result<ResponseView, Seq<char>>>
    decreases replies.len(),
{
    if replies.len() == 0 {
        None
    } else {
        match after_reply(state, replies[0]) {
            ProgressView::Next(next) => ending(next, replies.drop_first()),
            ProgressView::Done(result) => Some(result),
        }
    }
}

/// What an errand comes to with some replies, one after the other, if they suffice.
pub open spec fn outcome_of(
    e: ErrandView,
    replies: Seq<Result<Seq<char>, Seq<char>>>,
) -> Option<ControlResultView>
    decreases replies.len(),
{
    if replies.len() == 0 {
        None
    } else {
        match errand_after(e, replies[0]) {
            AdvanceView::Next(next) => outcome_of(next, replies.drop_first()),
            AdvanceView::Over(outcome) => Some(outcome),
        }
    }
}

proof fn lemma_errands_end(e: ErrandView, replies: Seq<Result<Seq<char>, Seq<char>>>)
    requires
        replies.len() >= requests_left(e.state),
    ensures
        outcome_of(e, replies) matches Some(outcome) && outcome.generation == e.generation
            && outcome.kind == e.kind && ending(e.state, replies) == Some(outcome.result),
    decreases replies.len(),
{
    match errand_after(e, replies[0]) {
        AdvanceView::Next(next) => {
            lemma_errands_end(next, replies.drop_first());
        },
        AdvanceView::Over(_) => {},
    }
}

/// A job has one outcome, whatever is replied to its requests. It is that of the command
/// that the job was made for, and goes by the endpoint and the generation of that time,
/// whatever has become of the client in the meantime (`later`): it comes after the
/// outcomes that wait already, no other comes with it, and a change of the endpoint
/// leaves it as it is.
pub proof fn law_a_job_has_one_outcome(
    client: ClientView,
    command: ControlCommand,
    job: ControlJob,
    replies: Seq<Result<Seq<char>, Seq<char>>>,
    later: ClientView,
    endpoint: EndpointView,
)
    requires
        is_job_of(job, client, command),
        replies.len() >= requests_left(start_of(command)),
    ensures
        errand_of(job).endpoint == client.endpoint,
        outcome_of(errand_of(job), replies) matches Some(outcome) && {
            let after = with_outcome(later, outcome);
            &&& outcome.generation == client.generation
            &&& outcome.kind == command.kind_of()
            &&& ending(start_of(command), replies) == Some(outcome.result)
            &&& after.inbox.len() == later.inbox.len() + 1
            &&& after.inbox.last() == outcome
            &&& after.inbox.drop_last() == later.inbox
            &&& moved_to(after, endpoint).inbox == after.inbox
            &&& with_outcome(moved_to(later, endpoint), outcome).inbox == after.inbox
        },
{
    lemma_errands_end(errand_of(job), replies);
    let outcome = outcome_of(errand_of(job), replies)->Some_0;
    assert(later.inbox.push(outcome).drop_last() == later.inbox);
}

proof fn lemma_request_names()
    ensures
        "dry_run"@ != "goal_text"@,
{
    reveal_strlit("dry_run");
    reveal_strlit("goal_text");
    assert("dry_run"@.len() != "goal_text"@.len());
}

/// Whoever reads a navigation request finds in it the goal and the mode that the
/// operator chose, whatever characters the goal holds. `read` is what reading the
/// request's body gives.
pub proof fn law_navigation_request_is_read_back(
    goal_text: Seq<char>,
    dry_run: bool,
    read: Result<JsonView, Seq<char>>,
)
    requires
        call_of(ExecutionView::Navigate { goal_text, dry_run }).body matches Some(body) && reads_back(
            read,
            body,
        ),
    ensures
        read matches Ok(document) && document.text_at("goal_text"@) == Some(goal_text) && flag_in(
            document.get("dry_run"@),
        ) == Some(dry_run),
{
    let sent = navigation_request(goal_text, dry_run);
    let entries = sent->Object_0;
    lemma_request_names();
    assert(is_flat(sent));
    reveal_with_fuel(member, 3);
    assert(entries.drop_last().last() == entries[0]);
    assert(sent.get("goal_text"@) == Some(JsonView::Text(goal_text)));
    assert(sent.get("dry_run"@) == Some(JsonView::Bool(dry_run)));
    assert(read matches Ok(document) && same_members(document, sent));
}

/// Whoever reads a request to switch the recording finds in it the state that the
/// operator chose. `read` is what reading the request's body gives.
pub proof fn law_recording_request_is_read_back(
    enabled: bool,
    read: Result<JsonView, Seq<char>>,
)
    requires
        call_of(ExecutionView::SetRecording(enabled)).body matches Some(body) && reads_back(
            read,
            body,
        ),
    ensures
        read matches Ok(document) && flag_in(document.get("enabled"@)) == Some(enabled),
{
    let sent = recording_request(enabled);
    assert(is_flat(sent));
    assert(sent.get("enabled"@) == Some(JsonView::Bool(enabled)));
    assert(read matches Ok(document) && same_members(document, sent));
}

/// The commands are carried out by these requests: a navigation, a stop and a switch of
/// the recording by one each, a status by a question for the map's description, and a
/// refresh first by that.
pub proof fn law_commands_are_sent(command: ControlCommand)
    ensures
        ({
            let call = call_of(start_of(command));
            &&& command is Refresh || command is Status ==> call == (CallView {
                method: Method::Get,
                path: "/viz/api/map/metadata"@,
                body: None,
            })
            &&& command matches ControlCommand::Navigate { goal_text, dry_run } ==> call.method
                == Method::Post && call.path == "/viz/api/navigation/text"@ && call.body == Some(
                printed(
                    JsonView::Object(
                        seq![
                            ("dry_run"@, JsonView::Bool(dry_run)),
                            ("goal_text"@, JsonView::Text(goal_text@)),
                        ],
                    ),
                ),
            )
            &&& command is Stop ==> call == (CallView {
                method: Method::Post,
                path: "/viz/api/navigation/stop"@,
                body: Some("{}"@),
            })
            &&& command matches ControlCommand::SetRecording(enabled) ==> call.method
                == Method::Post && call.path == "/viz/api/dynamic-map/recording"@ && call.body
                == Some(
                printed(JsonView::Object(seq![("enabled"@, JsonView::Bool(enabled))])),
            )
        }),
        Method::Get.word_text() == "GET"@,
        Method::Post.word_text() == "POST"@,
{
}

/// What an answer to a navigation tells, where it is a document: a navigation is running
/// and nothing is wrong, unless the member `accepted` is false; then something is wrong,
/// and nothing is told of a navigation. Nothing else is told either way.
pub proof fn law_navigation_answers(
    goal_text: Seq<char>,
    dry_run: bool,
    body: Seq<char>,
    document: JsonView,
)
    requires
        json_parse(body) == Ok::<JsonView, Seq<char>>(document),
    ensures
        ending(
            ExecutionView::Navigate { goal_text, dry_run },
            seq![Ok(body)],
        ) matches Some(Ok(response)) && {
            &&& document.get("accepted"@) != Some(JsonView::Bool(false))
                ==> !response.summary_is_error && response.navigation_running == Some(true)
            &&& document.get("accepted"@) == Some(JsonView::Bool(false))
                ==> response.summary_is_error && response.navigation_running is None
            &&& response.labels is None && response.recording_enabled is None
            &&& response.summary == summary_of(body, Some(document))
        },
{
    let replies = seq![Ok::<Seq<char>, Seq<char>>(body)];
    assert(replies[0] == Ok::<Seq<char>, Seq<char>>(body));
}

/// Any answer to a stop ends the navigation and is no error, whether it is a document or
/// not.
pub proof fn law_stop_answers(body: Seq<char>)
    ensures
        ending(ExecutionView::Stop, seq![Ok(body)]) matches Some(Ok(response)) && {
            &&& response.navigation_running == Some(false)
            &&& !response.summary_is_error
            &&& response.labels is None && response.recording_enabled is None
            &&& json_parse(body) matches Ok(document) ==> response.summary == summary_of(
                body,
                Some(document),
            )
            &&& json_parse(body) is Err ==> response.summary == summary_of(body, None)
        },
{
    let replies = seq![Ok::<Seq<char>, Seq<char>>(body)];
    assert(replies[0] == Ok::<Seq<char>, Seq<char>>(body));
}

/// An answer to a switch of the recording tells by the flag `enabled` whether it is on,
/// and the operator is told which way it was switched.
pub proof fn law_recording_answers(enabled: bool, body: Seq<char>, document: JsonView, on: bool)
    requires
        json_parse(body) == Ok::<JsonView, Seq<char>>(document),
    ensures
        ending(ExecutionView::SetRecording(enabled), seq![Ok(body)]) matches Some(Ok(response)) && {
            &&& document.get("enabled"@) == Some(JsonView::Bool(on))
                ==> response.recording_enabled == Some(on)
            &&& !(document.get("enabled"@) matches Some(JsonView::Bool(_)))
                ==> response.recording_enabled is None
            &&& response.summary == if enabled {
                "动态地图录制已开启"@
            } else {
                "动态地图录制已关闭"@
            }
            &&& !response.summary_is_error
            &&& response.labels is None && response.navigation_running is None
        },
{
    let replies = seq![Ok::<Seq<char>, Seq<char>>(body)];
    assert(replies[0] == Ok::<Seq<char>, Seq<char>>(body));
}

/// An answer to a status that is a document tells that the service is online, and
/// nothing else.
pub proof fn law_status_answers(body: Seq<char>)
    requires
        json_parse(body) is Ok,
    ensures
        ending(ExecutionView::Status, seq![Ok(body)]) == Some(
            Ok::<ResponseView, Seq<char>>(
                ResponseView {
                    summary: "机器人控制服务在线"@,
                    summary_is_error: false,
                    labels: None,
                    recording_enabled: None,
                    navigation_running: None,
                },
            ),
        ),
{
    let replies = seq![Ok::<Seq<char>, Seq<char>>(body)];
    assert(replies[0] == Ok::<Seq<char>, Seq<char>>(body));
}

/// Whether some texts are those of a list, in their order, when what is no text is
/// passed over.
pub open spec fn are_texts_of(items: Seq<JsonView>, labels: Seq<Seq<char>>) -> bool {
    exists|places: Seq<int>|
        {
            &&& #[trigger] places.len() == labels.len()
            &&& forall|i: int|
                0 <= i < places.len() ==> 0 <= #[trigger] places[i] < items.len() && items[places[i]]
                    == JsonView::Text(labels[i])
            &&& forall|i: int, j: int|
                0 <= i < j < places.len() ==> #[trigger] places[i] < #[trigger] places[j]
            &&& forall|k: int|
                0 <= k < items.len() && #[trigger] items[k] is Text ==> places.contains(k)
        }
}

proof fn lemma_texts_are_read(items: Seq<JsonView>)
    ensures
        are_texts_of(items, texts_in(items)),
    decreases items.len(),
{
    if items.len() == 0 {
        let places = Seq::<int>::empty();
        assert(places.len() == texts_in(items).len());
    } else {
        let rest = items.drop_last();
        let head = texts_in(rest);
        let last = items.len() - 1;
        lemma_texts_are_read(rest);
        let before = choose|places: Seq<int>|
            {
                &&& #[trigger] places.len() == head.len()
                &&& forall|i: int|
                    0 <= i < places.len() ==> 0 <= #[trigger] places[i] < rest.len()
                        && rest[places[i]] == JsonView::Text(head[i])
                &&& forall|i: int, j: int|
                    0 <= i < j < places.len() ==> #[trigger] places[i] < #[trigger] places[j]
                &&& forall|k: int|
                    0 <= k < rest.len() && #[trigger] rest[k] is Text ==> places.contains(k)
            };
        let places = match items.last().text() {
            Some(_) => before.push(last),
            None => before,
        };
        let all = texts_in(items);
        assert(places.len() == all.len());
        assert forall|i: int| 0 <= i < places.len() implies 0 <= #[trigger] places[i] < items.len()
            && items[places[i]] == JsonView::Text(all[i]) by {
            if i < before.len() {
                assert(places[i] == before[i]);
                assert(rest[before[i]] == items[before[i]]);
            }
        }
        assert forall|i: int, j: int| 0 <= i < j < places.len() implies #[trigger] places[i]
            < #[trigger] places[j] by {
            assert(places[i] == before[i]);
            if j < before.len() {
                assert(places[j] == before[j]);
            }
        }
        assert forall|k: int| 0 <= k < items.len() && #[trigger] items[k] is Text implies places.contains(
            k,
        ) by {
            if k < last {
                assert(rest[k] == items[k]);
                assert(before.contains(k));
                let i = choose|i: int| 0 <= i < before.len() && before[i] == k;
                assert(places[i] == k);
            } else {
                assert(places[places.len() - 1] == k);
            }
        }
    }
}

/// What a refresh tells after its three answers: the labels are the texts of the list
/// `labels` in the first, whether the recording is on the flag `enabled` of the third,
/// and the operator is told how many labels there are. Without a third answer, or with
/// one that is no document, only the recording is not told.
pub proof fn law_refresh_answers(
    first: Seq<char>,
    second: Seq<char>,
    third: Result<Seq<char>, Seq<char>>,
    metadata: JsonView,
)
    requires
        json_parse(first) == Ok::<JsonView, Seq<char>>(metadata),
        json_parse(second) is Ok,
    ensures
        ending(
            start_of(ControlCommand::Refresh),
            seq![Ok(first), Ok(second), third],
        ) matches Some(Ok(response)) && {
            &&& response.labels matches Some(labels) && {
                &&& metadata.get("labels"@) matches Some(JsonView::Array(items)) ==> are_texts_of(
                    items,
                    labels,
                )
                &&& !(metadata.get("labels"@) matches Some(JsonView::Array(_))) ==> labels.len()
                    == 0
                &&& response.summary == "控制服务在线，已加载 "@ + decimal(labels.len())
                    + " 个地点"@
            }
            &&& response.recording_enabled == match third {
                Ok(body) => match json_parse(body) {
                    Ok(JsonView::Object(entries)) => match JsonView::Object(entries).get(
                        "enabled"@,
                    ) {
                        Some(JsonView::Bool(on)) => Some(on),
                        _ => None,
                    },
                    _ => None,
                },
                Err(_) => None,
            }
            &&& !response.summary_is_error && response.navigation_running is None
        },
{
    let replies = seq![
        Ok::<Seq<char>, Seq<char>>(first),
        Ok::<Seq<char>, Seq<char>>(second),
        third,
    ];
    let two = replies.drop_first();
    let one = two.drop_first();
    assert(two[0] == replies[1] && one[0] == replies[2]);
    assert(replies[0] == Ok::<Seq<char>, Seq<char>>(first));
    let labels = labels_of(metadata);
    reveal_with_fuel(ending, 4);
    assert(after_reply(ExecutionView::RefreshLabels, replies[0]) == ProgressView::Next(
        ExecutionView::RefreshStatus { labels },
    ));
    match metadata.get("labels"@) {
        Some(JsonView::Array(items)) => lemma_texts_are_read(items),
        _ => {},
    }
}

/// The requests of a refresh, one after the other: the map's description twice, then the
/// state of the recording. It fails with the first or the second that fails.
pub proof fn law_refresh_goes_on(
    labels: Seq<Seq<char>>,
    body: Seq<char>,
    message: Seq<char>,
)
    ensures
        call_of(ExecutionView::RefreshLabels).path == "/viz/api/map/metadata"@,
        call_of(ExecutionView::RefreshStatus { labels }) == (CallView {
            method: Method::Get,
            path: "/viz/api/map/metadata"@,
            body: None,
        }),
        call_of(ExecutionView::RefreshRecording { labels }) == (CallView {
            method: Method::Get,
            path: "/viz/api/dynamic-map/recording"@,
            body: None,
        }),
        json_parse(body) is Ok ==> {
            &&& after_reply(ExecutionView::RefreshLabels, Ok(body)) matches ProgressView::Next(
                ExecutionView::RefreshStatus { .. },
            )
            &&& after_reply(ExecutionView::RefreshStatus { labels }, Ok(body))
                == ProgressView::Next(ExecutionView::RefreshRecording { labels })
        },
        after_reply(ExecutionView::RefreshLabels, Err(message)) == ProgressView::Done(
            Err(message),
        ),
        after_reply(ExecutionView::RefreshStatus { labels }, Err(message)) == ProgressView::Done(
            Err(message),
        ),
        after_reply(ExecutionView::RefreshRecording { labels }, Err(message)) matches ProgressView::Done(
            Ok(_),
        ),
{
}

/// A command that is no refresh fails with the reason why no answer came, and one that
/// wants a document with the reason why the answer is none, after what it was about.
pub proof fn law_commands_fail_with_the_reason(
    state: ExecutionView,
    body: Seq<char>,
    message: Seq<char>,
)
    ensures
        state is Status || state is Navigate || state is Stop || state is SetRecording ==> ending(
            state,
            seq![Err(message)],
        ) == Some(Err::<ResponseView, Seq<char>>(message)),
        json_parse(body) == Err::<JsonView, Seq<char>>(message) ==> {
            &&& state is Navigate ==> ending(state, seq![Ok(body)]) == Some(
                Err::<ResponseView, Seq<char>>("导航响应不是有效 JSON："@ + message),
            )
            &&& state is SetRecording ==> ending(state, seq![Ok(body)]) == Some(
                Err::<ResponseView, Seq<char>>("录制响应不是有效 JSON："@ + message),
            )
            &&& state is Status || state is RefreshStatus ==> ending(state, seq![Ok(body)])
                == Some(Err::<ResponseView, Seq<char>>("地图状态不是有效 JSON："@ + message))
            &&& state is RefreshLabels ==> ending(state, seq![Ok(body)]) == Some(
                Err::<ResponseView, Seq<char>>("地图元数据不是有效 JSON："@ + message),
            )
        },
{
    let failed = seq![Err::<Seq<char>, Seq<char>>(message)];
    let answered = seq![Ok::<Seq<char>, Seq<char>>(body)];
    assert(failed[0] == Err::<Seq<char>, Seq<char>>(message));
    assert(answered[0] == Ok::<Seq<char>, Seq<char>>(body));
}

/// Each command is of its kind, and each kind has a name for the operator.
pub proof fn law_kinds_have_names(command: ControlCommand)
    ensures
        command.kind_of().label_text() == match command {
            ControlCommand::Refresh => "刷新状态"@,
            ControlCommand::Status => "同步状态"@,
            ControlCommand::Navigate { .. } => "提交导航"@,
            ControlCommand::Stop => "停止导航"@,
            ControlCommand::SetRecording(_) => "更新录制"@,
        },
        command is Refresh <==> command.kind_of() is Refresh,
        command is Status <==> command.kind_of() is Status,
        command is Navigate <==> command.kind_of() is Navigate,
        command is Stop <==> command.kind_of() is Stop,
        command is SetRecording <==> command.kind_of() is Recording,
{
}

/// Outcomes are handed out in the order in which they came, each once: one that comes in
/// is the last to be handed out, and what is handed out was there longest. A new client
/// has none.
pub proof fn law_outcomes_are_handed_out_in_order(
    c: ClientView,
    outcome: ControlResultView,
    endpoint: EndpointView,
)
    ensures
        c.inbox.len() == 0 ==> oldest_outcome(c) is None && without_oldest(c) == c,
        c.inbox.len() == 0 ==> oldest_outcome(with_outcome(c, outcome)) == Some(outcome)
            && without_oldest(with_outcome(c, outcome)) == c,
        c.inbox.len() > 0 ==> {
            &&& oldest_outcome(c) matches Some(first) && seq![first] + without_oldest(c).inbox
                == c.inbox
            &&& oldest_outcome(with_outcome(c, outcome)) == oldest_outcome(c)
            &&& without_oldest(with_outcome(c, outcome)) == with_outcome(
                without_oldest(c),
                outcome,
            )
        },
        without_oldest(c) == (ClientView { inbox: without_oldest(c).inbox, ..c }),
        with_outcome(c, outcome) == (ClientView { inbox: with_outcome(c, outcome).inbox, ..c }),
        oldest_outcome(new_client(endpoint)) is None,
        new_client(endpoint).endpoint == endpoint && new_client(endpoint).generation == 0,
{
    let more = c.inbox.push(outcome);
    if c.inbox.len() > 0 {
        assert(seq![c.inbox[0]] + c.inbox.drop_first() == c.inbox);
        assert(more.drop_first() == c.inbox.drop_first().push(outcome));
    } else {
        assert(more.drop_first() == c.inbox);
    }
}

/// After a change of the endpoint commands go to the new one, and bear the next number,
/// which after the largest is zero again.
pub proof fn law_endpoints_change(c: ClientView, endpoint: EndpointView)
    ensures
        moved_to(c, endpoint).endpoint == endpoint,
        moved_to(c, endpoint).inbox == c.inbox,
        c.generation < u64::MAX ==> moved_to(c, endpoint).generation == c.generation + 1,
        c.generation == u64::MAX ==> moved_to(c, endpoint).generation == 0,
{
}

/// A job carries the very command that it was made for, to the client's endpoint.
pub proof fn law_jobs_carry_their_commands(
    job: ControlJob,
    client: ClientView,
    command: ControlCommand,
)
    ensures
        is_job_of(job, client, command) <==> job.command == command && job.endpoint@
            == client.endpoint && job.generation == client.generation,
        errand_of(job).state == start_of(job.command),
        errand_of(job).generation == job.generation && errand_of(job).endpoint == job.endpoint@,
{
}

} // verus!
