use woosh_viewer::control::{
    ActionKind, Advance, ControlClient, ControlCommand, ControlJob, ControlResult, Execution,
    Method, Progress, ResponseData,
};
use woosh_viewer::http::{
    parse_response, read_response, request_failure_text, request_text, summarize_json,
    ControlEndpoint, RequestFailure,
};

fn robot() -> ControlEndpoint {
    ControlEndpoint {
        host: "robot".to_owned(),
        port: 8008,
    }
}

fn next(progress: Progress) -> Execution {
    match progress {
        Progress::Next(state) => state,
        Progress::Done(result) => panic!("over: {result:?}"),
    }
}

fn done(progress: Progress) -> Result<ResponseData, String> {
    match progress {
        Progress::Next(state) => panic!("not over: {state:?}"),
        Progress::Done(result) => result,
    }
}

fn carry_out(job: ControlJob, replies: Vec<Result<String, String>>) -> ControlResult {
    let mut errand = job.start();
    for reply in replies {
        match errand.advance(reply) {
            Advance::Next(following) => errand = following,
            Advance::Over(outcome) => return outcome,
        }
    }
    panic!("not over");
}

fn reply(body: &str) -> Result<String, String> {
    Ok(body.to_owned())
}

#[test]
fn endpoints_are_shown_as_urls() {
    assert_eq!(robot().display_url(), "http://robot:8008");
}

#[test]
fn requests_count_the_bytes_of_their_body() {
    assert_eq!(
        request_text(&robot(), "POST", "/p", Some("去")),
        "POST /p HTTP/1.1\r\nHost: robot:8008\r\nAccept: application/json\r\nContent-Type: application/json\r\nContent-Length: 3\r\nConnection: close\r\n\r\n去"
    );
    assert!(request_text(&robot(), "GET", "/p", None).ends_with("Content-Length: 0\r\nConnection: close\r\n\r\n"));
}

#[test]
fn answers_hand_on_their_body() {
    assert_eq!(
        read_response("HTTP/1.1 200 OK\r\nA: b\r\n\r\nbody\r\n\r\nmore").unwrap(),
        "body\r\n\r\nmore"
    );
    assert_eq!(parse_response(&b"HTTP/1.1 204 x\r\n\r\n".to_vec()).unwrap(), "");
    assert_eq!(
        parse_response(&b"HTTP/1.1 200 x\r\n\r\n\xff".to_vec()).unwrap(),
        "\u{fffd}"
    );
}

#[test]
fn answers_of_failure_are_explained() {
    assert_eq!(read_response("nonsense").unwrap_err(), "控制服务返回了无效 HTTP 响应");
    assert_eq!(
        read_response("HTTP/1.1 502 Bad\r\n\r\n{\"detail\":\"down\"}").unwrap_err(),
        "机器人服务不可用：down"
    );
    assert_eq!(
        read_response("HTTP/1.1 404 x\r\n\r\nnot here").unwrap_err(),
        "请求失败（HTTP 404）：not here"
    );
    assert_eq!(read_response("HTTP/1.1\r\n\r\nx").unwrap_err(), "请求失败（HTTP 0）：x");
    assert_eq!(read_response("\r\n\r\nx").unwrap_err(), "请求失败（HTTP 0）：x");
    assert_eq!(
        read_response("HTTP/1.1  299\t\r\n\r\nx").unwrap(),
        "x"
    );
}

#[test]
fn summaries_take_the_first_text() {
    assert_eq!(summarize_json(r#"{"status":"s","detail":"d","message":"m"}"#), "m");
    assert_eq!(summarize_json(r#"{"status":"s","detail":"d","message":1}"#), "d");
    assert_eq!(summarize_json(r#"{"status":"s"}"#), "s");
    assert_eq!(summarize_json("{}"), "{}");
    assert_eq!(summarize_json(&"去".repeat(200)), "去".repeat(180));
}

#[test]
fn failures_to_ask_are_explained() {
    let text = request_failure_text;
    let detail = || "why".to_owned();
    assert_eq!(
        text(RequestFailure::Unresolved {
            address: "a:1".to_owned(),
            detail: Some(detail())
        }),
        "无法解析 a:1：why"
    );
    assert_eq!(
        text(RequestFailure::Unresolved {
            address: "a:1".to_owned(),
            detail: None
        }),
        "无法解析 a:1"
    );
    assert_eq!(text(RequestFailure::Refused), "机器人控制服务拒绝连接，请检查地址和服务状态");
    assert_eq!(text(RequestFailure::TimedOut), "连接机器人控制服务超时，请检查网络");
    assert_eq!(text(RequestFailure::Unreachable(detail())), "无法连接机器人控制服务：why");
    assert_eq!(text(RequestFailure::NotSent(detail())), "发送控制请求失败：why");
    assert_eq!(text(RequestFailure::NotRead(detail())), "读取控制响应失败：why");
}

#[test]
fn a_navigation_is_posted_and_accepted() {
    let state = Execution::start(ControlCommand::Navigate {
        goal_text: "去\"门\"".to_owned(),
        dry_run: true,
    });
    let call = state.call();
    assert_eq!(call.method, Method::Post);
    assert_eq!(call.path, "/viz/api/navigation/text");
    assert_eq!(call.body.as_deref(), Some(r#"{"dry_run":true,"goal_text":"去\"门\""}"#));
    let data = done(state.advance(reply(r#"{"message":"ok"}"#))).unwrap();
    assert_eq!(data.summary, "ok");
    assert!(!data.summary_is_error);
    assert_eq!(data.navigation_running, Some(true));
}

#[test]
fn a_navigation_can_be_refused() {
    let state = || {
        Execution::start(ControlCommand::Navigate {
            goal_text: "x".to_owned(),
            dry_run: false,
        })
    };
    let data = done(state().advance(reply(r#"{"accepted":false,"detail":"no"}"#))).unwrap();
    assert!(data.summary_is_error);
    assert_eq!(data.navigation_running, None);
    assert_eq!(data.summary, "no");
    assert!(done(state().advance(reply("x"))).unwrap_err().starts_with("导航响应不是有效 JSON："));
    assert_eq!(done(state().advance(Err("e".to_owned()))).unwrap_err(), "e");
}

#[test]
fn a_stop_ends_the_navigation_whatever_the_answer_says() {
    let state = Execution::start(ControlCommand::Stop);
    let call = state.call();
    assert_eq!(call.path, "/viz/api/navigation/stop");
    assert_eq!(call.body.as_deref(), Some("{}"));
    let data = done(state.advance(reply("stopped"))).unwrap();
    assert_eq!(data.summary, "stopped");
    assert_eq!(data.navigation_running, Some(false));
}

#[test]
fn the_recording_is_switched() {
    let state = Execution::start(ControlCommand::SetRecording(false));
    let call = state.call();
    assert_eq!(call.method.word(), "POST");
    assert_eq!(call.path, "/viz/api/dynamic-map/recording");
    assert_eq!(call.body.as_deref(), Some(r#"{"enabled":false}"#));
    let data = done(state.advance(reply(r#"{"enabled":false}"#))).unwrap();
    assert_eq!(data.summary, "动态地图录制已关闭");
    assert_eq!(data.recording_enabled, Some(false));
    let state = Execution::start(ControlCommand::SetRecording(true));
    let data = done(state.advance(reply("{}"))).unwrap();
    assert_eq!(data.summary, "动态地图录制已开启");
    assert_eq!(data.recording_enabled, None);
    let state = Execution::start(ControlCommand::SetRecording(true));
    assert!(done(state.advance(reply("x"))).unwrap_err().starts_with("录制响应不是有效 JSON："));
}

#[test]
fn the_status_is_asked_for() {
    let state = Execution::start(ControlCommand::Status);
    let call = state.call();
    assert_eq!(call.method.word(), "GET");
    assert_eq!(call.path, "/viz/api/map/metadata");
    assert_eq!(call.body, None);
    let data = done(state.advance(reply("{}"))).unwrap();
    assert_eq!(data.summary, "机器人控制服务在线");
    assert_eq!(data.navigation_running, None);
    let state = Execution::start(ControlCommand::Status);
    assert!(done(state.advance(reply("x"))).unwrap_err().starts_with("地图状态不是有效 JSON："));
}

#[test]
fn a_refresh_asks_three_times() {
    let state = Execution::start(ControlCommand::Refresh);
    assert_eq!(state.call().path, "/viz/api/map/metadata");
    let state = next(state.advance(reply(r#"{"labels":["a",1,"b"]}"#)));
    assert_eq!(state.call().path, "/viz/api/map/metadata");
    let state = next(state.advance(reply("{}")));
    assert_eq!(state.call().path, "/viz/api/dynamic-map/recording");
    let data = done(state.advance(reply(r#"{"enabled":true}"#))).unwrap();
    assert_eq!(data.summary, "控制服务在线，已加载 2 个地点");
    assert_eq!(data.labels, Some(vec!["a".to_owned(), "b".to_owned()]));
    assert_eq!(data.recording_enabled, Some(true));
}

#[test]
fn a_refresh_can_do_without_the_recording() {
    let state = next(Execution::start(ControlCommand::Refresh).advance(reply("{}")));
    let state = next(state.advance(reply("{}")));
    let data = done(state.advance(Err("no".to_owned()))).unwrap();
    assert_eq!(data.labels, Some(vec![]));
    assert_eq!(data.recording_enabled, None);
    let state = next(Execution::start(ControlCommand::Refresh).advance(reply("{}")));
    assert!(done(state.advance(reply("x"))).unwrap_err().starts_with("地图状态不是有效 JSON："));
    let state = Execution::start(ControlCommand::Refresh);
    assert!(done(state.advance(reply("x"))).unwrap_err().starts_with("地图元数据不是有效 JSON："));
}

#[test]
fn kinds_have_labels() {
    assert_eq!(ActionKind::Refresh.label(), "刷新状态");
    assert_eq!(ActionKind::Status.label(), "同步状态");
    assert_eq!(ActionKind::Navigate.label(), "提交导航");
    assert_eq!(ActionKind::Stop.label(), "停止导航");
    assert_eq!(ActionKind::Recording.label(), "更新录制");
    assert_eq!(ControlCommand::SetRecording(true).kind(), ActionKind::Recording);
}

#[test]
fn outcomes_are_handed_out_in_order() {
    let mut client = ControlClient::new(robot());
    assert!(client.try_recv().is_none());
    let first = client.dispatch(ControlCommand::Stop);
    client.set_endpoint(ControlEndpoint {
        host: "other".to_owned(),
        port: 1,
    });
    let second = client.dispatch(ControlCommand::Status);
    assert_eq!(first.endpoint, robot());
    assert_eq!(second.endpoint, *client.endpoint());
    let second = carry_out(second, vec![Err("b".to_owned())]);
    let first = carry_out(first, vec![reply("{\"message\":\"halted\"}")]);
    client.deliver(second);
    client.deliver(first);
    let outcome = client.try_recv().unwrap();
    assert_eq!(outcome.kind, ActionKind::Status);
    assert_eq!(outcome.generation, client.generation());
    assert_eq!(outcome.result.unwrap_err(), "b");
    let outcome = client.try_recv().unwrap();
    assert_eq!(outcome.kind, ActionKind::Stop);
    assert_eq!(outcome.generation, 0);
    assert_eq!(outcome.result.unwrap().summary, "halted");
    assert_eq!(client.generation(), 1);
    assert!(client.try_recv().is_none());
}

#[test]
fn an_errand_asks_the_endpoint_of_its_job() {
    let mut client = ControlClient::new(robot());
    let job = client.dispatch(ControlCommand::Refresh);
    client.set_endpoint(ControlEndpoint {
        host: "other".to_owned(),
        port: 1,
    });
    let mut errand = job.start();
    let mut paths = Vec::new();
    let outcome = loop {
        assert_eq!(*errand.endpoint(), robot());
        paths.push(errand.call().path);
        match errand.advance(reply("{\"labels\":[\"dock\"],\"enabled\":true}")) {
            Advance::Next(following) => errand = following,
            Advance::Over(outcome) => break outcome,
        }
    };
    assert_eq!(
        paths,
        [
            "/viz/api/map/metadata",
            "/viz/api/map/metadata",
            "/viz/api/dynamic-map/recording",
        ]
    );
    assert_eq!(outcome.generation, 0);
    assert_eq!(outcome.kind, ActionKind::Refresh);
    let response = outcome.result.unwrap();
    assert_eq!(response.labels, Some(vec!["dock".to_owned()]));
    assert_eq!(response.recording_enabled, Some(true));
}
