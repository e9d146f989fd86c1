use std::path::PathBuf;

use woosh_viewer::config::SidecarSettings;
use woosh_viewer::json::parse_json;
use woosh_viewer::sidecar::{
    after_map_poll, clamp_millis, map_poll_due, stream_failure_text, NativeSidecar, NativeSidecarSettings, Restart,
    SidecarManager, StreamEvent, StreamFailure, StreamReply,
};

fn settings(ip: &str, rerun_port: u16) -> NativeSidecarSettings {
    NativeSidecarSettings {
        robot_ip: ip.to_owned(),
        robot_port: 8008,
        rerun_port,
        history_dir: PathBuf::from("history"),
    }
}

fn input(ip: &str, rerun_port: u16) -> SidecarSettings {
    SidecarSettings::from_input(ip, 8008, rerun_port).unwrap()
}

fn running_manager() -> SidecarManager {
    let mut manager = SidecarManager::new(PathBuf::from("history"));
    match manager.restart(&input("robot", 9876)) {
        Restart::Launch(native) => manager.launch(native),
        other => panic!("{other:?}"),
    }
    manager
}

#[test]
fn a_started_worker_knows_nothing() {
    let worker = NativeSidecar::start(settings("robot", 9876));
    assert!(worker.is_running());
    assert!(!worker.is_connected());
    assert_eq!(worker.last_message_at(), None);
    assert_eq!(worker.status().task_status, "idle");
    assert_eq!(worker.rerun_port(), 9876);
    assert!(worker.undisturbed());
}

#[test]
fn messages_are_taken_in() {
    let mut worker = NativeSidecar::start(settings("robot", 9876));
    worker.stream_opened();
    let text = r#"{"type":"task_status","status":"running"}"#;
    match worker.receive(StreamEvent::Text(text.to_owned()), 5).unwrap() {
        StreamReply::Message(message) => {
            assert_eq!(message.get("status").unwrap().as_text(), Some("running"))
        }
        other => panic!("{other:?}"),
    }
    assert!(worker.is_connected());
    assert_eq!(worker.last_message_at(), Some(5));
    assert!(worker.status().navigation_running);
    worker.set_navigation_running_from_control(false);
    assert_eq!(worker.status().task_status, "stopped");
}

#[test]
fn texts_that_are_no_documents_end_the_connection() {
    let mut worker = NativeSidecar::start(settings("robot", 9876));
    let error = worker.receive(StreamEvent::Text("{".to_owned()), 5).unwrap_err();
    assert!(error.starts_with("数据流 JSON 无效："));
    assert_eq!(worker.last_message_at(), None);
    assert_eq!(
        worker.receive_parsed(Err("why".to_owned()), 5).unwrap_err(),
        "数据流 JSON 无效：why"
    );
    assert!(worker.receive_parsed(parse_json("{}"), 6).is_ok());
    assert_eq!(worker.last_message_at(), Some(6));
}

#[test]
fn other_frames_are_answered_or_ignored() {
    let mut worker = NativeSidecar::start(settings("robot", 9876));
    assert!(matches!(worker.receive(StreamEvent::Binary, 1), Ok(StreamReply::Nothing)));
    assert!(matches!(worker.receive(StreamEvent::Other, 1), Ok(StreamReply::Nothing)));
    assert!(matches!(worker.receive(StreamEvent::Quiet, 1), Ok(StreamReply::Nothing)));
    assert!(matches!(worker.receive(StreamEvent::Ping, 1), Ok(StreamReply::Pong)));
    assert_eq!(worker.receive(StreamEvent::Close, 1).unwrap_err(), "机器人关闭了数据流");
    assert_eq!(worker.receive(StreamEvent::Failed("e".to_owned()), 1).unwrap_err(), "e");
    assert_eq!(worker.last_message_at(), None);
}

#[test]
fn the_wait_between_tries_grows() {
    let mut worker = NativeSidecar::start(settings("robot", 9876));
    let mut wait: u64 = 1;
    let mut waits = Vec::new();
    for _ in 0..6 {
        assert!(worker.begin_session().is_some());
        let end = worker.session_over(Err("e".to_owned()), &mut wait);
        assert_eq!(end.event.as_deref(), Some("上游连接中断：e"));
        waits.push(end.wait.unwrap());
    }
    assert_eq!(waits, [1, 2, 4, 8, 10, 10]);
    worker.reconfigure(settings("other", 9876)).unwrap();
    let end = worker.session_over(Ok(()), &mut wait);
    assert_eq!(end.wait, None);
    assert_eq!(end.event, None);
    assert_eq!(wait, 1);
    assert_eq!(worker.begin_session().unwrap().robot_ip, "other");
    assert!(worker.undisturbed());
}

#[test]
fn a_worker_that_is_to_end_begins_nothing() {
    let mut worker = NativeSidecar::start(settings("robot", 9876));
    worker.stream_opened();
    worker.request_stop();
    assert!(!worker.undisturbed());
    let mut wait: u64 = 4;
    assert_eq!(worker.session_over(Ok(()), &mut wait).wait, None);
    assert_eq!(wait, 4);
    assert!(worker.begin_session().is_none());
    assert!(!worker.is_connected());
    worker.stop();
    assert!(!worker.is_running());
}

#[test]
fn another_local_port_needs_another_worker() {
    let mut worker = NativeSidecar::start(settings("robot", 9876));
    worker.stream_opened();
    assert_eq!(
        worker.reconfigure(settings("other", 1)).unwrap_err(),
        "本机 Rerun 端口已变化，需要重启数据服务"
    );
    assert!(worker.is_connected());
    let text = r#"{"type":"task_status","status":"running"}"#;
    worker.receive(StreamEvent::Text(text.to_owned()), 5).unwrap();
    worker.reconfigure(settings("other", 9876)).unwrap();
    assert!(!worker.is_connected());
    assert!(!worker.undisturbed());
    assert_eq!(worker.last_message_at(), None);
    assert_eq!(worker.status().task_status, "idle");
}

#[test]
fn a_start_succeeds_once_the_port_is_reached() {
    let mut worker = NativeSidecar::start(settings("robot", 9876));
    assert!(worker.start_progress(false, false).is_none());
    assert!(matches!(worker.start_progress(true, false), Some(Ok(()))));
    assert_eq!(
        worker.start_progress(false, true).unwrap().unwrap_err(),
        "内置 Rerun 服务未能在 9876 端口及时启动"
    );
    let mut worker = NativeSidecar::start(settings("robot", 9876));
    worker.worker_ended(Some("a".to_owned()));
    worker.worker_ended(Some("b".to_owned()));
    assert_eq!(worker.start_progress(false, false).unwrap().unwrap_err(), "a");
    assert!(!worker.undisturbed());
    assert_eq!(worker.poll_error().as_deref(), Some("b"));
    assert_eq!(worker.poll_error(), None);
}

#[test]
fn a_worker_at_work_takes_over_another_robot() {
    let mut manager = running_manager();
    assert!(manager.is_running());
    assert!(matches!(manager.restart(&input("other", 9876)), Restart::Done));
    assert_eq!(manager.take_worker().unwrap().begin_session().unwrap().robot_ip, "other");
    assert!(!manager.is_running());
    assert_eq!(manager.status().task_status, "idle");
    assert_eq!(manager.last_message_at(), None);
    assert!(!manager.is_connected());
}

#[test]
fn a_new_worker_is_launched_where_none_can_take_over() {
    let mut manager = running_manager();
    match manager.restart(&input("other", 1234)) {
        Restart::Launch(native) => {
            assert_eq!(native.rerun_port, 1234);
            assert_eq!(native.history_dir, PathBuf::from("history"));
            assert_eq!(native.address(), "other:8008");
            assert_eq!(native.stream_url(), "ws://other:8008/viz/ws");
        }
        other => panic!("{other:?}"),
    }
    let mut worker = manager.take_worker().unwrap();
    worker.worker_ended(None);
    manager.put_worker(worker);
    assert!(matches!(manager.restart(&input("other", 9876)), Restart::Launch(_)));
    assert_eq!(manager.poll_exit().as_deref(), Some("内置数据服务已退出"));
    assert_eq!(manager.poll_exit().as_deref(), Some("内置数据服务已退出"));
    manager.stop();
    assert_eq!(manager.poll_exit(), None);
    assert_eq!(manager.history_dir(), &PathBuf::from("history"));
}

#[test]
fn a_worker_that_gave_up_is_let_go() {
    let mut manager = running_manager();
    assert_eq!(manager.poll_exit(), None);
    let mut worker = manager.take_worker().unwrap();
    worker.worker_ended(Some("port".to_owned()));
    manager.put_worker(worker);
    assert_eq!(manager.poll_exit().as_deref(), Some("port"));
    assert_eq!(manager.poll_exit(), None);
    manager.set_navigation_running_from_control(true);
    assert!(!manager.status().navigation_running);
}

#[test]
fn an_answer_is_passed_on_to_the_worker() {
    let mut manager = running_manager();
    manager.set_navigation_running_from_control(true);
    assert!(manager.status().navigation_running);
    assert_eq!(manager.status().task_status, "accepted");
}

#[test]
fn failures_to_open_the_stream_are_explained() {
    let detail = || "e".to_owned();
    let text = |failure| stream_failure_text("robot:8008", failure);
    assert_eq!(text(StreamFailure::Lookup(detail())), "无法解析机器人地址 robot:8008：e");
    assert_eq!(text(StreamFailure::NoHost), "无法解析机器人地址 robot:8008");
    assert_eq!(text(StreamFailure::Connect(detail())), "无法连接机器人数据流：e");
    assert_eq!(text(StreamFailure::Timeouts(detail())), "无法设置数据流超时：e");
    assert_eq!(text(StreamFailure::Handshake(detail())), "WebSocket 握手失败：e");
}

#[test]
fn times_are_kept_in_milliseconds() {
    assert!(!map_poll_due(4999));
    assert!(map_poll_due(5000));
    assert_eq!(clamp_millis(7), 7);
    assert_eq!(clamp_millis(u128::MAX), u64::MAX);
}

#[test]
fn only_the_first_map_is_needed() {
    assert_eq!(after_map_poll(true, Err("e".to_owned())).unwrap_err(), "e");
    assert!(after_map_poll(true, Ok(())).is_ok());
    assert!(after_map_poll(false, Err("e".to_owned())).is_ok());
    assert!(after_map_poll(false, Ok(())).is_ok());
}
