use std::path::PathBuf;

use woosh_viewer::config::SidecarSettings;
use woosh_viewer::control::{ActionKind, ControlCommand, ControlJob, ControlResult, ResponseData};
use woosh_viewer::double::Double;
use woosh_viewer::history::NativeReplayTask;
use woosh_viewer::http::ControlEndpoint;
use woosh_viewer::panel::{ControlPanel, Deletion, SidecarReport, Stage};
use woosh_viewer::status::NativeStatusSnapshot;

fn endpoint() -> ControlEndpoint {
    ControlEndpoint {
        host: "robot".to_owned(),
        port: 8008,
    }
}

fn settings(ip: &str) -> SidecarSettings {
    SidecarSettings::from_input(ip, 8008, 9876).unwrap()
}

fn panel() -> ControlPanel {
    ControlPanel::new(endpoint(), 9876, "c.toml".to_owned(), Some(&settings("robot")), None)
}

fn report() -> SidecarReport {
    SidecarReport {
        exit: None,
        connected: true,
        last_message_at: Some(7),
        status: NativeStatusSnapshot::default(),
    }
}

fn running_report() -> SidecarReport {
    let mut report = report();
    report.status.navigation_running = true;
    report.status.task_status = "running".to_owned();
    report
}

fn age(seconds: f64) -> Option<Double> {
    Some(Double {
        bits: seconds.to_bits(),
    })
}

fn task(id: &str, recorded: bool) -> NativeReplayTask {
    NativeReplayTask {
        task_id: id.to_owned(),
        goal_text: None,
        status: "recorded".to_owned(),
        has_rerun_recording: recorded,
        recording_source: format!("{id}.rrd"),
        task_dir: PathBuf::from(id),
    }
}

fn outcome(job: ControlJob, result: Result<ResponseData, String>) -> ControlResult {
    ControlResult {
        generation: job.generation,
        kind: job.command.kind(),
        result,
    }
}

fn finish(panel: &mut ControlPanel, job: ControlJob, result: Result<ResponseData, String>) -> Vec<bool> {
    panel.client.deliver(outcome(job, result));
    panel.poll_results(report())
}

fn answer(running: Option<bool>) -> Result<ResponseData, String> {
    Ok(ResponseData {
        summary: "done".to_owned(),
        summary_is_error: false,
        labels: None,
        recording_enabled: None,
        navigation_running: running,
    })
}

#[test]
fn the_first_start_asks_for_an_address() {
    let mut panel = ControlPanel::new(
        ControlEndpoint {
            host: String::new(),
            port: 8008,
        },
        9876,
        "c.toml".to_owned(),
        None,
        None,
    );
    assert!(panel.connection.open);
    assert_eq!(panel.message.text, "首次使用，请在连接设置中输入机器人 IP");
    assert_eq!(panel.startup_label(false, None), "等待连接设置");
    assert_eq!(
        panel.connection_guidance(false, None),
        "请打开“连接设置”，输入机器人 IP 后点击“连接机器人”"
    );
    panel.connection.open = false;
    assert!(panel.refresh().is_none());
    assert!(panel.connection.open);
    assert_eq!(panel.message.text, "请先输入机器人 IP 并点击“连接机器人”");
    assert!(panel.poll_status(5000).is_none());
    assert_eq!(panel.config_path(), "c.toml");
}

#[test]
fn a_start_that_failed_is_shown() {
    let panel = ControlPanel::new(
        endpoint(),
        9876,
        String::new(),
        Some(&settings("robot")),
        Some("port in use".to_owned()),
    );
    assert!(panel.connection.open);
    assert!(panel.connection.notice.as_ref().unwrap().is_error);
    assert_eq!(panel.message.text, "port in use");
    assert_eq!(panel.message_title(), "需要处理");
    assert_eq!(panel.stage(None, false), Stage::Failed);
}

#[test]
fn the_panel_tells_how_far_it_is() {
    let mut panel = panel();
    assert!(!panel.connection.open);
    assert_eq!(panel.startup_label(false, None), "正在启动内置服务");
    assert_eq!(panel.service_label(false), "未运行");
    assert_eq!(panel.startup_label(true, None), "正在连接控制服务");
    assert_eq!(panel.service_label(true), "准备中");
    assert_eq!(
        panel.connection_guidance(true, None),
        "无法连接机器人控制服务 robot:8008，请检查 IP、网络和机器人服务"
    );
    assert_eq!(
        panel.connection_guidance(false, None),
        "内置数据服务未运行，请展开“机器人连接”后重新连接"
    );
    panel.robot.control_online = true;
    assert_eq!(panel.startup_label(true, None), "正在连接机器人");
    assert_eq!(panel.service_label(true), "运行中");
    assert_eq!(
        panel.connection_guidance(true, None),
        "无法连接机器人 robot:8008，请检查 IP、网络和机器人服务"
    );
    assert_eq!(panel.robot_label(), "未连接");
    panel.robot.upstream_connected = true;
    assert_eq!(panel.robot_label(), "已连接");
    assert_eq!(panel.startup_label(true, age(10.5)), "正在等待实时数据");
    assert_eq!(
        panel.connection_guidance(true, age(10.5)),
        "机器人连接存在，但实时数据已中断，请尝试重新连接"
    );
    assert_eq!(panel.startup_label(true, age(10.0)), "已就绪");
    assert_eq!(panel.connection_guidance(true, age(10.0)), "实时画面正在加载，请稍候");
    assert!(panel.navigation_ready(age(10.0)));
    assert!(!panel.data_is_live(None));
    assert_eq!(panel.stage(age(1.0), true), Stage::Ready);
    assert_eq!(panel.stage(age(1.0), false), Stage::Waiting);
    assert_eq!(panel.message_title(), "操作提示");
}

#[test]
fn the_picture_ages() {
    let panel = panel();
    assert_eq!(panel.picture_label(age(2.0), true), "实时");
    assert_eq!(panel.picture_label(age(2.0), false), "略有延迟");
    assert_eq!(panel.picture_label(age(10.0), true), "略有延迟");
    assert_eq!(panel.picture_label(age(10.1), true), "数据中断");
    assert_eq!(panel.picture_label(age(f64::NAN), true), "数据中断");
    assert_eq!(panel.picture_label(None, true), "正在等待");
}

#[test]
fn commands_are_announced() {
    let mut panel = panel();
    let job = panel.refresh().unwrap();
    assert!(matches!(job.command, ControlCommand::Refresh));
    assert_eq!(job.endpoint, endpoint());
    assert_eq!(panel.message.text, "刷新状态中…");
    assert!(panel.poll_status(999).is_none());
    let poll = panel.poll_status(1000).unwrap();
    assert!(matches!(poll.command, ControlCommand::Status));
    assert_eq!(panel.message.text, "刷新状态中…");
    assert!(panel.poll_status(5000).is_none());
    finish(&mut panel, poll, Err("down".to_owned()));
    assert!(!panel.robot.control_online);
    assert_eq!(panel.message.text, "刷新状态中…");
    assert!(panel.poll_status(5000).is_some());
}

#[test]
fn outcomes_change_the_panel() {
    let mut panel = panel();
    let job = panel.refresh().unwrap();
    let told = finish(
        &mut panel,
        job,
        Ok(ResponseData {
            summary: "online".to_owned(),
            summary_is_error: false,
            labels: Some(vec!["a".to_owned()]),
            recording_enabled: Some(true),
            navigation_running: None,
        }),
    );
    assert!(told.is_empty());
    assert!(panel.robot.control_online);
    assert!(panel.robot.recording_enabled);
    assert_eq!(panel.robot.labels, ["a"]);
    assert_eq!(panel.message.text, "online");
    let job = panel.refresh().unwrap();
    finish(&mut panel, job, Err("down".to_owned()));
    assert!(!panel.robot.control_online);
    assert!(panel.message.is_error);
    assert_eq!(panel.message.text, "down");
    panel.robot.control_online = true;
    let job = panel.set_recording(true);
    assert!(matches!(job.command, ControlCommand::SetRecording(true)));
    assert!(panel.robot.recording_enabled);
    finish(&mut panel, job, Err("no".to_owned()));
    assert!(panel.robot.control_online);
    assert_eq!(panel.message.text, "no");
}

#[test]
fn a_navigation_is_started_and_stopped() {
    let mut panel = panel();
    panel.robot.control_online = true;
    assert!(!panel.can_navigate());
    panel.goal_text = "  去门口 ".to_owned();
    assert!(panel.can_navigate());
    assert!(!panel.can_start(age(1.0)));
    panel.robot.upstream_connected = true;
    assert!(panel.can_start(age(1.0)));
    assert!(!panel.can_start(age(11.0)));
    assert!(!panel.can_start(None));
    panel.goal_text = " ".to_owned();
    assert!(!panel.can_start(age(1.0)));
    panel.goal_text = "  去门口 ".to_owned();
    assert_eq!(panel.navigate_text(), "开始导航");
    panel.dry_run = true;
    assert_eq!(panel.navigate_text(), "开始模拟规划");
    let job = panel.navigate();
    match &job.command {
        ControlCommand::Navigate { goal_text, dry_run } => {
            assert_eq!(goal_text, "去门口");
            assert!(*dry_run);
        }
        other => panic!("{other:?}"),
    }
    assert_eq!(panel.navigate_text(), "正在提交…");
    assert!(!panel.can_navigate());
    assert_eq!(finish(&mut panel, job, answer(Some(true))), [true]);
    assert!(panel.robot.navigation_running);
    assert_eq!(panel.robot.task_status, "accepted");
    assert!(!panel.can_navigate());
    assert!(panel.can_stop());
    assert!(panel.stop_is_active());
    assert_eq!(panel.stop_text(), "停止导航");
    let job = panel.dispatch(ControlCommand::Stop);
    assert!(!panel.can_stop());
    assert_eq!(panel.stop_text(), "正在停止…");
    assert_eq!(panel.stop_disabled_reason(), "停止请求正在处理中");
    panel.client.deliver(outcome(job, answer(Some(false))));
    assert_eq!(panel.poll_results(running_report()), [false]);
    assert!(!panel.robot.navigation_running);
    assert_eq!(panel.robot.task_status, "stopped");
    assert!(!panel.can_stop());
    assert_eq!(panel.stop_text(), "当前无导航任务");
    assert_eq!(panel.stop_disabled_reason(), "当前没有正在执行的导航任务");
    panel.robot.control_online = false;
    assert_eq!(panel.stop_disabled_reason(), "连接机器人控制服务后可用");
}

#[test]
fn a_stop_is_not_undone_by_the_next_report() {
    let mut panel = panel();
    let mut known = NativeStatusSnapshot::default();
    known.set_navigation_running_from_control(true);
    let job = panel.dispatch(ControlCommand::Stop);
    panel.client.deliver(outcome(job, answer(Some(false))));
    for running in panel.poll_results(running_report()) {
        known.set_navigation_running_from_control(running);
    }
    let mut next = report();
    next.status = known;
    assert!(panel.poll_results(next).is_empty());
    assert!(!panel.robot.navigation_running);
    assert!(!panel.can_stop());
}

#[test]
fn outcomes_for_a_former_robot_do_not_count() {
    let mut panel = panel();
    let stale = panel.dispatch(ControlCommand::Stop);
    let other = settings("other");
    let job = panel
        .apply_connection(&other, &other.connection(), Ok(()), Some(Ok(())))
        .unwrap();
    assert_eq!(job.endpoint.host, "other");
    assert_eq!(panel.connection.notice.as_ref().unwrap().text, "已连接，配置已保存到 c.toml");
    assert!(finish(&mut panel, stale, answer(Some(true))).is_empty());
    assert!(!panel.robot.control_online);
    assert!(panel.pending.contains(ActionKind::Refresh));
    finish(&mut panel, job, answer(None));
    assert!(panel.robot.control_online);
    assert!(!panel.pending.contains(ActionKind::Refresh));
}

#[test]
fn a_new_connection_forgets_the_former_robot() {
    let mut panel = panel();
    panel.robot.labels = vec!["a".to_owned()];
    panel.replays.load(vec![task("t", true)]);
    panel.replays.show_task(0);
    let other = settings("other");
    panel.apply_connection(&other, &other.connection(), Err("port".to_owned()), None);
    assert!(panel.robot.labels.is_empty());
    assert!(panel.replays.tasks.is_empty());
    assert_eq!(panel.replays.selected, None);
    assert_eq!(panel.replays.source_label, "实时数据");
    let notice = panel.connection.notice.as_ref().unwrap();
    assert_eq!(notice.text, "port");
    assert!(notice.is_error);
    panel.apply_connection(&other, &other.connection(), Ok(()), Some(Err("无法保存".to_owned())));
    assert_eq!(panel.connection.notice.as_ref().unwrap().text, "已连接，但无法保存");
    panel.apply_connection(&other, &other.connection(), Ok(()), None);
    assert_eq!(panel.connection.notice.as_ref().unwrap().text, "已连接（配置未保存）");
}

#[test]
fn a_worker_that_ended_is_reported() {
    let mut panel = panel();
    panel.robot.control_online = true;
    let mut ended = report();
    ended.exit = Some("内置数据服务已退出".to_owned());
    ended.connected = false;
    ended.last_message_at = None;
    panel.poll_results(ended);
    assert!(!panel.robot.control_online);
    assert!(panel.message.is_error);
    assert_eq!(panel.message.text, "内置数据服务已退出");
    assert!(panel.connection.notice.as_ref().unwrap().is_error);
    assert_eq!(panel.robot.last_upstream_message_at, None);
}

#[test]
fn the_form_asks_for_connections() {
    let mut panel = panel();
    panel.connection.robot_ip = " other ".to_owned();
    panel.connection.connect();
    assert_eq!(panel.connection.robot_ip, "other");
    assert_eq!(panel.connection.notice.as_ref().unwrap().text, "正在连接机器人…");
    let request = panel.take_requested_connection().unwrap();
    assert_eq!(request.settings.robot_ip, "other");
    assert!(request.save);
    assert!(panel.take_requested_connection().is_none());
    panel.connection.robot_ip = "http://other".to_owned();
    panel.connection.connect();
    assert!(panel.connection.notice.as_ref().unwrap().is_error);
    assert!(panel.take_requested_connection().is_none());
    panel.connection.edited();
    assert!(panel.connection.notice.is_none());
    panel.connection.toggle_advanced();
    assert!(panel.connection.advanced_open);
}

#[test]
fn the_picture_is_loaded_anew() {
    let mut panel = panel();
    panel.replays.load(vec![task("t", true)]);
    panel.replays.show_task(0);
    panel.reload_live();
    assert_eq!(panel.replays.selected, None);
    assert!(!panel.take_requested_connection().unwrap().save);
    panel.connection.robot_port = 0;
    panel.reload_live();
    assert!(panel.message.is_error);
    assert!(panel.take_requested_connection().is_none());
}

#[test]
fn recordings_are_listed() {
    let mut panel = panel();
    assert!(panel.replays.needs_loading());
    let mut tasks: Vec<NativeReplayTask> = (0..40).map(|i| task(&format!("task-{i:04}"), true)).collect();
    tasks.insert(0, task("none", false));
    tasks[2].goal_text = Some("门口".to_owned());
    panel.replays.load(tasks);
    assert!(!panel.replays.needs_loading());
    panel.replays.show_task(2);
    assert_eq!(panel.replays.source_label, "回放：门口");
    assert_eq!(panel.take_requested_source().as_deref(), Some("task-0001.rrd"));
    assert_eq!(panel.take_requested_source(), None);
    let rows = panel.replays.rows();
    assert_eq!(rows.len(), 30);
    assert_eq!(rows[0].index, 1);
    assert_eq!(rows[0].label, "未命名任务\ntask-000 · recorded");
    assert!(!rows[0].selected);
    assert!(rows[1].selected);
    assert_eq!(rows[1].label, "门口\ntask-000 · recorded");
    panel.replays.show_live("live");
    assert_eq!(panel.replays.source_label, "实时数据");
    assert_eq!(panel.take_requested_source().as_deref(), Some("live"));
    panel.replays.show();
    assert!(panel.replays.open);
}

#[test]
fn recordings_are_deleted_after_a_question() {
    let mut panel = panel();
    panel.replays.load(vec![task("a", true), task("b", true)]);
    panel.replays.show_task(1);
    assert_eq!(panel.replays.deletion_question(), None);
    panel.replays.request_deletion(1);
    assert_eq!(
        panel.replays.deletion_question().as_deref(),
        Some("确认永久删除“未命名任务”？此操作无法撤销。")
    );
    panel.replays.cancel_deletion();
    panel.replays.deletion_over(Deletion::Done(Vec::new()), "live");
    assert_eq!(panel.replays.tasks.len(), 2);
    panel.replays.request_deletion(1);
    panel.replays.deletion_over(Deletion::Failed("no".to_owned()), "live");
    assert_eq!(panel.replays.error.as_deref(), Some("no"));
    assert!(panel.replays.delete_confirmation.is_none());
    assert_eq!(panel.replays.selected.as_deref(), Some("b"));
    panel.replays.request_deletion(1);
    assert_eq!(panel.replays.error, None);
    panel.replays.deletion_over(Deletion::Done(vec![task("a", true)]), "live");
    assert_eq!(panel.replays.selected, None);
    assert_eq!(panel.replays.requested_source.as_deref(), Some("live"));
    assert!(!panel.replays.nothing_to_list());
    panel.replays.load(vec![task("a", false)]);
    assert!(panel.replays.nothing_to_list());
}

#[test]
fn details_are_shortened() {
    let mut panel = panel();
    assert_eq!(panel.short_task_id(), "—");
    assert_eq!(panel.goal_line(), None);
    assert_eq!(panel.connection_detail(), None);
    let mut report = report();
    report.status.task_id = Some("0123456789".to_owned());
    report.status.goal_text = Some("门口".to_owned());
    panel.poll_results(report);
    assert_eq!(panel.short_task_id(), "01234567");
    assert_eq!(panel.goal_line().as_deref(), Some("目标：门口"));
    panel.robot.upstream_error = Some("e".to_owned());
    assert_eq!(panel.connection_detail().as_deref(), Some("连接详情：e"));
}
