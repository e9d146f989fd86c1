use woosh_viewer::double::Double;
use woosh_viewer::json::{parse_json, Json};
use woosh_viewer::status::{update_native_status, NativePoseSnapshot, NativeStatusSnapshot};
use woosh_viewer::task::{is_active_task_status, task_status_label};

fn json(text: &str) -> Json {
    parse_json(text).unwrap()
}

fn number(value: Double) -> f64 {
    f64::from_bits(value.bits)
}

fn pose(value: &Option<NativePoseSnapshot>) -> NativePoseSnapshot {
    value.unwrap()
}

#[test]
fn websocket_snapshot_populates_realtime_metrics_and_running_state() {
    let mut status = NativeStatusSnapshot::default();
    update_native_status(
        &mut status,
        &json(
            r#"{
                "type": "snapshot",
                "schema_version": "v1",
                "task": {
                    "task_id": "task-1",
                    "goal_text": "去电梯门口",
                    "status": "processing"
                },
                "robot": {
                    "pose": {"x": 8.027, "y": 3.818, "theta": 1.2},
                    "vpr_pose": {"x": 7.902, "y": 4.207, "theta": 1.1}
                },
                "goal": {"pose": {"x": -0.57, "y": -0.77, "theta": -1.56}},
                "planner": {
                    "mode": "line_segment",
                    "global_path": [[0.0, 0.0], [1.0, 1.0], [2.0, 2.0]]
                },
                "dynamic_map": {"map_revision": 3373033343885312, "revision": 13},
                "dynamic_map_recording": true
            }"#,
        ),
    );

    assert!(status.navigation_running);
    assert_eq!(status.task_status, "processing");
    assert_eq!(status.planner_mode.as_deref(), Some("line_segment"));
    assert_eq!(status.path_points, Some(3));
    assert_eq!(status.map_revision, Some(3373033343885312));
    assert_eq!(status.dynamic_revision, Some(13));
    assert!((number(pose(&status.robot_pose).x) - 8.027).abs() < f64::EPSILON);
    assert!((number(pose(&status.vpr_pose).y) - 4.207).abs() < f64::EPSILON);
    assert!((number(pose(&status.goal_pose).theta) + 1.56).abs() < f64::EPSILON);
    assert_eq!(status.schema_version, "v1");
    assert_eq!(status.task_id.as_deref(), Some("task-1"));
    assert_eq!(status.goal_text.as_deref(), Some("去电梯门口"));
    assert!(status.recording_enabled);
}

#[test]
fn incremental_websocket_updates_replace_visible_metrics() {
    let mut status = NativeStatusSnapshot::default();
    update_native_status(
        &mut status,
        &json(
            r#"{
                "type": "pose_update",
                "pose": {"x": 1.0, "y": 2.0, "theta": 0.5},
                "vpr_pose": {"x": 1.1, "y": 2.1, "theta": 0.6}
            }"#,
        ),
    );
    update_native_status(
        &mut status,
        &json(r#"{"type": "goal_update", "goal": {"pose": {"x": 3.0, "y": 4.0, "theta": 1.5}}}"#),
    );
    update_native_status(
        &mut status,
        &json(
            r#"{"type": "planner_update", "mode": "waypoint", "global_path": [[1.0, 2.0], [3.0, 4.0]]}"#,
        ),
    );
    update_native_status(
        &mut status,
        &json(r#"{"type": "dynamic_map_update", "map_revision": 22, "revision": 7}"#),
    );
    update_native_status(&mut status, &json(r#"{"type": "task_status", "status": "busy"}"#));

    assert!(status.navigation_running);
    assert_eq!(status.planner_mode.as_deref(), Some("waypoint"));
    assert_eq!(status.path_points, Some(2));
    assert_eq!(status.map_revision, Some(22));
    assert_eq!(status.dynamic_revision, Some(7));
    assert_eq!(number(pose(&status.goal_pose).x), 3.0);
}

#[test]
fn terminal_task_status_clears_running_state() {
    let mut status = NativeStatusSnapshot::default();
    update_native_status(&mut status, &json(r#"{"type": "task_status", "status": "processing"}"#));
    update_native_status(&mut status, &json(r#"{"type": "task_status", "status": "stopped"}"#));

    assert!(!status.navigation_running);
}

#[test]
fn unknown_status_is_idle() {
    let status = NativeStatusSnapshot::default();
    assert_eq!(status.schema_version, "—");
    assert_eq!(status.task_status, "idle");
    assert!(!status.navigation_running);
    assert!(status.robot_pose.is_none());
}

#[test]
fn words_are_compared_in_lower_case() {
    let mut status = NativeStatusSnapshot::default();
    update_native_status(&mut status, &json(r#"{"type": "task_status", "status": "RUNNING"}"#));
    assert_eq!(status.task_status, "running");
    assert!(status.navigation_running);
    assert!(is_active_task_status("BuSy"));
    assert!(!is_active_task_status("idle"));
}

#[test]
fn a_pose_without_coordinates_is_none() {
    let mut status = NativeStatusSnapshot::default();
    update_native_status(
        &mut status,
        &json(r#"{"type": "pose_update", "pose": {"x": 1, "y": 2}}"#),
    );
    assert_eq!(number(pose(&status.robot_pose).x), 1.0);
    assert_eq!(number(pose(&status.robot_pose).theta), 0.0);
    update_native_status(&mut status, &json(r#"{"type": "pose_update", "vpr_pose": null}"#));
    assert!(status.robot_pose.is_some());
    update_native_status(&mut status, &json(r#"{"type": "pose_update", "pose": {"x": 1}}"#));
    assert!(status.robot_pose.is_none());
}

#[test]
fn a_stop_holds_until_the_task_is_told() {
    let mut status = NativeStatusSnapshot::default();
    update_native_status(&mut status, &json(r#"{"type": "task_status", "status": "running"}"#));
    status.set_navigation_running_from_control(false);
    assert_eq!(status.task_status, "stopped");
    update_native_status(
        &mut status,
        &json(r#"{"type": "pose_update", "pose": {"x": 1, "y": 2}}"#),
    );
    assert!(!status.navigation_running);
    status.set_navigation_running_from_control(true);
    assert_eq!(status.task_status, "accepted");
    assert!(status.navigation_running);
    status.set_navigation_running_from_control(true);
    assert_eq!(status.task_status, "accepted");
}

#[test]
fn snapshots_without_a_plan_forget_the_plan() {
    let mut status = NativeStatusSnapshot::default();
    update_native_status(
        &mut status,
        &json(r#"{"type": "planner_update", "mode": "waypoint", "global_path": [[1, 2]]}"#),
    );
    update_native_status(&mut status, &json(r#"{"type": "snapshot"}"#));
    assert!(status.planner_mode.is_none());
    assert!(status.path_points.is_none());
}

#[test]
fn recording_updates_are_taken_over() {
    let mut status = NativeStatusSnapshot::default();
    update_native_status(
        &mut status,
        &json(r#"{"type": "dynamic_map_recording_update", "enabled": true}"#),
    );
    assert!(status.recording_enabled);
    update_native_status(
        &mut status,
        &json(r#"{"type": "dynamic_map_recording_update", "enabled": "no"}"#),
    );
    assert!(status.recording_enabled);
}

#[test]
fn labels_of_statuses() {
    assert_eq!(task_status_label("Processing"), "执行中");
    assert_eq!(task_status_label("SUCCEEDED"), "已完成");
    assert_eq!(task_status_label("error"), "异常");
    assert_eq!(task_status_label("canceled"), "已停止");
    assert_eq!(task_status_label("idle"), "待命");
}

#[test]
fn doubles_are_ordered_by_value() {
    let d = |x: f64| Double { bits: x.to_bits() };
    assert!(d(1.5).at_most(d(1.5)));
    assert!(d(-2.0).at_most(d(1.0)));
    assert!(d(-2.0).at_most(d(-1.0)));
    assert!(!d(-1.0).at_most(d(-2.0)));
    assert!(d(-0.0).at_most(d(0.0)));
    assert!(d(0.0).at_most(d(-0.0)));
    assert!(!d(f64::NAN).at_most(d(1.0)));
    assert!(!d(1.0).at_most(d(f64::NAN)));
    assert!(d(f64::INFINITY).is_positive());
    assert!(!d(-0.0).is_positive());
    assert!(!d(f64::NAN).is_positive());
    assert_eq!(Double::one(), d(1.0));
    assert_eq!(Double::zero(), d(0.0));
    assert_eq!(woosh_viewer::double::TWO_BITS, 2.0f64.to_bits());
    assert_eq!(woosh_viewer::double::TEN_BITS, 10.0f64.to_bits());
}

#[test]
fn a_status_in_capitals_is_known_in_small_letters() {
    let mut status = NativeStatusSnapshot::default();
    update_native_status(&mut status, &json(r#"{"type":"task_status","status":"Busy"}"#));
    assert_eq!(status.task_status, "busy");
    assert!(status.navigation_running);
}
