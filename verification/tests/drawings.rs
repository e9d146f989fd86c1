use std::path::PathBuf;

use woosh_viewer::double::Double;
use woosh_viewer::drawing::{
    log_event, steps_for_message, Drawing, Rgba, Step, TaskReport,
};
use woosh_viewer::history::{replay_task, HistoryEntry};
use woosh_viewer::json::{parse_json, Json};
use woosh_viewer::logger::{map_failure_text, robot_entities, MapFailure, MapRefresh, NavigationLogger};
use woosh_viewer::sidecar::NativeSidecarSettings;
use woosh_viewer::status::NativeStatusSnapshot;

fn json(text: &str) -> Json {
    parse_json(text).unwrap()
}

fn steps(text: &str) -> Vec<Step> {
    steps_for_message(&json(text))
}

fn number(value: Double) -> f64 {
    f64::from_bits(value.bits)
}

fn settings(ip: &str, port: u16) -> NativeSidecarSettings {
    NativeSidecarSettings {
        robot_ip: ip.to_owned(),
        robot_port: port,
        rerun_port: 9876,
        history_dir: PathBuf::from("history"),
    }
}

fn logger() -> NavigationLogger {
    NavigationLogger::new(settings("robot", 8008))
}

fn report(id: Option<&str>, status: &str) -> TaskReport {
    TaskReport {
        task_id: id.map(|s| s.to_owned()),
        goal_text: Some("去\"门\"".to_owned()),
        status: status.to_owned(),
    }
}

#[test]
fn poses_are_marked() {
    let steps = steps(r#"{"type":"pose_update","pose":{"x":1,"y":2.5},"vpr_pose":null}"#);
    assert_eq!(steps.len(), 3);
    assert!(matches!(steps[0], Step::Time));
    match &steps[1] {
        Step::Draw(Drawing::Marker { entity, pose, color, label, heading, order }) => {
            assert_eq!(*entity, "world/robot");
            assert_eq!(number(pose.y), 2.5);
            assert_eq!(number(pose.theta), 0.0);
            assert_eq!(*color, Rgba { r: 42, g: 203, b: 225, a: 255 });
            assert_eq!(*label, "Robot 定位");
            assert!(*heading);
            assert_eq!(*order, 30);
        }
        other => panic!("{other:?}"),
    }
    match &steps[2] {
        Step::Draw(Drawing::Clear { entity }) => assert_eq!(*entity, "world/vpr_pose"),
        other => panic!("{other:?}"),
    }
}

#[test]
fn poses_without_coordinates_are_not_drawn() {
    let steps = steps(r#"{"type":"goal_update","goal":{"pose":{"x":1}}}"#);
    assert_eq!(steps.len(), 1);
}

#[test]
fn plans_are_drawn() {
    let steps = steps(
        r#"{"type":"planner_update","global_path":[[0,0],[1],[2,"x"],[3,4,5]],"waypoints":[[1,1]],"local_goal":[7,8]}"#,
    );
    assert_eq!(steps.len(), 5);
    match &steps[1] {
        Step::Draw(Drawing::Path { entity, points, order, .. }) => {
            assert_eq!(*entity, "world/planner/global_path");
            assert_eq!(points.len(), 2);
            assert_eq!(number(points[1].x), 3.0);
            assert_eq!(number(points[1].y), 4.0);
            assert_eq!(*order, 6);
        }
        other => panic!("{other:?}"),
    }
    assert!(matches!(
        &steps[2],
        Step::Draw(Drawing::Clear { entity: "world/planner/local_path" })
    ));
    assert!(matches!(
        &steps[3],
        Step::Draw(Drawing::Points { entity: "world/planner/waypoints", .. })
    ));
    match &steps[4] {
        Step::Draw(Drawing::Points { entity, points, .. }) => {
            assert_eq!(*entity, "world/planner/local_goal");
            assert_eq!(number(points[0].y), 8.0);
        }
        other => panic!("{other:?}"),
    }
}

#[test]
fn a_path_of_one_point_is_cleared() {
    let steps = steps(r#"{"type":"planner_update","global_path":[[0,0]],"local_goal":null}"#);
    assert!(matches!(
        &steps[1],
        Step::Draw(Drawing::Clear { entity: "world/planner/global_path" })
    ));
    assert!(matches!(
        &steps[4],
        Step::Draw(Drawing::Clear { entity: "world/planner/local_goal" })
    ));
}

#[test]
fn events_are_logged_with_their_level() {
    let event = steps(r#"{"type":"event","level":"warn","x":1}"#);
    match &event[1] {
        Step::Draw(Drawing::Text { entity, text, level }) => {
            assert_eq!(*entity, "events/navigation");
            assert_eq!(text, r#"{"level":"warn","type":"event","x":1}"#);
            assert_eq!(level, "WARN");
        }
        other => panic!("{other:?}"),
    }
    match log_event("events/connection", "t".to_owned(), "straße") {
        Drawing::Text { level, .. } => assert_eq!(level, "STRASSE"),
        other => panic!("{other:?}"),
    }
}

#[test]
fn task_messages_begin_and_end_recordings() {
    let steps = steps(r#"{"type":"task_status","task_id":"t","status":"Running"}"#);
    assert_eq!(steps.len(), 4);
    match (&steps[0], &steps[3]) {
        (Step::BeginTask(begin), Step::EndTask(end)) => {
            assert_eq!(begin.task_id.as_deref(), Some("t"));
            assert_eq!(begin.status, "running");
            assert_eq!(end.status, "running");
            assert_eq!(end.goal_text, None);
        }
        other => panic!("{other:?}"),
    }
}

#[test]
fn snapshots_are_drawn_part_by_part() {
    let steps = steps(
        r#"{"type":"snapshot","task":{"task_id":"t","status":"running"},
            "robot":{"pose":{"x":1,"y":2}},"goal":{"pose":{"x":3,"y":4}},
            "planner":{"type":"snapshot","waypoints":[[1,2]]},
            "images":{"a":{}},"dynamic_map":{"clear":true}}"#,
    );
    let kinds: Vec<&str> = steps
        .iter()
        .map(|step| match step {
            Step::Time => "time",
            Step::BeginTask(_) => "begin",
            Step::EndTask(_) => "end",
            Step::Draw(Drawing::Clear { .. }) => "clear",
            Step::Draw(Drawing::Marker { .. }) => "marker",
            Step::Draw(Drawing::Path { .. }) => "path",
            Step::Draw(Drawing::Points { .. }) => "points",
            Step::Draw(Drawing::Text { .. }) => "text",
            Step::Images(_) => "images",
            Step::DynamicMap(_) => "map",
        })
        .collect();
    assert_eq!(
        kinds,
        [
            "time", "begin", "time", "text", "end", "time", "marker", "clear", "time", "marker",
            "time", "clear", "clear", "points", "images", "map"
        ]
    );
    match &steps[3] {
        Step::Draw(Drawing::Text { text, .. }) => assert_eq!(
            text,
            r#"{"goal_text":null,"schema_version":null,"status":"running","task_id":"t","timestamp":null,"type":"task_status"}"#
        ),
        other => panic!("{other:?}"),
    }
}

#[test]
fn unknown_messages_only_tell_the_time() {
    assert_eq!(steps(r#"{"type":"other"}"#).len(), 1);
    assert_eq!(steps("[]").len(), 1);
}

#[test]
fn images_are_fetched_once() {
    let mut logger = logger();
    let images = json(
        r#"{"rgb_latest":{"url":"/a","version":3},"rgb_navdp":{"url":"b"},"x":{"url":"https://h/c","version":"v"},"y":{}}"#,
    );
    let wanted = logger.wanted_images(&images);
    assert_eq!(wanted.len(), 3);
    assert_eq!(wanted[0].url, "http://robot:8008/a");
    assert_eq!(wanted[0].identity, "3:/a");
    assert_eq!(wanted[0].entity, "sensors/front/rgb");
    assert_eq!(wanted[1].url, "http://robot:8008/b");
    assert_eq!(wanted[1].identity, "null:b");
    assert_eq!(wanted[1].entity, "planner/navdp/input");
    assert_eq!(wanted[2].url, "https://h/c");
    assert_eq!(wanted[2].identity, "\"v\":https://h/c");
    assert_eq!(wanted[2].entity, "sensors/x");
    logger.image_shown("rgb_latest".to_owned(), "3:/a".to_owned());
    logger.image_shown("x".to_owned(), "old".to_owned());
    assert_eq!(logger.wanted_images(&images).len(), 2);
    logger.image_shown("x".to_owned(), "\"v\":https://h/c".to_owned());
    assert_eq!(logger.wanted_images(&images).len(), 1);
    logger.image_shown("rgb_latest".to_owned(), "4:/a".to_owned());
    assert_eq!(logger.wanted_images(&images).len(), 2);
    assert_eq!(logger.wanted_images(&json("null")).len(), 0);
}

#[test]
fn maps_are_taken_over_once() {
    let mut logger = logger();
    assert_eq!(logger.metadata_url(), "http://robot:8008/viz/api/map/metadata");
    assert_eq!(number(logger.map().resolution), 1.0);
    let metadata =
        json(r#"{"origin":[-1.5,2],"resolution":0.05,"height":100,"image_path":"map.png"}"#);
    match logger.refresh_map(&metadata) {
        MapRefresh::Changed { image_url } => {
            assert_eq!(image_url.as_deref(), Some("http://robot:8008/viz/api/map/image"))
        }
        other => panic!("{other:?}"),
    }
    assert_eq!(number(logger.map().origin_x), -1.5);
    assert_eq!(number(logger.map().origin_y), 2.0);
    assert_eq!(number(logger.map().resolution), 0.05);
    assert_eq!(number(logger.map().height), 100.0);
    assert!(matches!(logger.refresh_map(&metadata), MapRefresh::Unchanged));
    let odd = json(r#"{"origin":{"0":7},"resolution":-1,"image_path":null}"#);
    assert!(matches!(logger.refresh_map(&odd), MapRefresh::Changed { image_url: None }));
    assert_eq!(number(logger.map().origin_x), 7.0);
    assert_eq!(number(logger.map().origin_y), 0.0);
    assert_eq!(number(logger.map().resolution), 1.0);
}

#[test]
fn another_robot_begins_anew() {
    let mut logger = logger();
    let metadata = json(r#"{"height":1}"#);
    logger.refresh_map(&metadata);
    logger.set_map_image(vec![1, 2]);
    logger.recording_started("t".to_owned(), PathBuf::from("d"));
    assert!(!logger.update_settings(settings("robot", 8008)));
    assert!(matches!(logger.refresh_map(&metadata), MapRefresh::Unchanged));
    assert_eq!(logger.map_image(), Some(&vec![1, 2]));
    assert!(logger.update_settings(settings("robot", 8009)));
    assert_eq!(logger.map_image(), None);
    assert_eq!(logger.base_url(), "http://robot:8009");
    assert!(matches!(logger.refresh_map(&metadata), MapRefresh::Changed { .. }));
    assert!(logger.begin_task(&report(Some("t"), "running")));
    assert_eq!(robot_entities().len(), 7);
}

#[test]
fn a_task_is_recorded_from_its_start_to_its_end() {
    let mut logger = logger();
    assert!(!logger.begin_task(&report(Some("t"), "idle")));
    assert!(!logger.begin_task(&report(None, "running")));
    assert!(logger.begin_task(&report(Some("t"), "running")));
    assert!(logger.task_notes(&report(Some("t"), "running"), "1.5").is_none());
    logger.recording_started("t".to_owned(), PathBuf::from("d"));
    assert!(!logger.begin_task(&report(Some("t"), "busy")));
    assert!(logger.task_notes(&report(Some("u"), "busy"), "1.5").is_none());
    assert!(!logger.end_task(&report(Some("u"), "stopped")));
    assert!(!logger.end_task(&report(Some("t"), "busy")));
    assert!(logger.end_task(&report(Some("t"), "stopped")));
    assert!(logger.task_notes(&report(Some("t"), "stopped"), "1.5").is_none());
    logger.recording_started("t".to_owned(), PathBuf::from("d"));
    assert!(logger.begin_task(&report(Some("u"), "queued")));
}

#[test]
fn notes_are_found_again() {
    let mut logger = logger();
    logger.recording_started("t".to_owned(), PathBuf::from("d"));
    let notes = logger.task_notes(&report(Some("t"), "busy"), "1763251200.25").unwrap();
    assert_eq!(notes.task_dir, PathBuf::from("d"));
    assert_eq!(
        notes.text,
        r#"{"goal_text":"去\"门\"","status":"busy","task_id":"t","updated_at":1763251200.25}"#
    );
    let task = replay_task(HistoryEntry {
        task_dir: notes.task_dir,
        dir_name: None,
        recording_source: String::new(),
        has_recording: true,
        metadata: Some(notes.text),
    })
    .unwrap();
    assert_eq!(task.task_id, "t");
    assert_eq!(task.goal_text.as_deref(), Some("去\"门\""));
    assert_eq!(task.status, "busy");
}

#[test]
fn the_summary_is_shown_once() {
    let mut logger = logger();
    let mut status = NativeStatusSnapshot::default();
    let document = logger.status_document(&status, Some("p"), None, None).unwrap();
    assert_eq!(
        document,
        "**Robot**  \np\n\n**VPR**  \n—\n\n**Goal**  \n—\n\n---\n\n**Mode**　—  \n**Map**　—  \n**Path**　0 points"
    );
    assert!(logger.status_document(&status, Some("p"), None, None).is_none());
    status.map_revision = Some(3);
    status.planner_mode = Some("m".to_owned());
    status.path_points = Some(12);
    let document = logger.status_document(&status, Some("p"), None, Some("g")).unwrap();
    assert!(document.ends_with("**Goal**  \ng\n\n---\n\n**Mode**　m  \n**Map**　3 / —  \n**Path**　12 points"));
    status.dynamic_revision = Some(4);
    let document = logger.status_document(&status, None, None, None).unwrap();
    assert!(document.contains("**Map**　3 / 4  \n"));
    status.map_revision = None;
    let document = logger.status_document(&status, None, None, None).unwrap();
    assert!(document.contains("**Map**　— / 4  \n"));
}

#[test]
fn failures_about_the_map_are_explained() {
    assert_eq!(map_failure_text(MapFailure::Request("e".to_owned())), "读取地图元数据失败：e");
    assert_eq!(map_failure_text(MapFailure::Document("e".to_owned())), "地图元数据 JSON 无效：e");
}

#[test]
fn replies_about_the_map_are_taken_in() {
    let mut logger = logger();
    let text = r#"{"height":5,"image_path":"m"}"#.to_owned();
    assert!(matches!(
        logger.take_metadata(Ok(text.clone())),
        Ok(MapRefresh::Changed { image_url: Some(_) })
    ));
    assert_eq!(
        logger.take_metadata(Err(MapFailure::Request("e".to_owned()))).unwrap_err(),
        "读取地图元数据失败：e"
    );
    assert_eq!(
        logger.take_metadata(Err(MapFailure::Document("e".to_owned()))).unwrap_err(),
        "地图元数据 JSON 无效：e"
    );
    assert_eq!(
        logger.take_metadata(Ok("{".to_owned())).unwrap_err(),
        "地图元数据 JSON 无效：json: EOF while parsing an object at line 1 column 1"
    );
    assert_eq!(
        logger.take_parsed_metadata(Err("why".to_owned())).unwrap_err(),
        "地图元数据 JSON 无效：json: why"
    );
    assert_eq!(number(logger.map().height), 5.0);
    assert!(matches!(logger.take_metadata(Ok(text)), Ok(MapRefresh::Unchanged)));
}
