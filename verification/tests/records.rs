use std::path::PathBuf;

use woosh_viewer::history::{
    check_replay_deletion, newest_entries, record_dir_name, replay_task, replay_tasks_in,
    HistoryEntry,
};
use woosh_viewer::json::{parse_json, Json};
use woosh_viewer::occupancy::{can_hold_grid, dynamic_map, DynamicMap};

fn entry(name: &str, has_recording: bool, metadata: Option<&str>) -> HistoryEntry {
    HistoryEntry {
        task_dir: PathBuf::from(name),
        dir_name: Some(name.to_owned()),
        recording_source: format!("{name}/recording.rrd"),
        has_recording,
        metadata: metadata.map(|s| s.to_owned()),
    }
}

fn path(names: &[&str]) -> Vec<Vec<u8>> {
    names.iter().map(|name| name.as_bytes().to_vec()).collect()
}

fn json(text: &str) -> Json {
    parse_json(text).unwrap()
}

fn cells(text: &str) -> Vec<u8> {
    match dynamic_map(&json(text)) {
        DynamicMap::Grid { cells, .. } => cells,
        other => panic!("no grid: {other:?}"),
    }
}

#[test]
fn deletion_is_limited_to_direct_children() {
    let history = path(&["/", "tmp", "rerun-history"]);
    let task = path(&["/", "tmp", "rerun-history", "task-1"]);
    let outside = path(&["/", "tmp", "outside"]);
    let nested = path(&["/", "tmp", "rerun-history", "task-1", "x"]);
    assert!(check_replay_deletion(&history, &task, true).is_ok());
    assert_eq!(
        check_replay_deletion(&history, &outside, true).unwrap_err(),
        "拒绝删除：所选目录不是有效的任务记录"
    );
    assert!(check_replay_deletion(&history, &nested, true).is_err());
    assert!(check_replay_deletion(&history, &history, true).is_err());
    assert!(check_replay_deletion(&history, &task, false).is_err());
    assert!(check_replay_deletion(&history, &Vec::new(), true).is_err());
}

#[test]
fn the_newest_entries_come_first() {
    assert_eq!(newest_entries(&vec![3, 9, -1, 9]), vec![1, 3, 0, 2]);
    assert_eq!(newest_entries(&vec![]), Vec::<usize>::new());
    let many: Vec<i128> = (0..60).collect();
    let order = newest_entries(&many);
    assert_eq!(order.len(), 50);
    assert_eq!(order[0], 59);
    assert_eq!(order[49], 10);
}

#[test]
fn records_are_named_after_time_and_task() {
    assert_eq!(record_dir_name(1700, "a/b ..去-Z_9"), "1700-a_b____-Z_9");
    assert_eq!(record_dir_name(0, &"x".repeat(90)), format!("0-{}", "x".repeat(80)));
    assert_eq!(record_dir_name(7, ""), "7-");
}

#[test]
fn records_are_described_by_their_notes() {
    let task = replay_task(entry(
        "d",
        true,
        Some(r#"{"goal_text":"g","status":"succeeded","task_id":"t","updated_at":1.5}"#),
    ))
    .unwrap();
    assert_eq!(task.task_id, "t");
    assert_eq!(task.goal_text.as_deref(), Some("g"));
    assert_eq!(task.status, "succeeded");
    assert!(task.has_rerun_recording);
    assert_eq!(task.recording_source, "d/recording.rrd");
    assert_eq!(task.task_dir, PathBuf::from("d"));
}

#[test]
fn records_without_notes_are_named_by_their_directory() {
    let task = replay_task(entry("d", true, None)).unwrap();
    assert_eq!(task.task_id, "d");
    assert_eq!(task.goal_text, None);
    assert_eq!(task.status, "recorded");
    let mut nameless = entry("d", true, Some("no document"));
    nameless.dir_name = None;
    assert_eq!(replay_task(nameless).unwrap().task_id, "task");
    assert!(replay_task(entry("d", false, None)).is_none());
}

#[test]
fn directories_without_recordings_are_passed_over() {
    let tasks = replay_tasks_in(vec![
        entry("a", true, None),
        entry("b", false, None),
        entry("c", true, None),
    ]);
    let ids: Vec<&str> = tasks.iter().map(|task| task.task_id.as_str()).collect();
    assert_eq!(ids, ["a", "c"]);
}

#[test]
fn obstacles_cover_inflated_cells() {
    assert_eq!(
        cells(
            r#"{"width":3,"height":2,"inflated_runs":[[0,4]],"occupied_runs":[[1,2],[5,100]]}"#
        ),
        [1, 2, 2, 1, 0, 2]
    );
}

#[test]
fn runs_with_mistakes_cover_nothing() {
    assert_eq!(
        cells(
            r#"{"width":4,"height":1,"occupied_runs":[7,[],[2],["x",1],[9,1],[3,18446744073709551615]],"inflated_runs":{}}"#
        ),
        [2, 0, 0, 2]
    );
}

#[test]
fn maps_without_cells_change_nothing() {
    assert!(matches!(dynamic_map(&json("{}")), DynamicMap::Keep));
    assert!(matches!(dynamic_map(&json(r#"{"width":5,"height":0}"#)), DynamicMap::Keep));
    assert!(matches!(
        dynamic_map(&json(r#"{"width":18446744073709551615,"height":2}"#)),
        DynamicMap::Keep
    ));
    assert!(matches!(
        dynamic_map(&json(r#"{"clear":true,"width":2,"height":2}"#)),
        DynamicMap::Clear
    ));
}

#[test]
fn grids_that_no_memory_holds_are_told() {
    assert!(!can_hold_grid(&json(r#"{"width":9223372036854775808,"height":1}"#)));
    assert!(can_hold_grid(&json(r#"{"clear":true,"width":9223372036854775808,"height":1}"#)));
    assert!(can_hold_grid(&json(r#"{"width":18446744073709551615,"height":2}"#)));
    assert!(can_hold_grid(&json(r#"{"width":2,"height":2}"#)));
}
