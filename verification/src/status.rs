//! The robot's state as the data stream tells it.

use vstd::prelude::*;
use vstd::utf8::*;

use crate::double::Double;
use crate::json::{
    double_in, flag_in, items_in, opt_json, present, text_in, unsigned_in, Json, JsonView,
};
use crate::task::{
    active_word, is_active_word, law_active_words, law_terminal_is_not_active, terminal_word,
};
use crate::text::{ascii_lower, clone_opt, lowercase, opt_text, same_text, to_lower};

verus! {

/// A position on the map and a heading.
#[derive(Clone, Copy, Debug, PartialEq, Eq, Structural)]
pub struct NativePoseSnapshot {
    pub x: Double,
    pub y: Double,
    pub theta: Double,
}

/// What is known of the robot.
#[derive(Debug)]
pub struct NativeStatusSnapshot {
    pub schema_version: String,
    pub task_id: Option<String>,
    pub task_status: String,
    pub goal_text: Option<String>,
    pub navigation_running: bool,
    pub recording_enabled: bool,
    pub robot_pose: Option<NativePoseSnapshot>,
    pub vpr_pose: Option<NativePoseSnapshot>,
    pub goal_pose: Option<NativePoseSnapshot>,
    pub planner_mode: Option<String>,
    pub map_revision: Option<u64>,
    pub dynamic_revision: Option<u64>,
    pub path_points: Option<usize>,
}

pub struct StatusView {
    pub schema_version: Seq<char>,
    pub task_id: Option<Seq<char>>,
    pub task_status: Seq<char>,
    pub goal_text: Option<Seq<char>>,
    pub navigation_running: bool,
    pub recording_enabled: bool,
    pub robot_pose: Option<NativePoseSnapshot>,
    pub vpr_pose: Option<NativePoseSnapshot>,
    pub goal_pose: Option<NativePoseSnapshot>,
    pub planner_mode: Option<Seq<char>>,
    pub map_revision: Option<u64>,
    pub dynamic_revision: Option<u64>,
    pub path_points: Option<usize>,
}

impl View for NativeStatusSnapshot {
    type V = StatusView;

    open spec fn view(&self) -> StatusView {
        StatusView {
            schema_version: self.schema_version@,
            task_id: opt_text(self.task_id),
            task_status: self.task_status@,
            goal_text: opt_text(self.goal_text),
            navigation_running: self.navigation_running,
            recording_enabled: self.recording_enabled,
            robot_pose: self.robot_pose,
            vpr_pose: self.vpr_pose,
            goal_pose: self.goal_pose,
            planner_mode: opt_text(self.planner_mode),
            map_revision: self.map_revision,
            dynamic_revision: self.dynamic_revision,
            path_points: self.path_points,
        }
    }
}

/// What is known before the robot has said anything.
pub open spec fn unknown_status() -> StatusView {
    StatusView {
        schema_version: "—"@,
        task_id: None,
        task_status: "idle"@,
        goal_text: None,
        navigation_running: false,
        recording_enabled: false,
        robot_pose: None,
        vpr_pose: None,
        goal_pose: None,
        planner_mode: None,
        map_revision: None,
        dynamic_revision: None,
        path_points: None,
    }
}

impl StatusView {
    /// A navigation counts as running exactly while the task's status is that of a
    /// task under way.
    pub open spec fn coherent(self) -> bool {
        self.navigation_running == active_word(self.task_status)
    }
}

/// The kind of a message: its member `type`, or the empty text.
pub open spec fn message_kind(m: JsonView) -> Seq<char> {
    match m.text_at("type"@) {
        Some(kind) => kind,
        None => Seq::empty(),
    }
}

/// The pose that a document describes: `x` and `y` are needed, `theta` is zero where
/// it is missing.
pub open spec fn pose_of(value: Option<JsonView>) -> Option<NativePoseSnapshot> {
    match present(value) {
        None => None,
        Some(v) => match (double_in(v.get("x"@)), double_in(v.get("y"@))) {
            (Some(x), Some(y)) => Some(
                NativePoseSnapshot {
                    x,
                    y,
                    theta: match double_in(v.get("theta"@)) {
                        Some(theta) => theta,
                        None => Double { bits: 0 },
                    },
                },
            ),
            _ => None,
        },
    }
}

/// How many elements a document has, where it is a list.
pub open spec fn count_of(value: Option<JsonView>) -> Option<usize> {
    match items_in(value) {
        Some(items) => Some(items.len() as usize),
        None => None,
    }
}

/// A new value where the message speaks of the matter, the old one where it does not.
pub open spec fn replaced<T>(told: Option<JsonView>, new: T, old: T) -> T {
    if told is Some {
        new
    } else {
        old
    }
}

/// The part of a message that speaks of the task.
pub open spec fn task_part(m: JsonView) -> Option<JsonView> {
    let kind = message_kind(m);
    if kind == "snapshot"@ {
        m.get("task"@)
    } else if kind == "task_status"@ {
        Some(m)
    } else {
        None
    }
}

/// The part of a message that speaks of the dynamic map.
pub open spec fn map_part(m: JsonView) -> Option<JsonView> {
    let kind = message_kind(m);
    if kind == "snapshot"@ {
        present(m.get("dynamic_map"@))
    } else if kind == "dynamic_map_update"@ {
        Some(m)
    } else {
        None
    }
}

pub open spec fn next_schema_version(old: Seq<char>, m: JsonView) -> Seq<char> {
    match m.text_at("schema_version"@) {
        Some(version) => version,
        None => old,
    }
}

pub open spec fn next_robot_pose(
    old: Option<NativePoseSnapshot>,
    m: JsonView,
) -> Option<NativePoseSnapshot> {
    let kind = message_kind(m);
    if kind == "snapshot"@ {
        pose_of(m.get2("robot"@, "pose"@))
    } else if kind == "pose_update"@ {
        replaced(m.get("pose"@), pose_of(m.get("pose"@)), old)
    } else {
        old
    }
}

pub open spec fn next_vpr_pose(
    old: Option<NativePoseSnapshot>,
    m: JsonView,
) -> Option<NativePoseSnapshot> {
    let kind = message_kind(m);
    if kind == "snapshot"@ {
        pose_of(m.get2("robot"@, "vpr_pose"@))
    } else if kind == "pose_update"@ {
        replaced(m.get("vpr_pose"@), pose_of(m.get("vpr_pose"@)), old)
    } else {
        old
    }
}

pub open spec fn next_goal_pose(
    old: Option<NativePoseSnapshot>,
    m: JsonView,
) -> Option<NativePoseSnapshot> {
    let kind = message_kind(m);
    let told = m.get2("goal"@, "pose"@);
    if kind == "snapshot"@ {
        pose_of(told)
    } else if kind == "goal_update"@ {
        replaced(told, pose_of(told), old)
    } else {
        old
    }
}

pub open spec fn next_planner_mode(old: Option<Seq<char>>, m: JsonView) -> Option<Seq<char>> {
    let kind = message_kind(m);
    if kind == "snapshot"@ {
        text_in(m.get2("planner"@, "mode"@))
    } else if kind == "planner_update"@ {
        replaced(m.get("mode"@), m.text_at("mode"@), old)
    } else {
        old
    }
}

pub open spec fn next_path_points(old: Option<usize>, m: JsonView) -> Option<usize> {
    let kind = message_kind(m);
    if kind == "snapshot"@ {
        count_of(m.get2("planner"@, "global_path"@))
    } else if kind == "planner_update"@ {
        replaced(m.get("global_path"@), count_of(m.get("global_path"@)), old)
    } else {
        old
    }
}

pub open spec fn next_map_revision(old: Option<u64>, m: JsonView) -> Option<u64> {
    match map_part(m) {
        Some(map) => replaced(map.get("map_revision"@), unsigned_in(map.get("map_revision"@)), old),
        None => old,
    }
}

pub open spec fn next_dynamic_revision(old: Option<u64>, m: JsonView) -> Option<u64> {
    match map_part(m) {
        Some(map) => replaced(map.get("revision"@), unsigned_in(map.get("revision"@)), old),
        None => old,
    }
}

pub open spec fn next_task_id(old: Option<Seq<char>>, m: JsonView) -> Option<Seq<char>> {
    match task_part(m) {
        Some(task) => replaced(task.get("task_id"@), task.text_at("task_id"@), old),
        None => old,
    }
}

pub open spec fn next_goal_text(old: Option<Seq<char>>, m: JsonView) -> Option<Seq<char>> {
    match task_part(m) {
        Some(task) => replaced(task.get("goal_text"@), task.text_at("goal_text"@), old),
        None => old,
    }
}

pub open spec fn next_task_status(old: Seq<char>, m: JsonView) -> Seq<char> {
    match task_part(m) {
        Some(task) => match task.text_at("status"@) {
            Some(status) => lowercase(status),
            None => old,
        },
        None => old,
    }
}

pub open spec fn next_recording(old: bool, m: JsonView) -> bool {
    let kind = message_kind(m);
    let told = if kind == "snapshot"@ {
        flag_in(m.get("dynamic_map_recording"@))
    } else if kind == "dynamic_map_recording_update"@ {
        flag_in(m.get("enabled"@))
    } else {
        None
    };
    match told {
        Some(enabled) => enabled,
        None => old,
    }
}

/// What is known after a message.
pub open spec fn status_after(s: StatusView, m: JsonView) -> StatusView {
    let task_status = next_task_status(s.task_status, m);
    StatusView {
        schema_version: next_schema_version(s.schema_version, m),
        task_id: next_task_id(s.task_id, m),
        task_status,
        goal_text: next_goal_text(s.goal_text, m),
        navigation_running: if task_part(m) is Some {
            active_word(task_status)
        } else {
            s.navigation_running
        },
        recording_enabled: next_recording(s.recording_enabled, m),
        robot_pose: next_robot_pose(s.robot_pose, m),
        vpr_pose: next_vpr_pose(s.vpr_pose, m),
        goal_pose: next_goal_pose(s.goal_pose, m),
        planner_mode: next_planner_mode(s.planner_mode, m),
        map_revision: next_map_revision(s.map_revision, m),
        dynamic_revision: next_dynamic_revision(s.dynamic_revision, m),
        path_points: next_path_points(s.path_points, m),
    }
}

/// What is known after the operator's own request to start or to stop was answered.
pub open spec fn status_after_control(s: StatusView, running: bool) -> StatusView {
    StatusView {
        navigation_running: running,
        task_status: task_status_after_control(s.task_status, running),
        ..s
    }
}

/// A start makes a task that was not under way an accepted one, a stop makes a task
/// under way a stopped one.
pub open spec fn task_status_after_control(status: Seq<char>, running: bool) -> Seq<char> {
    if running && !active_word(status) {
        "accepted"@
    } else if !running && active_word(status) {
        "stopped"@
    } else {
        status
    }
}

impl Default for NativeStatusSnapshot {
    fn default() -> (r: Self)
        ensures
            r@ == unknown_status(),
    {
        NativeStatusSnapshot {
            schema_version: "—".to_owned(),
            task_id: None,
            task_status: "idle".to_owned(),
            goal_text: None,
            navigation_running: false,
            recording_enabled: false,
            robot_pose: None,
            vpr_pose: None,
            goal_pose: None,
            planner_mode: None,
            map_revision: None,
            dynamic_revision: None,
            path_points: None,
        }
    }
}

pub fn text_value(value: Option<&Json>) -> (r: Option<String>)
    ensures
        opt_text(r) == text_in(opt_json(value)),
{
    match value {
        Some(v) => match v.as_text() {
            Some(s) => Some(s.to_owned()),
            None => None,
        },
        None => None,
    }
}

pub fn flag_value(value: Option<&Json>) -> (r: Option<bool>)
    ensures
        r == flag_in(opt_json(value)),
{
    match value {
        Some(v) => v.as_flag(),
        None => None,
    }
}

pub fn unsigned_value(value: Option<&Json>) -> (r: Option<u64>)
    ensures
        r == unsigned_in(opt_json(value)),
{
    match value {
        Some(v) => v.as_unsigned(),
        None => None,
    }
}

pub fn double_value(value: Option<&Json>) -> (r: Option<Double>)
    ensures
        r == double_in(opt_json(value)),
{
    match value {
        Some(v) => v.as_double(),
        None => None,
    }
}

fn count_value(value: Option<&Json>) -> (r: Option<usize>)
    ensures
        r == count_of(opt_json(value)),
{
    match value {
        Some(v) => match v.as_items() {
            Some(items) => Some(items.len()),
            None => None,
        },
        None => None,
    }
}

/// A document, without one that is `null`.
pub fn present_value(value: Option<&Json>) -> (r: Option<&Json>)
    ensures
        opt_json(r) == present(opt_json(value)),
{
    match value {
        Some(v) => if v.is_null() {
            None
        } else {
            Some(v)
        },
        None => None,
    }
}

/// The kind of a message.
pub fn kind_of(message: &Json) -> (r: String)
    ensures
        r@ == message_kind(message.view()),
{
    match text_value(message.get("type")) {
        Some(kind) => kind,
        None => String::new(),
    }
}

/// Reads a pose.
pub fn parse_pose_snapshot(value: Option<&Json>) -> (r: Option<NativePoseSnapshot>)
    ensures
        r == pose_of(opt_json(value)),
{
    match present_value(value) {
        None => None,
        Some(v) => match (double_value(v.get("x")), double_value(v.get("y"))) {
            (Some(x), Some(y)) => {
                let theta = match double_value(v.get("theta")) {
                    Some(theta) => theta,
                    None => Double::zero(),
                };
                Some(NativePoseSnapshot { x, y, theta })
            },
            _ => None,
        },
    }
}

/// Takes over the revisions of the static and of the dynamic map.
fn update_map_status(status: &mut NativeStatusSnapshot, value: Option<&Json>)
    ensures
        final(status)@ == (match present(opt_json(value)) {
            Some(map) => StatusView {
                map_revision: replaced(
                    map.get("map_revision"@),
                    unsigned_in(map.get("map_revision"@)),
                    old(status)@.map_revision,
                ),
                dynamic_revision: replaced(
                    map.get("revision"@),
                    unsigned_in(map.get("revision"@)),
                    old(status)@.dynamic_revision,
                ),
                ..old(status)@
            },
            None => old(status)@,
        }),
{
    match present_value(value) {
        Some(map) => {
            if map.get("map_revision").is_some() {
                status.map_revision = unsigned_value(map.get("map_revision"));
            }
            if map.get("revision").is_some() {
                status.dynamic_revision = unsigned_value(map.get("revision"));
            }
        },
        None => {},
    }
}

/// The kinds of messages are different words.
pub proof fn lemma_kinds_differ()
    ensures
        "snapshot"@.len() == 8,
        "pose_update"@.len() == 11,
        "pose_update"@[0] == 'p',
        "goal_update"@.len() == 11,
        "goal_update"@[0] == 'g',
        "task_status"@.len() == 11,
        "task_status"@[0] == 't',
        "planner_update"@.len() == 14,
        "image_update"@.len() == 12,
        "event"@.len() == 5,
        "dynamic_map_update"@.len() == 18,
        "dynamic_map_recording_update"@.len() == 28,
{
    reveal_strlit("snapshot");
    reveal_strlit("pose_update");
    reveal_strlit("goal_update");
    reveal_strlit("task_status");
    reveal_strlit("planner_update");
    reveal_strlit("image_update");
    reveal_strlit("event");
    reveal_strlit("dynamic_map_update");
    reveal_strlit("dynamic_map_recording_update");
}

/// Whether a status that a message tells in ASCII is known with its capitals as small
/// letters.
pub open spec fn is_in_small_letters(known: StatusView, m: JsonView) -> bool {
    task_part(m) matches Some(task) ==> (task.text_at("status"@) matches Some(status)
        ==> is_ascii_chars(status) ==> known.task_status == ascii_lower(status))
}

/// Takes over what a message of the data stream says.
pub fn update_native_status(status: &mut NativeStatusSnapshot, message: &Json)
    ensures
        final(status)@ == status_after(old(status)@, message.view()),
        is_in_small_letters(final(status)@, message.view()),
{
    proof {
        lemma_kinds_differ();
    }
    match text_value(message.get("schema_version")) {
        Some(version) => {
            status.schema_version = version;
        },
        None => {},
    }
    let kind = kind_of(message);
    let kind = kind.as_str();
    let is_snapshot = same_text(kind, "snapshot");
    if is_snapshot {
        status.robot_pose = parse_pose_snapshot(message.get2("robot", "pose"));
        status.vpr_pose = parse_pose_snapshot(message.get2("robot", "vpr_pose"));
        status.goal_pose = parse_pose_snapshot(message.get2("goal", "pose"));
        status.planner_mode = text_value(message.get2("planner", "mode"));
        status.path_points = count_value(message.get2("planner", "global_path"));
        update_map_status(status, message.get("dynamic_map"));
    } else if same_text(kind, "pose_update") {
        if message.get("pose").is_some() {
            status.robot_pose = parse_pose_snapshot(message.get("pose"));
        }
        if message.get("vpr_pose").is_some() {
            status.vpr_pose = parse_pose_snapshot(message.get("vpr_pose"));
        }
    } else if same_text(kind, "goal_update") {
        if message.get2("goal", "pose").is_some() {
            status.goal_pose = parse_pose_snapshot(message.get2("goal", "pose"));
        }
    } else if same_text(kind, "planner_update") {
        if message.get("mode").is_some() {
            status.planner_mode = text_value(message.get("mode"));
        }
        if message.get("global_path").is_some() {
            status.path_points = count_value(message.get("global_path"));
        }
    } else if same_text(kind, "dynamic_map_update") {
        update_map_status(status, Some(message));
    }
    let task = if is_snapshot {
        message.get("task")
    } else if same_text(kind, "task_status") {
        Some(message)
    } else {
        None
    };
    match task {
        Some(task) => {
            if task.get("task_id").is_some() {
                status.task_id = text_value(task.get("task_id"));
            }
            match text_value(task.get("status")) {
                Some(value) => {
                    status.task_status = to_lower(value.as_str());
                },
                None => {},
            }
            if task.get("goal_text").is_some() {
                status.goal_text = text_value(task.get("goal_text"));
            }
            status.navigation_running = is_active_word(status.task_status.as_str());
        },
        None => {},
    }
    let told = if is_snapshot {
        flag_value(message.get("dynamic_map_recording"))
    } else if same_text(kind, "dynamic_map_recording_update") {
        flag_value(message.get("enabled"))
    } else {
        None
    };
    match told {
        Some(enabled) => {
            status.recording_enabled = enabled;
        },
        None => {},
    }
}

impl NativeStatusSnapshot {
    /// A copy of the snapshot.
    pub fn duplicate(&self) -> (r: NativeStatusSnapshot)
        ensures
            r@ == self@,
    {
        NativeStatusSnapshot {
            schema_version: self.schema_version.clone(),
            task_id: clone_opt(&self.task_id),
            task_status: self.task_status.clone(),
            goal_text: clone_opt(&self.goal_text),
            navigation_running: self.navigation_running,
            recording_enabled: self.recording_enabled,
            robot_pose: self.robot_pose,
            vpr_pose: self.vpr_pose,
            goal_pose: self.goal_pose,
            planner_mode: clone_opt(&self.planner_mode),
            map_revision: self.map_revision,
            dynamic_revision: self.dynamic_revision,
            path_points: self.path_points,
        }
    }

    /// Takes over the answer to the operator's own request to start or to stop, without
    /// waiting for the data stream to tell it.
    pub fn set_navigation_running_from_control(&mut self, running: bool)
        ensures
            final(self)@ == status_after_control(old(self)@, running),
    {
        self.navigation_running = running;
        let active = is_active_word(self.task_status.as_str());
        if running && !active {
            self.task_status = "accepted".to_owned();
        } else if !running && active {
            self.task_status = "stopped".to_owned();
        }
    }
}

/// At the start, no navigation counts as running, and the status agrees.
pub proof fn law_unknown_status_is_coherent()
    ensures
        unknown_status().coherent(),
{
    lemma_idle_is_not_active();
}

proof fn lemma_idle_is_not_active()
    ensures
        !active_word("idle"@),
{
    reveal_strlit("idle");
    reveal_strlit("accepted");
    reveal_strlit("queued");
    reveal_strlit("running");
    reveal_strlit("planning");
    reveal_strlit("navigating");
    reveal_strlit("executing");
    reveal_strlit("processing");
    reveal_strlit("busy");
    assert("busy"@[0] == 'b' && "idle"@[0] == 'i');
}

/// Whatever the data stream says, a navigation counts as running exactly while the
/// task's status is that of a task under way.
pub proof fn law_messages_keep_coherence(s: StatusView, m: JsonView)
    requires
        s.coherent(),
    ensures
        status_after(s, m).coherent(),
{
}

/// The same holds after the operator's own start or stop.
pub proof fn law_control_keeps_coherence(s: StatusView, running: bool)
    requires
        s.coherent(),
    ensures
        status_after_control(s, running).coherent(),
{
    reveal_strlit("stopped");
    law_terminal_is_not_active("stopped"@);
}

/// A task status that ends a task ends the navigation too, whatever was known before.
pub proof fn law_terminal_status_ends_navigation(s: StatusView, m: JsonView, status: Seq<char>)
    requires
        message_kind(m) == "task_status"@,
        m.text_at("status"@) == Some(status),
        terminal_word(lowercase(status)),
    ensures
        !status_after(s, m).navigation_running,
{
    lemma_kinds_differ();
    law_terminal_is_not_active(lowercase(status));
}

/// After the operator's stop was answered, only a message about the task can make the
/// navigation count as running again.
pub proof fn law_stop_holds_until_the_task_is_told(s: StatusView, m: JsonView)
    requires
        task_part(m) is None,
    ensures
        !status_after(status_after_control(s, false), m).navigation_running,
{
}

/// What a snapshot says of poses and of the planner does not depend on what was known.
pub proof fn law_snapshot_replaces_poses_and_plan(s: StatusView, t: StatusView, m: JsonView)
    requires
        message_kind(m) == "snapshot"@,
    ensures
        status_after(s, m).robot_pose == status_after(t, m).robot_pose,
        status_after(s, m).vpr_pose == status_after(t, m).vpr_pose,
        status_after(s, m).goal_pose == status_after(t, m).goal_pose,
        status_after(s, m).planner_mode == status_after(t, m).planner_mode,
        status_after(s, m).path_points == status_after(t, m).path_points,
{
}

/// Each incremental message changes what it is about, and the version of the interface
/// where it names one; everything else stays as it was.
pub proof fn law_updates_are_local(s: StatusView, m: JsonView)
    ensures
        ({
            let kind = message_kind(m);
            let after = status_after(s, m);
            &&& kind == "pose_update"@ ==> after == (StatusView {
                schema_version: after.schema_version,
                robot_pose: after.robot_pose,
                vpr_pose: after.vpr_pose,
                ..s
            })
            &&& kind == "goal_update"@ ==> after == (StatusView {
                schema_version: after.schema_version,
                goal_pose: after.goal_pose,
                ..s
            })
            &&& kind == "planner_update"@ ==> after == (StatusView {
                schema_version: after.schema_version,
                planner_mode: after.planner_mode,
                path_points: after.path_points,
                ..s
            })
            &&& kind == "dynamic_map_update"@ ==> after == (StatusView {
                schema_version: after.schema_version,
                map_revision: after.map_revision,
                dynamic_revision: after.dynamic_revision,
                ..s
            })
            &&& kind == "task_status"@ ==> after == (StatusView {
                schema_version: after.schema_version,
                task_id: after.task_id,
                task_status: after.task_status,
                goal_text: after.goal_text,
                navigation_running: after.navigation_running,
                ..s
            })
            &&& kind == "dynamic_map_recording_update"@ ==> after == (StatusView {
                schema_version: after.schema_version,
                recording_enabled: after.recording_enabled,
                ..s
            })
        }),
{
    lemma_kinds_differ();
}

/// Whether a document gives a position by numbers `x` and `y`.
pub open spec fn gives_position(v: JsonView, pose: NativePoseSnapshot) -> bool {
    &&& v.get("x"@) matches Some(x) && x.double() == Some(pose.x)
    &&& v.get("y"@) matches Some(y) && y.double() == Some(pose.y)
}

/// Whether a document gives a pose: a position, and the heading by a number `theta`, or
/// no number for a heading of zero.
pub open spec fn gives_pose(v: JsonView, pose: NativePoseSnapshot) -> bool {
    &&& gives_position(v, pose)
    &&& match v.get("theta"@) {
        Some(JsonView::Number(n)) => n.double == Some(pose.theta) || (n.double is None
            && pose.theta.bits == 0),
        _ => pose.theta.bits == 0,
    }
}

/// Whether a document gives no position at all.
pub open spec fn gives_no_position(v: JsonView) -> bool {
    ||| !(v.get("x"@) matches Some(x) && x.double() is Some)
    ||| !(v.get("y"@) matches Some(y) && y.double() is Some)
}

/// A pose update tells two poses, each by its own member: the robot's by `pose`, that of
/// the visual localization by `vpr_pose`. What is told is known, a pose without a
/// position is lost, and what is not told stays.
pub proof fn law_pose_updates_are_known(s: StatusView, m: JsonView, pose: NativePoseSnapshot)
    requires
        m.text_at("type"@) == Some("pose_update"@),
    ensures
        (m.get("pose"@) matches Some(v) && gives_pose(v, pose)) ==> status_after(s, m).robot_pose
            == Some(pose),
        (m.get("pose"@) matches Some(v) && gives_no_position(v)) ==> status_after(
            s,
            m,
        ).robot_pose is None,
        m.get("pose"@) is None ==> status_after(s, m).robot_pose == s.robot_pose,
        (m.get("vpr_pose"@) matches Some(v) && gives_pose(v, pose)) ==> status_after(s, m).vpr_pose
            == Some(pose),
        (m.get("vpr_pose"@) matches Some(v) && gives_no_position(v)) ==> status_after(
            s,
            m,
        ).vpr_pose is None,
        m.get("vpr_pose"@) is None ==> status_after(s, m).vpr_pose == s.vpr_pose,
        status_after(s, m).goal_pose == s.goal_pose,
{
    lemma_kinds_differ();
}

/// A goal update tells the goal by the member `pose` of its member `goal`.
pub proof fn law_goal_updates_are_known(s: StatusView, m: JsonView, pose: NativePoseSnapshot)
    requires
        m.text_at("type"@) == Some("goal_update"@),
    ensures
        m.get("goal"@) matches Some(goal) ==> {
            &&& (goal.get("pose"@) matches Some(v) && gives_pose(v, pose)) ==> status_after(
                s,
                m,
            ).goal_pose == Some(pose)
            &&& (goal.get("pose"@) matches Some(v) && gives_no_position(v)) ==> status_after(
                s,
                m,
            ).goal_pose is None
            &&& goal.get("pose"@) is None ==> status_after(s, m).goal_pose == s.goal_pose
        },
        m.get("goal"@) is None ==> status_after(s, m).goal_pose == s.goal_pose,
        status_after(s, m).robot_pose == s.robot_pose,
        status_after(s, m).vpr_pose == s.vpr_pose,
{
    lemma_kinds_differ();
}

/// A snapshot tells all poses: the robot's and that of the visual localization by the
/// members `pose` and `vpr_pose` of its member `robot`, the goal by the member `pose` of
/// its member `goal`. What it does not tell is lost.
pub proof fn law_snapshot_poses_are_known(s: StatusView, m: JsonView, pose: NativePoseSnapshot)
    requires
        m.text_at("type"@) == Some("snapshot"@),
    ensures
        m.get("robot"@) matches Some(robot) ==> {
            &&& (robot.get("pose"@) matches Some(v) && gives_pose(v, pose)) ==> status_after(
                s,
                m,
            ).robot_pose == Some(pose)
            &&& (robot.get("pose"@) matches Some(v) ==> gives_no_position(v)) ==> status_after(
                s,
                m,
            ).robot_pose is None
            &&& (robot.get("vpr_pose"@) matches Some(v) && gives_pose(v, pose)) ==> status_after(
                s,
                m,
            ).vpr_pose == Some(pose)
            &&& (robot.get("vpr_pose"@) matches Some(v) ==> gives_no_position(v)) ==> status_after(
                s,
                m,
            ).vpr_pose is None
        },
        m.get("robot"@) is None ==> status_after(s, m).robot_pose is None && status_after(
            s,
            m,
        ).vpr_pose is None,
        m.get("goal"@) matches Some(goal) ==> {
            &&& (goal.get("pose"@) matches Some(v) && gives_pose(v, pose)) ==> status_after(
                s,
                m,
            ).goal_pose == Some(pose)
            &&& (goal.get("pose"@) matches Some(v) ==> gives_no_position(v)) ==> status_after(
                s,
                m,
            ).goal_pose is None
        },
        m.get("goal"@) is None ==> status_after(s, m).goal_pose is None,
{
    lemma_kinds_differ();
}

/// A snapshot and the updates that tell the same leave the same known.
pub proof fn law_snapshot_and_updates_agree(
    s: StatusView,
    t: StatusView,
    m: JsonView,
    robot: JsonView,
    pose: JsonView,
    goal: JsonView,
    planner: JsonView,
    plan: JsonView,
    task: JsonView,
)
    requires
        m.text_at("type"@) == Some("snapshot"@),
        m.get("robot"@) == Some(robot),
        pose.text_at("type"@) == Some("pose_update"@),
        robot.get("pose"@) is Some && pose.get("pose"@) == robot.get("pose"@),
        robot.get("vpr_pose"@) is Some && pose.get("vpr_pose"@) == robot.get("vpr_pose"@),
        goal.text_at("type"@) == Some("goal_update"@),
        m.get("goal"@) matches Some(g) && g.get("pose"@) is Some,
        goal.get("goal"@) == m.get("goal"@),
        m.get("planner"@) == Some(planner),
        plan.text_at("type"@) == Some("planner_update"@),
        planner.get("mode"@) is Some && plan.get("mode"@) == planner.get("mode"@),
        planner.get("global_path"@) is Some && plan.get("global_path"@) == planner.get(
            "global_path"@,
        ),
        m.get("task"@) matches Some(told) && {
            &&& task.text_at("type"@) == Some("task_status"@)
            &&& told.get("task_id"@) is Some && task.get("task_id"@) == told.get("task_id"@)
            &&& told.get("goal_text"@) is Some && task.get("goal_text"@) == told.get("goal_text"@)
            &&& told.text_at("status"@) is Some && task.get("status"@) == told.get("status"@)
        },
    ensures
        status_after(s, m).robot_pose == status_after(t, pose).robot_pose,
        status_after(s, m).vpr_pose == status_after(t, pose).vpr_pose,
        status_after(s, m).goal_pose == status_after(t, goal).goal_pose,
        status_after(s, m).planner_mode == status_after(t, plan).planner_mode,
        status_after(s, m).path_points == status_after(t, plan).path_points,
        status_after(s, m).task_id == status_after(t, task).task_id,
        status_after(s, m).goal_text == status_after(t, task).goal_text,
        status_after(s, m).task_status == status_after(t, task).task_status,
        status_after(s, m).navigation_running == status_after(t, task).navigation_running,
{
    lemma_kinds_differ();
}

/// A message about the plan tells the planner's mode by the member `mode`, and how many
/// points the plan has by the length of the list `global_path`. What a planner update
/// does not tell stays.
pub proof fn law_plans_are_known(s: StatusView, m: JsonView)
    ensures
        m.text_at("type"@) == Some("planner_update"@) ==> {
            let after = status_after(s, m);
            &&& m.get("mode"@) matches Some(JsonView::Text(mode)) ==> after.planner_mode == Some(mode)
            &&& (m.get("mode"@) matches Some(v) && !(v is Text)) ==> after.planner_mode is None
            &&& m.get("mode"@) is None ==> after.planner_mode == s.planner_mode
            &&& m.get("global_path"@) matches Some(JsonView::Array(points)) ==> after.path_points
                == Some(points.len() as usize)
            &&& (m.get("global_path"@) matches Some(v) && !(v is Array)) ==> after.path_points is None
            &&& m.get("global_path"@) is None ==> after.path_points == s.path_points
        },
        m.text_at("type"@) == Some("snapshot"@) ==> {
            let after = status_after(s, m);
            &&& m.get("planner"@) matches Some(plan) ==> {
                &&& plan.get("mode"@) matches Some(JsonView::Text(mode)) ==> after.planner_mode
                    == Some(mode)
                &&& !(plan.get("mode"@) matches Some(JsonView::Text(_)))
                    ==> after.planner_mode is None
                &&& plan.get("global_path"@) matches Some(JsonView::Array(points))
                    ==> after.path_points == Some(points.len() as usize)
                &&& !(plan.get("global_path"@) matches Some(JsonView::Array(_)))
                    ==> after.path_points is None
            }
            &&& m.get("planner"@) is None ==> after.planner_mode is None && after.path_points is None
        },
{
    lemma_kinds_differ();
}

/// The dynamic map is told by a message of its own or by the member `dynamic_map` of a
/// snapshot: the revision of the static map by `map_revision`, its own by `revision`.
/// What is not told stays.
pub proof fn law_revisions_are_known(s: StatusView, m: JsonView, map: JsonView)
    requires
        (m.text_at("type"@) == Some("dynamic_map_update"@) && map == m) || (m.text_at("type"@)
            == Some("snapshot"@) && m.get("dynamic_map"@) == Some(map)),
    ensures
        ({
            let after = status_after(s, m);
            &&& map.get("map_revision"@) matches Some(v) ==> after.map_revision == v.unsigned()
            &&& map.get("map_revision"@) is None ==> after.map_revision == s.map_revision
            &&& map.get("revision"@) matches Some(v) ==> after.dynamic_revision == v.unsigned()
            &&& map.get("revision"@) is None ==> after.dynamic_revision == s.dynamic_revision
        }),
{
    lemma_kinds_differ();
}

/// The task is told by a message of its own or by the member `task` of a snapshot: its
/// identifier by `task_id`, its goal by `goal_text`, its state by the text `status`. What
/// is not told stays. A navigation counts as running where the task is under way.
pub proof fn law_tasks_are_known(s: StatusView, m: JsonView, task: JsonView)
    requires
        (m.text_at("type"@) == Some("task_status"@) && task == m) || (m.text_at("type"@) == Some(
            "snapshot"@,
        ) && m.get("task"@) == Some(task)),
    ensures
        ({
            let after = status_after(s, m);
            &&& task.get("task_id"@) matches Some(JsonView::Text(id)) ==> after.task_id == Some(id)
            &&& (task.get("task_id"@) matches Some(v) && !(v is Text)) ==> after.task_id is None
            &&& task.get("task_id"@) is None ==> after.task_id == s.task_id
            &&& task.get("goal_text"@) matches Some(JsonView::Text(goal)) ==> after.goal_text
                == Some(goal)
            &&& (task.get("goal_text"@) matches Some(v) && !(v is Text)) ==> after.goal_text is None
            &&& task.get("goal_text"@) is None ==> after.goal_text == s.goal_text
            &&& task.get("status"@) matches Some(JsonView::Text(status)) ==> after.task_status
                == lowercase(status)
            &&& !(task.get("status"@) matches Some(JsonView::Text(_))) ==> after.task_status
                == s.task_status
            &&& after.navigation_running <==> seq![
                "accepted"@,
                "queued"@,
                "running"@,
                "planning"@,
                "navigating"@,
                "executing"@,
                "processing"@,
                "busy"@,
            ].contains(after.task_status)
        }),
{
    lemma_kinds_differ();
    law_active_words(status_after(s, m).task_status);
}

/// Whether the dynamic map is recorded is told by the flag `enabled` of a message of its
/// own, or by the flag `dynamic_map_recording` of a snapshot. Without a flag it stays.
pub proof fn law_recording_is_known(s: StatusView, m: JsonView, on: bool)
    ensures
        m.text_at("type"@) == Some("dynamic_map_recording_update"@) && m.get("enabled"@) == Some(
            JsonView::Bool(on),
        ) ==> status_after(s, m).recording_enabled == on,
        m.text_at("type"@) == Some("snapshot"@) && m.get("dynamic_map_recording"@) == Some(
            JsonView::Bool(on),
        ) ==> status_after(s, m).recording_enabled == on,
        m.text_at("type"@) == Some("dynamic_map_recording_update"@) && !(m.get(
            "enabled"@,
        ) matches Some(JsonView::Bool(_))) ==> status_after(s, m).recording_enabled
            == s.recording_enabled,
        m.text_at("type"@) == Some("snapshot"@) && !(m.get("dynamic_map_recording"@) matches Some(
            JsonView::Bool(_),
        )) ==> status_after(s, m).recording_enabled == s.recording_enabled,
{
    lemma_kinds_differ();
}

/// Any message tells the version of the interface by the text `schema_version`, and one
/// of another type than these seven nothing else.
pub proof fn law_other_messages_tell_the_version(s: StatusView, m: JsonView)
    ensures
        m.get("schema_version"@) matches Some(JsonView::Text(version)) ==> status_after(
            s,
            m,
        ).schema_version == version,
        !(m.get("schema_version"@) matches Some(JsonView::Text(_))) ==> status_after(
            s,
            m,
        ).schema_version == s.schema_version,
        !(m.get("type"@) matches Some(JsonView::Text(kind)) && seq![
            "snapshot"@,
            "pose_update"@,
            "goal_update"@,
            "planner_update"@,
            "dynamic_map_update"@,
            "task_status"@,
            "dynamic_map_recording_update"@,
        ].contains(kind)) ==> status_after(s, m) == (StatusView {
            schema_version: status_after(s, m).schema_version,
            ..s
        }),
{
    lemma_kinds_differ();
    let kinds = seq![
        "snapshot"@,
        "pose_update"@,
        "goal_update"@,
        "planner_update"@,
        "dynamic_map_update"@,
        "task_status"@,
        "dynamic_map_recording_update"@,
    ];
    assert(kinds[0] == "snapshot"@);
    assert(kinds[1] == "pose_update"@);
    assert(kinds[2] == "goal_update"@);
    assert(kinds[3] == "planner_update"@);
    assert(kinds[4] == "dynamic_map_update"@);
    assert(kinds[5] == "task_status"@);
    assert(kinds[6] == "dynamic_map_recording_update"@);
    let kind = message_kind(m);
    if kinds.contains(kind) && !(m.get("type"@) matches Some(JsonView::Text(_))) {
        assert(kind.len() == 0);
    }
}

/// Before the robot has said anything, no pose, task, plan or map is known, the task
/// counts as idle, and nothing is running or recorded.
pub proof fn law_nothing_is_known_at_first()
    ensures
        ({
            let s = unknown_status();
            &&& s.schema_version == "—"@ && s.task_status == "idle"@
            &&& s.task_id is None && s.goal_text is None
            &&& !s.navigation_running && !s.recording_enabled
            &&& s.robot_pose is None && s.vpr_pose is None && s.goal_pose is None
            &&& s.planner_mode is None && s.path_points is None
            &&& s.map_revision is None && s.dynamic_revision is None
        }),
{
}

/// The operator's start makes a navigation run and the operator's stop ends it at once:
/// a task that is not under way is then called accepted, one that is under way stopped.
/// Nothing else that is known changes.
pub proof fn law_control_is_known_at_once(s: StatusView, running: bool)
    ensures
        ({
            let after = status_after_control(s, running);
            &&& after.navigation_running == running
            &&& running && active_word(s.task_status) ==> after.task_status == s.task_status
            &&& running && !active_word(s.task_status) ==> after.task_status == "accepted"@
            &&& !running && active_word(s.task_status) ==> after.task_status == "stopped"@
            &&& !running && !active_word(s.task_status) ==> after.task_status == s.task_status
            &&& after == (StatusView {
                navigation_running: after.navigation_running,
                task_status: after.task_status,
                ..s
            })
        }),
{
}

/// What is known is what the fields of a snapshot say.
pub proof fn law_snapshots_are_their_fields(s: NativeStatusSnapshot)
    ensures
        s@.robot_pose == s.robot_pose && s@.vpr_pose == s.vpr_pose && s@.goal_pose == s.goal_pose,
        s@.map_revision == s.map_revision && s@.dynamic_revision == s.dynamic_revision,
        s@.task_status == s.task_status@ && s@.schema_version == s.schema_version@,
        s@.task_id == opt_text(s.task_id) && s@.goal_text == opt_text(s.goal_text),
        s@.planner_mode == opt_text(s.planner_mode) && s@.path_points == s.path_points,
        s@.navigation_running == s.navigation_running,
        s@.recording_enabled == s.recording_enabled,
{
}

} // verus!
