//! What is drawn for the messages of the data stream.

use vstd::prelude::*;
use vstd::string::*;
use vstd::utf8::*;

use crate::double::Double;
use crate::json::{
    add_member, entry_views, item_views, items_in, member, opt_json, present, printed, Json,
    JsonView,
};
use crate::status::{
    gives_no_position, gives_pose, kind_of, lemma_kinds_differ, message_kind, next_goal_pose,
    next_robot_pose, parse_pose_snapshot, pose_of, present_value, status_after, text_value,
    NativePoseSnapshot, StatusView,
};
use crate::text::{
    ascii_lower, ascii_upper, begins_with, lowercase, opt_text, same_text, starts_with_text,
    to_lower, to_upper, uppercase,
};

verus! {

/// A colour: red, green, blue and opacity.
#[derive(Clone, Copy, Debug, PartialEq, Eq, Structural)]
pub struct Rgba {
    pub r: u8,
    pub g: u8,
    pub b: u8,
    pub a: u8,
}

/// A point of the map.
#[derive(Clone, Copy, Debug, PartialEq, Eq, Structural)]
pub struct MapPoint {
    pub x: Double,
    pub y: Double,
}

/// Something to be drawn. Of two things at one place, that with the higher `order`
/// covers the other.
#[derive(Debug)]
pub enum Drawing {
    /// Everything below `entity` disappears.
    Clear { entity: &'static str },
    /// A mark at a pose, with an arrow where `heading` is set.
    Marker {
        entity: &'static str,
        pose: NativePoseSnapshot,
        color: Rgba,
        label: &'static str,
        heading: bool,
        order: u8,
    },
    /// A line through some points.
    Path { entity: &'static str, points: Vec<MapPoint>, color: Rgba, order: u8 },
    /// Some points.
    Points { entity: &'static str, points: Vec<MapPoint>, color: Rgba, order: u8 },
    /// A line of a log.
    Text { entity: &'static str, text: String, level: String },
}

pub enum DrawingView {
    Clear { entity: Seq<char> },
    Marker {
        entity: Seq<char>,
        pose: NativePoseSnapshot,
        color: Rgba,
        label: Seq<char>,
        heading: bool,
        order: u8,
    },
    Path { entity: Seq<char>, points: Seq<MapPoint>, color: Rgba, order: u8 },
    Points { entity: Seq<char>, points: Seq<MapPoint>, color: Rgba, order: u8 },
    Text { entity: Seq<char>, text: Seq<char>, level: Seq<char> },
}

impl View for Drawing {
    type V = DrawingView;

    open spec fn view(&self) -> DrawingView {
        match *self {
            Drawing::Clear { entity } => DrawingView::Clear { entity: entity@ },
            Drawing::Marker { entity, pose, color, label, heading, order } => DrawingView::Marker {
                entity: entity@,
                pose,
                color,
                label: label@,
                heading,
                order,
            },
            Drawing::Path { entity, points, color, order } => DrawingView::Path {
                entity: entity@,
                points: points@,
                color,
                order,
            },
            Drawing::Points { entity, points, color, order } => DrawingView::Points {
                entity: entity@,
                points: points@,
                color,
                order,
            },
            Drawing::Text { entity, text, level } => DrawingView::Text {
                entity: entity@,
                text: text@,
                level: level@,
            },
        }
    }
}

/// What a message says about a task.
#[derive(Debug)]
pub struct TaskReport {
    pub task_id: Option<String>,
    pub goal_text: Option<String>,
    pub status: String,
}

pub struct TaskReportView {
    pub task_id: Option<Seq<char>>,
    pub goal_text: Option<Seq<char>>,
    pub status: Seq<char>,
}

impl View for TaskReport {
    type V = TaskReportView;

    open spec fn view(&self) -> TaskReportView {
        TaskReportView {
            task_id: opt_text(self.task_id),
            goal_text: opt_text(self.goal_text),
            status: self.status@,
        }
    }
}

/// An image that is to be fetched.
#[derive(Debug)]
pub struct ImageSource {
    /// The camera.
    pub key: String,
    /// What tells this image from others of the camera.
    pub identity: String,
    pub url: String,
    /// Where the image is shown.
    pub entity: String,
}

pub struct ImageSourceView {
    pub key: Seq<char>,
    pub identity: Seq<char>,
    pub url: Seq<char>,
    pub entity: Seq<char>,
}

impl View for ImageSource {
    type V = ImageSourceView;

    open spec fn view(&self) -> ImageSourceView {
        ImageSourceView {
            key: self.key@,
            identity: self.identity@,
            url: self.url@,
            entity: self.entity@,
        }
    }
}

pub open spec fn source_views(v: Seq<ImageSource>) -> Seq<ImageSourceView> {
    v.map_values(|s: ImageSource| s@)
}

/// One thing to be done about a message.
#[derive(Debug)]
pub enum Step {
    /// What follows happened now.
    Time,
    /// A recording may have to be begun.
    BeginTask(TaskReport),
    /// A recording may be over.
    EndTask(TaskReport),
    Draw(Drawing),
    /// The images of cameras are told.
    Images(Json),
    /// The dynamic map is told.
    DynamicMap(Json),
}

pub enum StepView {
    Time,
    BeginTask(TaskReportView),
    EndTask(TaskReportView),
    Draw(DrawingView),
    Images(JsonView),
    DynamicMap(JsonView),
}

impl View for Step {
    type V = StepView;

    open spec fn view(&self) -> StepView {
        match *self {
            Step::Time => StepView::Time,
            Step::BeginTask(report) => StepView::BeginTask(report@),
            Step::EndTask(report) => StepView::EndTask(report@),
            Step::Draw(drawing) => StepView::Draw(drawing@),
            Step::Images(images) => StepView::Images(images.view()),
            Step::DynamicMap(map) => StepView::DynamicMap(map.view()),
        }
    }
}

pub open spec fn step_views(v: Seq<Step>) -> Seq<StepView> {
    v.map_values(|s: Step| s@)
}

fn add_step(steps: &mut Vec<Step>, step: Step)
    ensures
        step_views(final(steps)@) == step_views(old(steps)@).push(step@),
{
    let ghost before = steps@;
    steps.push(step);
    assert(step_views(steps@) == step_views(before).push(step@));
}

fn add_steps(steps: &mut Vec<Step>, more: Vec<Step>)
    ensures
        step_views(final(steps)@) == step_views(old(steps)@) + step_views(more@),
{
    let ghost before = steps@;
    let ghost added = more@;
    let mut more = more;
    steps.append(&mut more);
    assert(step_views(steps@) == step_views(before) + step_views(added));
}

/// What is drawn for a pose: nothing where it has no coordinates, and what was drawn
/// disappears where there is no pose.
pub open spec fn pose_steps(
    value: Option<JsonView>,
    entity: Seq<char>,
    color: Rgba,
    label: Seq<char>,
    heading: bool,
    order: u8,
) -> Seq<StepView> {
    if present(value) is None {
        seq![StepView::Draw(DrawingView::Clear { entity })]
    } else {
        match pose_of(value) {
            Some(pose) => seq![
                StepView::Draw(
                    DrawingView::Marker { entity, pose, color, label, heading, order },
                ),
            ],
            None => Seq::empty(),
        }
    }
}

fn draw_pose(
    value: Option<&Json>,
    entity: &'static str,
    color: Rgba,
    label: &'static str,
    heading: bool,
    order: u8,
) -> (r: Vec<Step>)
    ensures
        step_views(r@) == pose_steps(opt_json(value), entity@, color, label@, heading, order),
{
    let mut steps: Vec<Step> = Vec::new();
    if present_value(value).is_none() {
        add_step(&mut steps, Step::Draw(Drawing::Clear { entity }));
    } else {
        match parse_pose_snapshot(value) {
            Some(pose) => {
                add_step(
                    &mut steps,
                    Step::Draw(Drawing::Marker { entity, pose, color, label, heading, order }),
                );
            },
            None => {},
        }
    }
    steps
}

/// The point that a list of two or more numbers stands for.
pub open spec fn point_of(v: JsonView) -> Option<MapPoint> {
    match v.items() {
        Some(parts) => if parts.len() >= 2 {
            match (parts[0].double(), parts[1].double()) {
                (Some(x), Some(y)) => Some(MapPoint { x, y }),
                _ => None,
            }
        } else {
            None
        },
        None => None,
    }
}

/// The points in a list, without what is none.
pub open spec fn points_in(items: Seq<JsonView>) -> Seq<MapPoint>
    decreases items.len(),
{
    if items.len() == 0 {
        Seq::empty()
    } else {
        let head = points_in(items.drop_last());
        match point_of(items.last()) {
            Some(point) => head.push(point),
            None => head,
        }
    }
}

/// The points that a document lists.
pub open spec fn points_of(value: Option<JsonView>) -> Seq<MapPoint> {
    match items_in(value) {
        Some(items) => points_in(items),
        None => Seq::empty(),
    }
}

fn parse_point(value: &Json) -> (r: Option<MapPoint>)
    ensures
        r == point_of(value.view()),
{
    match value.as_items() {
        Some(parts) => {
            let ghost views = item_views(parts@);
            if parts.len() < 2 {
                return None;
            }
            assert(views[0] == parts@[0].view() && views[1] == parts@[1].view());
            match (parts[0].as_double(), parts[1].as_double()) {
                (Some(x), Some(y)) => Some(MapPoint { x, y }),
                _ => None,
            }
        },
        None => None,
    }
}

/// Reads the points that a document lists.
pub fn parse_points(value: Option<&Json>) -> (r: Vec<MapPoint>)
    ensures
        r@ == points_of(opt_json(value)),
{
    let mut points: Vec<MapPoint> = Vec::new();
    match value {
        Some(list) => match list.as_items() {
            Some(items) => {
                let ghost views = item_views(items@);
                let mut i: usize = 0;
                while i < items.len()
                    invariant
                        i <= items@.len(),
                        views == item_views(items@),
                        points@ == points_in(views.take(i as int)),
                    decreases items.len() - i,
                {
                    assert(views.take(i + 1).drop_last() == views.take(i as int));
                    assert(views[i as int] == items@[i as int].view());
                    match parse_point(&items[i]) {
                        Some(point) => {
                            points.push(point);
                        },
                        None => {},
                    }
                    i = i + 1;
                }
                assert(views.take(i as int) == views);
            },
            None => {},
        },
        None => {},
    }
    points
}

/// What is drawn for a path: a line, where there are two points to join.
pub open spec fn path_steps(
    value: Option<JsonView>,
    entity: Seq<char>,
    color: Rgba,
    order: u8,
) -> Seq<StepView> {
    let points = points_of(value);
    if points.len() < 2 {
        seq![StepView::Draw(DrawingView::Clear { entity })]
    } else {
        seq![StepView::Draw(DrawingView::Path { entity, points, color, order })]
    }
}

fn draw_path(value: Option<&Json>, entity: &'static str, color: Rgba, order: u8) -> (r: Vec<Step>)
    ensures
        step_views(r@) == path_steps(opt_json(value), entity@, color, order),
{
    let mut steps: Vec<Step> = Vec::new();
    let points = parse_points(value);
    if points.len() < 2 {
        add_step(&mut steps, Step::Draw(Drawing::Clear { entity }));
    } else {
        add_step(&mut steps, Step::Draw(Drawing::Path { entity, points, color, order }));
    }
    steps
}

/// The height at which single points are drawn.
pub const POINTS_ORDER: u8 = 8;

/// What is drawn for some points.
pub open spec fn points_steps(points: Seq<MapPoint>, entity: Seq<char>, color: Rgba) -> Seq<
    StepView,
> {
    if points.len() == 0 {
        seq![StepView::Draw(DrawingView::Clear { entity })]
    } else {
        seq![
            StepView::Draw(DrawingView::Points { entity, points, color, order: POINTS_ORDER }),
        ]
    }
}

fn draw_points(points: Vec<MapPoint>, entity: &'static str, color: Rgba) -> (r: Vec<Step>)
    ensures
        step_views(r@) == points_steps(points@, entity@, color),
{
    let mut steps: Vec<Step> = Vec::new();
    if points.len() == 0 {
        add_step(&mut steps, Step::Draw(Drawing::Clear { entity }));
    } else {
        add_step(
            &mut steps,
            Step::Draw(Drawing::Points { entity, points, color, order: POINTS_ORDER }),
        );
    }
    steps
}

/// The point that a document stands for, as a list of one or of none.
pub open spec fn single_point(value: JsonView) -> Seq<MapPoint> {
    match point_of(value) {
        Some(point) => seq![point],
        None => Seq::empty(),
    }
}

pub open spec fn rgba(r: u8, g: u8, b: u8) -> Rgba {
    Rgba { r, g, b, a: 255 }
}

fn solid(r: u8, g: u8, b: u8) -> (c: Rgba)
    ensures
        c == rgba(r, g, b),
{
    Rgba { r, g, b, a: 255 }
}

/// What is drawn for a plan. A local goal that is not told stays as it was.
pub open spec fn planner_steps(m: JsonView) -> Seq<StepView> {
    path_steps(m.get("global_path"@), "world/planner/global_path"@, rgba(77, 222, 155), 6)
        + path_steps(m.get("local_path"@), "world/planner/local_path"@, rgba(255, 191, 71), 7)
        + points_steps(
        points_of(m.get("waypoints"@)),
        "world/planner/waypoints"@,
        rgba(167, 139, 250),
    ) + match m.get("local_goal"@) {
        Some(goal) => points_steps(
            single_point(goal),
            "world/planner/local_goal"@,
            rgba(255, 220, 92),
        ),
        None => Seq::empty(),
    }
}

fn draw_planner(message: &Json) -> (r: Vec<Step>)
    ensures
        step_views(r@) == planner_steps(message.view()),
{
    let mut steps = draw_path(
        message.get("global_path"),
        "world/planner/global_path",
        solid(77, 222, 155),
        6,
    );
    add_steps(
        &mut steps,
        draw_path(
            message.get("local_path"),
            "world/planner/local_path",
            solid(255, 191, 71),
            7,
        ),
    );
    add_steps(
        &mut steps,
        draw_points(
            parse_points(message.get("waypoints")),
            "world/planner/waypoints",
            solid(167, 139, 250),
        ),
    );
    match message.get("local_goal") {
        Some(goal) => {
            let mut points: Vec<MapPoint> = Vec::new();
            match parse_point(goal) {
                Some(point) => {
                    points.push(point);
                },
                None => {},
            }
            assert(points@ == single_point(goal.view()));
            add_steps(
                &mut steps,
                draw_points(points, "world/planner/local_goal", solid(255, 220, 92)),
            );
        },
        None => {
            assert(step_views(steps@) == planner_steps(message.view()));
        },
    }
    steps
}

/// A line of a log, with its level in capitals.
pub open spec fn log_line(entity: Seq<char>, text: Seq<char>, level: Seq<char>) -> DrawingView {
    DrawingView::Text { entity, text, level: uppercase(level) }
}

/// Whether a level in ASCII is shown with its small letters as capitals.
pub open spec fn is_level_in_capitals(level: Seq<char>) -> bool {
    is_ascii_chars(level) ==> uppercase(level) == ascii_upper(level)
}

/// A line of a log.
pub fn log_event(entity: &'static str, text: String, level: &str) -> (r: Drawing)
    ensures
        r@ == log_line(entity@, text@, level@),
        is_ascii_chars(level@) ==> r@ == (DrawingView::Text {
            entity: entity@,
            text: text@,
            level: ascii_upper(level@),
        }),
{
    Drawing::Text { entity, text, level: to_upper(level) }
}

/// What a message says about a task.
pub open spec fn report_of(m: JsonView) -> TaskReportView {
    TaskReportView {
        task_id: m.text_at("task_id"@),
        goal_text: m.text_at("goal_text"@),
        status: lowercase(told_status(m)),
    }
}

/// The status that a message tells. A task of unknown status is idle.
pub open spec fn told_status(m: JsonView) -> Seq<char> {
    match m.text_at("status"@) {
        Some(status) => status,
        None => "idle"@,
    }
}

/// Whether a status that is told in ASCII is reported with its capitals as small letters.
pub open spec fn is_reported_in_small_letters(m: JsonView) -> bool {
    is_ascii_chars(told_status(m)) ==> report_of(m).status == ascii_lower(told_status(m))
}

/// Reads what a message says about a task.
pub fn read_report(message: &Json) -> (r: TaskReport)
    ensures
        r@ == report_of(message.view()),
        is_ascii_chars(told_status(message.view())) ==> r@.status == ascii_lower(
            told_status(message.view()),
        ),
{
    let status = match text_value(message.get("status")) {
        Some(status) => status,
        None => "idle".to_owned(),
    };
    TaskReport {
        task_id: text_value(message.get("task_id")),
        goal_text: text_value(message.get("goal_text")),
        status: to_lower(status.as_str()),
    }
}

/// The level of an event.
pub open spec fn level_of(m: JsonView) -> Seq<char> {
    match m.text_at("level"@) {
        Some(level) => level,
        None => "INFO"@,
    }
}

/// A document in the place of one that is not there.
pub open spec fn or_null(value: Option<JsonView>) -> JsonView {
    match value {
        Some(v) => v,
        None => JsonView::Null,
    }
}

fn copy_or_null(value: Option<&Json>) -> (r: Json)
    ensures
        r.view() == or_null(opt_json(value)),
{
    match value {
        Some(v) => v.duplicate(),
        None => Json::Null,
    }
}

/// What is to be done about a message that is no snapshot.
pub open spec fn plain_steps(m: JsonView) -> Seq<StepView> {
    let kind = message_kind(m);
    if kind == "pose_update"@ {
        seq![StepView::Time] + pose_steps(
            m.get("pose"@),
            "world/robot"@,
            rgba(42, 203, 225),
            "Robot 定位"@,
            true,
            30,
        ) + pose_steps(
            m.get("vpr_pose"@),
            "world/vpr_pose"@,
            rgba(167, 139, 250),
            "VPR 定位"@,
            false,
            26,
        )
    } else if kind == "goal_update"@ {
        seq![StepView::Time] + pose_steps(
            m.get2("goal"@, "pose"@),
            "world/goal"@,
            rgba(255, 113, 91),
            "导航目标"@,
            true,
            28,
        )
    } else if kind == "planner_update"@ {
        seq![StepView::Time] + planner_steps(m)
    } else if kind == "image_update"@ {
        seq![StepView::Time, StepView::Images(or_null(m.get("images"@)))]
    } else if kind == "dynamic_map_update"@ {
        seq![StepView::Time, StepView::DynamicMap(m)]
    } else if kind == "task_status"@ {
        seq![
            StepView::BeginTask(report_of(m)),
            StepView::Time,
            StepView::Draw(log_line("events/task_status"@, printed(m), "INFO"@)),
            StepView::EndTask(report_of(m)),
        ]
    } else if kind == "event"@ {
        seq![
            StepView::Time,
            StepView::Draw(log_line("events/navigation"@, printed(m), level_of(m))),
        ]
    } else {
        seq![StepView::Time]
    }
}

/// Whether the words of a message that are in ASCII are taken over letter by letter: a
/// task's status with small letters, an event's level with capitals.
pub open spec fn words_are_plain(m: JsonView) -> bool {
    &&& message_kind(m) == "task_status"@ ==> is_reported_in_small_letters(m)
        && is_level_in_capitals("INFO"@)
    &&& message_kind(m) == "event"@ ==> is_level_in_capitals(level_of(m))
}

fn steps_for_plain(message: &Json) -> (r: Vec<Step>)
    ensures
        step_views(r@) == plain_steps(message.view()),
        words_are_plain(message.view()),
{
    proof {
        lemma_kinds_differ();
    }
    let mut steps: Vec<Step> = Vec::new();
    let kind = kind_of(message);
    if same_text(kind.as_str(), "task_status") {
        add_step(&mut steps, Step::BeginTask(read_report(message)));
        add_step(&mut steps, Step::Time);
        add_step(
            &mut steps,
            Step::Draw(log_event("events/task_status", message.to_text(), "INFO")),
        );
        add_step(&mut steps, Step::EndTask(read_report(message)));
        assert(step_views(steps@) == plain_steps(message.view()));
        return steps;
    }
    add_step(&mut steps, Step::Time);
    if same_text(kind.as_str(), "pose_update") {
        add_steps(
            &mut steps,
            draw_pose(
                message.get("pose"),
                "world/robot",
                solid(42, 203, 225),
                "Robot 定位",
                true,
                30,
            ),
        );
        add_steps(
            &mut steps,
            draw_pose(
                message.get("vpr_pose"),
                "world/vpr_pose",
                solid(167, 139, 250),
                "VPR 定位",
                false,
                26,
            ),
        );
    } else if same_text(kind.as_str(), "goal_update") {
        add_steps(
            &mut steps,
            draw_pose(
                message.get2("goal", "pose"),
                "world/goal",
                solid(255, 113, 91),
                "导航目标",
                true,
                28,
            ),
        );
    } else if same_text(kind.as_str(), "planner_update") {
        add_steps(&mut steps, draw_planner(message));
    } else if same_text(kind.as_str(), "image_update") {
        add_step(&mut steps, Step::Images(copy_or_null(message.get("images"))));
    } else if same_text(kind.as_str(), "dynamic_map_update") {
        add_step(&mut steps, Step::DynamicMap(message.duplicate()));
    } else if same_text(kind.as_str(), "event") {
        let level = match text_value(message.get("level")) {
            Some(level) => level,
            None => "INFO".to_owned(),
        };
        add_step(
            &mut steps,
            Step::Draw(log_event("events/navigation", message.to_text(), level.as_str())),
        );
    }
    assert(step_views(steps@) == plain_steps(message.view()));
    steps
}

/// What a snapshot says about the task, as a message of its own.
pub open spec fn snapshot_task(m: JsonView) -> JsonView {
    JsonView::Object(
        seq![
            ("goal_text"@, or_null(m.get2("task"@, "goal_text"@))),
            ("schema_version"@, or_null(m.get("schema_version"@))),
            ("status"@, or_null(m.get2("task"@, "status"@))),
            ("task_id"@, or_null(m.get2("task"@, "task_id"@))),
            ("timestamp"@, or_null(m.get("timestamp"@))),
            ("type"@, JsonView::Text("task_status"@)),
        ],
    )
}

/// What a snapshot says about the poses, as a message of its own.
pub open spec fn snapshot_pose(m: JsonView) -> JsonView {
    JsonView::Object(
        seq![
            ("pose"@, or_null(m.get2("robot"@, "pose"@))),
            ("timestamp"@, or_null(m.get("timestamp"@))),
            ("type"@, JsonView::Text("pose_update"@)),
            ("vpr_pose"@, or_null(m.get2("robot"@, "vpr_pose"@))),
        ],
    )
}

/// What a snapshot says about the goal, as a message of its own.
pub open spec fn snapshot_goal(m: JsonView) -> JsonView {
    JsonView::Object(
        seq![
            ("goal"@, or_null(m.get("goal"@))),
            ("timestamp"@, or_null(m.get("timestamp"@))),
            ("type"@, JsonView::Text("goal_update"@)),
        ],
    )
}

/// A plan as a message of its own, where it is an object.
pub open spec fn plan_message(planner: JsonView) -> JsonView {
    match planner {
        JsonView::Object(entries) => JsonView::Object(
            entries.push(("type"@, JsonView::Text("planner_update"@))),
        ),
        _ => planner,
    }
}

fn task_message(message: &Json) -> (r: Json)
    ensures
        r.view() == snapshot_task(message.view()),
{
    let mut entries: Vec<(String, Json)> = Vec::new();
    add_member(&mut entries, "goal_text", copy_or_null(message.get2("task", "goal_text")));
    add_member(&mut entries, "schema_version", copy_or_null(message.get("schema_version")));
    add_member(&mut entries, "status", copy_or_null(message.get2("task", "status")));
    add_member(&mut entries, "task_id", copy_or_null(message.get2("task", "task_id")));
    add_member(&mut entries, "timestamp", copy_or_null(message.get("timestamp")));
    add_member(&mut entries, "type", Json::Text("task_status".to_owned()));
    assert(entry_views(entries@) == snapshot_task(message.view())->Object_0);
    Json::object(entries)
}

fn pose_message(message: &Json) -> (r: Json)
    ensures
        r.view() == snapshot_pose(message.view()),
{
    let mut entries: Vec<(String, Json)> = Vec::new();
    add_member(&mut entries, "pose", copy_or_null(message.get2("robot", "pose")));
    add_member(&mut entries, "timestamp", copy_or_null(message.get("timestamp")));
    add_member(&mut entries, "type", Json::Text("pose_update".to_owned()));
    add_member(&mut entries, "vpr_pose", copy_or_null(message.get2("robot", "vpr_pose")));
    assert(entry_views(entries@) == snapshot_pose(message.view())->Object_0);
    Json::object(entries)
}

fn goal_message(message: &Json) -> (r: Json)
    ensures
        r.view() == snapshot_goal(message.view()),
{
    let mut entries: Vec<(String, Json)> = Vec::new();
    add_member(&mut entries, "goal", copy_or_null(message.get("goal")));
    add_member(&mut entries, "timestamp", copy_or_null(message.get("timestamp")));
    add_member(&mut entries, "type", Json::Text("goal_update".to_owned()));
    assert(entry_views(entries@) == snapshot_goal(message.view())->Object_0);
    Json::object(entries)
}

fn planner_message(planner: &Json) -> (r: Json)
    ensures
        r.view() == plan_message(planner.view()),
{
    match planner.duplicate() {
        Json::Object(entries) => {
            let mut entries = entries;
            assert(planner.view()->Object_0 == entry_views(entries@));
            add_member(&mut entries, "type", Json::Text("planner_update".to_owned()));
            Json::object(entries)
        },
        other => other,
    }
}

/// What is to be done about a snapshot: about each of its parts in turn.
pub open spec fn snapshot_steps(m: JsonView) -> Seq<StepView> {
    seq![StepView::Time] + plain_steps(snapshot_task(m)) + plain_steps(snapshot_pose(m))
        + plain_steps(snapshot_goal(m)) + match m.get("planner"@) {
        Some(planner) => plain_steps(plan_message(planner)),
        None => Seq::empty(),
    } + seq![StepView::Images(or_null(m.get("images"@)))] + match m.get("dynamic_map"@) {
        Some(map) => seq![StepView::DynamicMap(map)],
        None => Seq::empty(),
    }
}

/// What is to be done about a message.
pub open spec fn message_steps(m: JsonView) -> Seq<StepView> {
    if message_kind(m) == "snapshot"@ {
        snapshot_steps(m)
    } else {
        plain_steps(m)
    }
}

/// Decides what is to be done about a message, and in what order.
pub fn steps_for_message(message: &Json) -> (r: Vec<Step>)
    ensures
        step_views(r@) == message_steps(message.view()),
        words_are_plain(message.view()),
        message_kind(message.view()) == "snapshot"@ ==> words_are_plain(
            snapshot_task(message.view()),
        ),
{
    proof {
        lemma_kinds_differ();
    }
    let kind = kind_of(message);
    if !same_text(kind.as_str(), "snapshot") {
        return steps_for_plain(message);
    }
    let mut steps: Vec<Step> = Vec::new();
    add_step(&mut steps, Step::Time);
    assert(step_views(steps@) == seq![StepView::Time]);
    add_steps(&mut steps, steps_for_plain(&task_message(message)));
    add_steps(&mut steps, steps_for_plain(&pose_message(message)));
    add_steps(&mut steps, steps_for_plain(&goal_message(message)));
    match message.get("planner") {
        Some(planner) => {
            add_steps(&mut steps, steps_for_plain(&planner_message(planner)));
        },
        None => {},
    }
    add_step(&mut steps, Step::Images(copy_or_null(message.get("images"))));
    match message.get("dynamic_map") {
        Some(map) => {
            add_step(&mut steps, Step::DynamicMap(map.duplicate()));
        },
        None => {},
    }
    assert(step_views(steps@) == snapshot_steps(message.view()));
    steps
}

/// What tells an image from others of its camera: its version and its address.
pub open spec fn image_identity(descriptor: JsonView, url: Seq<char>) -> Seq<char> {
    printed(or_null(descriptor.get("version"@))) + ":"@ + url
}

/// The full address of an image: one that is no URL is found on the robot.
pub open spec fn image_url(base: Seq<char>, url: Seq<char>) -> Seq<char> {
    if begins_with(url, "http://"@) || begins_with(url, "https://"@) {
        url
    } else if begins_with(url, "/"@) {
        base + url
    } else {
        base + "/"@ + url
    }
}

/// Where the images of a camera are shown.
pub open spec fn image_entity(key: Seq<char>) -> Seq<char> {
    if key == "rgb_latest"@ {
        "sensors/front/rgb"@
    } else if key == "rgb_navdp"@ {
        "planner/navdp/input"@
    } else {
        "sensors/"@ + key
    }
}

/// The image that is told for a camera.
pub open spec fn source_of(base: Seq<char>, key: Seq<char>, descriptor: JsonView) -> Option<
    ImageSourceView,
> {
    match descriptor.text_at("url"@) {
        Some(url) => Some(
            ImageSourceView {
                key,
                identity: image_identity(descriptor, url),
                url: image_url(base, url),
                entity: image_entity(key),
            },
        ),
        None => None,
    }
}

/// Finds the image that is told for a camera.
pub fn image_source(base: &str, key: &str, descriptor: &Json) -> (r: Option<ImageSource>)
    ensures
        (match r {
            Some(source) => Some(source@),
            None => None,
        }) == source_of(base@, key@, descriptor.view()),
{
    match text_value(descriptor.get("url")) {
        Some(url) => {
            let version = copy_or_null(descriptor.get("version"));
            let identity = version.to_text().concat(":").concat(url.as_str());
            let full = if starts_with_text(url.as_str(), "http://") || starts_with_text(
                url.as_str(),
                "https://",
            ) {
                url
            } else if starts_with_text(url.as_str(), "/") {
                base.to_owned().concat(url.as_str())
            } else {
                base.to_owned().concat("/").concat(url.as_str())
            };
            let entity = if same_text(key, "rgb_latest") {
                "sensors/front/rgb".to_owned()
            } else if same_text(key, "rgb_navdp") {
                "planner/navdp/input".to_owned()
            } else {
                "sensors/".to_owned().concat(key)
            };
            Some(ImageSource { key: key.to_owned(), identity, url: full, entity })
        },
        None => None,
    }
}

proof fn lemma_snapshot_names_differ()
    ensures
        "pose"@ != "timestamp"@,
        "pose"@ != "type"@,
        "pose"@ != "vpr_pose"@,
        "vpr_pose"@ != "timestamp"@,
        "vpr_pose"@ != "type"@,
        "goal"@ != "timestamp"@,
        "goal"@ != "type"@,
        "type"@ != "timestamp"@,
        "goal_text"@ != "schema_version"@,
        "goal_text"@ != "status"@,
        "goal_text"@ != "task_id"@,
        "goal_text"@ != "timestamp"@,
        "goal_text"@ != "type"@,
        "status"@ != "task_id"@,
        "status"@ != "timestamp"@,
        "status"@ != "type"@,
        "task_id"@ != "timestamp"@,
        "task_id"@ != "type"@,
{
    reveal_strlit("pose");
    reveal_strlit("vpr_pose");
    reveal_strlit("goal");
    reveal_strlit("timestamp");
    reveal_strlit("type");
    reveal_strlit("goal_text");
    reveal_strlit("schema_version");
    reveal_strlit("status");
    reveal_strlit("task_id");
    assert("pose"@.len() == 4 && "goal"@.len() == 4 && "type"@.len() == 4);
    assert("vpr_pose"@.len() == 8);
    assert("status"@.len() == 6 && "task_id"@.len() == 7);
    assert("timestamp"@.len() == 9 && "goal_text"@.len() == 9 && "schema_version"@.len() == 14);
    assert("pose"@[0] == 'p' && "goal"@[0] == 'g' && "type"@[0] == 't');
    assert("timestamp"@[0] == 't' && "goal_text"@[0] == 'g');
}

proof fn lemma_member_of_three(
    a: (Seq<char>, JsonView),
    b: (Seq<char>, JsonView),
    c: (Seq<char>, JsonView),
    key: Seq<char>,
)
    ensures
        member(seq![a, b, c], key) == if c.0 == key {
            Some(c.1)
        } else if b.0 == key {
            Some(b.1)
        } else if a.0 == key {
            Some(a.1)
        } else {
            None
        },
{
    reveal_with_fuel(member, 4);
    assert(seq![a, b, c].drop_last() == seq![a, b]);
    assert(seq![a, b].drop_last() == seq![a]);
    assert(seq![a].drop_last() == Seq::<(Seq<char>, JsonView)>::empty());
}

proof fn lemma_member_of_four(
    a: (Seq<char>, JsonView),
    b: (Seq<char>, JsonView),
    c: (Seq<char>, JsonView),
    d: (Seq<char>, JsonView),
    key: Seq<char>,
)
    ensures
        member(seq![a, b, c, d], key) == if d.0 == key {
            Some(d.1)
        } else {
            member(seq![a, b, c], key)
        },
{
    assert(seq![a, b, c, d].drop_last() == seq![a, b, c]);
}

proof fn lemma_pose_message(m: JsonView)
    ensures
        message_kind(snapshot_pose(m)) == "pose_update"@,
        snapshot_pose(m).get("pose"@) == Some(or_null(m.get2("robot"@, "pose"@))),
        snapshot_pose(m).get("vpr_pose"@) == Some(or_null(m.get2("robot"@, "vpr_pose"@))),
{
    lemma_snapshot_names_differ();
    let a = ("pose"@, or_null(m.get2("robot"@, "pose"@)));
    let b = ("timestamp"@, or_null(m.get("timestamp"@)));
    let c = ("type"@, JsonView::Text("pose_update"@));
    let d = ("vpr_pose"@, or_null(m.get2("robot"@, "vpr_pose"@)));
    lemma_member_of_four(a, b, c, d, "pose"@);
    lemma_member_of_four(a, b, c, d, "vpr_pose"@);
    lemma_member_of_four(a, b, c, d, "type"@);
    lemma_member_of_three(a, b, c, "pose"@);
    lemma_member_of_three(a, b, c, "type"@);
}

proof fn lemma_goal_message(m: JsonView)
    ensures
        message_kind(snapshot_goal(m)) == "goal_update"@,
        snapshot_goal(m).get("goal"@) == Some(or_null(m.get("goal"@))),
{
    lemma_snapshot_names_differ();
    let a = ("goal"@, or_null(m.get("goal"@)));
    let b = ("timestamp"@, or_null(m.get("timestamp"@)));
    let c = ("type"@, JsonView::Text("goal_update"@));
    lemma_member_of_three(a, b, c, "goal"@);
    lemma_member_of_three(a, b, c, "type"@);
}

proof fn lemma_task_message(m: JsonView)
    ensures
        message_kind(snapshot_task(m)) == "task_status"@,
        snapshot_task(m).get("goal_text"@) == Some(or_null(m.get2("task"@, "goal_text"@))),
        snapshot_task(m).get("status"@) == Some(or_null(m.get2("task"@, "status"@))),
        snapshot_task(m).get("task_id"@) == Some(or_null(m.get2("task"@, "task_id"@))),
{
    lemma_snapshot_names_differ();
    let entries = snapshot_task(m)->Object_0;
    let five = entries.drop_last();
    let four = five.drop_last();
    let a = ("goal_text"@, or_null(m.get2("task"@, "goal_text"@)));
    let b = ("schema_version"@, or_null(m.get("schema_version"@)));
    let c = ("status"@, or_null(m.get2("task"@, "status"@)));
    let d = ("task_id"@, or_null(m.get2("task"@, "task_id"@)));
    assert(four == seq![a, b, c, d]);
    assert(five.last() == ("timestamp"@, or_null(m.get("timestamp"@))));
    assert(entries.last() == ("type"@, JsonView::Text("task_status"@)));
    assert forall|key: Seq<char>| key != "type"@ && key != "timestamp"@ implies member(entries, key)
        == #[trigger] member(four, key) by {
        assert(member(entries, key) == member(five, key));
    }
    assert(member(entries, "type"@) == Some(JsonView::Text("task_status"@)));
    lemma_member_of_four(a, b, c, d, "goal_text"@);
    lemma_member_of_four(a, b, c, d, "status"@);
    lemma_member_of_four(a, b, c, d, "task_id"@);
    lemma_member_of_three(a, b, c, "goal_text"@);
    lemma_member_of_three(a, b, c, "status"@);
}

/// A snapshot is drawn as the updates are that tell the same: `pose` and `goal` are any
/// messages with the poses and the goal of the snapshot.
pub proof fn law_snapshot_is_drawn_as_updates(m: JsonView, pose: JsonView, goal: JsonView)
    requires
        message_kind(pose) == "pose_update"@,
        pose.get("pose"@) == m.get2("robot"@, "pose"@),
        pose.get("vpr_pose"@) == m.get2("robot"@, "vpr_pose"@),
        message_kind(goal) == "goal_update"@,
        goal.get("goal"@) == m.get("goal"@),
    ensures
        plain_steps(snapshot_pose(m)) == plain_steps(pose),
        plain_steps(snapshot_goal(m)) == plain_steps(goal),
{
    lemma_kinds_differ();
    lemma_pose_message(m);
    lemma_goal_message(m);
}

/// A snapshot reports the task as a message of its own does that tells the same.
pub proof fn law_snapshot_reports_as_updates(m: JsonView, task: JsonView)
    requires
        m.get("task"@) == Some(task),
    ensures
        report_of(snapshot_task(m)) == report_of(task),
{
    lemma_task_message(m);
}

/// The marks on the map are at the poses that are known of the robot and of its goal.
pub proof fn law_marks_are_at_the_known_poses(m: JsonView, known: Option<NativePoseSnapshot>)
    ensures
        message_kind(m) == "pose_update"@ && m.get("pose"@) is Some ==> (next_robot_pose(
            known,
            m,
        ) matches Some(pose) ==> plain_steps(m)[1] == StepView::Draw(
            DrawingView::Marker {
                entity: "world/robot"@,
                pose,
                color: rgba(42, 203, 225),
                label: "Robot 定位"@,
                heading: true,
                order: 30,
            },
        )),
        message_kind(m) == "goal_update"@ && m.get2("goal"@, "pose"@) is Some ==> (next_goal_pose(
            known,
            m,
        ) matches Some(pose) ==> plain_steps(m)[1] == StepView::Draw(
            DrawingView::Marker {
                entity: "world/goal"@,
                pose,
                color: rgba(255, 113, 91),
                label: "导航目标"@,
                heading: true,
                order: 28,
            },
        )),
{
    lemma_kinds_differ();
}

/// Where something is drawn.
pub open spec fn place_of(d: DrawingView) -> Seq<char> {
    match d {
        DrawingView::Clear { entity } => entity,
        DrawingView::Marker { entity, .. } => entity,
        DrawingView::Path { entity, .. } => entity,
        DrawingView::Points { entity, .. } => entity,
        DrawingView::Text { entity, .. } => entity,
    }
}

/// What some steps draw at a place, in their order.
pub open spec fn drawn_at(steps: Seq<StepView>, place: Seq<char>) -> Seq<DrawingView>
    decreases steps.len(),
{
    if steps.len() == 0 {
        Seq::empty()
    } else {
        let head = drawn_at(steps.drop_last(), place);
        match steps.last() {
            StepView::Draw(d) => if place_of(d) == place {
                head.push(d)
            } else {
                head
            },
            _ => head,
        }
    }
}

proof fn lemma_drawn_in_parts(a: Seq<StepView>, b: Seq<StepView>, place: Seq<char>)
    ensures
        drawn_at(a + b, place) == drawn_at(a, place) + drawn_at(b, place),
    decreases b.len(),
{
    if b.len() == 0 {
        assert(a + b == a);
        assert(drawn_at(a, place) + drawn_at(b, place) == drawn_at(a, place));
    } else {
        lemma_drawn_in_parts(a, b.drop_last(), place);
        assert((a + b).drop_last() == a + b.drop_last());
        assert((a + b).last() == b.last());
        let head = drawn_at(a, place);
        let tail = drawn_at(b.drop_last(), place);
        match b.last() {
            StepView::Draw(d) => {
                assert((head + tail).push(d) == head + tail.push(d));
            },
            _ => {},
        }
    }
}

proof fn lemma_drawn_by_one(step: StepView, place: Seq<char>)
    ensures
        drawn_at(seq![step], place) == if step matches StepView::Draw(d) && place_of(d) == place {
            seq![step->Draw_0]
        } else {
            Seq::empty()
        },
{
    assert(seq![step].drop_last() == Seq::<StepView>::empty());
    assert(seq![step].last() == step);
    assert(drawn_at(seq![step].drop_last(), place) == Seq::<DrawingView>::empty());
}

proof fn lemma_places_differ()
    ensures
        "world/robot"@.len() == 11,
        "world/vpr_pose"@.len() == 14,
        "world/goal"@.len() == 10,
        "world/planner/global_path"@.len() == 25,
        "world/planner/local_path"@.len() == 24,
        "world/planner/local_path"@[20] == 'p',
        "world/planner/local_goal"@.len() == 24,
        "world/planner/local_goal"@[20] == 'g',
        "world/planner/waypoints"@.len() == 23,
        "events/task_status"@.len() == 18,
        "events/navigation"@.len() == 17,
{
    reveal_strlit("world/robot");
    reveal_strlit("world/vpr_pose");
    reveal_strlit("world/goal");
    reveal_strlit("world/planner/global_path");
    reveal_strlit("world/planner/local_path");
    reveal_strlit("world/planner/local_goal");
    reveal_strlit("world/planner/waypoints");
    reveal_strlit("events/task_status");
    reveal_strlit("events/navigation");
}

proof fn lemma_path_drawn(
    value: Option<JsonView>,
    entity: Seq<char>,
    color: Rgba,
    order: u8,
    place: Seq<char>,
)
    ensures
        drawn_at(path_steps(value, entity, color, order), place) == if entity == place {
            if points_of(value).len() < 2 {
                seq![DrawingView::Clear { entity }]
            } else {
                seq![DrawingView::Path { entity, points: points_of(value), color, order }]
            }
        } else {
            Seq::empty()
        },
{
    let steps = path_steps(value, entity, color, order);
    lemma_drawn_by_one(steps[0], place);
    assert(steps == seq![steps[0]]);
}

proof fn lemma_points_drawn(points: Seq<MapPoint>, entity: Seq<char>, color: Rgba, place: Seq<char>)
    ensures
        drawn_at(points_steps(points, entity, color), place) == if entity == place {
            if points.len() == 0 {
                seq![DrawingView::Clear { entity }]
            } else {
                seq![DrawingView::Points { entity, points, color, order: 8 }]
            }
        } else {
            Seq::empty()
        },
{
    let steps = points_steps(points, entity, color);
    lemma_drawn_by_one(steps[0], place);
    assert(steps == seq![steps[0]]);
}

proof fn lemma_pose_drawn(
    value: Option<JsonView>,
    entity: Seq<char>,
    color: Rgba,
    label: Seq<char>,
    heading: bool,
    order: u8,
    place: Seq<char>,
)
    ensures
        drawn_at(pose_steps(value, entity, color, label, heading, order), place) == if entity
            == place {
            if present(value) is None {
                seq![DrawingView::Clear { entity }]
            } else {
                match pose_of(value) {
                    Some(pose) => seq![
                        DrawingView::Marker { entity, pose, color, label, heading, order },
                    ],
                    None => Seq::empty(),
                }
            }
        } else {
            Seq::empty()
        },
{
    let steps = pose_steps(value, entity, color, label, heading, order);
    if steps.len() > 0 {
        lemma_drawn_by_one(steps[0], place);
        assert(steps == seq![steps[0]]);
    }
}

/// What is drawn of a plan, place by place.
proof fn lemma_plan_drawn(m: JsonView, place: Seq<char>)
    requires
        message_kind(m) == "planner_update"@,
    ensures
        ({
            let at = drawn_at(plain_steps(m), place);
            let global = m.get("global_path"@);
            let local = m.get("local_path"@);
            let waypoints = points_of(m.get("waypoints"@));
            &&& place == "world/planner/global_path"@ ==> at == drawn_at(
                path_steps(global, place, rgba(77, 222, 155), 6),
                place,
            )
            &&& place == "world/planner/local_path"@ ==> at == drawn_at(
                path_steps(local, place, rgba(255, 191, 71), 7),
                place,
            )
            &&& place == "world/planner/waypoints"@ ==> at == drawn_at(
                points_steps(waypoints, place, rgba(167, 139, 250)),
                place,
            )
            &&& place == "world/planner/local_goal"@ ==> at == match m.get("local_goal"@) {
                Some(goal) => drawn_at(
                    points_steps(single_point(goal), place, rgba(255, 220, 92)),
                    place,
                ),
                None => Seq::empty(),
            }
            &&& place == "world/robot"@ || place == "world/vpr_pose"@ || place == "world/goal"@
                || place == "events/task_status"@ || place == "events/navigation"@ ==> at
                == Seq::<DrawingView>::empty()
        }),
{
    lemma_kinds_differ();
    lemma_places_differ();
    let t = seq![StepView::Time];
    let a = path_steps(m.get("global_path"@), "world/planner/global_path"@, rgba(77, 222, 155), 6);
    let b = path_steps(m.get("local_path"@), "world/planner/local_path"@, rgba(255, 191, 71), 7);
    let c = points_steps(
        points_of(m.get("waypoints"@)),
        "world/planner/waypoints"@,
        rgba(167, 139, 250),
    );
    let d = match m.get("local_goal"@) {
        Some(goal) => points_steps(
            single_point(goal),
            "world/planner/local_goal"@,
            rgba(255, 220, 92),
        ),
        None => Seq::empty(),
    };
    assert(plain_steps(m) == t + (a + b + c + d));
    lemma_drawn_in_parts(t, a + b + c + d, place);
    lemma_drawn_in_parts(a + b + c, d, place);
    lemma_drawn_in_parts(a + b, c, place);
    lemma_drawn_in_parts(a, b, place);
    lemma_drawn_by_one(StepView::Time, place);
    lemma_path_drawn(
        m.get("global_path"@),
        "world/planner/global_path"@,
        rgba(77, 222, 155),
        6,
        place,
    );
    lemma_path_drawn(
        m.get("local_path"@),
        "world/planner/local_path"@,
        rgba(255, 191, 71),
        7,
        place,
    );
    lemma_points_drawn(
        points_of(m.get("waypoints"@)),
        "world/planner/waypoints"@,
        rgba(167, 139, 250),
        place,
    );
    match m.get("local_goal"@) {
        Some(goal) => {
            lemma_points_drawn(
                single_point(goal),
                "world/planner/local_goal"@,
                rgba(255, 220, 92),
                place,
            );
        },
        None => {},
    }
    let empty = Seq::<DrawingView>::empty();
    let parts = drawn_at(a, place) + drawn_at(b, place) + drawn_at(c, place) + drawn_at(d, place);
    assert(drawn_at(plain_steps(m), place) == drawn_at(t, place) + parts);
    assert(empty + parts == parts);
    if place == "world/planner/global_path"@ {
        assert(parts == drawn_at(a, place));
    } else if place == "world/planner/local_path"@ {
        assert(parts == drawn_at(b, place));
    } else if place == "world/planner/waypoints"@ {
        assert(parts == drawn_at(c, place));
    } else if place == "world/planner/local_goal"@ {
        assert(parts == drawn_at(d, place));
    } else if place == "world/robot"@ || place == "world/vpr_pose"@ || place == "world/goal"@
        || place == "events/task_status"@ || place == "events/navigation"@ {
        assert(parts == empty);
    }
}

/// What is drawn of the poses, place by place.
proof fn lemma_poses_drawn(m: JsonView, place: Seq<char>)
    requires
        message_kind(m) == "pose_update"@,
    ensures
        ({
            let at = drawn_at(plain_steps(m), place);
            &&& place == "world/robot"@ ==> at == drawn_at(
                pose_steps(m.get("pose"@), place, rgba(42, 203, 225), "Robot 定位"@, true, 30),
                place,
            )
            &&& place == "world/vpr_pose"@ ==> at == drawn_at(
                pose_steps(m.get("vpr_pose"@), place, rgba(167, 139, 250), "VPR 定位"@, false, 26),
                place,
            )
            &&& place != "world/robot"@ && place != "world/vpr_pose"@ ==> at == Seq::<
                DrawingView,
            >::empty()
        }),
{
    lemma_kinds_differ();
    lemma_places_differ();
    let t = seq![StepView::Time];
    let a = pose_steps(
        m.get("pose"@),
        "world/robot"@,
        rgba(42, 203, 225),
        "Robot 定位"@,
        true,
        30,
    );
    let b = pose_steps(
        m.get("vpr_pose"@),
        "world/vpr_pose"@,
        rgba(167, 139, 250),
        "VPR 定位"@,
        false,
        26,
    );
    lemma_drawn_in_parts(t + a, b, place);
    lemma_drawn_in_parts(t, a, place);
    lemma_drawn_by_one(StepView::Time, place);
    lemma_pose_drawn(
        m.get("pose"@),
        "world/robot"@,
        rgba(42, 203, 225),
        "Robot 定位"@,
        true,
        30,
        place,
    );
    lemma_pose_drawn(
        m.get("vpr_pose"@),
        "world/vpr_pose"@,
        rgba(167, 139, 250),
        "VPR 定位"@,
        false,
        26,
        place,
    );
    let at = drawn_at(plain_steps(m), place);
    assert(at == drawn_at(t, place) + drawn_at(a, place) + drawn_at(b, place));
    if place == "world/robot"@ {
        assert(at == drawn_at(a, place));
    } else if place == "world/vpr_pose"@ {
        assert(at == drawn_at(b, place));
    } else {
        assert(at == Seq::<DrawingView>::empty());
    }
}

/// What is drawn of the goal, place by place.
proof fn lemma_goal_drawn(m: JsonView, place: Seq<char>)
    requires
        message_kind(m) == "goal_update"@,
    ensures
        ({
            let at = drawn_at(plain_steps(m), place);
            let told = m.get2("goal"@, "pose"@);
            &&& place == "world/goal"@ ==> at == drawn_at(
                pose_steps(told, place, rgba(255, 113, 91), "导航目标"@, true, 28),
                place,
            )
            &&& place != "world/goal"@ ==> at == Seq::<DrawingView>::empty()
        }),
{
    lemma_kinds_differ();
    let t = seq![StepView::Time];
    let told = m.get2("goal"@, "pose"@);
    let a = pose_steps(told, "world/goal"@, rgba(255, 113, 91), "导航目标"@, true, 28);
    lemma_drawn_in_parts(t, a, place);
    lemma_drawn_by_one(StepView::Time, place);
    lemma_pose_drawn(told, "world/goal"@, rgba(255, 113, 91), "导航目标"@, true, 28, place);
    let at = drawn_at(plain_steps(m), place);
    assert(at == drawn_at(t, place) + drawn_at(a, place));
    assert(at == drawn_at(a, place));
}

/// What is drawn of a task, place by place.
proof fn lemma_task_drawn(m: JsonView, place: Seq<char>)
    requires
        message_kind(m) == "task_status"@,
    ensures
        drawn_at(plain_steps(m), place) == if place == "events/task_status"@ {
            seq![log_line("events/task_status"@, printed(m), "INFO"@)]
        } else {
            Seq::empty()
        },
{
    lemma_kinds_differ();
    let line = StepView::Draw(log_line("events/task_status"@, printed(m), "INFO"@));
    let begin = StepView::BeginTask(report_of(m));
    let end = StepView::EndTask(report_of(m));
    let steps = seq![begin] + seq![StepView::Time] + seq![line] + seq![end];
    assert(plain_steps(m) == steps);
    lemma_drawn_in_parts(seq![begin] + seq![StepView::Time] + seq![line], seq![end], place);
    lemma_drawn_in_parts(seq![begin] + seq![StepView::Time], seq![line], place);
    lemma_drawn_in_parts(seq![begin], seq![StepView::Time], place);
    lemma_drawn_by_one(begin, place);
    lemma_drawn_by_one(StepView::Time, place);
    lemma_drawn_by_one(line, place);
    lemma_drawn_by_one(end, place);
    assert(drawn_at(plain_steps(m), place) == drawn_at(seq![line], place));
}

/// Whether a document is a point: a list whose first two elements are numbers.
pub open spec fn is_point(v: JsonView, point: MapPoint) -> bool {
    v matches JsonView::Array(parts) && parts.len() >= 2 && parts[0].double() == Some(point.x)
        && parts[1].double() == Some(point.y)
}

/// Whether a document is no point at all.
pub open spec fn is_no_point(v: JsonView) -> bool {
    v matches JsonView::Array(parts) ==> parts.len() < 2 || parts[0].double() is None
        || parts[1].double() is None
}

/// Whether the elements of a list are the given points, one by one.
pub open spec fn are_points(items: Seq<JsonView>, points: Seq<MapPoint>) -> bool {
    items.len() == points.len() && forall|i: int|
        0 <= i < items.len() ==> is_point(#[trigger] items[i], points[i])
}

proof fn lemma_points_are_read(items: Seq<JsonView>, points: Seq<MapPoint>)
    requires
        are_points(items, points),
    ensures
        points_in(items) == points,
    decreases items.len(),
{
    if items.len() > 0 {
        let last = items.len() - 1;
        assert(is_point(items[last], points[last]));
        assert forall|i: int| 0 <= i < last implies is_point(
            #[trigger] items.drop_last()[i],
            points.drop_last()[i],
        ) by {
            assert(is_point(items[i], points[i]));
        }
        lemma_points_are_read(items.drop_last(), points.drop_last());
        assert(points.drop_last().push(points[last]) == points);
    }
}

/// The paths of a plan are drawn as they are told, each at its own place: the global one
/// by the list `global_path`, the local one by the list `local_path`. A path of fewer
/// than two points disappears, and so does one that is not told as a list.
pub proof fn law_paths_are_drawn(
    m: JsonView,
    items: Seq<JsonView>,
    points: Seq<MapPoint>,
)
    requires
        m.text_at("type"@) == Some("planner_update"@),
        are_points(items, points),
    ensures
        ({
            let global = drawn_at(message_steps(m), "world/planner/global_path"@);
            let local = drawn_at(message_steps(m), "world/planner/local_path"@);
            &&& m.get("global_path"@) == Some(JsonView::Array(items)) && points.len() >= 2
                ==> global == seq![
                DrawingView::Path {
                    entity: "world/planner/global_path"@,
                    points,
                    color: Rgba { r: 77, g: 222, b: 155, a: 255 },
                    order: 6,
                },
            ]
            &&& m.get("global_path"@) == Some(JsonView::Array(items)) && points.len() < 2
                ==> global == seq![DrawingView::Clear { entity: "world/planner/global_path"@ }]
            &&& !(m.get("global_path"@) matches Some(JsonView::Array(_))) ==> global == seq![
                DrawingView::Clear { entity: "world/planner/global_path"@ },
            ]
            &&& m.get("local_path"@) == Some(JsonView::Array(items)) && points.len() >= 2
                ==> local == seq![
                DrawingView::Path {
                    entity: "world/planner/local_path"@,
                    points,
                    color: Rgba { r: 255, g: 191, b: 71, a: 255 },
                    order: 7,
                },
            ]
            &&& m.get("local_path"@) == Some(JsonView::Array(items)) && points.len() < 2
                ==> local == seq![DrawingView::Clear { entity: "world/planner/local_path"@ }]
            &&& !(m.get("local_path"@) matches Some(JsonView::Array(_))) ==> local == seq![
                DrawingView::Clear { entity: "world/planner/local_path"@ },
            ]
        }),
{
    lemma_kinds_differ();
    lemma_points_are_read(items, points);
    let global = "world/planner/global_path"@;
    let local = "world/planner/local_path"@;
    lemma_plan_drawn(m, global);
    lemma_plan_drawn(m, local);
    lemma_path_drawn(m.get("global_path"@), global, rgba(77, 222, 155), 6, global);
    lemma_path_drawn(m.get("local_path"@), local, rgba(255, 191, 71), 7, local);
}

/// The points of a plan are drawn as they are told: the waypoints by the list
/// `waypoints`, the local goal by the point `local_goal`. Where there are none they
/// disappear, but a local goal that is not told stays.
pub proof fn law_plan_points_are_drawn(
    m: JsonView,
    items: Seq<JsonView>,
    points: Seq<MapPoint>,
    point: MapPoint,
)
    requires
        m.text_at("type"@) == Some("planner_update"@),
        are_points(items, points),
    ensures
        ({
            let waypoints = drawn_at(message_steps(m), "world/planner/waypoints"@);
            let goal = drawn_at(message_steps(m), "world/planner/local_goal"@);
            &&& m.get("waypoints"@) == Some(JsonView::Array(items)) && points.len() >= 1
                ==> waypoints == seq![
                DrawingView::Points {
                    entity: "world/planner/waypoints"@,
                    points,
                    color: Rgba { r: 167, g: 139, b: 250, a: 255 },
                    order: 8,
                },
            ]
            &&& m.get("waypoints"@) == Some(JsonView::Array(items)) && points.len() == 0
                ==> waypoints == seq![DrawingView::Clear { entity: "world/planner/waypoints"@ }]
            &&& !(m.get("waypoints"@) matches Some(JsonView::Array(_))) ==> waypoints == seq![
                DrawingView::Clear { entity: "world/planner/waypoints"@ },
            ]
            &&& (m.get("local_goal"@) matches Some(v) && is_point(v, point)) ==> goal == seq![
                DrawingView::Points {
                    entity: "world/planner/local_goal"@,
                    points: seq![point],
                    color: Rgba { r: 255, g: 220, b: 92, a: 255 },
                    order: 8,
                },
            ]
            &&& (m.get("local_goal"@) matches Some(v) && is_no_point(v)) ==> goal == seq![
                DrawingView::Clear { entity: "world/planner/local_goal"@ },
            ]
            &&& m.get("local_goal"@) is None ==> goal == Seq::<DrawingView>::empty()
        }),
{
    lemma_kinds_differ();
    lemma_points_are_read(items, points);
    let waypoints = "world/planner/waypoints"@;
    let goal = "world/planner/local_goal"@;
    lemma_plan_drawn(m, waypoints);
    lemma_plan_drawn(m, goal);
    lemma_points_drawn(points_of(m.get("waypoints"@)), waypoints, rgba(167, 139, 250), waypoints);
    match m.get("local_goal"@) {
        Some(v) => {
            lemma_points_drawn(single_point(v), goal, rgba(255, 220, 92), goal);
        },
        None => {},
    }
}

/// What is no point in the lists of a plan is passed over: two plans of which one has
/// such an element more at the end of its lists look the same. And one point more is
/// drawn at the end of a path that is drawn, and of the waypoints.
pub proof fn law_lists_are_drawn_in_order(
    m: JsonView,
    n: JsonView,
    name: Seq<char>,
    place: Seq<char>,
    items: Seq<JsonView>,
    more: JsonView,
    point: MapPoint,
)
    requires
        m.text_at("type"@) == Some("planner_update"@),
        n.text_at("type"@) == Some("planner_update"@),
        (name == "global_path"@ && place == "world/planner/global_path"@) || (name
            == "local_path"@ && place == "world/planner/local_path"@) || (name == "waypoints"@
            && place == "world/planner/waypoints"@),
        m.get(name) == Some(JsonView::Array(items)),
        n.get(name) == Some(JsonView::Array(items.push(more))),
    ensures
        is_no_point(more) ==> drawn_at(message_steps(n), place) == drawn_at(
            message_steps(m),
            place,
        ),
        is_point(more, point) ==> {
            let before = drawn_at(message_steps(m), place);
            let after = drawn_at(message_steps(n), place);
            &&& before.len() == 1 && after.len() == 1
            &&& before[0] matches DrawingView::Path { entity, points, color, order } ==> after[0]
                == (DrawingView::Path { entity, points: points.push(point), color, order })
            &&& before[0] matches DrawingView::Points { entity, points, color, order } ==> after[0]
                == (DrawingView::Points { entity, points: points.push(point), color, order })
        },
{
    lemma_kinds_differ();
    lemma_places_differ();
    reveal_strlit("global_path");
    reveal_strlit("local_path");
    reveal_strlit("waypoints");
    assert("global_path"@.len() == 11 && "local_path"@.len() == 10 && "waypoints"@.len() == 9);
    assert(items.push(more).drop_last() == items);
    assert(items.push(more).last() == more);
    lemma_plan_drawn(m, place);
    lemma_plan_drawn(n, place);
    lemma_path_drawn(m.get("global_path"@), place, rgba(77, 222, 155), 6, place);
    lemma_path_drawn(n.get("global_path"@), place, rgba(77, 222, 155), 6, place);
    lemma_path_drawn(m.get("local_path"@), place, rgba(255, 191, 71), 7, place);
    lemma_path_drawn(n.get("local_path"@), place, rgba(255, 191, 71), 7, place);
    lemma_points_drawn(points_of(m.get("waypoints"@)), place, rgba(167, 139, 250), place);
    lemma_points_drawn(points_of(n.get("waypoints"@)), place, rgba(167, 139, 250), place);
}

/// Each part of a plan is drawn by its own member alone: whatever else differs between
/// two plans, a part on which they agree looks the same in both.
pub proof fn law_plan_parts_are_apart(m: JsonView, n: JsonView)
    requires
        m.text_at("type"@) == Some("planner_update"@),
        n.text_at("type"@) == Some("planner_update"@),
    ensures
        m.get("global_path"@) == n.get("global_path"@) ==> drawn_at(
            message_steps(m),
            "world/planner/global_path"@,
        ) == drawn_at(message_steps(n), "world/planner/global_path"@),
        m.get("local_path"@) == n.get("local_path"@) ==> drawn_at(
            message_steps(m),
            "world/planner/local_path"@,
        ) == drawn_at(message_steps(n), "world/planner/local_path"@),
        m.get("waypoints"@) == n.get("waypoints"@) ==> drawn_at(
            message_steps(m),
            "world/planner/waypoints"@,
        ) == drawn_at(message_steps(n), "world/planner/waypoints"@),
        m.get("local_goal"@) == n.get("local_goal"@) ==> drawn_at(
            message_steps(m),
            "world/planner/local_goal"@,
        ) == drawn_at(message_steps(n), "world/planner/local_goal"@),
{
    lemma_kinds_differ();
    lemma_plan_drawn(m, "world/planner/global_path"@);
    lemma_plan_drawn(n, "world/planner/global_path"@);
    lemma_plan_drawn(m, "world/planner/local_path"@);
    lemma_plan_drawn(n, "world/planner/local_path"@);
    lemma_plan_drawn(m, "world/planner/waypoints"@);
    lemma_plan_drawn(n, "world/planner/waypoints"@);
    lemma_plan_drawn(m, "world/planner/local_goal"@);
    lemma_plan_drawn(n, "world/planner/local_goal"@);
}

/// The poses of a pose update are marked as they are told, each at its own place: the
/// robot's by the member `pose`, that of the visual localization by `vpr_pose`. A pose
/// that is not told, or told as `null`, disappears; one without a position stays.
pub proof fn law_poses_are_drawn(m: JsonView, pose: NativePoseSnapshot)
    requires
        m.text_at("type"@) == Some("pose_update"@),
    ensures
        ({
            let robot = drawn_at(message_steps(m), "world/robot"@);
            let vpr = drawn_at(message_steps(m), "world/vpr_pose"@);
            &&& (m.get("pose"@) matches Some(v) && gives_pose(v, pose)) ==> robot == seq![
                DrawingView::Marker {
                    entity: "world/robot"@,
                    pose,
                    color: Rgba { r: 42, g: 203, b: 225, a: 255 },
                    label: "Robot 定位"@,
                    heading: true,
                    order: 30,
                },
            ]
            &&& m.get("pose"@) is None || m.get("pose"@) == Some(JsonView::Null) ==> robot == seq![
                DrawingView::Clear { entity: "world/robot"@ },
            ]
            &&& (m.get("pose"@) matches Some(v) && !(v is Null) && gives_no_position(v)) ==> robot
                == Seq::<DrawingView>::empty()
            &&& (m.get("vpr_pose"@) matches Some(v) && gives_pose(v, pose)) ==> vpr == seq![
                DrawingView::Marker {
                    entity: "world/vpr_pose"@,
                    pose,
                    color: Rgba { r: 167, g: 139, b: 250, a: 255 },
                    label: "VPR 定位"@,
                    heading: false,
                    order: 26,
                },
            ]
            &&& m.get("vpr_pose"@) is None || m.get("vpr_pose"@) == Some(JsonView::Null) ==> vpr
                == seq![DrawingView::Clear { entity: "world/vpr_pose"@ }]
            &&& (m.get("vpr_pose"@) matches Some(v) && !(v is Null) && gives_no_position(v))
                ==> vpr == Seq::<DrawingView>::empty()
        }),
{
    lemma_kinds_differ();
    let robot = "world/robot"@;
    let vpr = "world/vpr_pose"@;
    lemma_poses_drawn(m, robot);
    lemma_poses_drawn(m, vpr);
    lemma_pose_drawn(m.get("pose"@), robot, rgba(42, 203, 225), "Robot 定位"@, true, 30, robot);
    lemma_pose_drawn(m.get("vpr_pose"@), vpr, rgba(167, 139, 250), "VPR 定位"@, false, 26, vpr);
}

/// The goal of a goal update is marked as it is told by the member `pose` of its member
/// `goal`. A goal that is not told, or told as `null`, disappears; one without a position
/// stays.
pub proof fn law_goals_are_drawn(m: JsonView, pose: NativePoseSnapshot)
    requires
        m.text_at("type"@) == Some("goal_update"@),
    ensures
        ({
            let at = drawn_at(message_steps(m), "world/goal"@);
            &&& m.get("goal"@) is None ==> at == seq![
                DrawingView::Clear { entity: "world/goal"@ },
            ]
            &&& m.get("goal"@) matches Some(goal) ==> {
                &&& (goal.get("pose"@) matches Some(v) && gives_pose(v, pose)) ==> at == seq![
                    DrawingView::Marker {
                        entity: "world/goal"@,
                        pose,
                        color: Rgba { r: 255, g: 113, b: 91, a: 255 },
                        label: "导航目标"@,
                        heading: true,
                        order: 28,
                    },
                ]
                &&& goal.get("pose"@) is None || goal.get("pose"@) == Some(JsonView::Null) ==> at
                    == seq![DrawingView::Clear { entity: "world/goal"@ }]
                &&& (goal.get("pose"@) matches Some(v) && !(v is Null) && gives_no_position(v))
                    ==> at == Seq::<DrawingView>::empty()
            }
        }),
{
    lemma_kinds_differ();
    let place = "world/goal"@;
    lemma_goal_drawn(m, place);
    lemma_pose_drawn(
        m.get2("goal"@, "pose"@),
        place,
        rgba(255, 113, 91),
        "导航目标"@,
        true,
        28,
        place,
    );
}

/// The marks on the map are at the poses that are known, all three of them.
pub proof fn law_marks_and_status_agree(s: StatusView, m: JsonView)
    requires
        m.text_at("type"@) == Some("pose_update"@) || m.text_at("type"@) == Some("goal_update"@),
    ensures
        ({
            let after = status_after(s, m);
            let robot = drawn_at(message_steps(m), "world/robot"@);
            let vpr = drawn_at(message_steps(m), "world/vpr_pose"@);
            let goal = drawn_at(message_steps(m), "world/goal"@);
            &&& robot.len() == 1 ==> (robot[0] matches DrawingView::Marker { pose, .. }
                ==> after.robot_pose == Some(pose))
            &&& vpr.len() == 1 ==> (vpr[0] matches DrawingView::Marker { pose, .. }
                ==> after.vpr_pose == Some(pose))
            &&& goal.len() == 1 ==> (goal[0] matches DrawingView::Marker { pose, .. }
                ==> after.goal_pose == Some(pose))
        }),
{
    lemma_kinds_differ();
    lemma_places_differ();
    let robot = "world/robot"@;
    let vpr = "world/vpr_pose"@;
    let goal = "world/goal"@;
    if message_kind(m) == "pose_update"@ {
        lemma_poses_drawn(m, robot);
        lemma_poses_drawn(m, vpr);
        lemma_poses_drawn(m, goal);
    } else {
        lemma_goal_drawn(m, robot);
        lemma_goal_drawn(m, vpr);
        lemma_goal_drawn(m, goal);
    }
    lemma_pose_drawn(m.get("pose"@), robot, rgba(42, 203, 225), "Robot 定位"@, true, 30, robot);
    lemma_pose_drawn(m.get("vpr_pose"@), vpr, rgba(167, 139, 250), "VPR 定位"@, false, 26, vpr);
    lemma_pose_drawn(
        m.get2("goal"@, "pose"@),
        goal,
        rgba(255, 113, 91),
        "导航目标"@,
        true,
        28,
        goal,
    );
}

proof fn lemma_plan_message(entries: Seq<(Seq<char>, JsonView)>, key: Seq<char>)
    requires
        key != "type"@,
    ensures
        message_kind(plan_message(JsonView::Object(entries))) == "planner_update"@,
        plan_message(JsonView::Object(entries)).get(key) == JsonView::Object(entries).get(key),
{
    let typed = entries.push(("type"@, JsonView::Text("planner_update"@)));
    assert(typed.drop_last() == entries);
    assert(typed.last() == ("type"@, JsonView::Text("planner_update"@)));
    assert(member(typed, "type"@) == Some(JsonView::Text("planner_update"@)));
}

proof fn lemma_plan_names_differ()
    ensures
        "global_path"@ != "type"@,
        "local_path"@ != "type"@,
        "waypoints"@ != "type"@,
        "local_goal"@ != "type"@,
{
    reveal_strlit("global_path");
    reveal_strlit("local_path");
    reveal_strlit("waypoints");
    reveal_strlit("local_goal");
    reveal_strlit("type");
    assert("type"@.len() == 4);
    assert("global_path"@.len() == 11 && "local_path"@.len() == 10 && "waypoints"@.len() == 9);
    assert("local_goal"@.len() == 10);
}

/// What is done about the plan of a snapshot.
spec fn snapshot_plan_steps(m: JsonView) -> Seq<StepView> {
    match m.get("planner"@) {
        Some(planner) => plain_steps(plan_message(planner)),
        None => Seq::empty(),
    }
}

proof fn lemma_snapshot_drawn(m: JsonView, place: Seq<char>)
    requires
        message_kind(m) == "snapshot"@,
    ensures
        drawn_at(message_steps(m), place) == drawn_at(plain_steps(snapshot_task(m)), place)
            + drawn_at(plain_steps(snapshot_pose(m)), place) + drawn_at(
            plain_steps(snapshot_goal(m)),
            place,
        ) + drawn_at(snapshot_plan_steps(m), place),
{
    let t = seq![StepView::Time];
    let a = plain_steps(snapshot_task(m));
    let b = plain_steps(snapshot_pose(m));
    let c = plain_steps(snapshot_goal(m));
    let d = snapshot_plan_steps(m);
    let e = seq![StepView::Images(or_null(m.get("images"@)))];
    let f = match m.get("dynamic_map"@) {
        Some(map) => seq![StepView::DynamicMap(map)],
        None => Seq::empty(),
    };
    assert(snapshot_steps(m) == t + a + b + c + d + e + f);
    lemma_drawn_in_parts(t + a + b + c + d + e, f, place);
    lemma_drawn_in_parts(t + a + b + c + d, e, place);
    lemma_drawn_in_parts(t + a + b + c, d, place);
    lemma_drawn_in_parts(t + a + b, c, place);
    lemma_drawn_in_parts(t + a, b, place);
    lemma_drawn_in_parts(t, a, place);
    lemma_drawn_by_one(StepView::Time, place);
    lemma_drawn_by_one(e[0], place);
    match m.get("dynamic_map"@) {
        Some(map) => lemma_drawn_by_one(StepView::DynamicMap(map), place),
        None => {},
    }
    let none = Seq::<DrawingView>::empty();
    assert(drawn_at(f, place) == none);
    assert(drawn_at(e, place) == none);
    assert(drawn_at(snapshot_steps(m), place) == drawn_at(a, place) + drawn_at(b, place)
        + drawn_at(c, place) + drawn_at(d, place));
}

/// A snapshot is drawn as the updates are that tell the same, at every place: `pose`,
/// `goal` and `plan` are any updates with the poses, the goal and the plan of the
/// snapshot. Without a plan nothing is drawn of one.
pub proof fn law_snapshot_looks_like_its_updates(
    m: JsonView,
    pose: JsonView,
    goal: JsonView,
    plan: JsonView,
)
    requires
        m.text_at("type"@) == Some("snapshot"@),
        pose.text_at("type"@) == Some("pose_update"@),
        pose.get("pose"@) == m.get2("robot"@, "pose"@),
        pose.get("vpr_pose"@) == m.get2("robot"@, "vpr_pose"@),
        goal.text_at("type"@) == Some("goal_update"@),
        goal.get("goal"@) == m.get("goal"@),
        plan.text_at("type"@) == Some("planner_update"@),
    ensures
        drawn_at(message_steps(m), "world/robot"@) == drawn_at(
            message_steps(pose),
            "world/robot"@,
        ),
        drawn_at(message_steps(m), "world/vpr_pose"@) == drawn_at(
            message_steps(pose),
            "world/vpr_pose"@,
        ),
        drawn_at(message_steps(m), "world/goal"@) == drawn_at(message_steps(goal), "world/goal"@),
        m.get("planner"@) matches Some(JsonView::Object(told)) ==> {
            let planner = JsonView::Object(told);
            &&& plan.get("global_path"@) == planner.get("global_path"@) ==> drawn_at(
                message_steps(m),
                "world/planner/global_path"@,
            ) == drawn_at(message_steps(plan), "world/planner/global_path"@)
            &&& plan.get("local_path"@) == planner.get("local_path"@) ==> drawn_at(
                message_steps(m),
                "world/planner/local_path"@,
            ) == drawn_at(message_steps(plan), "world/planner/local_path"@)
            &&& plan.get("waypoints"@) == planner.get("waypoints"@) ==> drawn_at(
                message_steps(m),
                "world/planner/waypoints"@,
            ) == drawn_at(message_steps(plan), "world/planner/waypoints"@)
            &&& plan.get("local_goal"@) == planner.get("local_goal"@) ==> drawn_at(
                message_steps(m),
                "world/planner/local_goal"@,
            ) == drawn_at(message_steps(plan), "world/planner/local_goal"@)
        },
        !(m.get("planner"@) matches Some(JsonView::Object(_))) ==> {
            let none = Seq::<DrawingView>::empty();
            &&& drawn_at(message_steps(m), "world/planner/global_path"@) == none
            &&& drawn_at(message_steps(m), "world/planner/local_path"@) == none
            &&& drawn_at(message_steps(m), "world/planner/waypoints"@) == none
            &&& drawn_at(message_steps(m), "world/planner/local_goal"@) == none
        },
{
    lemma_kinds_differ();
    lemma_places_differ();
    lemma_plan_names_differ();
    law_snapshot_is_drawn_as_updates(m, pose, goal);
    lemma_snapshot_place(m, pose, goal, plan, "world/robot"@);
    lemma_snapshot_place(m, pose, goal, plan, "world/vpr_pose"@);
    lemma_snapshot_place(m, pose, goal, plan, "world/goal"@);
    lemma_snapshot_place(m, pose, goal, plan, "world/planner/global_path"@);
    lemma_snapshot_place(m, pose, goal, plan, "world/planner/local_path"@);
    lemma_snapshot_place(m, pose, goal, plan, "world/planner/waypoints"@);
    lemma_snapshot_place(m, pose, goal, plan, "world/planner/local_goal"@);
    match m.get("planner"@) {
        Some(JsonView::Object(told)) => {
            let typed = plan_message(JsonView::Object(told));
            lemma_plan_message(told, "global_path"@);
            lemma_plan_message(told, "local_path"@);
            lemma_plan_message(told, "waypoints"@);
            lemma_plan_message(told, "local_goal"@);
            law_plan_parts_are_apart(typed, plan);
        },
        _ => {},
    }
}

proof fn lemma_nothing_drawn(m: JsonView, place: Seq<char>)
    requires
        message_kind(m).len() == 0,
    ensures
        drawn_at(plain_steps(m), place) == Seq::<DrawingView>::empty(),
{
    lemma_kinds_differ();
    lemma_drawn_by_one(StepView::Time, place);
}

proof fn lemma_snapshot_place(
    m: JsonView,
    pose: JsonView,
    goal: JsonView,
    plan: JsonView,
    place: Seq<char>,
)
    requires
        message_kind(m) == "snapshot"@,
        message_kind(pose) == "pose_update"@,
        message_kind(goal) == "goal_update"@,
        plain_steps(snapshot_pose(m)) == plain_steps(pose),
        plain_steps(snapshot_goal(m)) == plain_steps(goal),
        place == "world/robot"@ || place == "world/vpr_pose"@ || place == "world/goal"@ || place
            == "world/planner/global_path"@ || place == "world/planner/local_path"@ || place
            == "world/planner/waypoints"@ || place == "world/planner/local_goal"@,
    ensures
        drawn_at(message_steps(m), place) == if place == "world/robot"@ || place
            == "world/vpr_pose"@ {
            drawn_at(plain_steps(pose), place)
        } else if place == "world/goal"@ {
            drawn_at(plain_steps(goal), place)
        } else if m.get("planner"@) matches Some(JsonView::Object(_)) {
            drawn_at(plain_steps(plan_message(m.get("planner"@)->Some_0)), place)
        } else {
            Seq::empty()
        },
{
    lemma_kinds_differ();
    lemma_places_differ();
    lemma_task_message(m);
    lemma_snapshot_drawn(m, place);
    lemma_task_drawn(snapshot_task(m), place);
    lemma_poses_drawn(pose, place);
    lemma_goal_drawn(goal, place);
    let a = drawn_at(plain_steps(snapshot_task(m)), place);
    let b = drawn_at(plain_steps(pose), place);
    let c = drawn_at(plain_steps(goal), place);
    let d = drawn_at(snapshot_plan_steps(m), place);
    assert(a == Seq::<DrawingView>::empty());
    match m.get("planner"@) {
        Some(JsonView::Object(told)) => {
            lemma_plan_names_differ();
            lemma_plan_message(told, "global_path"@);
            lemma_plan_drawn(plan_message(JsonView::Object(told)), place);
        },
        Some(other) => {
            assert(message_kind(other).len() == 0);
            lemma_nothing_drawn(other, place);
        },
        None => {},
    }
    if place == "world/robot"@ || place == "world/vpr_pose"@ {
        assert(a + b + c + d == b);
    } else if place == "world/goal"@ {
        assert(a + b + c + d == c);
    } else {
        assert(a + b + c + d == d);
    }
}

/// A message about the task first lets a recording begin and last lets one end, both by
/// the task's identifier, goal and state as the message has them. A task whose state is
/// not told counts as idle. In between, the message stands in the log.
pub proof fn law_tasks_are_reported(m: JsonView)
    requires
        m.text_at("type"@) == Some("task_status"@),
    ensures
        ({
            let steps = message_steps(m);
            &&& steps.len() == 4
            &&& steps[0] matches StepView::BeginTask(report) && {
                &&& steps[3] == StepView::EndTask(report)
                &&& m.get("task_id"@) matches Some(JsonView::Text(id)) ==> report.task_id == Some(id)
                &&& !(m.get("task_id"@) matches Some(JsonView::Text(_))) ==> report.task_id is None
                &&& m.get("goal_text"@) matches Some(JsonView::Text(goal)) ==> report.goal_text
                    == Some(goal)
                &&& !(m.get("goal_text"@) matches Some(JsonView::Text(_)))
                    ==> report.goal_text is None
                &&& m.get("status"@) matches Some(JsonView::Text(status)) ==> report.status
                    == lowercase(status)
                &&& !(m.get("status"@) matches Some(JsonView::Text(_))) ==> report.status
                    == lowercase("idle"@)
            }
            &&& steps[1] == StepView::Time
            &&& steps[2] == StepView::Draw(
                DrawingView::Text {
                    entity: "events/task_status"@,
                    text: printed(m),
                    level: uppercase("INFO"@),
                },
            )
        }),
{
    lemma_kinds_differ();
}

/// A snapshot lets a recording begin and end by its member `task`, as a message about
/// the task does that tells the same.
pub proof fn law_snapshot_tasks_are_reported(m: JsonView, task: JsonView)
    requires
        m.text_at("type"@) == Some("snapshot"@),
        m.get("task"@) == Some(task),
    ensures
        ({
            let steps = message_steps(m);
            &&& steps.len() >= 5
            &&& steps[1] matches StepView::BeginTask(report) && {
                &&& steps[4] == StepView::EndTask(report)
                &&& task.get("task_id"@) matches Some(JsonView::Text(id)) ==> report.task_id
                    == Some(id)
                &&& !(task.get("task_id"@) matches Some(JsonView::Text(_)))
                    ==> report.task_id is None
                &&& task.get("goal_text"@) matches Some(JsonView::Text(goal)) ==> report.goal_text
                    == Some(goal)
                &&& !(task.get("goal_text"@) matches Some(JsonView::Text(_)))
                    ==> report.goal_text is None
                &&& task.get("status"@) matches Some(JsonView::Text(status)) ==> report.status
                    == lowercase(status)
                &&& !(task.get("status"@) matches Some(JsonView::Text(_))) ==> report.status
                    == lowercase("idle"@)
            }
        }),
{
    lemma_kinds_differ();
    lemma_task_message(m);
    let t = seq![StepView::Time];
    let a = plain_steps(snapshot_task(m));
    assert(a.len() == 4);
    let steps = message_steps(m);
    assert(steps.len() >= 5);
    assert(steps[1] == (t + a)[1]);
    assert(steps[4] == (t + a)[4]);
    assert(report_of(snapshot_task(m)).status == lowercase(told_status(snapshot_task(m))));
}

/// An event stands in the log as it came, under the level that it names, or as a piece
/// of information.
pub proof fn law_events_are_logged(m: JsonView)
    requires
        m.text_at("type"@) == Some("event"@),
    ensures
        m.get("level"@) matches Some(JsonView::Text(level)) ==> message_steps(m) == seq![
            StepView::Time,
            StepView::Draw(
                DrawingView::Text {
                    entity: "events/navigation"@,
                    text: printed(m),
                    level: uppercase(level),
                },
            ),
        ],
        !(m.get("level"@) matches Some(JsonView::Text(_))) ==> message_steps(m) == seq![
            StepView::Time,
            StepView::Draw(
                DrawingView::Text {
                    entity: "events/navigation"@,
                    text: printed(m),
                    level: uppercase("INFO"@),
                },
            ),
        ],
{
    lemma_kinds_differ();
}

/// The images and the dynamic map are handed on as they are told, by messages of their
/// own and by the members `images` and `dynamic_map` of a snapshot, and by no others.
pub proof fn law_images_and_maps_are_handed_on(m: JsonView, v: JsonView)
    ensures
        m.text_at("type"@) == Some("image_update"@) && m.get("images"@) == Some(v)
            ==> message_steps(m) == seq![StepView::Time, StepView::Images(v)],
        m.text_at("type"@) == Some("dynamic_map_update"@) ==> message_steps(m) == seq![
            StepView::Time,
            StepView::DynamicMap(m),
        ],
        m.text_at("type"@) == Some("snapshot"@) && m.get("images"@) == Some(v) ==> message_steps(
            m,
        ).contains(StepView::Images(v)),
        m.text_at("type"@) == Some("snapshot"@) && m.get("dynamic_map"@) == Some(v)
            ==> message_steps(m).last() == StepView::DynamicMap(v),
        m.text_at("type"@) == Some("snapshot"@) && m.get("dynamic_map"@) is None ==> message_steps(
            m,
        ).last() is Images,
{
    lemma_kinds_differ();
    if message_kind(m) == "snapshot"@ {
        let steps = message_steps(m);
        let images = StepView::Images(or_null(m.get("images"@)));
        match m.get("dynamic_map"@) {
            Some(map) => {
                assert(steps.last() == StepView::DynamicMap(map));
                assert(steps[steps.len() - 2] == images);
            },
            None => {
                assert(steps.last() == images);
            },
        }
        assert(steps.contains(images));
    }
}

/// Before anything is drawn for a message, it is said that it happened now.
pub proof fn law_the_time_comes_first(m: JsonView, i: int)
    requires
        0 <= i < message_steps(m).len(),
    ensures
        message_steps(m)[i] is Draw || message_steps(m)[i] is Images
            || message_steps(m)[i] is DynamicMap ==> exists|j: int|
            0 <= j < i && #[trigger] message_steps(m)[j] is Time,
        message_steps(m).contains(StepView::Time),
{
    lemma_kinds_differ();
    let steps = message_steps(m);
    if message_kind(m) == "task_status"@ {
        assert(steps[1] is Time);
        assert(steps[0] is BeginTask);
    } else {
        assert(steps[0] is Time);
    }
}

/// A message of another type than these eight is only said to have happened now.
pub proof fn law_other_messages_draw_nothing(m: JsonView)
    requires
        !(m.get("type"@) matches Some(JsonView::Text(kind)) && seq![
            "snapshot"@,
            "pose_update"@,
            "goal_update"@,
            "planner_update"@,
            "image_update"@,
            "dynamic_map_update"@,
            "task_status"@,
            "event"@,
        ].contains(kind)),
    ensures
        message_steps(m) == seq![StepView::Time],
{
    lemma_kinds_differ();
    let kinds = seq![
        "snapshot"@,
        "pose_update"@,
        "goal_update"@,
        "planner_update"@,
        "image_update"@,
        "dynamic_map_update"@,
        "task_status"@,
        "event"@,
    ];
    assert(kinds[0] == "snapshot"@);
    assert(kinds[1] == "pose_update"@);
    assert(kinds[2] == "goal_update"@);
    assert(kinds[3] == "planner_update"@);
    assert(kinds[4] == "image_update"@);
    assert(kinds[5] == "dynamic_map_update"@);
    assert(kinds[6] == "task_status"@);
    assert(kinds[7] == "event"@);
}

/// An image is told by its address, the text `url`, and is fetched from there: a full
/// address stands as it is, any other is found on the robot, with one slash between. It
/// is told from others of its camera by its version and its address.
pub proof fn law_images_are_found(
    base: Seq<char>,
    key: Seq<char>,
    descriptor: JsonView,
    rest: Seq<char>,
)
    ensures
        !(descriptor.get("url"@) matches Some(JsonView::Text(_))) ==> source_of(
            base,
            key,
            descriptor,
        ) is None,
        descriptor.get("url"@) matches Some(JsonView::Text(url)) ==> (source_of(
            base,
            key,
            descriptor,
        ) matches Some(source) && {
            &&& source.key == key
            &&& url == "http://"@ + rest || url == "https://"@ + rest ==> source.url == url
            &&& url == "/"@ + rest ==> source.url == base + "/"@ + rest
            &&& (url.len() > 0 ==> url[0] != '/') && (url.len() >= 7 ==> url.take(7)
                != "http://"@) && (url.len() >= 8 ==> url.take(8) != "https://"@) ==> source.url
                == base + "/"@ + url
            &&& descriptor.get("version"@) matches Some(version) ==> source.identity == printed(
                version,
            ) + ":"@ + url
            &&& descriptor.get("version"@) is None ==> source.identity == "null"@ + ":"@ + url
        }),
{
    reveal_strlit("http://");
    reveal_strlit("https://");
    reveal_strlit("/");
    assert("http://"@.len() == 7 && "https://"@.len() == 8 && "/"@.len() == 1);
    assert("/"@[0] == '/' && "http://"@[0] == 'h' && "https://"@[0] == 'h');
    match descriptor.get("url"@) {
        Some(JsonView::Text(url)) => {
            if url == "http://"@ + rest {
                assert(url.take(7) == "http://"@);
            }
            if url == "https://"@ + rest {
                assert(url.take(8) == "https://"@);
            }
            if url == "/"@ + rest {
                assert(url[0] == '/');
                assert(url.take(1) == "/"@);
                if url.len() >= 7 && url.take(7) == "http://"@ {
                    assert(url.take(7)[0] == 'h');
                }
                if url.len() >= 8 && url.take(8) == "https://"@ {
                    assert(url.take(8)[0] == 'h');
                }
                assert(base + url == base + "/"@ + rest);
            }
            if url.len() >= 1 && url.take(1) == "/"@ {
                assert(url.take(1)[0] == '/');
            }
        },
        _ => {},
    }
}

/// The camera in front and the input of the planner have places of their own, any other
/// camera the one of its name.
pub proof fn law_cameras_have_their_places(base: Seq<char>, key: Seq<char>, descriptor: JsonView)
    ensures
        source_of(base, key, descriptor) matches Some(source) ==> {
            &&& key == "rgb_latest"@ ==> source.entity == "sensors/front/rgb"@
            &&& key == "rgb_navdp"@ ==> source.entity == "planner/navdp/input"@
            &&& key != "rgb_latest"@ && key != "rgb_navdp"@ ==> source.entity == "sensors/"@ + key
        },
{
    reveal_strlit("rgb_latest");
    reveal_strlit("rgb_navdp");
    assert("rgb_latest"@.len() != "rgb_navdp"@.len());
}

/// The places that something is drawn at for a message.
pub open spec fn is_drawing_place(place: Seq<char>) -> bool {
    ||| place == "world/robot"@
    ||| place == "world/vpr_pose"@
    ||| place == "world/goal"@
    ||| place == "world/planner/global_path"@
    ||| place == "world/planner/local_path"@
    ||| place == "world/planner/waypoints"@
    ||| place == "world/planner/local_goal"@
    ||| place == "events/task_status"@
    ||| place == "events/navigation"@
}

/// Whether all that some steps draw is at one of these places.
spec fn are_at_places(steps: Seq<StepView>) -> bool {
    forall|i: int|
        0 <= i < steps.len() ==> (#[trigger] steps[i] matches StepView::Draw(d)
            ==> is_drawing_place(place_of(d)))
}

proof fn lemma_places_in_parts(a: Seq<StepView>, b: Seq<StepView>)
    requires
        are_at_places(a),
        are_at_places(b),
    ensures
        are_at_places(a + b),
{
    assert forall|i: int| 0 <= i < (a + b).len() implies (#[trigger] (a + b)[i] matches StepView::Draw(d)
        ==> is_drawing_place(place_of(d))) by {
        if i < a.len() {
            assert((a + b)[i] == a[i]);
        } else {
            assert((a + b)[i] == b[i - a.len()]);
        }
    }
}

proof fn lemma_plain_places(m: JsonView)
    ensures
        are_at_places(plain_steps(m)),
{
    lemma_kinds_differ();
    let kind = message_kind(m);
    let t = seq![StepView::Time];
    if kind == "pose_update"@ {
        let a = pose_steps(
            m.get("pose"@),
            "world/robot"@,
            rgba(42, 203, 225),
            "Robot 定位"@,
            true,
            30,
        );
        let b = pose_steps(
            m.get("vpr_pose"@),
            "world/vpr_pose"@,
            rgba(167, 139, 250),
            "VPR 定位"@,
            false,
            26,
        );
        lemma_places_in_parts(t, a);
        lemma_places_in_parts(t + a, b);
    } else if kind == "planner_update"@ {
        let a = path_steps(
            m.get("global_path"@),
            "world/planner/global_path"@,
            rgba(77, 222, 155),
            6,
        );
        let b = path_steps(m.get("local_path"@), "world/planner/local_path"@, rgba(255, 191, 71), 7);
        let c = points_steps(
            points_of(m.get("waypoints"@)),
            "world/planner/waypoints"@,
            rgba(167, 139, 250),
        );
        let d = match m.get("local_goal"@) {
            Some(goal) => points_steps(
                single_point(goal),
                "world/planner/local_goal"@,
                rgba(255, 220, 92),
            ),
            None => Seq::empty(),
        };
        lemma_places_in_parts(a, b);
        lemma_places_in_parts(a + b, c);
        lemma_places_in_parts(a + b + c, d);
        lemma_places_in_parts(t, a + b + c + d);
    }
}

/// Whatever the robot says, it is drawn at one of a few places.
pub proof fn law_drawings_have_their_places(m: JsonView, i: int)
    requires
        0 <= i < message_steps(m).len(),
    ensures
        message_steps(m)[i] matches StepView::Draw(d) ==> is_drawing_place(place_of(d)),
{
    if message_kind(m) == "snapshot"@ {
        let t = seq![StepView::Time];
        let a = plain_steps(snapshot_task(m));
        let b = plain_steps(snapshot_pose(m));
        let c = plain_steps(snapshot_goal(m));
        let d = snapshot_plan_steps(m);
        let e = seq![StepView::Images(or_null(m.get("images"@)))];
        let f = match m.get("dynamic_map"@) {
            Some(map) => seq![StepView::DynamicMap(map)],
            None => Seq::empty(),
        };
        lemma_plain_places(snapshot_task(m));
        lemma_plain_places(snapshot_pose(m));
        lemma_plain_places(snapshot_goal(m));
        match m.get("planner"@) {
            Some(planner) => lemma_plain_places(plan_message(planner)),
            None => {},
        }
        lemma_places_in_parts(t, a);
        lemma_places_in_parts(t + a, b);
        lemma_places_in_parts(t + a + b, c);
        lemma_places_in_parts(t + a + b + c, d);
        lemma_places_in_parts(t + a + b + c + d, e);
        lemma_places_in_parts(t + a + b + c + d + e, f);
        assert(message_steps(m) == t + a + b + c + d + e + f);
    } else {
        lemma_plain_places(m);
    }
}

/// What is drawn, reported and fetched is what its fields say.
pub proof fn law_steps_are_their_fields(d: Drawing, report: TaskReport, source: ImageSource)
    ensures
        d matches Drawing::Clear { entity } ==> d@ == (DrawingView::Clear { entity: entity@ }),
        d matches Drawing::Marker { entity, pose, color, label, heading, order } ==> d@
            == (DrawingView::Marker {
            entity: entity@,
            pose,
            color,
            label: label@,
            heading,
            order,
        }),
        d matches Drawing::Path { entity, points, color, order } ==> d@ == (DrawingView::Path {
            entity: entity@,
            points: points@,
            color,
            order,
        }),
        d matches Drawing::Points { entity, points, color, order } ==> d@ == (DrawingView::Points {
            entity: entity@,
            points: points@,
            color,
            order,
        }),
        d matches Drawing::Text { entity, text, level } ==> d@ == (DrawingView::Text {
            entity: entity@,
            text: text@,
            level: level@,
        }),
        report@.status == report.status@,
        report@.task_id == opt_text(report.task_id),
        report@.goal_text == opt_text(report.goal_text),
        source@.key == source.key@,
        source@.identity == source.identity@,
        source@.url == source.url@,
        source@.entity == source.entity@,
{
}

} // verus!
