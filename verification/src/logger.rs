//! What has been drawn and recorded so far, and what is still to be drawn.

use std::path::PathBuf;
use vstd::prelude::*;
use vstd::string::*;

use crate::double::{Double, ONE_BITS};
use crate::drawing::{
    image_source, law_cameras_have_their_places, law_drawings_have_their_places,
    message_steps, place_of, source_of, source_views, ImageSource, ImageSourceView, StepView,
    TaskReport, TaskReportView,
};
use crate::history::notes_of;
use crate::http::host_and_port;
use crate::json::{
    add_member, double_in, entry_views, item_views, json_parse, member, opt_json, opt_str,
    parse_json, parse_view, present, printed, Json, JsonNumber, JsonView, NumberView,
};
use crate::sidecar::{NativeSettingsView, NativeSidecarSettings};
use crate::status::{double_value, present_value, NativeStatusSnapshot, StatusView};
use crate::task::{
    active_word, is_active_word, is_terminal_word, law_active_words, law_labels_tell_the_state,
    law_terminal_is_not_active, law_terminal_words, status_label, terminal_word,
};
use crate::text::{ascii_lower, begins_with, decimal, decimal_text, opt_text, same_text};

verus! {

/// How the map lies in the world.
#[derive(Clone, Copy, Debug, PartialEq, Eq, Structural)]
pub struct MapMetadata {
    pub origin_x: Double,
    pub origin_y: Double,
    pub resolution: Double,
    pub height: Double,
}

/// A map of which nothing is known.
pub open spec fn unknown_map() -> MapMetadata {
    MapMetadata {
        origin_x: Double { bits: 0 },
        origin_y: Double { bits: 0 },
        resolution: Double { bits: ONE_BITS },
        height: Double { bits: 0 },
    }
}

fn no_map() -> (r: MapMetadata)
    ensures
        r == unknown_map(),
{
    MapMetadata {
        origin_x: Double::zero(),
        origin_y: Double::zero(),
        resolution: Double::one(),
        height: Double::zero(),
    }
}

/// The task that is being recorded.
#[derive(Debug)]
pub struct ActiveTask {
    pub task_id: String,
    pub task_dir: PathBuf,
}

pub struct ActiveTaskView {
    pub task_id: Seq<char>,
    pub task_dir: PathBuf,
}

pub open spec fn opt_active(o: Option<ActiveTask>) -> Option<ActiveTaskView> {
    match o {
        Some(task) => Some(ActiveTaskView { task_id: task.task_id@, task_dir: task.task_dir }),
        None => None,
    }
}

/// The state of what is drawn and recorded.
#[derive(Debug)]
pub struct NavigationLogger {
    active: Option<ActiveTask>,
    settings: NativeSidecarSettings,
    map: MapMetadata,
    map_signature: String,
    map_image: Option<Vec<u8>>,
    images: Vec<(String, String)>,
    status_signature: String,
}

pub struct LoggerView {
    pub active: Option<ActiveTaskView>,
    pub settings: NativeSettingsView,
    pub map: MapMetadata,
    /// The description of the map that was last taken over, as text.
    pub map_signature: Seq<char>,
    pub map_image: Option<Seq<u8>>,
    /// The image of each camera that is shown.
    pub images: Map<Seq<char>, Seq<char>>,
    /// The summary that is shown.
    pub status_signature: Seq<char>,
}

/// The identity that is noted for a camera, in a list in which the last note counts.
pub open spec fn noted_image(images: Seq<(String, String)>, key: Seq<char>) -> Option<Seq<char>>
    decreases images.len(),
{
    if images.len() == 0 {
        None
    } else if images.last().0@ == key {
        Some(images.last().1@)
    } else {
        noted_image(images.drop_last(), key)
    }
}

pub open spec fn image_map(images: Seq<(String, String)>) -> Map<Seq<char>, Seq<char>> {
    Map::new(|key: Seq<char>| noted_image(images, key) is Some, |key: Seq<char>|
        noted_image(images, key)->Some_0)
}

impl View for NavigationLogger {
    type V = LoggerView;

    closed spec fn view(&self) -> LoggerView {
        LoggerView {
            active: opt_active(self.active),
            settings: self.settings@,
            map: self.map,
            map_signature: self.map_signature@,
            map_image: match self.map_image {
                Some(bytes) => Some(bytes@),
                None => None,
            },
            images: image_map(self.images@),
            status_signature: self.status_signature@,
        }
    }
}

/// The state in which nothing has been drawn.
pub open spec fn nothing_drawn(settings: NativeSettingsView) -> LoggerView {
    LoggerView {
        active: None,
        settings,
        map: unknown_map(),
        map_signature: Seq::empty(),
        map_image: None,
        images: Map::empty(),
        status_signature: Seq::empty(),
    }
}

/// Whether two settings are of the same robot.
pub open spec fn same_robot(a: NativeSettingsView, b: NativeSettingsView) -> bool {
    a.robot_ip == b.robot_ip && a.robot_port == b.robot_port
}

/// The state with other settings: another robot begins anew.
pub open spec fn with_settings(s: LoggerView, settings: NativeSettingsView) -> LoggerView {
    if same_robot(s.settings, settings) {
        LoggerView { settings, ..s }
    } else {
        nothing_drawn(settings)
    }
}

/// The places at which everything disappears when another robot is shown.
pub open spec fn robot_places() -> Seq<Seq<char>> {
    seq![
        "world/robot"@,
        "world/vpr_pose"@,
        "world/goal"@,
        "world/planner"@,
        "world/dynamic/occupancy"@,
        "sensors"@,
        "planner"@,
    ]
}

/// The state with the picture of the map.
pub open spec fn with_map_image(s: LoggerView, bytes: Seq<u8>) -> LoggerView {
    LoggerView { map_image: Some(bytes), ..s }
}

/// The state in which an image of a camera is shown.
pub open spec fn with_image(s: LoggerView, key: Seq<char>, identity: Seq<char>) -> LoggerView {
    LoggerView { images: s.images.insert(key, identity), ..s }
}

/// What disappears from the picture when another robot is shown.
pub fn robot_entities() -> (r: Vec<&'static str>)
    ensures
        r@.map_values(|s: &'static str| s@) == robot_places(),
{
    let r = vec![
        "world/robot",
        "world/vpr_pose",
        "world/goal",
        "world/planner",
        "world/dynamic/occupancy",
        "sensors",
        "planner",
    ];
    assert(r@.map_values(|s: &'static str| s@) == robot_places());
    r
}

/// Where the map's description is.
pub open spec fn metadata_address(settings: NativeSettingsView) -> Seq<char> {
    base_of(settings) + "/viz/api/map/metadata"@
}

/// Where the robot's services are.
pub open spec fn base_of(settings: NativeSettingsView) -> Seq<char> {
    "http://"@ + host_and_port(settings.robot_ip, settings.robot_port)
}

impl NavigationLogger {
    pub fn new(settings: NativeSidecarSettings) -> (r: NavigationLogger)
        ensures
            r@ == nothing_drawn(settings@),
    {
        let r = NavigationLogger {
            active: None,
            settings,
            map: no_map(),
            map_signature: String::new(),
            map_image: None,
            images: Vec::new(),
            status_signature: String::new(),
        };
        assert(image_map(r.images@) == Map::<Seq<char>, Seq<char>>::empty());
        r
    }

    /// Takes over settings. Tells whether they are of another robot.
    pub fn update_settings(&mut self, settings: NativeSidecarSettings) -> (r: bool)
        ensures
            r == !same_robot(old(self)@.settings, settings@),
            final(self)@ == with_settings(old(self)@, settings@),
    {
        let same = same_text(self.settings.robot_ip.as_str(), settings.robot_ip.as_str())
            && self.settings.robot_port == settings.robot_port;
        if same {
            self.settings = settings;
            return false;
        }
        self.settings = settings;
        self.active = None;
        self.map = no_map();
        self.map_signature = String::new();
        self.map_image = None;
        self.images = Vec::new();
        self.status_signature = String::new();
        assert(image_map(self.images@) == Map::<Seq<char>, Seq<char>>::empty());
        true
    }

    pub fn settings(&self) -> (r: &NativeSidecarSettings)
        ensures
            r@ == self@.settings,
    {
        &self.settings
    }

    pub fn base_url(&self) -> (r: String)
        ensures
            r@ == base_of(self@.settings),
    {
        self.settings.base_url()
    }

    /// Where the map's description is.
    pub fn metadata_url(&self) -> (r: String)
        ensures
            r@ == metadata_address(self@.settings),
    {
        self.base_url().concat("/viz/api/map/metadata")
    }

    pub fn map(&self) -> (r: MapMetadata)
        ensures
            r == self@.map,
    {
        self.map
    }

    pub fn map_image(&self) -> (r: Option<&Vec<u8>>)
        ensures
            (match r {
                Some(bytes) => Some(bytes@),
                None => None,
            }) == self@.map_image,
    {
        match &self.map_image {
            Some(bytes) => Some(bytes),
            None => None,
        }
    }

    /// Keeps the picture of the map.
    pub fn set_map_image(&mut self, bytes: Vec<u8>)
        ensures
            final(self)@ == with_map_image(old(self)@, bytes@),
    {
        self.map_image = Some(bytes);
    }
}

/// An element of a list, or the member of an object that is named by the element's
/// number.
pub open spec fn at_place(value: Option<JsonView>, place: int, name: Seq<char>) -> Option<JsonView> {
    match value {
        Some(JsonView::Array(items)) => if place < items.len() {
            Some(items[place])
        } else {
            None
        },
        Some(v) => v.get(name),
        None => None,
    }
}

pub open spec fn or_zero(value: Option<Double>) -> Double {
    match value {
        Some(d) => d,
        None => Double { bits: 0 },
    }
}

/// How a map lies in the world, from its description. Without a resolution that is a
/// resolution, it is 1.
pub open spec fn map_of(m: JsonView) -> MapMetadata {
    MapMetadata {
        origin_x: or_zero(double_in(at_place(m.get("origin"@), 0, "0"@))),
        origin_y: or_zero(double_in(at_place(m.get("origin"@), 1, "1"@))),
        resolution: match double_in(m.get("resolution"@)) {
            Some(d) => if d.positive() {
                d
            } else {
                Double { bits: ONE_BITS }
            },
            None => Double { bits: ONE_BITS },
        },
        height: or_zero(double_in(m.get("height"@))),
    }
}

fn value_at(value: Option<&Json>, place: usize, name: &str) -> (r: Option<Double>)
    ensures
        r == double_in(at_place(opt_json(value), place as int, name@)),
{
    match value {
        Some(v) => match v.as_items() {
            Some(items) => if place < items.len() {
                assert(item_views(items@)[place as int] == items@[place as int].view());
                items[place].as_double()
            } else {
                None
            },
            None => double_value(v.get(name)),
        },
        None => None,
    }
}

fn zero_without(value: Option<Double>) -> (r: Double)
    ensures
        r == or_zero(value),
{
    match value {
        Some(d) => d,
        None => Double::zero(),
    }
}

/// Whether a description of the map is another than the one that was taken over.
pub open spec fn is_new_map(s: LoggerView, m: JsonView) -> bool {
    printed(m) != s.map_signature
}

/// The state in which a description of the map was taken over.
pub open spec fn with_map(s: LoggerView, m: JsonView) -> LoggerView {
    LoggerView { map: map_of(m), map_signature: printed(m), ..s }
}

/// What is to be done about a description of the map.
#[derive(Debug)]
pub enum MapRefresh {
    /// It is the one that was taken over before.
    Unchanged,
    /// It was taken over; the picture, if there is one, is to be fetched.
    Changed { image_url: Option<String> },
}

/// What a description of the map comes to: `after` is the state after it.
pub open spec fn is_refreshed(
    before: LoggerView,
    m: JsonView,
    r: MapRefresh,
    after: LoggerView,
) -> bool {
    match r {
        MapRefresh::Unchanged => {
            &&& !is_new_map(before, m)
            &&& after == before
        },
        MapRefresh::Changed { image_url } => {
            &&& is_new_map(before, m)
            &&& opt_text(image_url) == (if present(m.get("image_path"@)) is Some {
                Some(base_of(before.settings) + "/viz/api/map/image"@)
            } else {
                None
            })
            &&& after == with_map(before, m)
        },
    }
}

impl NavigationLogger {
    /// Takes over a description of the map.
    pub fn refresh_map(&mut self, metadata: &Json) -> (r: MapRefresh)
        ensures
            is_refreshed(old(self)@, metadata.view(), r, final(self)@),
    {
        let signature = metadata.to_text();
        if same_text(signature.as_str(), self.map_signature.as_str()) {
            return MapRefresh::Unchanged;
        }
        let origin = metadata.get("origin");
        let resolution = match double_value(metadata.get("resolution")) {
            Some(d) => if d.is_positive() {
                d
            } else {
                Double::one()
            },
            None => Double::one(),
        };
        self.map = MapMetadata {
            origin_x: zero_without(value_at(origin, 0, "0")),
            origin_y: zero_without(value_at(origin, 1, "1")),
            resolution,
            height: zero_without(double_value(metadata.get("height"))),
        };
        let image_url = match present_value(metadata.get("image_path")) {
            Some(_) => Some(self.base_url().concat("/viz/api/map/image")),
            None => None,
        };
        self.map_signature = signature;
        MapRefresh::Changed { image_url }
    }
}

/// Why no description of the map could be had, with what the system said about it.
#[derive(Debug)]
pub enum MapFailure {
    Request(String),
    Document(String),
}

pub open spec fn map_failure_of(failure: MapFailure) -> Seq<char> {
    match failure {
        MapFailure::Request(detail) => "读取地图元数据失败："@ + detail@,
        MapFailure::Document(detail) => "地图元数据 JSON 无效："@ + detail@,
    }
}

pub fn map_failure_text(failure: MapFailure) -> (r: String)
    ensures
        r@ == map_failure_of(failure),
{
    match failure {
        MapFailure::Request(detail) => "读取地图元数据失败：".to_owned().concat(detail.as_str()),
        MapFailure::Document(detail) => "地图元数据 JSON 无效：".to_owned().concat(detail.as_str()),
    }
}

/// What a reply that is no document is called, after the reason.
pub open spec fn not_a_document(message: Seq<char>) -> Seq<char> {
    "地图元数据 JSON 无效：json: "@ + message
}

/// What the reply to the question for the map comes to: `after` is the state after it.
pub open spec fn is_taken(
    before: LoggerView,
    parsed: Result<JsonView, Seq<char>>,
    r: Result<MapRefresh, String>,
    after: LoggerView,
) -> bool {
    match parsed {
        Ok(m) => r matches Ok(refresh) && is_refreshed(before, m, refresh, after),
        Err(message) => (r matches Err(text) && text@ == not_a_document(message)) && after
            == before,
    }
}

impl NavigationLogger {
    /// Takes in the reply to the question for the map: the text of its description, or
    /// why there is none. After a failure everything is as it was.
    pub fn take_metadata(&mut self, reply: Result<String, MapFailure>) -> (r: Result<
        MapRefresh,
        String,
    >)
        ensures
            match reply {
                Ok(text) => is_taken(old(self)@, json_parse(text@), r, final(self)@),
                Err(failure) => (r matches Err(message) && message@ == map_failure_of(failure))
                    && final(self)@ == old(self)@,
            },
    {
        match reply {
            Ok(text) => {
                let parsed = parse_json(text.as_str());
                self.take_parsed_metadata(parsed)
            },
            Err(failure) => Err(map_failure_text(failure)),
        }
    }

    /// Takes in a description of the map that was read as a document, or was not.
    pub fn take_parsed_metadata(&mut self, parsed: Result<Json, String>) -> (r: Result<
        MapRefresh,
        String,
    >)
        ensures
            is_taken(old(self)@, parse_view(parsed), r, final(self)@),
    {
        match parsed {
            Ok(metadata) => Ok(self.refresh_map(&metadata)),
            Err(message) => Err("地图元数据 JSON 无效：json: ".to_owned().concat(message.as_str())),
        }
    }
}

/// The images that are told for the cameras and are not shown yet.
pub open spec fn fresh_images(
    base: Seq<char>,
    shown: Map<Seq<char>, Seq<char>>,
    entries: Seq<(Seq<char>, JsonView)>,
) -> Seq<ImageSourceView>
    decreases entries.len(),
{
    if entries.len() == 0 {
        Seq::empty()
    } else {
        let head = fresh_images(base, shown, entries.drop_last());
        match source_of(base, entries.last().0, entries.last().1) {
            Some(source) => if shown.dom().contains(source.key) && shown[source.key]
                == source.identity {
                head
            } else {
                head.push(source)
            },
            None => head,
        }
    }
}

/// The images that a document tells and that are not shown yet.
pub open spec fn images_to_fetch(
    base: Seq<char>,
    shown: Map<Seq<char>, Seq<char>>,
    images: JsonView,
) -> Seq<ImageSourceView> {
    match images {
        JsonView::Object(entries) => fresh_images(base, shown, entries),
        _ => Seq::empty(),
    }
}

impl NavigationLogger {
    fn shows(&self, key: &str, identity: &str) -> (r: bool)
        ensures
            r == (self@.images.dom().contains(key@) && self@.images[key@] == identity@),
    {
        let mut i: usize = self.images.len();
        assert(self.images@.take(i as int) == self.images@);
        while i > 0
            invariant
                i <= self.images@.len(),
                noted_image(self.images@, key@) == noted_image(
                    self.images@.take(i as int),
                    key@,
                ),
            decreases i,
        {
            assert(self.images@.take(i as int).drop_last() == self.images@.take(i - 1));
            if same_text(self.images[i - 1].0.as_str(), key) {
                return same_text(self.images[i - 1].1.as_str(), identity);
            }
            i = i - 1;
        }
        false
    }

    /// Finds the images that a document tells and that are not shown yet.
    pub fn wanted_images(&self, images: &Json) -> (r: Vec<ImageSource>)
        ensures
            source_views(r@) == images_to_fetch(
                base_of(self@.settings),
                self@.images,
                images.view(),
            ),
    {
        let mut sources: Vec<ImageSource> = Vec::new();
        let base = self.base_url();
        match images {
            Json::Object(entries) => {
                let ghost views = entry_views(entries@);
                assert(images.view()->Object_0 == views);
                let mut i: usize = 0;
                while i < entries.len()
                    invariant
                        i <= entries@.len(),
                        views == entry_views(entries@),
                        base@ == base_of(self@.settings),
                        source_views(sources@) == fresh_images(
                            base@,
                            self@.images,
                            views.take(i as int),
                        ),
                    decreases entries.len() - i,
                {
                    assert(views.take(i + 1).drop_last() == views.take(i as int));
                    assert(views[i as int] == (entries@[i as int].0@, entries@[i as int].1.view()));
                    match image_source(base.as_str(), entries[i].0.as_str(), &entries[i].1) {
                        Some(source) => {
                            if !self.shows(source.key.as_str(), source.identity.as_str()) {
                                let ghost before = sources@;
                                sources.push(source);
                                assert(source_views(sources@) == source_views(before).push(
                                    source@,
                                ));
                            }
                        },
                        None => {},
                    }
                    i = i + 1;
                }
                assert(views.take(i as int) == views);
            },
            _ => {},
        }
        sources
    }

    /// Notes that an image is shown.
    pub fn image_shown(&mut self, key: String, identity: String)
        ensures
            final(self)@ == with_image(old(self)@, key@, identity@),
    {
        let ghost before = self.images@;
        let mut i: usize = self.images.len();
        assert(before.take(i as int) == before);
        while i > 0
            invariant
                i <= self.images@.len(),
                before == self.images@,
                self@ == old(self)@,
                noted_image(before, key@) == noted_image(before.take(i as int), key@),
                forall|j: int| i <= j < before.len() ==> (#[trigger] before[j]).0@ != key@,
            decreases i,
        {
            if same_text(self.images[i - 1].0.as_str(), key.as_str()) {
                self.images.set(i - 1, (key, identity));
                proof {
                    lemma_image_replaced(before, i - 1, key, identity);
                }
                assert(image_map(self.images@) == image_map(before).insert(key@, identity@));
                return ;
            }
            assert(before.take(i as int).drop_last() == before.take(i - 1));
            i = i - 1;
        }
        self.images.push((key, identity));
        assert(self.images@.drop_last() == before);
        assert(image_map(self.images@) == image_map(before).insert(key@, identity@));
    }
}

proof fn lemma_image_replaced(images: Seq<(String, String)>, i: int, key: String, identity: String)
    requires
        0 <= i < images.len(),
        images[i].0@ == key@,
        forall|j: int| i < j < images.len() ==> (#[trigger] images[j]).0@ != key@,
    ensures
        forall|k: Seq<char>| #[trigger]
            noted_image(images.update(i, (key, identity)), k) == if k == key@ {
                Some(identity@)
            } else {
                noted_image(images, k)
            },
    decreases images.len(),
{
    let changed = images.update(i, (key, identity));
    if i == images.len() - 1 {
        assert(changed.drop_last() == images.drop_last());
    } else {
        let shorter = images.drop_last().update(i, (key, identity));
        assert(changed.drop_last() == shorter);
        assert(changed.last() == images.last());
        lemma_image_replaced(images.drop_last(), i, key, identity);
        assert forall|k: Seq<char>| #[trigger] noted_image(changed, k) == if k == key@ {
            Some(identity@)
        } else {
            noted_image(images, k)
        } by {
            let inner = noted_image(shorter, k);
        }
    }
}

/// The task that is being recorded, by its identifier.
pub open spec fn active_id(s: LoggerView) -> Option<Seq<char>> {
    match s.active {
        Some(task) => Some(task.task_id),
        None => None,
    }
}

/// Whether a report begins a recording: of a task under way that is not being recorded.
pub open spec fn begins_recording(s: LoggerView, report: TaskReportView) -> bool {
    active_word(report.status) && report.task_id is Some && active_id(s) != report.task_id
}

/// Whether a report ends the recording: of the task that is being recorded, at its end.
pub open spec fn ends_recording(s: LoggerView, report: TaskReportView) -> bool {
    terminal_word(report.status) && active_id(s) == report.task_id
}

/// The state after a report that may begin a recording: the former one is over.
pub open spec fn after_begin(s: LoggerView, report: TaskReportView) -> LoggerView {
    if begins_recording(s, report) {
        LoggerView { active: None, ..s }
    } else {
        s
    }
}

/// The state after a report that may end the recording.
pub open spec fn after_end(s: LoggerView, report: TaskReportView) -> LoggerView {
    if ends_recording(s, report) {
        LoggerView { active: None, ..s }
    } else {
        s
    }
}

/// The state in which a task is being recorded in a directory.
pub open spec fn recording(s: LoggerView, task_id: Seq<char>, task_dir: PathBuf) -> LoggerView {
    LoggerView { active: Some(ActiveTaskView { task_id, task_dir }), ..s }
}

/// What is to be written down about a task.
#[derive(Debug)]
pub struct TaskNotes {
    pub task_dir: PathBuf,
    pub text: String,
}

pub open spec fn opt_notes(o: Option<TaskNotes>) -> Option<(PathBuf, Seq<char>)> {
    match o {
        Some(notes) => Some((notes.task_dir, notes.text@)),
        None => None,
    }
}

/// What is to be written down about the task of a report, and in which directory: only
/// about the task that is being recorded.
pub open spec fn notes_for(s: LoggerView, report: TaskReportView, updated_at: Seq<char>) -> Option<
    (PathBuf, Seq<char>),
> {
    match s.active {
        Some(task) => if report.task_id == Some(task.task_id) {
            Some(
                (
                    task.task_dir,
                    printed(notes_of(task.task_id, report.goal_text, report.status, updated_at)),
                ),
            )
        } else {
            None
        },
        None => None,
    }
}

impl NavigationLogger {
    fn records(&self, task_id: &Option<String>) -> (r: bool)
        ensures
            r == (active_id(self@) == opt_text(*task_id)),
    {
        match (&self.active, task_id) {
            (Some(task), Some(id)) => same_text(task.task_id.as_str(), id.as_str()),
            (None, None) => true,
            _ => false,
        }
    }

    /// Decides whether a report begins a recording. If so, the former recording is over,
    /// and the new one counts once it has been set up.
    pub fn begin_task(&mut self, report: &TaskReport) -> (r: bool)
        ensures
            r == begins_recording(old(self)@, report@),
            final(self)@ == after_begin(old(self)@, report@),
    {
        if is_active_word(report.status.as_str()) && report.task_id.is_some() && !self.records(
            &report.task_id,
        ) {
            self.active = None;
            true
        } else {
            false
        }
    }

    /// Notes that a recording has been set up.
    pub fn recording_started(&mut self, task_id: String, task_dir: PathBuf)
        ensures
            final(self)@ == recording(old(self)@, task_id@, task_dir),
    {
        self.active = Some(ActiveTask { task_id, task_dir });
    }

    /// What is to be written down about the task of a report, where it is being recorded.
    /// `updated_at` is the present time as a number.
    pub fn task_notes(&self, report: &TaskReport, updated_at: &str) -> (r: Option<TaskNotes>)
        ensures
            opt_notes(r) == notes_for(self@, report@, updated_at@),
    {
        match &self.active {
            Some(task) => {
                if !self.records(&report.task_id) {
                    return None;
                }
                let mut entries: Vec<(String, Json)> = Vec::new();
                let goal = match &report.goal_text {
                    Some(goal) => Json::Text(goal.clone()),
                    None => Json::Null,
                };
                add_member(&mut entries, "goal_text", goal);
                add_member(&mut entries, "status", Json::Text(report.status.clone()));
                add_member(&mut entries, "task_id", Json::Text(task.task_id.clone()));
                add_member(
                    &mut entries,
                    "updated_at",
                    Json::Number(
                        JsonNumber { unsigned: None, double: None, written: updated_at.to_owned() },
                    ),
                );
                assert(entry_views(entries@) == notes_of(
                    task.task_id@,
                    report@.goal_text,
                    report@.status,
                    updated_at@,
                )->Object_0);
                let text = Json::object(entries).to_text();
                Some(TaskNotes { task_dir: task.task_dir.clone(), text })
            },
            None => None,
        }
    }

    /// Decides whether a report ends the recording.
    pub fn end_task(&mut self, report: &TaskReport) -> (r: bool)
        ensures
            r == ends_recording(old(self)@, report@),
            final(self)@ == after_end(old(self)@, report@),
    {
        if is_terminal_word(report.status.as_str()) && self.records(&report.task_id) {
            self.active = None;
            true
        } else {
            false
        }
    }
}

/// A text, or a dash in the place of one that is not there.
pub open spec fn or_dash(o: Option<Seq<char>>) -> Seq<char> {
    match o {
        Some(s) => s,
        None => "—"@,
    }
}

fn dash_without(o: Option<&str>) -> (r: String)
    ensures
        r@ == or_dash(opt_str(o)),
{
    match o {
        Some(s) => s.to_owned(),
        None => "—".to_owned(),
    }
}

fn number_or_dash(o: Option<u64>) -> (r: String)
    ensures
        r@ == or_dash(
            match o {
                Some(n) => Some(decimal(n as nat)),
                None => None,
            },
        ),
{
    match o {
        Some(n) => decimal_text(n),
        None => "—".to_owned(),
    }
}

/// The revisions of the static and of the dynamic map.
pub open spec fn revisions_of(map: Option<u64>, dynamic: Option<u64>) -> Seq<char> {
    if map is None && dynamic is None {
        "—"@
    } else {
        or_dash(
            match map {
                Some(n) => Some(decimal(n as nat)),
                None => None,
            },
        ) + " / "@ + or_dash(
            match dynamic {
                Some(n) => Some(decimal(n as nat)),
                None => None,
            },
        )
    }
}

/// The summary of what is known of the robot. The poses are given as text.
pub open spec fn summary_document(
    status: StatusView,
    robot: Option<Seq<char>>,
    vpr: Option<Seq<char>>,
    goal: Option<Seq<char>>,
) -> Seq<char> {
    "**Robot**  \n"@ + or_dash(robot) + "\n\n**VPR**  \n"@ + or_dash(vpr) + "\n\n**Goal**  \n"@
        + or_dash(goal) + "\n\n---\n\n**Mode**　"@ + or_dash(status.planner_mode) + "  \n**Map**　"@
        + revisions_of(status.map_revision, status.dynamic_revision) + "  \n**Path**　"@ + decimal(
        match status.path_points {
            Some(n) => n as nat,
            None => 0,
        },
    ) + " points"@
}

/// A summary, where it is not the one that is shown.
pub open spec fn document_to_show(s: LoggerView, document: Seq<char>) -> Option<Seq<char>> {
    if s.status_signature == document {
        None
    } else {
        Some(document)
    }
}

/// The state in which a summary is shown.
pub open spec fn showing_document(s: LoggerView, document: Seq<char>) -> LoggerView {
    LoggerView { status_signature: document, ..s }
}

impl NavigationLogger {
    /// Makes a summary of what is known of the robot, where it is not the one that is
    /// shown. The poses are given as text.
    pub fn status_document(
        &mut self,
        status: &NativeStatusSnapshot,
        robot: Option<&str>,
        vpr: Option<&str>,
        goal: Option<&str>,
    ) -> (r: Option<String>)
        ensures
            ({
                let document = summary_document(
                    status@,
                    opt_str(robot),
                    opt_str(vpr),
                    opt_str(goal),
                );
                let before = old(self)@;
                &&& opt_text(r) == document_to_show(before, document)
                &&& final(self)@ == showing_document(before, document)
            }),
    {
        let revisions = if status.map_revision.is_none() && status.dynamic_revision.is_none() {
            "—".to_owned()
        } else {
            let map = number_or_dash(status.map_revision);
            let dynamic = number_or_dash(status.dynamic_revision);
            map.concat(" / ").concat(dynamic.as_str())
        };
        let mode = match &status.planner_mode {
            Some(mode) => mode.clone(),
            None => "—".to_owned(),
        };
        let points = decimal_text(
            match status.path_points {
                Some(n) => n as u64,
                None => 0,
            },
        );
        let document = "**Robot**  \n".to_owned().concat(dash_without(robot).as_str()).concat(
            "\n\n**VPR**  \n",
        ).concat(dash_without(vpr).as_str()).concat("\n\n**Goal**  \n").concat(
            dash_without(goal).as_str(),
        ).concat("\n\n---\n\n**Mode**　").concat(mode.as_str()).concat("  \n**Map**　").concat(
            revisions.as_str(),
        ).concat("  \n**Path**　").concat(points.as_str()).concat(" points");
        if same_text(self.status_signature.as_str(), document.as_str()) {
            return None;
        }
        self.status_signature = document.clone();
        Some(document)
    }
}

/// An image is fetched once: nothing is fetched that is shown, and what was fetched and
/// is shown is not fetched again.
pub proof fn law_images_are_fetched_once(
    base: Seq<char>,
    shown: Map<Seq<char>, Seq<char>>,
    images: JsonView,
    source: ImageSourceView,
)
    ensures
        images_to_fetch(base, shown, images).contains(source) ==> !(shown.dom().contains(
            source.key,
        ) && shown[source.key] == source.identity),
        !images_to_fetch(base, shown.insert(source.key, source.identity), images).contains(source),
{
    match images {
        JsonView::Object(entries) => {
            lemma_fresh_is_not_shown(base, shown, entries, source);
            lemma_fresh_is_not_shown(
                base,
                shown.insert(source.key, source.identity),
                entries,
                source,
            );
        },
        _ => {},
    }
}

proof fn lemma_fresh_is_not_shown(
    base: Seq<char>,
    shown: Map<Seq<char>, Seq<char>>,
    entries: Seq<(Seq<char>, JsonView)>,
    source: ImageSourceView,
)
    ensures
        fresh_images(base, shown, entries).contains(source) ==> !(shown.dom().contains(source.key)
            && shown[source.key] == source.identity),
    decreases entries.len(),
{
    if entries.len() > 0 {
        lemma_fresh_is_not_shown(base, shown, entries.drop_last(), source);
        let head = fresh_images(base, shown, entries.drop_last());
        let all = fresh_images(base, shown, entries);
        if all.contains(source) {
            let i = choose|i: int| 0 <= i < all.len() && all[i] == source;
            if i < head.len() {
                assert(head[i] == source);
            }
        }
    }
}

/// A summary is shown once, until there is another to show.
pub proof fn law_summary_is_shown_once(s: LoggerView, document: Seq<char>, other: Seq<char>)
    ensures
        document_to_show(showing_document(s, document), document) is None,
        document != other ==> document_to_show(showing_document(s, document), other) == Some(other),
{
}

/// A description of the map is taken over once, until there is another; and after a
/// change of the robot, any description is.
pub proof fn law_map_is_taken_over_once(s: LoggerView, m: JsonView, settings: NativeSettingsView)
    requires
        m is Object,
    ensures
        !is_new_map(with_map(s, m), m),
        !same_robot(s.settings, settings) ==> is_new_map(with_settings(s, settings), m),
{
    reveal_strlit("{");
    assert(printed(m).len() > 0);
}

/// Another robot is shown as if nothing had been drawn before, and the same robot as if
/// nothing had changed.
pub proof fn law_another_robot_begins_anew(
    s: LoggerView,
    t: LoggerView,
    settings: NativeSettingsView,
)
    ensures
        !same_robot(s.settings, settings) && !same_robot(t.settings, settings) ==> with_settings(
            s,
            settings,
        ) == with_settings(t, settings),
        with_settings(s, s.settings) == s,
{
}

/// A task is recorded once: a report of the task that is being recorded begins nothing,
/// and ends the recording exactly where it is at its end.
pub proof fn law_a_task_is_recorded_once(s: LoggerView, report: TaskReportView)
    requires
        report.task_id is Some,
        active_id(s) == report.task_id,
    ensures
        !begins_recording(s, report),
        ends_recording(s, report) == terminal_word(report.status),
{
}

/// A report never begins a recording and ends it at once.
pub proof fn law_what_begins_does_not_end(s: LoggerView, t: LoggerView, report: TaskReportView)
    requires
        begins_recording(s, report),
    ensures
        !ends_recording(t, report),
{
    if terminal_word(report.status) {
        law_terminal_is_not_active(report.status);
    }
}

/// The recording of a task ends with a report of that task in one of these eight states,
/// and with no other report. Nothing else changes with it.
pub proof fn law_recordings_end(
    s: LoggerView,
    task_id: Seq<char>,
    task_dir: PathBuf,
    report: TaskReportView,
)
    ensures
        ({
            let before = recording(s, task_id, task_dir);
            let over = report.task_id == Some(task_id) && seq![
                "succeeded"@,
                "success"@,
                "completed"@,
                "failed"@,
                "cancelled"@,
                "canceled"@,
                "stopped"@,
                "aborted"@,
            ].contains(report.status);
            &&& active_id(before) == Some(task_id)
            &&& ends_recording(before, report) == over
            &&& over ==> after_end(before, report) == (LoggerView { active: None, ..s })
            &&& !over ==> after_end(before, report) == before
        }),
{
    law_terminal_words(report.status);
}

/// The recording of a task begins with a report of that task in one of these eight
/// states, unless it is being recorded already, and with no other report. The recording
/// of another task is over then, and nothing else changes.
pub proof fn law_recordings_begin(s: LoggerView, report: TaskReportView)
    ensures
        ({
            let begins = report.task_id is Some && !(s.active matches Some(task) && Some(
                task.task_id,
            ) == report.task_id) && seq![
                "accepted"@,
                "queued"@,
                "running"@,
                "planning"@,
                "navigating"@,
                "executing"@,
                "processing"@,
                "busy"@,
            ].contains(report.status);
            &&& begins_recording(s, report) == begins
            &&& begins ==> after_begin(s, report) == (LoggerView { active: None, ..s })
            &&& !begins ==> after_begin(s, report) == s
        }),
{
    law_active_words(report.status);
}

/// A state in which the panel calls a task completed or stopped ends its recording, and
/// one in which it calls the task under way begins it.
pub proof fn law_labels_and_recordings_agree(
    s: LoggerView,
    task_id: Seq<char>,
    task_dir: PathBuf,
    report: TaskReportView,
)
    requires
        report.task_id == Some(task_id),
        ascii_lower(report.status) == report.status,
    ensures
        status_label(report.status) == "已完成"@ || status_label(report.status) == "已停止"@
            ==> ends_recording(recording(s, task_id, task_dir), report),
        status_label(report.status) == "执行中"@ ==> !ends_recording(
            recording(s, task_id, task_dir),
            report,
        ) && begins_recording(LoggerView { active: None, ..s }, report),
{
    law_labels_tell_the_state(report.status);
}

/// What is written down about a task that is being recorded goes to its directory, and
/// names the task, its goal and its state. Nothing is written down about another task,
/// nor while none is being recorded.
pub proof fn law_recorded_tasks_are_noted(
    s: LoggerView,
    task_id: Seq<char>,
    task_dir: PathBuf,
    report: TaskReportView,
    updated_at: Seq<char>,
)
    ensures
        notes_for(LoggerView { active: None, ..s }, report, updated_at) is None,
        report.task_id != Some(task_id) ==> notes_for(
            recording(s, task_id, task_dir),
            report,
            updated_at,
        ) is None,
        report.task_id == Some(task_id) ==> notes_for(
            recording(s, task_id, task_dir),
            report,
            updated_at,
        ) == Some(
            (
                task_dir,
                printed(
                    JsonView::Object(
                        seq![
                            (
                                "goal_text"@,
                                match report.goal_text {
                                    Some(goal) => JsonView::Text(goal),
                                    None => JsonView::Null,
                                },
                            ),
                            ("status"@, JsonView::Text(report.status)),
                            ("task_id"@, JsonView::Text(task_id)),
                            (
                                "updated_at"@,
                                JsonView::Number(
                                    NumberView {
                                        unsigned: None,
                                        double: None,
                                        written: updated_at,
                                    },
                                ),
                            ),
                        ],
                    ),
                ),
            ),
        ),
{
}

/// How a map lies in the world is read from its description: the origin from the first
/// two numbers of the list `origin`, or from its members `0` and `1`, the height from the
/// number `height`, and the resolution from the positive number `resolution`. What is not
/// told is zero, and the resolution one.
pub proof fn law_maps_are_read(s: LoggerView, m: JsonView, x: Double, y: Double)
    ensures
        ({
            let map = with_map(s, m).map;
            let zero = Double { bits: 0 };
            &&& m.get("origin"@) matches Some(JsonView::Array(items)) ==> {
                &&& items.len() >= 1 && items[0].double() == Some(x) ==> map.origin_x == x
                &&& items.len() < 1 || items[0].double() is None ==> map.origin_x == zero
                &&& items.len() >= 2 && items[1].double() == Some(y) ==> map.origin_y == y
                &&& items.len() < 2 || items[1].double() is None ==> map.origin_y == zero
            }
            &&& m.get("origin"@) matches Some(JsonView::Object(entries)) ==> {
                let origin = JsonView::Object(entries);
                &&& (origin.get("0"@) matches Some(v) && v.double() == Some(x)) ==> map.origin_x
                    == x
                &&& (origin.get("1"@) matches Some(v) && v.double() == Some(y)) ==> map.origin_y
                    == y
            }
            &&& m.get("origin"@) is None ==> map.origin_x == zero && map.origin_y == zero
            &&& (m.get("resolution"@) matches Some(v) && v.double() == Some(x) && x.positive())
                ==> map.resolution == x
            &&& (m.get("resolution"@) matches Some(v) && v.double() == Some(x) && !x.positive())
                ==> map.resolution == (Double { bits: 0x3ff0_0000_0000_0000 })
            &&& !(m.get("resolution"@) matches Some(v) && v.double() is Some) ==> map.resolution
                == (Double { bits: 0x3ff0_0000_0000_0000 })
            &&& (m.get("height"@) matches Some(v) && v.double() == Some(y)) ==> map.height == y
            &&& !(m.get("height"@) matches Some(v) && v.double() is Some) ==> map.height == zero
        }),
{
}

/// A description of the map that differs from the one before is taken over, and its
/// picture is fetched from the robot where the description names one. The same one again
/// changes nothing.
pub proof fn law_maps_are_refreshed(
    before: LoggerView,
    m: JsonView,
    r: MapRefresh,
    after: LoggerView,
)
    requires
        is_refreshed(before, m, r, after),
    ensures
        r is Unchanged <==> printed(m) == before.map_signature,
        r is Unchanged ==> after == before,
        r matches MapRefresh::Changed { image_url } ==> {
            &&& after.map_signature == printed(m)
            &&& after == (LoggerView {
                map: after.map,
                map_signature: after.map_signature,
                ..before
            })
            &&& after.map == with_map(before, m).map
            &&& (m.get("image_path"@) matches Some(v) && !(v is Null)) ==> (image_url matches Some(
                url,
            ) && url@ == "http://"@ + before.settings.robot_ip + ":"@ + decimal(
                before.settings.robot_port as nat,
            ) + "/viz/api/map/image"@)
            &&& m.get("image_path"@) is None || m.get("image_path"@) == Some(JsonView::Null)
                ==> image_url is None
        },
{
    let settings = before.settings;
    assert("http://"@ + (settings.robot_ip + ":"@ + decimal(settings.robot_port as nat))
        == "http://"@ + settings.robot_ip + ":"@ + decimal(settings.robot_port as nat));
}

/// The reply to the question for the map is taken over where it is a document, and
/// changes nothing where it is none; the operator is told why.
pub proof fn law_map_replies_are_taken(
    before: LoggerView,
    parsed: Result<JsonView, Seq<char>>,
    r: Result<MapRefresh, String>,
    after: LoggerView,
    failure: MapFailure,
)
    requires
        is_taken(before, parsed, r, after),
    ensures
        parsed matches Ok(m) ==> (r matches Ok(refresh) && is_refreshed(before, m, refresh, after)),
        parsed matches Err(message) ==> after == before && (r matches Err(text) && text@
            == "地图元数据 JSON 无效：json: "@ + message),
        failure matches MapFailure::Request(detail) ==> map_failure_of(failure)
            == "读取地图元数据失败："@ + detail@,
        failure matches MapFailure::Document(detail) ==> map_failure_of(failure)
            == "地图元数据 JSON 无效："@ + detail@,
{
}

/// The robot's services are found at its address and port.
pub proof fn law_services_are_on_the_robot(settings: NativeSettingsView)
    ensures
        base_of(settings) == "http://"@ + settings.robot_ip + ":"@ + decimal(
            settings.robot_port as nat,
        ),
        metadata_address(settings) == "http://"@ + settings.robot_ip + ":"@ + decimal(
            settings.robot_port as nat,
        ) + "/viz/api/map/metadata"@,
{
    assert("http://"@ + (settings.robot_ip + ":"@ + decimal(settings.robot_port as nat))
        == "http://"@ + settings.robot_ip + ":"@ + decimal(settings.robot_port as nat));
}

/// All images that are told and not shown are fetched, in the order in which they are
/// told, and no others.
pub proof fn law_new_images_are_fetched(
    base: Seq<char>,
    shown: Map<Seq<char>, Seq<char>>,
    entries: Seq<(Seq<char>, JsonView)>,
    key: Seq<char>,
    descriptor: JsonView,
    other: JsonView,
)
    ensures
        ({
            let before = images_to_fetch(base, shown, JsonView::Object(entries));
            let after = images_to_fetch(
                base,
                shown,
                JsonView::Object(entries.push((key, descriptor))),
            );
            &&& source_of(base, key, descriptor) is None ==> after == before
            &&& source_of(base, key, descriptor) matches Some(source) ==> {
                &&& shown.dom().contains(key) && shown[key] == source.identity ==> after == before
                &&& !(shown.dom().contains(key) && shown[key] == source.identity) ==> after
                    == before.push(source)
            }
        }),
        images_to_fetch(base, shown, JsonView::Object(Seq::empty())).len() == 0,
        !(other is Object) ==> images_to_fetch(base, shown, other).len() == 0,
{
    let more = entries.push((key, descriptor));
    assert(more.drop_last() == entries);
    assert(more.last() == (key, descriptor));
}

/// Settings of the same robot leave everything as it is. With another robot nothing is
/// recorded, no map is known and no image is shown.
pub proof fn law_other_robots_are_unknown(s: LoggerView, settings: NativeSettingsView)
    ensures
        s.settings.robot_ip == settings.robot_ip && s.settings.robot_port == settings.robot_port
            ==> with_settings(s, settings) == (LoggerView { settings, ..s }),
        s.settings.robot_ip != settings.robot_ip || s.settings.robot_port != settings.robot_port
            ==> {
            let t = with_settings(s, settings);
            &&& t.settings == settings
            &&& t.active is None && t.map_image is None
            &&& t.map_signature.len() == 0 && t.status_signature.len() == 0
            &&& t.images.dom() == Set::<Seq<char>>::empty()
            &&& t.map.origin_x.bits == 0 && t.map.origin_y.bits == 0 && t.map.height.bits == 0
            &&& t.map.resolution.bits == 0x3ff0_0000_0000_0000
        },
        nothing_drawn(settings).active is None && nothing_drawn(settings).settings == settings,
{
}

/// Whether a place is another one, or lies below it.
pub open spec fn is_at_or_below(place: Seq<char>, top: Seq<char>) -> bool {
    place == top || begins_with(place, top.push('/'))
}

/// Whatever is drawn for a robot, but the log, disappears when another is shown.
pub proof fn law_drawings_of_a_robot_disappear(m: JsonView, i: int)
    requires
        0 <= i < message_steps(m).len(),
    ensures
        message_steps(m)[i] matches StepView::Draw(d) ==> (place_of(d) == "events/task_status"@
            || place_of(d) == "events/navigation"@ || exists|k: int|
            0 <= k < robot_places().len() && is_at_or_below(
                place_of(d),
                #[trigger] robot_places()[k],
            )),
{
    law_drawings_have_their_places(m, i);
    match message_steps(m)[i] {
        StepView::Draw(d) => {
            let place = place_of(d);
            let places = robot_places();
            reveal_strlit("world/planner");
            reveal_strlit("world/planner/global_path");
            reveal_strlit("world/planner/local_path");
            reveal_strlit("world/planner/waypoints");
            reveal_strlit("world/planner/local_goal");
            let plan = "world/planner"@.push('/');
            assert("world/planner/global_path"@.take(14) == plan);
            assert("world/planner/local_path"@.take(14) == plan);
            assert("world/planner/waypoints"@.take(14) == plan);
            assert("world/planner/local_goal"@.take(14) == plan);
            assert(places[3] == "world/planner"@);
            if place == places[0] {
                assert(is_at_or_below(place, places[0]));
            } else if place == places[1] {
                assert(is_at_or_below(place, places[1]));
            } else if place == places[2] {
                assert(is_at_or_below(place, places[2]));
            } else if place != "events/task_status"@ && place != "events/navigation"@ {
                assert(is_at_or_below(place, places[3]));
            }
        },
        _ => {},
    }
}

/// The images of a robot disappear too when another is shown, and so does the dynamic
/// map.
pub proof fn law_images_of_a_robot_disappear(base: Seq<char>, key: Seq<char>, descriptor: JsonView)
    ensures
        robot_places().contains("world/dynamic/occupancy"@),
        source_of(base, key, descriptor) matches Some(source) ==> exists|k: int|
            0 <= k < robot_places().len() && is_at_or_below(
                source.entity,
                #[trigger] robot_places()[k],
            ),
{
    let places = robot_places();
    assert(places[4] == "world/dynamic/occupancy"@);
    law_cameras_have_their_places(base, key, descriptor);
    match source_of(base, key, descriptor) {
        Some(source) => {
            reveal_strlit("sensors");
            reveal_strlit("sensors/");
            reveal_strlit("sensors/front/rgb");
            reveal_strlit("planner");
            reveal_strlit("planner/navdp/input");
            assert("sensors/"@ == "sensors"@.push('/'));
            assert("sensors/front/rgb"@.take(8) == "sensors"@.push('/'));
            assert("planner/navdp/input"@.take(8) == "planner"@.push('/'));
            assert(("sensors/"@ + key).take(8) == "sensors"@.push('/'));
            if key == "rgb_navdp"@ {
                assert(is_at_or_below(source.entity, places[6]));
            } else {
                assert(is_at_or_below(source.entity, places[5]));
            }
        },
        None => {},
    }
}

/// The summary shows the three poses, the planner's mode, the revisions of the maps and
/// the length of the plan, each under its own heading, and a dash for what is not known.
pub proof fn law_summary_shows_what_is_known(
    status: StatusView,
    robot: Option<Seq<char>>,
    vpr: Option<Seq<char>>,
    goal: Option<Seq<char>>,
)
    ensures
        ({
            let dash = "—"@;
            let maps = match (status.map_revision, status.dynamic_revision) {
                (Some(map), Some(dynamic)) => decimal(map as nat) + " / "@ + decimal(
                    dynamic as nat,
                ),
                (Some(map), None) => decimal(map as nat) + " / "@ + dash,
                (None, Some(dynamic)) => dash + " / "@ + decimal(dynamic as nat),
                (None, None) => dash,
            };
            let points = match status.path_points {
                Some(n) => decimal(n as nat),
                None => decimal(0),
            };
            summary_document(status, robot, vpr, goal) == "**Robot**  \n"@ + robot.unwrap_or(dash)
                + "\n\n**VPR**  \n"@ + vpr.unwrap_or(dash) + "\n\n**Goal**  \n"@ + goal.unwrap_or(
                dash,
            ) + "\n\n---\n\n**Mode**　"@ + status.planner_mode.unwrap_or(dash) + "  \n**Map**　"@
                + maps + "  \n**Path**　"@ + points + " points"@
        }),
{
}

/// An image that was fetched and is shown is not fetched again, and takes the place of the
/// former one of its camera only.
pub proof fn law_shown_images_are_noted(
    s: LoggerView,
    key: Seq<char>,
    identity: Seq<char>,
    other: Seq<char>,
    bytes: Seq<u8>,
)
    ensures
        ({
            let t = with_image(s, key, identity);
            &&& t.images.dom().contains(key) && t.images[key] == identity
            &&& other != key ==> t.images.dom().contains(other) == s.images.dom().contains(other)
                && (s.images.dom().contains(other) ==> t.images[other] == s.images[other])
            &&& t == (LoggerView { images: t.images, ..s })
        }),
        with_map_image(s, bytes) == (LoggerView { map_image: Some(bytes), ..s }),
{
}

/// Two settings are of the same robot where its address and its port are the same.
pub proof fn law_what_makes_the_same_robot(a: NativeSettingsView, b: NativeSettingsView)
    ensures
        same_robot(a, b) <==> a.robot_ip == b.robot_ip && a.robot_port == b.robot_port,
{
}

} // verus!
