//! The recorded tasks on this computer: how a record is named, listed and deleted.

use std::path::PathBuf;
use vstd::prelude::*;
use vstd::string::*;

use crate::json::{
    is_flat, is_plain_number, json_parse, member, parse_json, parse_view, printed, reads_back,
    same_members, Json, JsonView, NumberView,
};
use crate::status::text_value;
use crate::text::{
    chars_of, clipped, clone_opt, decimal, decimal_text, digit, law_clipped, opt_text,
};

verus! {

/// `std::path::PathBuf`, which is carried along and never looked into.
#[verifier::external_type_specification]
#[verifier::external_body]
pub struct ExPathBuf(std::path::PathBuf);

/// `PathBuf::clone`: the same path again.
pub assume_specification[ <PathBuf as Clone>::clone ](path: &PathBuf) -> (r: PathBuf)
    ensures
        r == *path,
;

/// A recorded task that can be replayed.
#[derive(Debug)]
pub struct NativeReplayTask {
    pub task_id: String,
    pub goal_text: Option<String>,
    pub status: String,
    pub has_rerun_recording: bool,
    pub recording_source: String,
    pub task_dir: PathBuf,
}

pub struct ReplayTaskView {
    pub task_id: Seq<char>,
    pub goal_text: Option<Seq<char>>,
    pub status: Seq<char>,
    pub has_rerun_recording: bool,
    pub recording_source: Seq<char>,
    pub task_dir: PathBuf,
}

impl View for NativeReplayTask {
    type V = ReplayTaskView;

    open spec fn view(&self) -> ReplayTaskView {
        ReplayTaskView {
            task_id: self.task_id@,
            goal_text: opt_text(self.goal_text),
            status: self.status@,
            has_rerun_recording: self.has_rerun_recording,
            recording_source: self.recording_source@,
            task_dir: self.task_dir,
        }
    }
}

impl NativeReplayTask {
    /// A copy of the record.
    pub fn duplicate(&self) -> (r: NativeReplayTask)
        ensures
            r@ == self@,
    {
        NativeReplayTask {
            task_id: self.task_id.clone(),
            goal_text: clone_opt(&self.goal_text),
            status: self.status.clone(),
            has_rerun_recording: self.has_rerun_recording,
            recording_source: self.recording_source.clone(),
            task_dir: self.task_dir.clone(),
        }
    }
}

/// A directory of the history.
#[derive(Debug)]
pub struct HistoryEntry {
    pub task_dir: PathBuf,
    /// The directory's own name, where it is text.
    pub dir_name: Option<String>,
    /// Where its recording is.
    pub recording_source: String,
    /// Whether there is a recording.
    pub has_recording: bool,
    /// What is noted down about the task.
    pub metadata: Option<String>,
}

/// How many directories of the history are looked at.
pub const HISTORY_LIMIT: usize = 50;

/// Whether entry `i` comes before entry `j`: the one that was changed later, and of
/// two changed at once the one that was found first.
pub open spec fn comes_first(modified: Seq<i128>, i: int, j: int) -> bool {
    modified[i] > modified[j] || (modified[i] == modified[j] && i < j)
}

/// Whether a list names the first `limit` entries, in order.
pub open spec fn is_newest_first(modified: Seq<i128>, order: Seq<usize>, limit: nat) -> bool {
    &&& order.len() == if modified.len() < limit {
        modified.len()
    } else {
        limit
    }
    &&& forall|k: int| 0 <= k < order.len() ==> (#[trigger] order[k]) < modified.len()
    &&& forall|a: int, b: int|
        0 <= a < b < order.len() ==> comes_first(
            modified,
            #[trigger] order[a] as int,
            #[trigger] order[b] as int,
        )
    &&& forall|k: int, j: usize|
        0 <= k < order.len() && j < modified.len() && !order.contains(j)
            ==> #[trigger] comes_first(modified, order[k] as int, j as int)
}

/// Names the entries to look at, the newest first. `modified` tells when each entry
/// was changed.
pub fn newest_entries(modified: &Vec<i128>) -> (order: Vec<usize>)
    ensures
        is_newest_first(modified@, order@, HISTORY_LIMIT as nat),
{
    let ghost keys = modified@;
    let mut order: Vec<usize> = Vec::new();
    let mut i: usize = 0;
    while i < modified.len()
        invariant
            i <= modified.len(),
            keys == modified@,
            order@.len() == i,
            forall|k: int| 0 <= k < order@.len() ==> (#[trigger] order@[k]) < i,
            forall|a: int, b: int|
                0 <= a < b < order@.len() ==> comes_first(
                    keys,
                    #[trigger] order@[a] as int,
                    #[trigger] order@[b] as int,
                ),
            forall|j: usize| j < i ==> #[trigger] order@.contains(j),
        decreases modified.len() - i,
    {
        let mut at: usize = 0;
        while at < order.len() && modified[order[at]] >= modified[i]
            invariant
                i < modified.len(),
                keys == modified@,
                at <= order@.len(),
                forall|k: int| 0 <= k < order@.len() ==> (#[trigger] order@[k]) < i,
                forall|k: int| 0 <= k < at ==> keys[#[trigger] order@[k] as int] >= keys[i as int],
            decreases order.len() - at,
        {
            at = at + 1;
        }
        let ghost earlier = order@;
        order.insert(at, i);
        proof {
            assert(order@ == earlier.insert(at as int, i));
            assert forall|a: int, b: int| 0 <= a < b < order@.len() implies comes_first(
                keys,
                #[trigger] order@[a] as int,
                #[trigger] order@[b] as int,
            ) by {
                let a0 = if a < at {
                    a
                } else {
                    a - 1
                };
                let b0 = if b < at {
                    b
                } else {
                    b - 1
                };
                if a == at {
                    // Everything from `at` on was changed before entry `i`.
                    assert(order@[b] == earlier[b0]);
                    if at < b0 {
                        assert(comes_first(keys, earlier[at as int] as int, earlier[b0] as int));
                    }
                } else if b == at {
                    assert(order@[a] == earlier[a0]);
                } else {
                    assert(order@[a] == earlier[a0] && order@[b] == earlier[b0]);
                }
            }
            assert forall|j: usize| j < i + 1 implies #[trigger] order@.contains(j) by {
                if j == i {
                    assert(order@[at as int] == i);
                } else {
                    assert(earlier.contains(j));
                    let k = choose|k: int| 0 <= k < earlier.len() && earlier[k] == j;
                    if k < at {
                        assert(order@[k] == j);
                    } else {
                        assert(order@[k + 1] == j);
                    }
                }
            }
            assert forall|k: int| 0 <= k < order@.len() implies (#[trigger] order@[k]) < i + 1 by {
                if k < at {
                    assert(order@[k] == earlier[k]);
                } else if k > at {
                    assert(order@[k] == earlier[k - 1]);
                }
            }
        }
        i = i + 1;
    }
    let ghost all = order@;
    if order.len() > HISTORY_LIMIT {
        order.truncate(HISTORY_LIMIT);
    }
    proof {
        assert forall|k: int, j: usize|
            0 <= k < order@.len() && j < keys.len() && !order@.contains(j) implies #[trigger] comes_first(
            keys,
            order@[k] as int,
            j as int,
        ) by {
            assert(all.contains(j));
            let p = choose|p: int| 0 <= p < all.len() && all[p] == j;
            if p < order@.len() {
                assert(order@[p] == j);
            }
            assert(comes_first(keys, all[k] as int, all[p] as int));
        }
    }
    order
}

/// What a text notes down about a task: nothing, where it is no JSON document.
pub open spec fn noted(metadata: Option<Seq<char>>) -> JsonView {
    match metadata {
        Some(text) => match json_parse(text) {
            Ok(document) => document,
            Err(_) => JsonView::Null,
        },
        None => JsonView::Null,
    }
}

/// What is noted down about a task that is being recorded.
pub open spec fn notes_of(
    task_id: Seq<char>,
    goal_text: Option<Seq<char>>,
    status: Seq<char>,
    updated_at: Seq<char>,
) -> JsonView {
    JsonView::Object(
        seq![
            (
                "goal_text"@,
                match goal_text {
                    Some(goal) => JsonView::Text(goal),
                    None => JsonView::Null,
                },
            ),
            ("status"@, JsonView::Text(status)),
            ("task_id"@, JsonView::Text(task_id)),
            (
                "updated_at"@,
                JsonView::Number(
                    NumberView { unsigned: None, double: None, written: updated_at },
                ),
            ),
        ],
    )
}

/// Whether the record of a task is the one that was noted down in `text`.
pub open spec fn is_as_noted(record: Option<ReplayTaskView>, text: Seq<char>) -> bool {
    forall|
        task_id: Seq<char>,
        goal_text: Option<Seq<char>>,
        status: Seq<char>,
        updated_at: Seq<char>,
    |
        is_plain_number(updated_at) && text == printed(
            #[trigger] notes_of(task_id, goal_text, status, updated_at),
        ) ==> (record matches Some(task) && task.task_id == task_id && task.goal_text == goal_text
            && task.status == status)
}

/// What was noted down about a task is what is read of it.
proof fn lemma_notes_are_read_back(
    entry: HistoryEntry,
    text: Seq<char>,
    read: Result<JsonView, Seq<char>>,
)
    requires
        entry.has_recording,
        reads_back(read, text),
    ensures
        read matches Ok(document) ==> is_as_noted(record_of(entry, document), text),
        read is Err ==> is_as_noted(record_of(entry, JsonView::Null), text),
{
    assert forall|
        task_id: Seq<char>,
        goal_text: Option<Seq<char>>,
        status: Seq<char>,
        updated_at: Seq<char>,
    |
        is_plain_number(updated_at) && text == printed(
            #[trigger] notes_of(task_id, goal_text, status, updated_at),
        ) implies (read matches Ok(document) && document.text_at("task_id"@) == Some(task_id)
        && document.text_at("goal_text"@) == goal_text && document.text_at("status"@) == Some(
        status,
    )) by {
        let notes = notes_of(task_id, goal_text, status, updated_at);
        let entries = notes->Object_0;
        lemma_note_names_differ();
        assert(is_flat(notes));
        reveal_with_fuel(member, 5);
        let three = entries.drop_last();
        let two = three.drop_last();
        assert(three.last() == entries[2]);
        assert(two.last() == entries[1]);
        assert(two.drop_last().last() == entries[0]);
        assert(notes.get("task_id"@) == Some(entries[2].1));
        assert(notes.get("status"@) == Some(entries[1].1));
        assert(notes.get("goal_text"@) == Some(entries[0].1));
        assert(read matches Ok(document) && same_members(document, notes));
        let document = read->Ok_0;
        assert(document.get("task_id"@) == notes.get("task_id"@));
        assert(document.get("status"@) == notes.get("status"@));
        assert(document.get("goal_text"@) == notes.get("goal_text"@));
    }
}

proof fn lemma_note_names_differ()
    ensures
        "goal_text"@ != "status"@,
        "goal_text"@ != "task_id"@,
        "goal_text"@ != "updated_at"@,
        "status"@ != "task_id"@,
        "status"@ != "updated_at"@,
        "task_id"@ != "updated_at"@,
{
    reveal_strlit("goal_text");
    reveal_strlit("status");
    reveal_strlit("task_id");
    reveal_strlit("updated_at");
    assert("goal_text"@.len() == 9);
    assert("status"@.len() == 6);
    assert("task_id"@.len() == 7);
    assert("updated_at"@.len() == 10);
}

/// The record of a task, by what is noted down about it.
pub open spec fn record_of(entry: HistoryEntry, notes: JsonView) -> Option<ReplayTaskView> {
    if !entry.has_recording {
        None
    } else {
        Some(
            ReplayTaskView {
                task_id: match (notes.text_at("task_id"@), opt_text(entry.dir_name)) {
                    (Some(id), _) => id,
                    (None, Some(name)) => name,
                    (None, None) => "task"@,
                },
                goal_text: notes.text_at("goal_text"@),
                status: match notes.text_at("status"@) {
                    Some(status) => status,
                    None => "recorded"@,
                },
                has_rerun_recording: true,
                recording_source: entry.recording_source@,
                task_dir: entry.task_dir,
            },
        )
    }
}

pub open spec fn opt_task(o: Option<NativeReplayTask>) -> Option<ReplayTaskView> {
    match o {
        Some(task) => Some(task@),
        None => None,
    }
}

/// Describes the task of a directory. A directory without a recording has none. What
/// was noted down while the task was recorded is found again.
pub fn replay_task(entry: HistoryEntry) -> (r: Option<NativeReplayTask>)
    ensures
        opt_task(r) == record_at(entry),
        entry.has_recording && entry.metadata is Some ==> is_as_noted(
            opt_task(r),
            entry.metadata->Some_0@,
        ),
{
    let notes = match &entry.metadata {
        Some(text) => {
            let parsed = parse_json(text.as_str());
            proof {
                if entry.has_recording {
                    lemma_notes_are_read_back(entry, text@, parse_view(parsed));
                }
            }
            match parsed {
                Ok(document) => document,
                Err(_) => Json::Null,
            }
        },
        None => Json::Null,
    };
    replay_task_noted(entry, &notes)
}

/// Describes the task of a directory by the notes about it.
pub fn replay_task_noted(entry: HistoryEntry, notes: &Json) -> (r: Option<NativeReplayTask>)
    ensures
        opt_task(r) == record_of(entry, notes.view()),
{
    if !entry.has_recording {
        return None;
    }
    let task_id = match text_value(notes.get("task_id")) {
        Some(id) => id,
        None => match entry.dir_name {
            Some(name) => name,
            None => "task".to_owned(),
        },
    };
    let status = match text_value(notes.get("status")) {
        Some(status) => status,
        None => "recorded".to_owned(),
    };
    Some(
        NativeReplayTask {
            task_id,
            goal_text: text_value(notes.get("goal_text")),
            status,
            has_rerun_recording: true,
            recording_source: entry.recording_source,
            task_dir: entry.task_dir,
        },
    )
}

/// The record of a directory.
pub open spec fn record_at(entry: HistoryEntry) -> Option<ReplayTaskView> {
    record_of(entry, noted(opt_text(entry.metadata)))
}

/// Whether the record of a directory with a recording and notes is listed, and is as the
/// notes have it.
pub open spec fn is_listed_as_noted(listed: Seq<ReplayTaskView>, entry: HistoryEntry) -> bool {
    entry.has_recording && entry.metadata is Some ==> (record_at(entry) matches Some(task)
        && listed.contains(task) && is_as_noted(Some(task), entry.metadata->Some_0@))
}

/// The records of some directories, without those that have none.
pub open spec fn records_of(entries: Seq<HistoryEntry>) -> Seq<ReplayTaskView>
    decreases entries.len(),
{
    if entries.len() == 0 {
        Seq::empty()
    } else {
        let rest = records_of(entries.drop_first());
        match record_at(entries[0]) {
            Some(task) => seq![task] + rest,
            None => rest,
        }
    }
}

pub open spec fn task_views(v: Seq<NativeReplayTask>) -> Seq<ReplayTaskView> {
    v.map_values(|task: NativeReplayTask| task@)
}

/// Describes the tasks of some directories, in their order. What was noted down while a
/// task was recorded is found again.
pub fn replay_tasks_in(entries: Vec<HistoryEntry>) -> (r: Vec<NativeReplayTask>)
    ensures
        task_views(r@) == records_of(entries@),
        forall|i: int|
            0 <= i < entries@.len() ==> is_listed_as_noted(
                task_views(r@),
                #[trigger] entries@[i],
            ),
{
    let mut rest = entries;
    let ghost mut done: int = 0;
    let mut tasks: Vec<NativeReplayTask> = Vec::new();
    assert(task_views(tasks@) + records_of(rest@) == records_of(entries@));
    while rest.len() > 0
        invariant
            0 <= done,
            done + rest@.len() == entries@.len(),
            rest@ == entries@.skip(done),
            task_views(tasks@) + records_of(rest@) == records_of(entries@),
            forall|i: int|
                0 <= i < done ==> is_listed_as_noted(task_views(tasks@), #[trigger] entries@[i]),
        decreases rest.len(),
    {
        let ghost before = tasks@;
        let ghost had = rest@;
        let entry = rest.remove(0);
        assert(rest@ == had.drop_first());
        assert(entry == entries@[done]);
        match replay_task(entry) {
            Some(task) => {
                tasks.push(task);
                assert(task_views(tasks@) == task_views(before).push(task@));
                assert(task_views(tasks@) + records_of(rest@) == task_views(before) + records_of(
                    had,
                ));
                proof {
                    lemma_longer_list(task_views(before), task@, entries@, done);
                    assert(task_views(tasks@).last() == task@);
                }
            },
            None => {},
        }
        proof {
            done = done + 1;
        }
    }
    assert(task_views(tasks@) + records_of(rest@) == task_views(tasks@));
    tasks
}

proof fn lemma_longer_list(
    listed: Seq<ReplayTaskView>,
    task: ReplayTaskView,
    entries: Seq<HistoryEntry>,
    done: int,
)
    requires
        forall|i: int| 0 <= i < done ==> is_listed_as_noted(listed, #[trigger] entries[i]),
    ensures
        forall|i: int|
            0 <= i < done ==> is_listed_as_noted(listed.push(task), #[trigger] entries[i]),
{
    assert forall|t: ReplayTaskView| #[trigger] listed.contains(t) implies listed.push(
        task,
    ).contains(t) by {
        let k = choose|k: int| 0 <= k < listed.len() && listed[k] == t;
        assert(listed.push(task)[k] == t);
    }
}

/// The names along a path, from its root.
pub open spec fn path_view(path: Seq<Vec<u8>>) -> Seq<Seq<u8>> {
    path.map_values(|name: Vec<u8>| name@)
}

/// Whether a path lies directly below a directory.
pub open spec fn is_child(directory: Seq<Seq<u8>>, path: Seq<Seq<u8>>) -> bool {
    path.len() > 0 && path.drop_last() == directory
}

/// Whether a directory may be deleted: one that lies directly below the history and
/// holds a recording.
pub open spec fn may_be_deleted(
    history: Seq<Seq<u8>>,
    path: Seq<Seq<u8>>,
    has_recording: bool,
) -> bool {
    is_child(history, path) && has_recording
}

fn same_name(a: &Vec<u8>, b: &Vec<u8>) -> (r: bool)
    ensures
        r == (a@ == b@),
{
    if a.len() != b.len() {
        return false;
    }
    let mut i: usize = 0;
    while i < a.len()
        invariant
            i <= a@.len(),
            a@.len() == b@.len(),
            forall|j: int| 0 <= j < i ==> a@[j] == b@[j],
        decreases a.len() - i,
    {
        if a[i] != b[i] {
            return false;
        }
        i = i + 1;
    }
    assert(a@ == b@);
    true
}

fn is_direct_child(directory: &Vec<Vec<u8>>, path: &Vec<Vec<u8>>) -> (r: bool)
    ensures
        r == is_child(path_view(directory@), path_view(path@)),
{
    let ghost d = path_view(directory@);
    let ghost p = path_view(path@);
    if path.len() == 0 || path.len() - 1 != directory.len() {
        assert(p.len() > 0 ==> p.drop_last().len() != d.len());
        return false;
    }
    let mut i: usize = 0;
    while i < directory.len()
        invariant
            i <= directory@.len(),
            directory@.len() == path@.len() - 1,
            d == path_view(directory@),
            p == path_view(path@),
            forall|j: int| 0 <= j < i ==> d[j] == p[j],
        decreases directory.len() - i,
    {
        assert(d[i as int] == directory@[i as int]@ && p[i as int] == path@[i as int]@);
        if !same_name(&directory[i], &path[i]) {
            assert(p.drop_last()[i as int] != d[i as int]);
            return false;
        }
        i = i + 1;
    }
    assert(p.drop_last() == d);
    true
}

/// Allows a record to be deleted, if its directory lies directly below the history and
/// holds a recording. Both paths are given by their names, after links were resolved.
pub fn check_replay_deletion(
    history_dir: &Vec<Vec<u8>>,
    task_dir: &Vec<Vec<u8>>,
    has_recording: bool,
) -> (r: Result<(), String>)
    ensures
        r is Ok <==> may_be_deleted(path_view(history_dir@), path_view(task_dir@), has_recording),
        r matches Err(message) ==> message@ == "拒绝删除：所选目录不是有效的任务记录"@,
{
    if is_direct_child(history_dir, task_dir) && has_recording {
        Ok(())
    } else {
        Err("拒绝删除：所选目录不是有效的任务记录".to_owned())
    }
}

pub open spec fn is_safe(c: char) -> bool {
    'a' <= c <= 'z' || 'A' <= c <= 'Z' || '0' <= c <= '9' || c == '-' || c == '_'
}

pub open spec fn safe_char(c: char) -> char {
    if is_safe(c) {
        c
    } else {
        '_'
    }
}

/// How many characters of a task's name its directory keeps.
pub const SAFE_ID_LIMIT: usize = 80;

/// A task's name as a part of a directory's name.
pub open spec fn safe_id(task_id: Seq<char>) -> Seq<char> {
    clipped(task_id, SAFE_ID_LIMIT as nat).map_values(|c: char| safe_char(c))
}

/// The directory's name: the time of the start and the task's name.
pub open spec fn record_name(now_millis: u64, task_id: Seq<char>) -> Seq<char> {
    decimal(now_millis as nat) + "-"@ + safe_id(task_id)
}

/// Names the directory for the record of a task.
pub fn record_dir_name(now_millis: u64, task_id: &str) -> (r: String)
    ensures
        r@ == record_name(now_millis, task_id@),
{
    let v = chars_of(task_id);
    let ghost safe = safe_id(task_id@);
    let mut id = String::new();
    let mut i: usize = 0;
    while i < v.len() && i < SAFE_ID_LIMIT
        invariant
            i <= v.len(),
            i <= SAFE_ID_LIMIT,
            v@ == task_id@,
            safe == safe_id(task_id@),
            id@ == safe.take(i as int),
        decreases v.len() - i,
    {
        let c = v[i];
        assert(safe[i as int] == safe_char(c));
        if ('a' <= c && c <= 'z') || ('A' <= c && c <= 'Z') || ('0' <= c && c <= '9') || c == '-' || c
            == '_' {
            id.push(c);
        } else {
            id.push('_');
        }
        i = i + 1;
        assert(safe.take(i as int) == safe.take(i - 1).push(safe[i - 1]));
    }
    assert(safe.take(i as int) == safe);
    decimal_text(now_millis).concat("-").concat(id.as_str())
}

proof fn lemma_decimal_is_safe(n: nat)
    ensures
        forall|i: int| 0 <= i < decimal(n).len() ==> is_safe(#[trigger] decimal(n)[i]),
    decreases n,
{
    if n >= 10 {
        lemma_decimal_is_safe(n / 10);
        let head = decimal(n / 10);
        assert(decimal(n) == head.push(digit(n % 10)));
        assert forall|i: int| 0 <= i < decimal(n).len() implies is_safe(#[trigger] decimal(n)[i]) by {
            if i < head.len() {
                assert(decimal(n)[i] == head[i]);
            }
        }
    }
}

/// The directory of a record lies directly below the history whatever the task is
/// called: its name holds nothing but letters, digits, hyphens and underscores.
pub proof fn law_record_name_is_one_name(now_millis: u64, task_id: Seq<char>)
    ensures
        record_name(now_millis, task_id).len() > 0,
        safe_id(task_id).len() <= SAFE_ID_LIMIT,
        forall|i: int|
            0 <= i < record_name(now_millis, task_id).len() ==> is_safe(
                #[trigger] record_name(now_millis, task_id)[i],
            ),
{
    reveal_strlit("-");
    lemma_decimal_is_safe(now_millis as nat);
    assert forall|i: int| 0 <= i < safe_id(task_id).len() implies is_safe(
        #[trigger] safe_id(task_id)[i],
    ) by {}
    let name = record_name(now_millis, task_id);
    let head = decimal(now_millis as nat);
    assert forall|i: int| 0 <= i < name.len() implies is_safe(#[trigger] name[i]) by {
        if i < head.len() {
            assert(name[i] == head[i]);
        } else if i > head.len() {
            assert(name[i] == safe_id(task_id)[i - head.len() - 1]);
        }
    }
}

/// The history itself, what lies beside it and what lies deeper than one level below
/// it are never deleted.
pub proof fn law_only_children_are_deleted(directory: Seq<Seq<u8>>, path: Seq<Seq<u8>>)
    requires
        is_child(directory, path),
    ensures
        path.len() == directory.len() + 1,
        directory.is_prefix_of(path),
        path != directory,
{
}

/// What may be deleted is one name below the history, with a recording in it, and
/// nothing else: not the history itself, not what lies deeper, not what lies elsewhere.
pub proof fn law_records_may_be_deleted(
    history: Seq<Seq<u8>>,
    name: Seq<u8>,
    path: Seq<Seq<u8>>,
    has_recording: bool,
)
    ensures
        may_be_deleted(history, history.push(name), true),
        !may_be_deleted(history, path, false),
        !may_be_deleted(history, history, has_recording),
        may_be_deleted(history, path, has_recording) ==> path.len() > 0 && path == history.push(
            path.last(),
        ),
{
    assert(history.push(name).drop_last() == history);
    if is_child(history, path) {
        assert(path == path.drop_last().push(path.last()));
    }
}

/// At most fifty directories are looked at, none twice, those that were changed last
/// first, and none is left out that was changed later than one of them.
pub proof fn law_newest_records_come_first(
    modified: Seq<i128>,
    order: Seq<usize>,
    a: int,
    b: int,
    left: usize,
)
    requires
        is_newest_first(modified, order, HISTORY_LIMIT as nat),
    ensures
        order.len() <= 50,
        modified.len() <= 50 ==> order.len() == modified.len(),
        modified.len() > 50 ==> order.len() == 50,
        0 <= a < b < order.len() ==> {
            &&& order[a] != order[b]
            &&& modified[order[a] as int] >= modified[order[b] as int]
            &&& modified[order[a] as int] == modified[order[b] as int] ==> order[a] < order[b]
        },
        0 <= a < order.len() && left < modified.len() && !order.contains(left)
            ==> modified[order[a] as int] >= modified[left as int],
{
    if 0 <= a < b < order.len() {
        assert(comes_first(modified, order[a] as int, order[b] as int));
    }
    if 0 <= a < order.len() && left < modified.len() && !order.contains(left) {
        assert(comes_first(modified, order[a] as int, left as int));
    }
}

/// What is noted down about a task is found under these names.
pub proof fn law_notes_have_names(
    task_id: Seq<char>,
    goal_text: Option<Seq<char>>,
    status: Seq<char>,
    updated_at: Seq<char>,
)
    ensures
        ({
            let notes = notes_of(task_id, goal_text, status, updated_at);
            &&& notes.get("task_id"@) == Some(JsonView::Text(task_id))
            &&& notes.get("status"@) == Some(JsonView::Text(status))
            &&& goal_text matches Some(goal) ==> notes.get("goal_text"@) == Some(
                JsonView::Text(goal),
            )
            &&& goal_text is None ==> notes.get("goal_text"@) == Some(JsonView::Null)
            &&& notes.get("updated_at"@) matches Some(JsonView::Number(n)) && n.written
                == updated_at
        }),
{
    let notes = notes_of(task_id, goal_text, status, updated_at);
    let entries = notes->Object_0;
    lemma_note_names_differ();
    reveal_with_fuel(member, 5);
    let three = entries.drop_last();
    let two = three.drop_last();
    assert(entries.last() == entries[3]);
    assert(three.last() == entries[2]);
    assert(two.last() == entries[1]);
    assert(two.drop_last().last() == entries[0]);
}

/// The record of a directory with a recording: the task's identifier is the text
/// `task_id` of its notes, or the directory's name, or `task`; its state the text
/// `status`, or `recorded`; its goal the text `goal_text`. The recording and the
/// directory are those of the entry. A directory without a recording has no record.
pub proof fn law_records_are_read(entry: HistoryEntry, notes: JsonView)
    ensures
        !entry.has_recording ==> record_of(entry, notes) is None,
        entry.has_recording ==> (record_of(entry, notes) matches Some(task) && {
            &&& notes.get("task_id"@) matches Some(JsonView::Text(id)) ==> task.task_id == id
            &&& !(notes.get("task_id"@) matches Some(JsonView::Text(_))) ==> {
                &&& entry.dir_name matches Some(name) ==> task.task_id == name@
                &&& entry.dir_name is None ==> task.task_id == "task"@
            }
            &&& notes.get("goal_text"@) matches Some(JsonView::Text(goal)) ==> task.goal_text
                == Some(goal)
            &&& !(notes.get("goal_text"@) matches Some(JsonView::Text(_)))
                ==> task.goal_text is None
            &&& notes.get("status"@) matches Some(JsonView::Text(status)) ==> task.status == status
            &&& !(notes.get("status"@) matches Some(JsonView::Text(_))) ==> task.status
                == "recorded"@
            &&& task.has_rerun_recording
            &&& task.recording_source == entry.recording_source@
            &&& task.task_dir == entry.task_dir
        }),
        entry.metadata matches Some(text) ==> {
            &&& json_parse(text@) matches Ok(document) ==> record_at(entry) == record_of(
                entry,
                document,
            )
            &&& json_parse(text@) is Err ==> record_at(entry) == record_of(entry, JsonView::Null)
        },
        entry.metadata is None ==> record_at(entry) == record_of(entry, JsonView::Null),
{
}

/// The records of some directories are those of the first ones and then those of the
/// others: none is lost, and the order stays.
pub proof fn law_records_stay_in_order(
    entry: HistoryEntry,
    a: Seq<HistoryEntry>,
    b: Seq<HistoryEntry>,
)
    ensures
        records_of(a + b) == records_of(a) + records_of(b),
        record_at(entry) matches Some(task) ==> records_of(seq![entry]) == seq![task],
        record_at(entry) is None ==> records_of(seq![entry]).len() == 0,
    decreases a.len(),
{
    assert(seq![entry].drop_first() == Seq::<HistoryEntry>::empty());
    assert(records_of(seq![entry].drop_first()) == Seq::<ReplayTaskView>::empty());
    if a.len() == 0 {
        assert(a + b == b);
        assert(records_of(a) + records_of(b) == records_of(b));
    } else {
        law_records_stay_in_order(entry, a.drop_first(), b);
        assert((a + b).drop_first() == a.drop_first() + b);
        assert((a + b)[0] == a[0]);
        let rest = records_of(a.drop_first());
        match record_at(a[0]) {
            Some(task) => {
                assert(seq![task] + (rest + records_of(b)) == seq![task] + rest + records_of(b));
            },
            None => {},
        }
    }
}

/// The name of a record's directory is the time of its start in milliseconds, a hyphen,
/// and the first eighty characters of the task's name. Of these, letters, digits,
/// hyphens and underscores stand as they are, and all others as underscores.
pub proof fn law_record_names(now_millis: u64, task_id: Seq<char>, i: int)
    ensures
        ({
            let name = record_name(now_millis, task_id);
            let time = decimal(now_millis as nat);
            let kept = if task_id.len() < 80 {
                task_id.len() as int
            } else {
                80
            };
            &&& name.len() == time.len() + 1 + kept
            &&& name.take(time.len() as int) == time
            &&& name[time.len() as int] == '-'
            &&& 0 <= i < kept ==> name[time.len() + 1 + i] == if 'a' <= task_id[i] <= 'z' || 'A'
                <= task_id[i] <= 'Z' || '0' <= task_id[i] <= '9' || task_id[i] == '-' || task_id[i]
                == '_' {
                task_id[i]
            } else {
                '_'
            }
        }),
{
    reveal_strlit("-");
    law_clipped(task_id, 80);
    let name = record_name(now_millis, task_id);
    let time = decimal(now_millis as nat);
    assert(name.take(time.len() as int) == time);
    assert(name[time.len() as int] == "-"@[0]);
    let safe = safe_id(task_id);
    assert(safe.len() == clipped(task_id, 80).len());
    if 0 <= i < safe.len() {
        assert(name[time.len() + 1 + i] == safe[i]);
        assert(clipped(task_id, 80)[i] == task_id[i]);
    }
}

} // verus!
