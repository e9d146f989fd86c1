//! The states of a navigation task, by the words that the robot uses for them.

use vstd::prelude::*;

use crate::text::{ascii_lower, ascii_lower_text, same_text};

verus! {

/// The words for a task that is under way.
pub open spec fn active_word(s: Seq<char>) -> bool {
    ||| s == "accepted"@
    ||| s == "queued"@
    ||| s == "running"@
    ||| s == "planning"@
    ||| s == "navigating"@
    ||| s == "executing"@
    ||| s == "processing"@
    ||| s == "busy"@
}

/// The words for a task that has come to its end.
pub open spec fn terminal_word(s: Seq<char>) -> bool {
    ||| s == "succeeded"@
    ||| s == "success"@
    ||| s == "completed"@
    ||| s == "failed"@
    ||| s == "cancelled"@
    ||| s == "canceled"@
    ||| s == "stopped"@
    ||| s == "aborted"@
}

pub fn is_active_word(s: &str) -> (r: bool)
    ensures
        r == active_word(s@),
{
    same_text(s, "accepted") || same_text(s, "queued") || same_text(s, "running") || same_text(
        s,
        "planning",
    ) || same_text(s, "navigating") || same_text(s, "executing") || same_text(s, "processing")
        || same_text(s, "busy")
}

pub fn is_terminal_word(s: &str) -> (r: bool)
    ensures
        r == terminal_word(s@),
{
    same_text(s, "succeeded") || same_text(s, "success") || same_text(s, "completed") || same_text(
        s,
        "failed",
    ) || same_text(s, "cancelled") || same_text(s, "canceled") || same_text(s, "stopped")
        || same_text(s, "aborted")
}

/// Whether a status, in any ASCII case, is that of a task under way.
pub open spec fn counts_as_active(status: Seq<char>) -> bool {
    active_word(ascii_lower(status))
}

/// Whether a status, in any ASCII case, is that of a task under way.
pub fn is_active_task_status(status: &str) -> (r: bool)
    ensures
        r == counts_as_active(status@),
{
    let lower = ascii_lower_text(status);
    is_active_word(lower.as_str())
}

/// What the panel shows for a status.
pub open spec fn status_label(status: Seq<char>) -> Seq<char> {
    let word = ascii_lower(status);
    if active_word(word) {
        "执行中"@
    } else if word == "completed"@ || word == "success"@ || word == "succeeded"@ {
        "已完成"@
    } else if word == "failed"@ || word == "error"@ || word == "aborted"@ {
        "异常"@
    } else if word == "cancelled"@ || word == "canceled"@ || word == "stopped"@ {
        "已停止"@
    } else {
        "待命"@
    }
}

pub fn task_status_label(status: &str) -> (r: &'static str)
    ensures
        r@ == status_label(status@),
{
    if is_active_task_status(status) {
        return "执行中";
    }
    let lower = ascii_lower_text(status);
    let word = lower.as_str();
    if same_text(word, "completed") || same_text(word, "success") || same_text(word, "succeeded") {
        "已完成"
    } else if same_text(word, "failed") || same_text(word, "error") || same_text(word, "aborted") {
        "异常"
    } else if same_text(word, "cancelled") || same_text(word, "canceled") || same_text(
        word,
        "stopped",
    ) {
        "已停止"
    } else {
        "待命"
    }
}

/// Whether the stop button can be pressed.
pub open spec fn stop_is_offered(
    control_online: bool,
    navigation_running: bool,
    stop_pending: bool,
) -> bool {
    control_online && navigation_running && !stop_pending
}

/// Whether the stop button can be pressed: with the robot's control service reachable,
/// a navigation under way and no stop request on its way.
pub fn can_stop_navigation(
    control_online: bool,
    navigation_running: bool,
    stop_pending: bool,
) -> (r: bool)
    ensures
        r == stop_is_offered(control_online, navigation_running, stop_pending),
{
    control_online && navigation_running && !stop_pending
}

/// No word stands both for a task under way and for one at its end.
pub proof fn law_terminal_is_not_active(s: Seq<char>)
    requires
        terminal_word(s),
    ensures
        !active_word(s),
{
    reveal_strlit("accepted");
    reveal_strlit("queued");
    reveal_strlit("running");
    reveal_strlit("planning");
    reveal_strlit("navigating");
    reveal_strlit("executing");
    reveal_strlit("processing");
    reveal_strlit("busy");
    reveal_strlit("succeeded");
    reveal_strlit("success");
    reveal_strlit("completed");
    reveal_strlit("failed");
    reveal_strlit("cancelled");
    reveal_strlit("canceled");
    reveal_strlit("stopped");
    reveal_strlit("aborted");
    let c = s[0];
    if active_word(s) {
        assert(c == 'a' || c == 'q' || c == 'r' || c == 'p' || c == 'n' || c == 'e' || c == 'b');
        assert(c == 'a');
        assert(s[1] == 'c' && s[1] == 'b');
    }
}

/// The words for a task under way are these eight, and no others.
pub proof fn law_active_words(s: Seq<char>)
    ensures
        active_word(s) <==> seq![
            "accepted"@,
            "queued"@,
            "running"@,
            "planning"@,
            "navigating"@,
            "executing"@,
            "processing"@,
            "busy"@,
        ].contains(s),
{
    let words = seq![
        "accepted"@,
        "queued"@,
        "running"@,
        "planning"@,
        "navigating"@,
        "executing"@,
        "processing"@,
        "busy"@,
    ];
    if active_word(s) {
        assert(words[0] == s || words[1] == s || words[2] == s || words[3] == s || words[4] == s
            || words[5] == s || words[6] == s || words[7] == s);
    }
}

/// The words for a task at its end are these eight, and no others.
pub proof fn law_terminal_words(s: Seq<char>)
    ensures
        terminal_word(s) <==> seq![
            "succeeded"@,
            "success"@,
            "completed"@,
            "failed"@,
            "cancelled"@,
            "canceled"@,
            "stopped"@,
            "aborted"@,
        ].contains(s),
{
    let words = seq![
        "succeeded"@,
        "success"@,
        "completed"@,
        "failed"@,
        "cancelled"@,
        "canceled"@,
        "stopped"@,
        "aborted"@,
    ];
    if terminal_word(s) {
        assert(words[0] == s || words[1] == s || words[2] == s || words[3] == s || words[4] == s
            || words[5] == s || words[6] == s || words[7] == s);
    }
}

proof fn lemma_labels_differ()
    ensures
        "执行中"@ != "已完成"@,
        "执行中"@ != "异常"@,
        "执行中"@ != "已停止"@,
        "执行中"@ != "待命"@,
        "已完成"@ != "异常"@,
        "已完成"@ != "已停止"@,
        "已完成"@ != "待命"@,
        "异常"@ != "已停止"@,
        "异常"@ != "待命"@,
        "已停止"@ != "待命"@,
{
    reveal_strlit("执行中");
    reveal_strlit("已完成");
    reveal_strlit("异常");
    reveal_strlit("已停止");
    reveal_strlit("待命");
    assert("执行中"@[0] != "已完成"@[0]);
    assert("执行中"@[0] != "已停止"@[0]);
    assert("已完成"@[1] != "已停止"@[1]);
    assert("异常"@[0] != "待命"@[0]);
    assert("执行中"@.len() == 3 && "已完成"@.len() == 3 && "已停止"@.len() == 3);
    assert("异常"@.len() == 2 && "待命"@.len() == 2);
}

/// Each label stands for its words, in any ASCII case, and only for them. A task that the
/// panel calls completed or stopped is at its end, and one that it calls under way is not.
pub proof fn law_labels_tell_the_state(status: Seq<char>)
    ensures
        ({
            let word = ascii_lower(status);
            let label = status_label(status);
            &&& label == "执行中"@ <==> active_word(word)
            &&& label == "已完成"@ <==> (word == "completed"@ || word == "success"@ || word
                == "succeeded"@)
            &&& label == "异常"@ <==> (word == "failed"@ || word == "error"@ || word
                == "aborted"@)
            &&& label == "已停止"@ <==> (word == "cancelled"@ || word == "canceled"@ || word
                == "stopped"@)
            &&& label == "待命"@ <==> !(active_word(word) || terminal_word(word) || word
                == "error"@)
            &&& label == "已完成"@ || label == "已停止"@ ==> terminal_word(word)
            &&& label == "执行中"@ ==> !terminal_word(word)
        }),
{
    let word = ascii_lower(status);
    lemma_labels_differ();
    if terminal_word(word) {
        law_terminal_is_not_active(word);
    }
    reveal_strlit("error");
    reveal_strlit("accepted");
    reveal_strlit("queued");
    reveal_strlit("running");
    reveal_strlit("planning");
    reveal_strlit("navigating");
    reveal_strlit("executing");
    reveal_strlit("processing");
    reveal_strlit("busy");
    reveal_strlit("succeeded");
    reveal_strlit("success");
    reveal_strlit("completed");
    reveal_strlit("failed");
    reveal_strlit("cancelled");
    reveal_strlit("canceled");
    reveal_strlit("stopped");
    reveal_strlit("aborted");
    assert("error"@.len() == 5);
    assert("failed"@[0] == 'f' && "aborted"@[0] == 'a' && "completed"@[1] == 'o');
    assert("success"@[0] == 's' && "succeeded"@[0] == 's' && "stopped"@[0] == 's');
    assert("cancelled"@[1] == 'a' && "canceled"@[1] == 'a');
    assert("success"@[1] == 'u' && "succeeded"@[1] == 'u' && "stopped"@[1] == 't');
    assert("error"@[0] == 'e');
    assert("completed"@[0] == 'c' && "cancelled"@[0] == 'c' && "canceled"@[0] == 'c');
}

/// The stop button can be pressed in one of the eight situations only.
pub proof fn law_when_a_stop_is_offered()
    ensures
        stop_is_offered(true, true, false),
        forall|online: bool, running: bool, pending: bool| #[trigger]
            stop_is_offered(online, running, pending) ==> online && running && !pending,
{
}

/// A status counts as that of a task under way exactly where the panel labels it so, and
/// its letters' case does not matter.
pub proof fn law_what_counts_as_active(status: Seq<char>, other: Seq<char>)
    ensures
        counts_as_active(status) <==> status_label(status) == "执行中"@,
        ascii_lower(status) == ascii_lower(other) ==> counts_as_active(status)
            == counts_as_active(other),
{
    law_labels_tell_the_state(status);
}

} // verus!
