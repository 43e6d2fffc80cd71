use vstd::prelude::*;
use crate::text::same_text;

verus! {

/// Progress of a task: `ToStart -> Started -> Completed`.
#[derive(Clone, Copy, Debug, PartialEq, Eq, Structural)]
pub enum TaskStatus {
    ToStart,
    Started,
    Completed,
}

/// The status one step further along, saturating at `Completed`.
pub open spec fn advanced(s: TaskStatus) -> TaskStatus {
    match s {
        TaskStatus::ToStart => TaskStatus::Started,
        TaskStatus::Started => TaskStatus::Completed,
        TaskStatus::Completed => TaskStatus::Completed,
    }
}

/// The status one step back, saturating at `ToStart`.
pub open spec fn retreated(s: TaskStatus) -> TaskStatus {
    match s {
        TaskStatus::ToStart => TaskStatus::ToStart,
        TaskStatus::Started => TaskStatus::ToStart,
        TaskStatus::Completed => TaskStatus::Started,
    }
}

/// The status after applying `action`: `"next"` advances, `"previous"` goes
/// back, any other text leaves the status as it is.
pub open spec fn status_after(s: TaskStatus, action: Seq<char>) -> TaskStatus {
    if action == "next"@ {
        advanced(s)
    } else if action == "previous"@ {
        retreated(s)
    } else {
        s
    }
}

/// Applies `action` to `current`. Defined for every status and every text:
/// unrecognised actions and moves past either end leave the status unchanged.
pub fn transition(current: TaskStatus, action: &str) -> (r: TaskStatus)
    ensures
        r == status_after(current, action@),
{
    if same_text(action, "next") {
        match current {
            TaskStatus::ToStart => TaskStatus::Started,
            TaskStatus::Started => TaskStatus::Completed,
            TaskStatus::Completed => TaskStatus::Completed,
        }
    } else if same_text(action, "previous") {
        match current {
            TaskStatus::ToStart => TaskStatus::ToStart,
            TaskStatus::Started => TaskStatus::ToStart,
            TaskStatus::Completed => TaskStatus::Started,
        }
    } else {
        current
    }
}

/// A transition leaves the status unchanged exactly at the two ends
/// (`"next"` from `Completed`, `"previous"` from `ToStart`) and for any other
/// action text.
pub proof fn lemma_no_op_transitions(s: TaskStatus, action: Seq<char>)
    ensures
        (status_after(s, action) == s) <==> ((action == "next"@ && s == TaskStatus::Completed)
            || (action == "previous"@ && s == TaskStatus::ToStart) || (action != "next"@
            && action != "previous"@)),
{
    reveal_strlit("next");
    reveal_strlit("previous");
    assert("next"@.len() != "previous"@.len());
}

} // verus!
