use task_tracker::status::{transition, TaskStatus};

#[test]
fn completed_next_stays_completed() {
    assert_eq!(transition(TaskStatus::Completed, "next"), TaskStatus::Completed);
}

#[test]
fn to_start_previous_stays_to_start() {
    assert_eq!(transition(TaskStatus::ToStart, "previous"), TaskStatus::ToStart);
}

#[test]
fn two_nexts_from_to_start_reach_completed() {
    let once = transition(TaskStatus::ToStart, "next");
    assert_eq!(once, TaskStatus::Started);
    assert_eq!(transition(once, "next"), TaskStatus::Completed);
}

#[test]
fn two_previous_from_completed_reach_to_start() {
    let once = transition(TaskStatus::Completed, "previous");
    assert_eq!(once, TaskStatus::Started);
    assert_eq!(transition(once, "previous"), TaskStatus::ToStart);
}

#[test]
fn every_state_and_action_gives_a_state() {
    let states = [TaskStatus::ToStart, TaskStatus::Started, TaskStatus::Completed];
    let actions = ["next", "previous", "", "NEXT", "prev", "next ", "anything"];
    for s in states {
        for a in actions {
            let r = transition(s, a);
            let expected = match (s, a) {
                (TaskStatus::ToStart, "next") => TaskStatus::Started,
                (TaskStatus::Started, "next") => TaskStatus::Completed,
                (TaskStatus::Started, "previous") => TaskStatus::ToStart,
                (TaskStatus::Completed, "previous") => TaskStatus::Started,
                _ => s,
            };
            assert_eq!(r, expected);
        }
    }
}

#[test]
fn unknown_action_is_a_no_op() {
    assert_eq!(transition(TaskStatus::Started, "skip"), TaskStatus::Started);
    assert_eq!(transition(TaskStatus::Started, "Next"), TaskStatus::Started);
}
