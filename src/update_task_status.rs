use vstd::prelude::*;
use crate::ids::uuid_accepts;
use crate::repository::{
    has_owned, lemma_foreign_task_not_owned, lemma_with_status_valid, owns, rows_valid,
    with_status, RepositoryError, TaskRepository,
};
use crate::status::{status_after, transition, TaskStatus};
use crate::text::same_text;
use crate::task::{Task, TaskView};

verus! {

/// A request to move task `task_id` of user `user_id` by `action`
/// (`"next"` or `"previous"`).
pub struct UpdateTaskStatusRequest {
    pub user_id: String,
    pub task_id: String,
    pub action: String,
}

impl UpdateTaskStatusRequest {
    pub fn new(user_id: String, task_id: String, action: String) -> (r: Self)
        ensures
            r.user_id@ == user_id@,
            r.task_id@ == task_id@,
            r.action@ == action@,
    {
        UpdateTaskStatusRequest { user_id, action, task_id }
    }
}

/// Why a status update did not happen.
#[derive(Clone, Copy, Debug, PartialEq, Eq, Structural)]
pub enum UpdateTaskStatusError {
    /// No such task, or it belongs to another user: the two are not told apart.
    TaskNotFound,
    /// An identifier is not a UUID.
    InvalidIdentifier,
    /// The store failed; the task is unchanged.
    PersistenceFailed,
}

pub open spec fn update_error_of(e: RepositoryError) -> UpdateTaskStatusError {
    match e {
        RepositoryError::Validation => UpdateTaskStatusError::InvalidIdentifier,
        RepositoryError::NotFound => UpdateTaskStatusError::TaskNotFound,
        RepositoryError::Persistence => UpdateTaskStatusError::PersistenceFailed,
    }
}

fn update_error_from(e: RepositoryError) -> (r: UpdateTaskStatusError)
    ensures
        r == update_error_of(e),
{
    match e {
        RepositoryError::Validation => UpdateTaskStatusError::InvalidIdentifier,
        RepositoryError::NotFound => UpdateTaskStatusError::TaskNotFound,
        RepositoryError::Persistence => UpdateTaskStatusError::PersistenceFailed,
    }
}

/// The status that the saved task `task_id` holds in `rows`.
pub open spec fn current_status(rows: Seq<TaskView>, task_id: Seq<char>) -> TaskStatus {
    rows[choose|i: int| 0 <= i < rows.len() && rows[i].id == Some(task_id)].status
}

/// The answer that a status update owes when the store does not fail.
pub open spec fn update_outcome(
    rows: Seq<TaskView>,
    user_id: Seq<char>,
    task_id: Seq<char>,
) -> Result<(), UpdateTaskStatusError> {
    if !uuid_accepts(task_id) {
        Err(UpdateTaskStatusError::InvalidIdentifier)
    } else if !has_owned(rows, task_id, user_id) {
        Err(UpdateTaskStatusError::TaskNotFound)
    } else {
        Ok(())
    }
}

/// What the status-update step decides for the task that the store found:
/// not found when there is none or another user owns it, nothing to write
/// when the action leaves the status as it is, and the new status otherwise.
pub open spec fn step_result(
    found: Option<TaskView>,
    user_id: Seq<char>,
    action: Seq<char>,
) -> Result<Option<TaskStatus>, UpdateTaskStatusError> {
    match found {
        None => Err(UpdateTaskStatusError::TaskNotFound),
        Some(t) => if t.user_id != user_id {
            Err(UpdateTaskStatusError::TaskNotFound)
        } else if status_after(t.status, action) == t.status {
            Ok(None)
        } else {
            Ok(Some(status_after(t.status, action)))
        },
    }
}

pub open spec fn found_view(found: Option<Task>) -> Option<TaskView> {
    match found {
        Some(t) => Some(t@),
        None => None,
    }
}

/// Decides the status update for the task that the store found for the
/// request: `Ok(None)` means no write is due, `Ok(Some(s))` that `s` is to be
/// stored.
pub fn status_step(found: &Option<Task>, user_id: &str, action: &str) -> (r: Result<
    Option<TaskStatus>,
    UpdateTaskStatusError,
>)
    ensures
        r == step_result(found_view(*found), user_id@, action@),
{
    match found {
        None => Err(UpdateTaskStatusError::TaskNotFound),
        Some(t) => {
            if !same_text(t.user_id(), user_id) {
                return Err(UpdateTaskStatusError::TaskNotFound);
            }
            let current = *t.status();
            let next = transition(current, action);
            if next == current {
                Ok(None)
            } else {
                Ok(Some(next))
            }
        },
    }
}

/// In a valid store a row with a given identifier is the only one.
proof fn lemma_row_by_id(rows: Seq<TaskView>, t: TaskView, task_id: Seq<char>, j: int)
    requires
        rows_valid(rows),
        0 <= j < rows.len(),
        rows[j] == t,
        t.id == Some(task_id),
    ensures
        current_status(rows, task_id) == t.status,
        forall|k: int| 0 <= k < rows.len() && rows[k].id == Some(task_id) ==> k == j,
{
    let i = choose|i: int| 0 <= i < rows.len() && rows[i].id == Some(task_id);
    assert(0 <= i < rows.len() && rows[i].id == Some(task_id));
    assert forall|k: int| 0 <= k < rows.len() && rows[k].id == Some(task_id) implies k == j by {
        if k < j {
            assert(rows[k].id != rows[j].id);
        } else if j < k {
            assert(rows[j].id != rows[k].id);
        }
    }
}

/// After the status of an owned task is set, the task holds that status and
/// is still owned by the same user.
pub proof fn lemma_current_status_after_update(
    rows: Seq<TaskView>,
    task_id: Seq<char>,
    user_id: Seq<char>,
    status: TaskStatus,
    j: int,
)
    requires
        rows_valid(rows),
        0 <= j < rows.len(),
        owns(rows[j], task_id, user_id),
    ensures
        current_status(with_status(rows, task_id, user_id, status), task_id) == status,
        has_owned(with_status(rows, task_id, user_id, status), task_id, user_id),
{
    let n = with_status(rows, task_id, user_id, status);
    lemma_with_status_valid(rows, task_id, user_id, status);
    assert(n[j] == TaskView { status, ..rows[j] });
    lemma_row_by_id(n, n[j], task_id, j);
}

/// Two successful updates of an owned task, by `first` and then `second`,
/// leave it with `status_after(status_after(s, first), second)`: from
/// `ToStart`, `"next"` twice reaches `Completed`; from `Completed`,
/// `"previous"` twice reaches `ToStart`.
pub proof fn lemma_two_updates(
    rows: Seq<TaskView>,
    task_id: Seq<char>,
    user_id: Seq<char>,
    first: Seq<char>,
    second: Seq<char>,
)
    requires
        rows_valid(rows),
        has_owned(rows, task_id, user_id),
    ensures
        ({
            let s1 = status_after(current_status(rows, task_id), first);
            let rows1 = with_status(rows, task_id, user_id, s1);
            let s2 = status_after(current_status(rows1, task_id), second);
            let rows2 = with_status(rows1, task_id, user_id, s2);
            &&& rows_valid(rows2)
            &&& current_status(rows2, task_id) == status_after(
                status_after(current_status(rows, task_id), first),
                second,
            )
        }),
{
    let j = choose|j: int| 0 <= j < rows.len() && owns(rows[j], task_id, user_id);
    let s1 = status_after(current_status(rows, task_id), first);
    let rows1 = with_status(rows, task_id, user_id, s1);
    lemma_current_status_after_update(rows, task_id, user_id, s1, j);
    lemma_with_status_valid(rows, task_id, user_id, s1);
    assert(owns(rows1[j], task_id, user_id));
    let s2 = status_after(current_status(rows1, task_id), second);
    lemma_current_status_after_update(rows1, task_id, user_id, s2, j);
    lemma_with_status_valid(rows1, task_id, user_id, s2);
}

/// Applies an action to the status of a user's task through the task store.
pub struct UpdateTaskStatusUseCase<R: TaskRepository> {
    pub task_repository: R,
}

impl<R: TaskRepository> UpdateTaskStatusUseCase<R> {
    pub fn new(task_repository: R) -> (r: Self)
        ensures
            r.task_repository == task_repository,
    {
        UpdateTaskStatusUseCase { task_repository }
    }

    /// Finds the task, checks that the user owns it, and stores the status
    /// that the action leads to. A transition that changes nothing writes
    /// nothing: the store is left exactly as it was.
    pub fn execute(&mut self, request: UpdateTaskStatusRequest) -> (r: Result<
        (),
        UpdateTaskStatusError,
    >)
        requires
            old(self).task_repository.wf(),
            rows_valid(old(self).task_repository.tasks()),
        ensures
            ({
                let rows = old(self).task_repository.tasks();
                let uid = request.user_id@;
                let tid = request.task_id@;
                let held = current_status(rows, tid);
                let next = status_after(held, request.action@);
                &&& final(self).task_repository.wf()
                &&& rows_valid(final(self).task_repository.tasks())
                &&& final(self).task_repository.user_ids() == old(
                    self,
                ).task_repository.user_ids()
                &&& r != Err::<(), UpdateTaskStatusError>(
                    UpdateTaskStatusError::PersistenceFailed,
                ) ==> r == update_outcome(rows, uid, tid)
                &&& r is Ok ==> final(self).task_repository.tasks() == with_status(
                    rows,
                    tid,
                    uid,
                    next,
                )
                &&& r is Ok && next == held ==> final(self).task_repository == old(
                    self,
                ).task_repository
                &&& r is Ok && next != held ==> final(self).task_repository.status_update_calls()
                    == old(self).task_repository.status_update_calls() + 1
                &&& r is Ok ==> current_status(final(self).task_repository.tasks(), tid) == next
                &&& (next == held || !has_owned(rows, tid, uid)) ==> final(self).task_repository
                    == old(self).task_repository
                &&& final(self).task_repository.status_update_calls() <= old(
                    self,
                ).task_repository.status_update_calls() + 1
                &&& r is Err ==> final(self).task_repository.tasks() == rows
                &&& r is Err && r != Err::<(), UpdateTaskStatusError>(
                    UpdateTaskStatusError::PersistenceFailed,
                ) ==> final(self).task_repository == old(self).task_repository
            }),
    {
        let ghost rows = self.task_repository.tasks();
        let found = match self.task_repository.find_by_id(request.task_id.clone()) {
            Ok(found) => found,
            Err(e) => {
                return Err(update_error_from(e));
            },
        };
        let ghost tid = request.task_id@;
        let ghost uid = request.user_id@;
        let step = status_step(&found, request.user_id.as_str(), request.action.as_str());
        proof {
            if found is Some {
                let t = found->0;
                let j = choose|j: int| 0 <= j < rows.len() && rows[j] == t@;
                lemma_row_by_id(rows, t@, tid, j);
                if t@.user_id != uid {
                    lemma_foreign_task_not_owned(rows, tid, t@.user_id, uid, j);
                } else {
                    assert(owns(rows[j], tid, uid));
                    let next = status_after(t@.status, request.action@);
                    let n = with_status(rows, tid, uid, next);
                    if next == t@.status {
                        assert forall|k: int| 0 <= k < rows.len() implies n[k] == rows[k] by {
                            if owns(rows[k], tid, uid) {
                                assert(k == j);
                            }
                        }
                        assert(n =~= rows);
                    } else {
                        lemma_with_status_valid(rows, tid, uid, next);
                        lemma_current_status_after_update(rows, tid, uid, next, j);
                    }
                }
            } else {
                assert(!has_owned(rows, tid, uid));
            }
        }
        match step {
            Err(e) => Err(e),
            Ok(None) => Ok(()),
            Ok(Some(new_status)) => match self.task_repository.update_status(
                request.user_id,
                request.task_id,
                new_status,
            ) {
                Ok(()) => Ok(()),
                Err(e) => Err(update_error_from(e)),
            },
        }
    }
}

} // verus!
