use vstd::prelude::*;
use crate::datetime::UtcDateTime;
use crate::ids::uuid_accepts;
use crate::repository::{
    lemma_save_keeps_rows_valid, rows_valid, stored_row, RepositoryError, TaskRepository,
};
use crate::status::TaskStatus;
use crate::task::{Task, TaskView};

verus! {

/// A request to create a task for `user_id`, scheduled at `task_date`.
pub struct SaveTaskRequest {
    pub user_id: String,
    pub task_date: UtcDateTime,
    pub content: String,
}

impl SaveTaskRequest {
    pub fn new(user_id: String, content: String, task_date: UtcDateTime) -> (r: Self)
        ensures
            r.user_id@ == user_id@,
            r.content@ == content@,
            r.task_date == task_date,
    {
        SaveTaskRequest { user_id, content, task_date }
    }
}

/// Creates a user's task, with status `ToStart`, and saves it.
pub struct SaveTaskUseCase<R: TaskRepository> {
    pub task_repository: R,
}

impl<R: TaskRepository> SaveTaskUseCase<R> {
    pub fn new(task_repository: R) -> (r: Self)
        ensures
            r.task_repository == task_repository,
    {
        SaveTaskUseCase { task_repository }
    }

    /// Saves a new task created now and returns the identifier the store gave it.
    pub fn execute(&mut self, request: SaveTaskRequest) -> (r: Result<String, RepositoryError>)
        requires
            old(self).task_repository.wf(),
            request.task_date.wf(),
        ensures
            final(self).task_repository.wf(),
            final(self).task_repository.user_ids() == old(self).task_repository.user_ids(),
            final(self).task_repository.status_update_calls() == old(
                self,
            ).task_repository.status_update_calls(),
            (r == Err::<String, RepositoryError>(RepositoryError::Validation)) <==> !uuid_accepts(
                request.user_id@,
            ),
            (r == Err::<String, RepositoryError>(RepositoryError::NotFound)) <==> (uuid_accepts(
                request.user_id@,
            ) && !old(self).task_repository.user_ids().contains(request.user_id@)),
            r is Ok ==> exists|created_at: UtcDateTime|
                {
                    &&& created_at.wf()
                    &&& final(self).task_repository.tasks() == old(
                        self,
                    ).task_repository.tasks().push(
                        stored_row(
                            TaskView {
                                id: None,
                                user_id: request.user_id@,
                                content: request.content@,
                                status: TaskStatus::ToStart,
                                task_date: request.task_date,
                                created_at,
                            },
                            r->Ok_0@,
                        ),
                    )
                },
            r is Err ==> final(self).task_repository.tasks() == old(self).task_repository.tasks(),
            rows_valid(old(self).task_repository.tasks()) ==> rows_valid(
                final(self).task_repository.tasks(),
            ),
    {
        let task = Task::new(request.user_id, request.content, request.task_date);
        let ghost task_view = task@;
        let r = self.task_repository.save(task);
        proof {
            if r is Ok && rows_valid(old(self).task_repository.tasks()) {
                lemma_save_keeps_rows_valid(
                    old(self).task_repository.tasks(),
                    task_view,
                    r->Ok_0@,
                );
            }
        }
        r
    }
}

} // verus!
