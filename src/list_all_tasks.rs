use vstd::prelude::*;
use crate::ids::uuid_accepts;
use crate::repository::{tasks_of, RepositoryError, TaskRepository};
use crate::task::Task;

verus! {

/// The tasks of one user.
pub struct ListAllTasksResponse {
    pub tasks: Vec<Task>,
}

impl ListAllTasksResponse {
    pub fn new(tasks: Vec<Task>) -> (r: Self)
        ensures
            r.tasks == tasks,
    {
        ListAllTasksResponse { tasks }
    }
}

/// A request for the tasks of `user_id`.
pub struct ListAllTasksRequest {
    pub user_id: String,
}

impl ListAllTasksRequest {
    pub fn new(user_id: String) -> (r: Self)
        ensures
            r.user_id@ == user_id@,
    {
        ListAllTasksRequest { user_id }
    }
}

/// Lists a user's tasks from the task store.
pub struct ListAllTasksUseCase<R: TaskRepository> {
    pub task_repository: R,
}

impl<R: TaskRepository> ListAllTasksUseCase<R> {
    pub fn new(task_repository: R) -> (r: Self)
        ensures
            r.task_repository == task_repository,
    {
        ListAllTasksUseCase { task_repository }
    }

    /// Every task that the user owns, in store order.
    pub fn execute(&self, request: ListAllTasksRequest) -> (r: Result<
        ListAllTasksResponse,
        RepositoryError,
    >)
        requires
            self.task_repository.wf(),
        ensures
            (r matches Err(e) && e == RepositoryError::Validation) <==> !uuid_accepts(
                request.user_id@,
            ),
            r matches Err(e) ==> e == RepositoryError::Validation || e
                == RepositoryError::Persistence,
            r matches Ok(resp) ==> resp.tasks@.map_values(|t: Task| t@) == tasks_of(
                self.task_repository.tasks(),
                request.user_id@,
            ),
    {
        match self.task_repository.list_all(request.user_id) {
            Ok(tasks) => Ok(ListAllTasksResponse::new(tasks)),
            Err(e) => Err(e),
        }
    }
}

} // verus!
