use vstd::prelude::*;
use crate::datetime::{utc_now, UtcDateTime};
use crate::status::TaskStatus;

verus! {

/// A user's task: free text, a scheduled instant and a progress status.
/// `id` is absent until the task store has saved it.
pub struct Task {
    id: Option<String>,
    user_id: String,
    content: String,
    status: TaskStatus,
    task_date: UtcDateTime,
    created_at: UtcDateTime,
}

/// The value of a task, with texts as character sequences.
pub struct TaskView {
    pub id: Option<Seq<char>>,
    pub user_id: Seq<char>,
    pub content: Seq<char>,
    pub status: TaskStatus,
    pub task_date: UtcDateTime,
    pub created_at: UtcDateTime,
}

impl TaskView {
    /// Both instants are real.
    pub open spec fn wf(self) -> bool {
        self.task_date.wf() && self.created_at.wf()
    }
}

impl View for Task {
    type V = TaskView;

    closed spec fn view(&self) -> TaskView {
        TaskView {
            id: match self.id {
                Some(s) => Some(s@),
                None => None,
            },
            user_id: self.user_id@,
            content: self.content@,
            status: self.status,
            task_date: self.task_date,
            created_at: self.created_at,
        }
    }
}

impl Task {
    /// A task not yet saved, created at `created_at`, with status `ToStart`.
    pub fn new_created_at(
        user_id: String,
        content: String,
        task_date: UtcDateTime,
        created_at: UtcDateTime,
    ) -> (r: Task)
        requires
            task_date.wf(),
            created_at.wf(),
        ensures
            r@ == (TaskView {
                id: None,
                user_id: user_id@,
                content: content@,
                status: TaskStatus::ToStart,
                task_date,
                created_at,
            }),
    {
        Task { id: None, user_id, content, status: TaskStatus::ToStart, task_date, created_at }
    }

    /// A task not yet saved, created now, with status `ToStart`.
    pub fn new(user_id: String, content: String, task_date: UtcDateTime) -> (r: Task)
        requires
            task_date.wf(),
        ensures
            r@.id is None,
            r@.user_id == user_id@,
            r@.content == content@,
            r@.status == TaskStatus::ToStart,
            r@.task_date == task_date,
            r@.wf(),
    {
        let (now, _) = utc_now();
        Task::new_created_at(user_id, content, task_date, now)
    }

    /// A task as the store holds it, with every field given.
    pub fn new_with_id(
        id: String,
        user_id: String,
        content: String,
        status: TaskStatus,
        task_date: UtcDateTime,
        created_at: UtcDateTime,
    ) -> (r: Task)
        ensures
            r@ == (TaskView {
                id: Some(id@),
                user_id: user_id@,
                content: content@,
                status,
                task_date,
                created_at,
            }),
    {
        Task { id: Some(id), user_id, content, status, task_date, created_at }
    }

    pub fn id(&self) -> (r: Option<&String>)
        ensures
            r is Some == self@.id is Some,
            r is Some ==> r->0@ == self@.id->0,
    {
        self.id.as_ref()
    }

    pub fn user_id(&self) -> (r: &str)
        ensures
            r@ == self@.user_id,
    {
        self.user_id.as_str()
    }

    pub fn content(&self) -> (r: &str)
        ensures
            r@ == self@.content,
    {
        self.content.as_str()
    }

    pub fn status(&self) -> (r: &TaskStatus)
        ensures
            *r == self@.status,
    {
        &self.status
    }

    pub fn created_at(&self) -> (r: &UtcDateTime)
        ensures
            *r == self@.created_at,
    {
        &self.created_at
    }

    pub fn task_date(&self) -> (r: &UtcDateTime)
        ensures
            *r == self@.task_date,
    {
        &self.task_date
    }

    pub fn set_id(&mut self, id: String)
        ensures
            final(self)@ == (TaskView { id: Some(id@), ..old(self)@ }),
    {
        self.id = Some(id);
    }

    pub fn set_user_id(&mut self, user_id: String)
        ensures
            final(self)@ == (TaskView { user_id: user_id@, ..old(self)@ }),
    {
        self.user_id = user_id;
    }

    pub fn set_content(&mut self, content: String)
        ensures
            final(self)@ == (TaskView { content: content@, ..old(self)@ }),
    {
        self.content = content;
    }

    pub fn set_status(&mut self, status: TaskStatus)
        ensures
            final(self)@ == (TaskView { status, ..old(self)@ }),
    {
        self.status = status;
    }

    pub fn set_task_date(&mut self, task_date: UtcDateTime)
        ensures
            final(self)@ == (TaskView { task_date, ..old(self)@ }),
    {
        self.task_date = task_date;
    }
}

} // verus!
