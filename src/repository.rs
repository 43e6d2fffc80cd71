use vstd::prelude::*;
use crate::datetime::{
    decode, decoded, encode, encoded, lemma_decode_encode, stored_is_valid, truncated_to_millis,
    StoredDateTime,
};
use crate::ids::{is_uuid, new_uuid_text, uuid_accepts};
use crate::status::TaskStatus;
use crate::task::{Task, TaskView};

verus! {

/// Failures of the task store.
#[derive(Clone, Copy, Debug, PartialEq, Eq, Structural)]
pub enum RepositoryError {
    /// An identifier is not a UUID; found before any storage work.
    Validation,
    /// The task, or the owning user, does not exist.
    NotFound,
    /// The storage backend failed; nothing was written.
    Persistence,
}

/// The row that saving `t` under the identifier `id` leaves in the store:
/// the instants keep whole milliseconds only.
pub open spec fn stored_row(t: TaskView, id: Seq<char>) -> TaskView {
    TaskView {
        id: Some(id),
        task_date: truncated_to_millis(t.task_date),
        created_at: truncated_to_millis(t.created_at),
        ..t
    }
}

pub open spec fn has_id(rows: Seq<TaskView>, id: Seq<char>) -> bool {
    exists|i: int| 0 <= i < rows.len() && rows[i].id == Some(id)
}

/// The row is the task `task_id` and belongs to `user_id`.
pub open spec fn owns(row: TaskView, task_id: Seq<char>, user_id: Seq<char>) -> bool {
    row.id == Some(task_id) && row.user_id == user_id
}

pub open spec fn has_owned(rows: Seq<TaskView>, task_id: Seq<char>, user_id: Seq<char>) -> bool {
    exists|i: int| 0 <= i < rows.len() && owns(rows[i], task_id, user_id)
}

/// `rows` with the status of the rows of task `task_id` owned by `user_id`
/// set to `status`, and every other row as it was.
pub open spec fn with_status(
    rows: Seq<TaskView>,
    task_id: Seq<char>,
    user_id: Seq<char>,
    status: TaskStatus,
) -> Seq<TaskView> {
    rows.map_values(
        |r: TaskView|
            if owns(r, task_id, user_id) {
                TaskView { status, ..r }
            } else {
                r
            },
    )
}

/// The rows owned by `user_id`, in store order.
pub open spec fn tasks_of(rows: Seq<TaskView>, user_id: Seq<char>) -> Seq<TaskView>
    decreases rows.len(),
{
    if rows.len() == 0 {
        Seq::empty()
    } else {
        let rest = tasks_of(rows.drop_last(), user_id);
        if rows.last().user_id == user_id {
            rest.push(rows.last())
        } else {
            rest
        }
    }
}

/// What a store holds when only its own operations wrote it: saved rows with
/// distinct UUID identifiers, owners given as UUIDs, and real instants.
pub open spec fn rows_valid(rows: Seq<TaskView>) -> bool {
    &&& forall|i: int|
        0 <= i < rows.len() ==> {
            &&& #[trigger] rows[i].id is Some
            &&& uuid_accepts(rows[i].id->0)
            &&& uuid_accepts(rows[i].user_id)
            &&& rows[i].wf()
        }
    &&& forall|i: int, j: int| 0 <= i < j < rows.len() ==> rows[i].id != rows[j].id
}

/// Setting the status of a task keeps the rows of a store valid.
pub proof fn lemma_with_status_valid(
    rows: Seq<TaskView>,
    task_id: Seq<char>,
    user_id: Seq<char>,
    status: TaskStatus,
)
    requires
        rows_valid(rows),
    ensures
        rows_valid(with_status(rows, task_id, user_id, status)),
{
    let n = with_status(rows, task_id, user_id, status);
    assert forall|i: int, j: int| 0 <= i < j < n.len() implies n[i].id != n[j].id by {
        assert(n[i].id == rows[i].id);
        assert(n[j].id == rows[j].id);
    }
    assert forall|i: int| 0 <= i < n.len() implies {
        &&& #[trigger] n[i].id is Some
        &&& uuid_accepts(n[i].id->0)
        &&& uuid_accepts(n[i].user_id)
        &&& n[i].wf()
    } by {
        assert(rows[i].id is Some);
    }
}

/// A successful save keeps the rows of a store valid: the new row has a
/// fresh identifier, an owner given as a UUID and real instants.
pub proof fn lemma_save_keeps_rows_valid(rows: Seq<TaskView>, t: TaskView, id: Seq<char>)
    requires
        rows_valid(rows),
        t.wf(),
        uuid_accepts(t.user_id),
        uuid_accepts(id),
        !has_id(rows, id),
    ensures
        rows_valid(rows.push(stored_row(t, id))),
{
    lemma_decode_encode(t.task_date);
    lemma_decode_encode(t.created_at);
    let n = rows.push(stored_row(t, id));
    assert forall|i: int, j: int| 0 <= i < j < n.len() implies n[i].id != n[j].id by {
        if j == rows.len() {
            assert(rows[i].id != Some(id));
        }
    }
    assert forall|i: int| 0 <= i < n.len() implies {
        &&& #[trigger] n[i].id is Some
        &&& uuid_accepts(n[i].id->0)
        &&& uuid_accepts(n[i].user_id)
        &&& n[i].wf()
    } by {
        if i < rows.len() {
            assert(rows[i].id is Some);
        }
    }
}

/// In a valid store a task that belongs to one user is owned by no other
/// one, so `update_status` by another user answers `NotFound` and changes
/// nothing.
pub proof fn lemma_foreign_task_not_owned(
    rows: Seq<TaskView>,
    task_id: Seq<char>,
    owner: Seq<char>,
    other: Seq<char>,
    i: int,
)
    requires
        rows_valid(rows),
        0 <= i < rows.len(),
        rows[i].id == Some(task_id),
        rows[i].user_id == owner,
        other != owner,
    ensures
        !has_owned(rows, task_id, other),
{
    assert forall|k: int| 0 <= k < rows.len() implies !owns(#[trigger] rows[k], task_id, other) by {
        if k < i {
            assert(rows[k].id != rows[i].id);
        } else if i < k {
            assert(rows[i].id != rows[k].id);
        }
    }
}

/// Persistence of tasks. Every operation is atomic: it either applies in full
/// or leaves the rows as they were.
///
/// An implementation states its model by overriding the spec functions. The
/// defaults describe no store: `wf` is false for them, so no verified caller
/// can rely on an implementation that gives no model.
pub trait TaskRepository {
    /// The store's own consistency, kept by every operation.
    closed spec fn wf(&self) -> bool {
        false
    }

    /// The saved tasks, in store order.
    closed spec fn tasks(&self) -> Seq<TaskView> {
        Seq::empty()
    }

    /// Identifiers of the users that tasks may be saved for.
    closed spec fn user_ids(&self) -> Set<Seq<char>> {
        Set::empty()
    }

    /// How many times `update_status` has been called on this store.
    closed spec fn status_update_calls(&self) -> nat {
        0
    }

    /// Saves a new task for an existing user and returns its new identifier.
    fn save(&mut self, task: Task) -> (r: Result<String, RepositoryError>)
        requires
            old(self).wf(),
            task@.wf(),
        ensures
            final(self).wf(),
            final(self).user_ids() == old(self).user_ids(),
            final(self).status_update_calls() == old(self).status_update_calls(),
            (r == Err::<String, RepositoryError>(RepositoryError::Validation)) <==> !uuid_accepts(
                task@.user_id,
            ),
            (r == Err::<String, RepositoryError>(RepositoryError::NotFound)) <==> (uuid_accepts(
                task@.user_id,
            ) && !old(self).user_ids().contains(task@.user_id)),
            r is Ok ==> {
                &&& uuid_accepts(r->Ok_0@)
                &&& !has_id(old(self).tasks(), r->Ok_0@)
                &&& final(self).tasks() == old(self).tasks().push(stored_row(task@, r->Ok_0@))
            },
            r is Err ==> final(self).tasks() == old(self).tasks(),
    ;

    /// The tasks owned by `user_id`, in store order.
    fn list_all(&self, user_id: String) -> (r: Result<Vec<Task>, RepositoryError>)
        requires
            self.wf(),
        ensures
            (r == Err::<Vec<Task>, RepositoryError>(RepositoryError::Validation)) <==> !uuid_accepts(
                user_id@,
            ),
            r matches Err(e) ==> e == RepositoryError::Validation || e
                == RepositoryError::Persistence,
            r is Ok ==> r->Ok_0@.map_values(|t: Task| t@) == tasks_of(self.tasks(), user_id@),
    ;

    /// The task with identifier `task_id`, whoever owns it.
    fn find_by_id(&self, task_id: String) -> (r: Result<Option<Task>, RepositoryError>)
        requires
            self.wf(),
        ensures
            (r == Err::<Option<Task>, RepositoryError>(RepositoryError::Validation))
                <==> !uuid_accepts(task_id@),
            r matches Err(e) ==> e == RepositoryError::Validation || e
                == RepositoryError::Persistence,
            r matches Ok(Some(t)) ==> self.tasks().contains(t@) && t@.id == Some(task_id@),
            r matches Ok(None) ==> !has_id(self.tasks(), task_id@),
    ;

    /// Sets the status of task `task_id` if, and only if, `user_id` owns it.
    fn update_status(&mut self, user_id: String, task_id: String, status: TaskStatus) -> (r:
        Result<(), RepositoryError>)
        requires
            old(self).wf(),
        ensures
            final(self).wf(),
            final(self).user_ids() == old(self).user_ids(),
            final(self).status_update_calls() == old(self).status_update_calls() + 1,
            (r == Err::<(), RepositoryError>(RepositoryError::Validation)) <==> (!uuid_accepts(
                user_id@,
            ) || !uuid_accepts(task_id@)),
            (r == Err::<(), RepositoryError>(RepositoryError::NotFound)) <==> (uuid_accepts(
                user_id@,
            ) && uuid_accepts(task_id@) && !has_owned(old(self).tasks(), task_id@, user_id@)),
            r is Ok ==> final(self).tasks() == with_status(
                old(self).tasks(),
                task_id@,
                user_id@,
                status,
            ),
            r is Err ==> final(self).tasks() == old(self).tasks(),
    ;
}

/// The task that a storage row holds. A row whose date/time pair names no
/// instant is reported as a storage failure, never given another instant.
pub fn task_from_row(
    id: String,
    user_id: String,
    content: String,
    status: TaskStatus,
    task_date: &StoredDateTime,
    created_at: &StoredDateTime,
) -> (r: Result<Task, RepositoryError>)
    ensures
        r is Ok <==> stored_is_valid(*task_date) && stored_is_valid(*created_at),
        r matches Err(e) ==> e == RepositoryError::Persistence,
        r matches Ok(t) ==> t@ == (TaskView {
            id: Some(id@),
            user_id: user_id@,
            content: content@,
            status,
            task_date: decoded(*task_date),
            created_at: decoded(*created_at),
        }),
{
    match (decode(task_date), decode(created_at)) {
        (Ok(task_date), Ok(created_at)) => Ok(
            Task::new_with_id(id, user_id, content, status, task_date, created_at),
        ),
        _ => Err(RepositoryError::Persistence),
    }
}

/// A task row as storage holds it, with naive date/time pairs.
struct StoredTask {
    id: String,
    user_id: String,
    content: String,
    status: TaskStatus,
    task_date: StoredDateTime,
    created_at: StoredDateTime,
}

spec fn stored_view(r: StoredTask) -> TaskView {
    TaskView {
        id: Some(r.id@),
        user_id: r.user_id@,
        content: r.content@,
        status: r.status,
        task_date: decoded(r.task_date),
        created_at: decoded(r.created_at),
    }
}

spec fn row_dates_valid(r: StoredTask) -> bool {
    stored_is_valid(r.task_date) && stored_is_valid(r.created_at)
}

/// A task store held in memory, with its own user directory. It records every
/// call of `update_status`.
pub struct InMemoryTaskRepository {
    users: Vec<String>,
    rows: Vec<StoredTask>,
    status_updates: Vec<(String, String, TaskStatus)>,
}

impl InMemoryTaskRepository {
    /// An empty store with no users.
    pub fn new() -> (r: Self)
        ensures
            r.wf(),
            r.tasks() == Seq::<TaskView>::empty(),
            rows_valid(r.tasks()),
            r.user_ids() == Set::<Seq<char>>::empty(),
            r.status_update_calls() == 0,
    {
        let r = InMemoryTaskRepository { users: Vec::new(), rows: Vec::new(), status_updates: Vec::new() };
        proof {
            assert(r.tasks() =~= Seq::<TaskView>::empty());
            assert(r.user_ids() =~= Set::<Seq<char>>::empty());
        }
        r
    }

    /// Adds `user_id` to the user directory.
    pub fn add_user(&mut self, user_id: String)
        requires
            old(self).wf(),
        ensures
            final(self).wf(),
            final(self).user_ids() == old(self).user_ids().insert(user_id@),
            final(self).tasks() == old(self).tasks(),
            final(self).status_update_calls() == old(self).status_update_calls(),
    {
        let ghost u = user_id@;
        self.users.push(user_id);
        proof {
            let old_ids = old(self).users@.map_values(|s: String| s@);
            let new_ids = self.users@.map_values(|s: String| s@);
            assert(new_ids =~= old_ids.push(u));
            assert(new_ids.to_set() =~= old_ids.to_set().insert(u)) by {
                assert forall|x: Seq<char>| new_ids.contains(x) == (old_ids.contains(x) || x == u) by {
                    if old_ids.contains(x) {
                        let k = choose|k: int| 0 <= k < old_ids.len() && old_ids[k] == x;
                        assert(new_ids[k] == x);
                    }
                    if x == u {
                        assert(new_ids[old_ids.len() as int] == x);
                    }
                }
            }
        }
    }

    /// How many times `update_status` has been called.
    pub fn status_update_count(&self) -> (r: usize)
        ensures
            r == self.status_update_calls(),
    {
        self.status_updates.len()
    }

    fn has_user(&self, user_id: &String) -> (r: bool)
        ensures
            r == self.user_ids().contains(user_id@),
    {
        let ghost ids = self.users@.map_values(|s: String| s@);
        let mut i: usize = 0;
        while i < self.users.len()
            invariant
                0 <= i <= self.users@.len(),
                ids == self.users@.map_values(|s: String| s@),
                forall|k: int| 0 <= k < i ==> ids[k] != user_id@,
            decreases self.users@.len() - i,
        {
            if self.users[i] == *user_id {
                assert(ids[i as int] == user_id@);
                return true;
            }
            i += 1;
        }
        false
    }

    fn index_of(&self, id: &String) -> (r: Option<usize>)
        ensures
            r matches Some(i) ==> i < self.tasks().len() && self.tasks()[i as int].id == Some(
                id@,
            ),
            r is None ==> !has_id(self.tasks(), id@),
    {
        let mut i: usize = 0;
        while i < self.rows.len()
            invariant
                0 <= i <= self.rows@.len(),
                forall|k: int| 0 <= k < i ==> self.tasks()[k].id != Some(id@),
            decreases self.rows@.len() - i,
        {
            if self.rows[i].id == *id {
                return Some(i);
            }
            i += 1;
        }
        None
    }

    /// Saves `task` under the identifier `id` for an existing owner. An
    /// identifier already in use is refused, as a unique key refuses it,
    /// and nothing is written.
    pub fn insert_with_id(&mut self, task: Task, id: String) -> (r: Result<String, RepositoryError>)
        requires
            old(self).wf(),
            task@.wf(),
            uuid_accepts(task@.user_id),
            old(self).user_ids().contains(task@.user_id),
            uuid_accepts(id@),
        ensures
            final(self).wf(),
            final(self).user_ids() == old(self).user_ids(),
            final(self).status_update_calls() == old(self).status_update_calls(),
            r is Ok <==> !has_id(old(self).tasks(), id@),
            r matches Ok(k) ==> k@ == id@ && final(self).tasks() == old(self).tasks().push(
                stored_row(task@, id@),
            ),
            r matches Err(e) ==> e == RepositoryError::Persistence && final(self).tasks() == old(
                self,
            ).tasks(),
    {
        if self.index_of(&id).is_some() {
            return Err(RepositoryError::Persistence);
        }
        let row = StoredTask {
            id: id.clone(),
            user_id: task.user_id().to_owned(),
            content: task.content().to_owned(),
            status: *task.status(),
            task_date: encode(task.task_date()),
            created_at: encode(task.created_at()),
        };
        proof {
            lemma_decode_encode(task@.task_date);
            lemma_decode_encode(task@.created_at);
            assert(stored_view(row) == stored_row(task@, id@));
        }
        self.rows.push(row);
        proof {
            assert(row_dates_valid(self.rows@.last()));
            assert(self.tasks() =~= old(self).tasks().push(stored_row(task@, id@)));
        }
        Ok(id)
    }

    fn task_at(&self, i: usize) -> (r: Result<Task, RepositoryError>)
        requires
            self.wf(),
            i < self.tasks().len(),
        ensures
            r is Ok,
            r is Ok ==> r->Ok_0@ == self.tasks()[i as int],
    {
        let row = &self.rows[i];
        assert(row_dates_valid(self.rows@[i as int]));
        task_from_row(
            row.id.clone(),
            row.user_id.clone(),
            row.content.clone(),
            row.status,
            &row.task_date,
            &row.created_at,
        )
    }
}

impl TaskRepository for InMemoryTaskRepository {
    closed spec fn wf(&self) -> bool {
        forall|i: int| 0 <= i < self.rows@.len() ==> row_dates_valid(#[trigger] self.rows@[i])
    }

    closed spec fn tasks(&self) -> Seq<TaskView> {
        self.rows@.map_values(|r: StoredTask| stored_view(r))
    }

    closed spec fn user_ids(&self) -> Set<Seq<char>> {
        self.users@.map_values(|s: String| s@).to_set()
    }

    closed spec fn status_update_calls(&self) -> nat {
        self.status_updates@.len()
    }

    fn save(&mut self, task: Task) -> (r: Result<String, RepositoryError>) {
        if !is_uuid(task.user_id()) {
            return Err(RepositoryError::Validation);
        }
        let owner = task.user_id().to_owned();
        if !self.has_user(&owner) {
            return Err(RepositoryError::NotFound);
        }
        self.insert_with_id(task, new_uuid_text())
    }

    fn list_all(&self, user_id: String) -> (r: Result<Vec<Task>, RepositoryError>)
        ensures
            uuid_accepts(user_id@) ==> r is Ok,
    {
        if !is_uuid(user_id.as_str()) {
            return Err(RepositoryError::Validation);
        }
        let ghost rows = self.tasks();
        let mut out: Vec<Task> = Vec::new();
        let mut i: usize = 0;
        while i < self.rows.len()
            invariant
                0 <= i <= self.rows@.len(),
                self.wf(),
                rows == self.tasks(),
                rows.len() == self.rows@.len(),
                out@.map_values(|t: Task| t@) == tasks_of(rows.take(i as int), user_id@),
            decreases self.rows@.len() - i,
        {
            assert(rows.take(i + 1).drop_last() =~= rows.take(i as int));
            if self.rows[i].user_id == user_id {
                let t = match self.task_at(i) {
                    Ok(t) => t,
                    Err(e) => return Err(e),
                };
                let ghost before = out@;
                out.push(t);
                assert(out@.map_values(|t: Task| t@) =~= before.map_values(|t: Task| t@).push(
                    rows[i as int],
                ));
            }
            i += 1;
        }
        assert(rows.take(i as int) =~= rows);
        Ok(out)
    }

    fn find_by_id(&self, task_id: String) -> (r: Result<Option<Task>, RepositoryError>)
        ensures
            uuid_accepts(task_id@) ==> r is Ok,
    {
        if !is_uuid(task_id.as_str()) {
            return Err(RepositoryError::Validation);
        }
        match self.index_of(&task_id) {
            Some(i) => {
                let t = match self.task_at(i) {
                    Ok(t) => t,
                    Err(e) => return Err(e),
                };
                assert(self.tasks()[i as int] == t@);
                Ok(Some(t))
            },
            None => Ok(None),
        }
    }

    fn update_status(&mut self, user_id: String, task_id: String, status: TaskStatus) -> (r:
        Result<(), RepositoryError>)
        ensures
            uuid_accepts(user_id@) && uuid_accepts(task_id@) && has_owned(
                old(self).tasks(),
                task_id@,
                user_id@,
            ) ==> r is Ok,
    {
        self.status_updates.push((user_id.clone(), task_id.clone(), status));
        if !is_uuid(user_id.as_str()) || !is_uuid(task_id.as_str()) {
            return Err(RepositoryError::Validation);
        }
        let ghost old_rows = self.rows@;
        let ghost old_tasks = self.tasks();
        let ghost target = with_status(old_tasks, task_id@, user_id@, status);
        let ghost users = self.users@;
        let ghost updates = self.status_updates@;
        let mut found = false;
        let mut i: usize = 0;
        while i < self.rows.len()
            invariant
                0 <= i <= self.rows@.len(),
                self.users@ == users,
                self.status_updates@ == updates,
                self.rows@.len() == old_rows.len(),
                old_tasks.len() == old_rows.len(),
                target == with_status(old_tasks, task_id@, user_id@, status),
                target.len() == old_rows.len(),
                forall|k: int| 0 <= k < self.rows@.len() ==> row_dates_valid(#[trigger] self.rows@[k]),
                forall|k: int| 0 <= k < i ==> self.tasks()[k] == target[k],
                forall|k: int| i <= k < self.rows@.len() ==> self.rows@[k] == old_rows[k],
                found == exists|k: int| 0 <= k < i && owns(old_tasks[k], task_id@, user_id@),
                old_tasks == old_rows.map_values(|r: StoredTask| stored_view(r)),
            decreases self.rows@.len() - i,
        {
            assert(old_tasks[i as int] == stored_view(old_rows[i as int]));
            if self.rows[i].id == task_id && self.rows[i].user_id == user_id {
                assert(owns(old_tasks[i as int], task_id@, user_id@));
                let row = StoredTask {
                    id: self.rows[i].id.clone(),
                    user_id: self.rows[i].user_id.clone(),
                    content: self.rows[i].content.clone(),
                    status,
                    task_date: self.rows[i].task_date,
                    created_at: self.rows[i].created_at,
                };
                assert(row_dates_valid(old_rows[i as int]));
                self.rows.set(i, row);
                found = true;
                assert(self.tasks()[i as int] == stored_view(self.rows@[i as int]));
                assert(target[i as int] == TaskView { status, ..old_tasks[i as int] });
                assert(self.tasks()[i as int] == target[i as int]);
            } else {
                assert(!owns(old_tasks[i as int], task_id@, user_id@));
                assert(self.tasks()[i as int] == stored_view(self.rows@[i as int]));
                assert(target[i as int] == old_tasks[i as int]);
                assert(self.tasks()[i as int] == target[i as int]);
            }
            i += 1;
        }
        if !found {
            assert(self.tasks() =~= old_tasks) by {
                assert forall|k: int| 0 <= k < old_tasks.len() implies self.tasks()[k]
                    == old_tasks[k] by {
                    assert(!owns(old_tasks[k], task_id@, user_id@));
                    assert(self.tasks()[k] == target[k]);
                }
            }
            return Err(RepositoryError::NotFound);
        }
        assert(self.tasks() =~= target);
        Ok(())
    }
}

} // verus!
