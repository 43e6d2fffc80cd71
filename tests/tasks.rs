use task_tracker::datetime::UtcDateTime;
use task_tracker::list_all_tasks::{ListAllTasksRequest, ListAllTasksUseCase};
use task_tracker::datetime::{CalendarDate, StoredDateTime, TimeOfDay};
use task_tracker::repository::{task_from_row, InMemoryTaskRepository, RepositoryError, TaskRepository};
use task_tracker::save_task::{SaveTaskRequest, SaveTaskUseCase};
use task_tracker::status::TaskStatus;
use task_tracker::task::Task;
use task_tracker::update_task_status::{
    status_step, UpdateTaskStatusError, UpdateTaskStatusRequest, UpdateTaskStatusUseCase,
};

const U1: &str = "6f1c2b1e-8a2b-4c3d-9e4f-0a1b2c3d4e5f";
const U2: &str = "0b7e3a52-1d4c-4f6e-8a9b-112233445566";
const MISSING: &str = "99999999-9999-4999-8999-999999999999";

fn date() -> UtcDateTime {
    UtcDateTime::new(2024, 3, 15, 10, 30, 0, 250_000_000).unwrap()
}

fn store_with_users() -> InMemoryTaskRepository {
    let mut store = InMemoryTaskRepository::new();
    store.add_user(U1.to_string());
    store.add_user(U2.to_string());
    store
}

fn status_of(store: &InMemoryTaskRepository, id: &str) -> TaskStatus {
    *store.find_by_id(id.to_string()).unwrap().unwrap().status()
}

#[test]
fn save_for_unknown_user_is_not_found_and_writes_nothing() {
    let mut store = store_with_users();
    let task = Task::new(MISSING.to_string(), "buy milk".to_string(), date());
    assert_eq!(store.save(task), Err(RepositoryError::NotFound));
    assert_eq!(store.list_all(MISSING.to_string()).unwrap().len(), 0);
    assert_eq!(store.list_all(U1.to_string()).unwrap().len(), 0);
}

#[test]
fn malformed_identifiers_fail_validation() {
    let mut store = store_with_users();
    let task = Task::new("not-a-uuid".to_string(), "x".to_string(), date());
    assert_eq!(store.save(task), Err(RepositoryError::Validation));
    assert!(matches!(store.list_all(String::new()), Err(RepositoryError::Validation)));
    assert!(matches!(store.find_by_id("12".to_string()), Err(RepositoryError::Validation)));
    assert_eq!(
        store.update_status(U1.to_string(), "nope".to_string(), TaskStatus::Started),
        Err(RepositoryError::Validation)
    );
}

#[test]
fn save_assigns_an_id_and_keeps_fields() {
    let mut store = store_with_users();
    let created = UtcDateTime::new(2024, 1, 2, 3, 4, 5, 6_789_123).unwrap();
    let task = Task::new_created_at(U1.to_string(), "buy milk".to_string(), date(), created);
    assert!(task.id().is_none());
    let id = store.save(task).unwrap();
    assert_eq!(id.len(), 36);
    let found = store.find_by_id(id.clone()).unwrap().unwrap();
    assert_eq!(found.id(), Some(&id));
    assert_eq!(found.user_id(), U1);
    assert_eq!(found.content(), "buy milk");
    assert_eq!(*found.status(), TaskStatus::ToStart);
    assert_eq!(*found.task_date(), date());
    assert_eq!(*found.created_at(), UtcDateTime::new(2024, 1, 2, 3, 4, 5, 6_000_000).unwrap());
}

#[test]
fn find_by_id_of_absent_task_is_none() {
    let store = store_with_users();
    assert!(store.find_by_id(MISSING.to_string()).unwrap().is_none());
}

#[test]
fn list_all_returns_only_the_owners_tasks_in_order() {
    let mut store = store_with_users();
    store.save(Task::new(U1.to_string(), "a".to_string(), date())).unwrap();
    store.save(Task::new(U2.to_string(), "b".to_string(), date())).unwrap();
    store.save(Task::new(U1.to_string(), "c".to_string(), date())).unwrap();
    let mine = store.list_all(U1.to_string()).unwrap();
    let contents: Vec<&str> = mine.iter().map(|t| t.content()).collect();
    assert_eq!(contents, vec!["a", "c"]);
    let use_case = ListAllTasksUseCase::new(store);
    let theirs = use_case.execute(ListAllTasksRequest::new(U2.to_string())).unwrap();
    assert_eq!(theirs.tasks.len(), 1);
    assert_eq!(theirs.tasks[0].content(), "b");
}

#[test]
fn update_by_other_user_is_not_found_and_changes_nothing() {
    let mut store = store_with_users();
    let id = store.save(Task::new(U2.to_string(), "theirs".to_string(), date())).unwrap();
    assert_eq!(
        store.update_status(U1.to_string(), id.clone(), TaskStatus::Completed),
        Err(RepositoryError::NotFound)
    );
    assert_eq!(status_of(&store, &id), TaskStatus::ToStart);
    assert_eq!(store.update_status(U2.to_string(), id.clone(), TaskStatus::Completed), Ok(()));
    assert_eq!(status_of(&store, &id), TaskStatus::Completed);
}

#[test]
fn update_with_same_status_is_harmless() {
    let mut store = store_with_users();
    let id = store.save(Task::new(U1.to_string(), "t".to_string(), date())).unwrap();
    assert_eq!(store.update_status(U1.to_string(), id.clone(), TaskStatus::ToStart), Ok(()));
    assert_eq!(status_of(&store, &id), TaskStatus::ToStart);
    assert_eq!(store.list_all(U1.to_string()).unwrap().len(), 1);
}

#[test]
fn save_use_case_creates_to_start_task() {
    let mut use_case = SaveTaskUseCase::new(store_with_users());
    let request = SaveTaskRequest::new(U1.to_string(), "buy milk".to_string(), date());
    let id = use_case.execute(request).unwrap();
    let t = use_case.task_repository.find_by_id(id).unwrap().unwrap();
    assert_eq!(*t.status(), TaskStatus::ToStart);
    assert!(t.created_at().is_valid());
    let missing = SaveTaskRequest::new(MISSING.to_string(), "x".to_string(), date());
    assert_eq!(use_case.execute(missing), Err(RepositoryError::NotFound));
}

#[test]
fn lifecycle_end_to_end() {
    let mut saving = SaveTaskUseCase::new(store_with_users());
    let request = SaveTaskRequest::new(U1.to_string(), "buy milk".to_string(), date());
    let id = saving.execute(request).unwrap();
    let store = saving.task_repository;
    assert_eq!(status_of(&store, &id), TaskStatus::ToStart);
    assert_eq!(store.find_by_id(id.clone()).unwrap().unwrap().content(), "buy milk");
    let mut service = UpdateTaskStatusUseCase::new(store);
    let step = |s: &mut UpdateTaskStatusUseCase<InMemoryTaskRepository>, action: &str| {
        s.execute(UpdateTaskStatusRequest::new(U1.to_string(), id.clone(), action.to_string()))
    };

    assert_eq!(step(&mut service, "next"), Ok(()));
    assert_eq!(status_of(&service.task_repository, &id), TaskStatus::Started);
    assert_eq!(service.task_repository.status_update_count(), 1);

    assert_eq!(step(&mut service, "next"), Ok(()));
    assert_eq!(status_of(&service.task_repository, &id), TaskStatus::Completed);
    assert_eq!(service.task_repository.status_update_count(), 2);

    assert_eq!(step(&mut service, "next"), Ok(()));
    assert_eq!(status_of(&service.task_repository, &id), TaskStatus::Completed);
    assert_eq!(service.task_repository.status_update_count(), 2);

    assert_eq!(step(&mut service, "previous"), Ok(()));
    assert_eq!(status_of(&service.task_repository, &id), TaskStatus::Started);
    assert_eq!(service.task_repository.status_update_count(), 3);
}

#[test]
fn no_op_actions_do_not_write() {
    let mut store = store_with_users();
    let id = store.save(Task::new(U1.to_string(), "t".to_string(), date())).unwrap();
    let mut service = UpdateTaskStatusUseCase::new(store);
    for action in ["previous", "sideways", ""] {
        let r = service.execute(UpdateTaskStatusRequest::new(U1.to_string(), id.clone(), action.to_string()));
        assert_eq!(r, Ok(()));
    }
    assert_eq!(service.task_repository.status_update_count(), 0);
    assert_eq!(status_of(&service.task_repository, &id), TaskStatus::ToStart);
}

#[test]
fn lifecycle_hides_other_users_tasks() {
    let mut store = store_with_users();
    let id = store.save(Task::new(U2.to_string(), "theirs".to_string(), date())).unwrap();
    let mut service = UpdateTaskStatusUseCase::new(store);
    let r = service.execute(UpdateTaskStatusRequest::new(U1.to_string(), id.clone(), "next".to_string()));
    assert_eq!(r, Err(UpdateTaskStatusError::TaskNotFound));
    let r = service.execute(UpdateTaskStatusRequest::new(U1.to_string(), MISSING.to_string(), "next".to_string()));
    assert_eq!(r, Err(UpdateTaskStatusError::TaskNotFound));
    let r = service.execute(UpdateTaskStatusRequest::new(U1.to_string(), "bad".to_string(), "next".to_string()));
    assert_eq!(r, Err(UpdateTaskStatusError::InvalidIdentifier));
    assert_eq!(service.task_repository.status_update_count(), 0);
    assert_eq!(status_of(&service.task_repository, &id), TaskStatus::ToStart);
}

#[test]
fn task_setters_change_one_field() {
    let mut t = Task::new_with_id(
        U1.to_string(),
        U2.to_string(),
        "c".to_string(),
        TaskStatus::Started,
        date(),
        date(),
    );
    t.set_content("d".to_string());
    t.set_status(TaskStatus::Completed);
    t.set_user_id(U1.to_string());
    t.set_id(U2.to_string());
    let later = UtcDateTime::new(2025, 1, 1, 0, 0, 0, 0).unwrap();
    t.set_task_date(later);
    assert_eq!(t.content(), "d");
    assert_eq!(*t.status(), TaskStatus::Completed);
    assert_eq!(t.user_id(), U1);
    assert_eq!(t.id().map(|s| s.as_str()), Some(U2));
    assert_eq!(*t.task_date(), later);
    assert_eq!(*t.created_at(), date());
}

#[test]
fn rows_with_impossible_dates_are_storage_failures() {
    let good = StoredDateTime {
        date: CalendarDate { year: 2024, month: 3, day: 15 },
        time: TimeOfDay { hour: 10, minute: 30, second: 0, millisecond: 250 },
    };
    let bad = StoredDateTime {
        date: CalendarDate { year: 2024, month: 2, day: 30 },
        time: TimeOfDay { hour: 10, minute: 30, second: 0, millisecond: 250 },
    };
    let t = task_from_row(U2.to_string(), U1.to_string(), "c".to_string(), TaskStatus::Started, &good, &good)
        .ok()
        .unwrap();
    assert_eq!(*t.task_date(), date());
    assert_eq!(t.id().map(|s| s.as_str()), Some(U2));
    let r = task_from_row(U2.to_string(), U1.to_string(), "c".to_string(), TaskStatus::Started, &good, &bad);
    assert!(matches!(r, Err(RepositoryError::Persistence)));
}

#[test]
fn status_step_decides_write_or_not() {
    let t = Task::new_with_id(U2.to_string(), U1.to_string(), "c".to_string(), TaskStatus::Completed, date(), date());
    let found = Some(t);
    assert_eq!(status_step(&found, U1, "next"), Ok(None));
    assert_eq!(status_step(&found, U1, "previous"), Ok(Some(TaskStatus::Started)));
    assert_eq!(status_step(&found, U1, "other"), Ok(None));
    assert_eq!(status_step(&found, U2, "previous"), Err(UpdateTaskStatusError::TaskNotFound));
    assert_eq!(status_step(&None, U1, "next"), Err(UpdateTaskStatusError::TaskNotFound));
    let fresh = Some(Task::new_with_id(U2.to_string(), U1.to_string(), "c".to_string(), TaskStatus::ToStart, date(), date()));
    assert_eq!(status_step(&fresh, U1, "previous"), Ok(None));
    assert_eq!(status_step(&fresh, U1, "next"), Ok(Some(TaskStatus::Started)));
}

#[test]
fn insert_with_id_refuses_an_identifier_in_use() {
    let mut store = store_with_users();
    let t = Task::new(U1.to_string(), "a".to_string(), date());
    assert_eq!(store.insert_with_id(t, MISSING.to_string()), Ok(MISSING.to_string()));
    let again = Task::new(U1.to_string(), "b".to_string(), date());
    assert_eq!(store.insert_with_id(again, MISSING.to_string()), Err(RepositoryError::Persistence));
    let all = store.list_all(U1.to_string()).unwrap();
    assert_eq!(all.len(), 1);
    assert_eq!(all[0].content(), "a");
}

#[test]
fn uuid_forms_accepted_by_the_store() {
    let mut store = InMemoryTaskRepository::new();
    for id in [
        "6F1C2B1E8A2B4C3D9E4F0A1B2C3D4E5F",
        "{6f1c2b1e-8a2b-4c3d-9e4f-0a1b2c3d4e5f}",
        "URN:uuid:6f1c2b1e-8a2b-4c3d-9e4f-0a1b2c3d4e5f",
    ] {
        assert!(store.find_by_id(id.to_string()).unwrap().is_none());
    }
    for id in ["6f1c2b1e-8a2b-4c3d-9e4f-0a1b2c3d4e5g", "6f1c2b1e+8a2b-4c3d-9e4f-0a1b2c3d4e5f", "é"] {
        assert!(matches!(store.find_by_id(id.to_string()), Err(RepositoryError::Validation)));
    }
    store.add_user(U1.to_string());
    assert_eq!(store.list_all(U1.to_string()).unwrap().len(), 0);
}
