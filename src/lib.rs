//! Task lifecycle and persistence core: a three-state progress machine, a
//! codec between UTC instants and naive storage date/time pairs, a task store
//! contract with an in-memory implementation, and the use cases built on them;
//! with the user directory, sign-in and registration around it.
//!
//! The store and directory traits carry a model (`tasks`, `user_ids`, `users`,
//! ...) and a well-formedness predicate `wf`. Implementations verified here
//! (`InMemoryTaskRepository`, `MockUserRepository`) define that model and make
//! `wf` hold. An implementation written outside verification, such as a
//! database-backed store, keeps the default model, whose `wf` is false: the
//! use cases' proofs then say nothing about it, and it is trusted to behave as
//! the trait's contracts describe.

pub mod credentials;
pub mod datetime;
pub mod ids;
pub mod list_all_tasks;
pub mod register_user;
pub mod repository;
pub mod save_task;
pub mod session;
pub mod signed_url;
pub mod status;
pub mod task;
pub mod text;
pub mod update_task_status;
pub mod user;
pub mod user_profile;
pub mod user_repository;
