//! The records that requests carry and responses return.

use vstd::prelude::*;

verus! {

/// A registered user, as responses show it.
#[derive(Debug, Clone)]
pub struct User {
    pub id: i64,
    pub username: String,
    pub email: String,
    pub role: String,
}

/// The body of a sign-in request.
#[derive(Debug, Clone)]
pub struct UserCredential {
    pub email: String,
    pub password: String,
}

/// The body of a sign-up request.
#[derive(Debug, Clone)]
pub struct NewUser {
    pub email: String,
    pub username: String,
    pub password: String,
}

/// A user as stored, with the hash of the password.
#[derive(Debug, Clone)]
pub struct UserRow {
    pub id: i64,
    pub username: String,
    pub email: String,
    pub password: String,
}

/// A project, owned by the user `user_id`.
#[derive(Debug, Clone)]
pub struct Project {
    pub id: i64,
    pub user_id: i64,
    pub name: String,
}

/// The body of a request that creates or renames a project.
#[derive(Debug, Clone)]
pub struct NewProject {
    pub name: String,
}

/// The tasks of one project, with their count.
#[derive(Debug, Clone)]
pub struct ProjectData {
    pub items: usize,
    pub data: Vec<Tasks>,
}

/// A calendar date and time of day in UTC, to the second.
#[derive(Debug, Clone, Copy, PartialEq, Eq, Structural)]
pub struct UtcDateTime {
    pub year: i32,
    pub month: u8,
    pub day: u8,
    pub hour: u8,
    pub minute: u8,
    pub second: u8,
}

/// A task, owned by the user `user_id`, filed under the project `project_id`.
#[derive(Debug, Clone)]
pub struct Tasks {
    pub id: i64,
    pub user_id: i64,
    pub project_id: i64,
    pub title: String,
    pub description: Option<String>,
    pub created_at: UtcDateTime,
}

/// A task as stored: its project may be unset, its time not yet checked.
#[derive(Debug, Clone)]
pub struct TaskRow {
    pub id: i64,
    pub user_id: i64,
    pub project_id: Option<i64>,
    pub title: String,
    pub description: Option<String>,
    pub created_at: UtcDateTime,
}

/// The body of a request that creates a task.
#[derive(Debug, Clone)]
pub struct NewTask {
    pub title: String,
    pub description: Option<String>,
}

/// The body of a partial task update: each field that is set replaces the
/// stored one.
#[derive(Debug, Clone)]
pub struct UpdatedTask {
    pub title: Option<String>,
    pub description: Option<String>,
    pub project_id: Option<i64>,
}

/// What a lookup in the store came back with.
#[derive(Debug, Clone)]
pub enum Lookup<T> {
    Found(T),
    Missing,
    Failed,
}

} // verus!
