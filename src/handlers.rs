//! What each request decides once the store has answered: sign-up and
//! sign-in, and the owner-scoped reads, writes and deletions of projects and
//! tasks. The store itself is reached by the caller; these functions take its
//! answers as plain values.

use vstd::prelude::*;
use crate::decimal::{decimal_text, format_i64, i64_of, lemma_decimal_round_trip};
use crate::error::{api_error, ApiError, Status};
use crate::jwt::{
    claims_issued, hs256_claims, issue_token, token_claims_at, AuthConfig, TOKEN_LIFETIME_SECS,
};
use crate::models::{
    Lookup, NewProject, NewTask, NewUser, Project, ProjectData, TaskRow, Tasks, UpdatedTask,
    User, UserCredential, UserRow, UtcDateTime,
};
use crate::password::{hash_password, password_matches, verify_password};
use crate::utils::{parse_date, valid_date_time};

verus! {

/// The role that every account is created with.
pub const USER_ROLE: &'static str = "user";

/// A successful sign-up or sign-in: the user to return, and the session token
/// to set in the `auth_token` cookie.
#[derive(Debug, Clone)]
pub struct SignedIn {
    pub user: User,
    pub token: String,
}

/// `e` is an error with status `s` and message `m`.
pub open spec fn is_error(e: ApiError, s: Status, m: Seq<char>) -> bool {
    e.status == s && e.body.error@ == m
}

/// `s` signs in the user `id` with the given name and email, role `user`, and a
/// token issued at `now` whose subject is `id` in decimal.
pub open spec fn session_of(
    s: SignedIn,
    secret: Seq<char>,
    id: i64,
    username: Seq<char>,
    email: Seq<char>,
    now: u64,
) -> bool {
    &&& s.user.id == id
    &&& s.user.username@ == username
    &&& s.user.email@ == email
    &&& s.user.role@ == USER_ROLE@
    &&& hs256_claims(s.token@, secret) == Some(claims_issued(decimal_text(id as int), USER_ROLE@, now))
}

/// The session that sign-up or sign-in hands out identifies the same user:
/// until it expires its token verifies, with role `user` and a subject that
/// reads back as the user's id.
pub proof fn lemma_session_identifies_user(
    s: SignedIn,
    secret: Seq<char>,
    id: i64,
    username: Seq<char>,
    email: Seq<char>,
    issued: u64,
    later: u64,
)
    requires
        session_of(s, secret, id, username, email, issued),
        issued <= u64::MAX - TOKEN_LIFETIME_SECS,
        issued <= later < issued + TOKEN_LIFETIME_SECS,
    ensures
        token_claims_at(secret, s.token@, later) matches Some(c) && i64_of(c.0) == Some(s.user.id)
            && c.3 == s.user.role@,
{
    lemma_decimal_round_trip(id);
}

fn clone_text(o: &Option<String>) -> (r: Option<String>)
    ensures
        r == *o,
{
    match o {
        Some(s) => Some(s.clone()),
        None => None,
    }
}

fn start_session(config: &AuthConfig, id: i64, username: &String, email: &String, now: u64) -> (r: Result<SignedIn, ApiError>)
    ensures
        r is Ok <==> now <= u64::MAX - TOKEN_LIFETIME_SECS,
        r matches Ok(s) ==> session_of(s, config.spec_secret(), id, username@, email@, now),
        r matches Err(e) ==> is_error(e, Status::InternalServerError, "failed to create jwt token"@),
{
    let sub = format_i64(id);
    match issue_token(config, sub.as_str(), USER_ROLE, now) {
        Ok(token) => Ok(SignedIn {
            user: User {
                id,
                username: username.clone(),
                email: email.clone(),
                role: USER_ROLE.to_string(),
            },
            token,
        }),
        Err(_) => Err(api_error(Status::InternalServerError, "failed to create jwt token")),
    }
}

/// First step of sign-up: the hash to store for the new user's password.
pub fn sign_up_hash(new_user: &NewUser) -> (r: Result<String, ApiError>)
    ensures
        r matches Ok(h) ==> password_matches(new_user.password@, h@),
        r matches Err(e) ==> is_error(e, Status::InternalServerError, "failed to hash the password"@),
{
    match hash_password(new_user.password.as_str()) {
        Ok(h) => Ok(h),
        Err(_) => Err(api_error(Status::InternalServerError, "failed to hash the password")),
    }
}

/// Second step of sign-up, once the store has inserted the user (`Some` of the
/// new id) or failed (`None`): the new user with role `user` and a session.
pub fn sign_up(config: &AuthConfig, new_user: &NewUser, inserted: Option<i64>, now: u64) -> (r: Result<SignedIn, ApiError>)
    ensures
        r is Ok <==> inserted is Some && now <= u64::MAX - TOKEN_LIFETIME_SECS,
        r matches Ok(s) ==> session_of(
            s,
            config.spec_secret(),
            inserted->Some_0,
            new_user.username@,
            new_user.email@,
            now,
        ),
        inserted is None ==> (r matches Err(e) && is_error(e, Status::InternalServerError, "Database Error"@)),
{
    match inserted {
        None => Err(api_error(Status::InternalServerError, "Database Error")),
        Some(id) => start_session(config, id, &new_user.username, &new_user.email, now),
    }
}

/// Sign-in, once the store has looked the email up: a session exactly when the
/// user exists and the stored hash accepts the password. An unknown email and
/// a wrong password give the same `Unauthorized` answer.
pub fn sign_in(config: &AuthConfig, credential: &UserCredential, record: Lookup<UserRow>, now: u64) -> (r: Result<SignedIn, ApiError>)
    ensures
        r is Ok <==> (record matches Lookup::Found(row) && password_matches(credential.password@, row.password@))
            && now <= u64::MAX - TOKEN_LIFETIME_SECS,
        r matches Ok(s) ==> (record matches Lookup::Found(row) && session_of(
            s,
            config.spec_secret(),
            row.id,
            row.username@,
            row.email@,
            now,
        )),
        record is Failed ==> (r matches Err(e) && is_error(e, Status::InternalServerError, "Database Error."@)),
        record is Missing ==> (r matches Err(e) && is_error(e, Status::Unauthorized, "email or password are incorrect"@)),
        (record matches Lookup::Found(row) && !password_matches(credential.password@, row.password@)) ==> (
        r matches Err(e) && is_error(e, Status::Unauthorized, "email or password are incorrect"@)),
{
    match record {
        Lookup::Failed => Err(api_error(Status::InternalServerError, "Database Error.")),
        Lookup::Missing => Err(api_error(Status::Unauthorized, "email or password are incorrect")),
        Lookup::Found(row) => match verify_password(credential.password.as_str(), row.password.as_str()) {
            Ok(true) => start_session(config, row.id, &row.username, &row.email, now),
            _ => Err(api_error(Status::Unauthorized, "email or password are incorrect")),
        },
    }
}

/// A new project, once the store has inserted it (`Some` of its id).
pub fn project_created(user_id: i64, project: &NewProject, inserted: Option<i64>) -> (r: Result<Project, ApiError>)
    ensures
        match inserted {
            Some(id) => r matches Ok(p) && p.id == id && p.user_id == user_id && p.name@ == project.name@,
            None => r matches Err(e) && is_error(e, Status::InternalServerError, "Database error"@),
        },
{
    match inserted {
        Some(id) => Ok(Project { id, user_id, name: project.name.clone() }),
        None => Err(api_error(Status::InternalServerError, "Database error")),
    }
}

/// A project read under the filter `owner = user_id`: one that is missing or
/// owned by someone else is `NotFound` alike.
pub fn project_found(user_id: i64, lookup: Lookup<Project>) -> (r: Result<Project, ApiError>)
    ensures
        match lookup {
            Lookup::Found(p) => r matches Ok(q) && q.id == p.id && q.user_id == user_id && q.name@ == p.name@,
            Lookup::Missing => r matches Err(e) && is_error(e, Status::NotFound, "Project not found or access denied."@),
            Lookup::Failed => r matches Err(e) && is_error(e, Status::InternalServerError, "Database error."@),
        },
{
    match lookup {
        Lookup::Found(p) => Ok(Project { id: p.id, user_id, name: p.name }),
        Lookup::Missing => Err(api_error(Status::NotFound, "Project not found or access denied.")),
        Lookup::Failed => Err(api_error(Status::InternalServerError, "Database error.")),
    }
}

/// Whether the project, read under the filter `owner = user_id`, may have its
/// tasks listed.
pub fn project_tasks_allowed(lookup: Lookup<i64>) -> (r: Result<(), ApiError>)
    ensures
        match lookup {
            Lookup::Found(_) => r is Ok,
            Lookup::Missing => r matches Err(e) && is_error(e, Status::NotFound, "Project not found or access denied."@),
            Lookup::Failed => r matches Err(e) && is_error(e, Status::InternalServerError, "Database error"@),
        },
{
    match lookup {
        Lookup::Found(_) => Ok(()),
        Lookup::Missing => Err(api_error(Status::NotFound, "Project not found or access denied.")),
        Lookup::Failed => Err(api_error(Status::InternalServerError, "Database error")),
    }
}

/// A task of project `project_id` as a response shows it.
pub open spec fn task_in_project(row: TaskRow, project_id: i64, t: Tasks) -> bool {
    &&& t.id == row.id
    &&& t.user_id == row.user_id
    &&& t.project_id == project_id
    &&& t.title@ == row.title@
    &&& t.description == row.description
    &&& t.created_at == row.created_at
}

/// The tasks of project `project_id`, once the store has listed them (`None`
/// when it failed), with their count; a stored time that names no real instant
/// is a store error.
pub fn project_tasks(project_id: i64, rows: Option<Vec<TaskRow>>) -> (r: Result<ProjectData, ApiError>)
    ensures
        match rows {
            None => r matches Err(e) && is_error(e, Status::InternalServerError, "Database error"@),
            Some(v) => {
                &&& r is Ok <==> forall|i: int| 0 <= i < v@.len() ==> valid_date_time(#[trigger] v@[i].created_at)
                &&& r matches Ok(d) ==> {
                    &&& d.items == d.data@.len()
                    &&& d.data@.len() == v@.len()
                    &&& forall|i: int| 0 <= i < v@.len() ==> task_in_project(#[trigger] v@[i], project_id, d.data@[i])
                }
                &&& r matches Err(e) ==> is_error(e, Status::InternalServerError, "Database error"@)
            },
        },
{
    let v = match &rows {
        None => return Err(api_error(Status::InternalServerError, "Database error")),
        Some(v) => v,
    };
    let mut data: Vec<Tasks> = Vec::new();
    let mut i: usize = 0;
    while i < v.len()
        invariant
            rows == Some(*v),
            i <= v@.len(),
            data@.len() == i,
            forall|k: int| 0 <= k < i ==> valid_date_time(#[trigger] v@[k].created_at),
            forall|k: int| 0 <= k < i ==> task_in_project(#[trigger] v@[k], project_id, data@[k]),
        decreases v@.len() - i,
    {
        let row = &v[i];
        let created_at = match parse_date(row.created_at) {
            Ok(t) => t,
            Err(e) => {
                return Err(e);
            },
        };
        data.push(Tasks {
            id: row.id,
            project_id,
            title: row.title.clone(),
            user_id: row.user_id,
            description: clone_text(&row.description),
            created_at,
        });
        i = i + 1;
    }
    Ok(ProjectData { items: data.len(), data })
}

/// Whether a project, read under the filter `owner = user_id`, may be renamed.
pub fn project_update_allowed(lookup: Lookup<Project>) -> (r: Result<(), ApiError>)
    ensures
        lookup is Found <==> r is Ok,
        lookup is Missing ==> (r matches Err(e) && is_error(e, Status::NotFound, "Project not found or access denied"@)),
        lookup is Failed ==> (r matches Err(e) && is_error(e, Status::InternalServerError, "Database error"@)),
{
    match lookup {
        Lookup::Found(_) => Ok(()),
        Lookup::Missing => Err(api_error(Status::NotFound, "Project not found or access denied")),
        Lookup::Failed => Err(api_error(Status::InternalServerError, "Database error")),
    }
}

/// The renamed project, once the store has written the name (or failed to).
pub fn project_updated(id: i64, user_id: i64, project: &NewProject, written: bool) -> (r: Result<Project, ApiError>)
    ensures
        written ==> (r matches Ok(p) && p.id == id && p.user_id == user_id && p.name@ == project.name@),
        !written ==> (r matches Err(e) && is_error(e, Status::InternalServerError, "Failed to update the project"@)),
{
    if written {
        Ok(Project { id, user_id, name: project.name.clone() })
    } else {
        Err(api_error(Status::InternalServerError, "Failed to update the project"))
    }
}

/// The answer to a deletion under the filter `id` and `owner = user_id`, given
/// how many rows it removed (`None` when the store failed): no row removed is
/// `NotFound`, whether the record never existed or belongs to someone else.
fn deletion(removed: Option<u64>, not_found: &str, failed: &str) -> (r: Result<(), ApiError>)
    ensures
        match removed {
            None => r matches Err(e) && is_error(e, Status::InternalServerError, failed@),
            Some(n) => if n == 0 {
                r matches Err(e) && is_error(e, Status::NotFound, not_found@)
            } else {
                r is Ok
            },
        },
{
    match removed {
        None => Err(api_error(Status::InternalServerError, failed)),
        Some(n) => if n == 0 {
            Err(api_error(Status::NotFound, not_found))
        } else {
            Ok(())
        },
    }
}

/// The answer to deleting a project; see `deletion`.
pub fn project_deleted(removed: Option<u64>) -> (r: Result<(), ApiError>)
    ensures
        match removed {
            None => r matches Err(e) && is_error(e, Status::InternalServerError, "Database Error."@),
            Some(n) => if n == 0 {
                r matches Err(e) && is_error(e, Status::NotFound, "Project not found or access denied"@)
            } else {
                r is Ok
            },
        },
{
    deletion(removed, "Project not found or access denied", "Database Error.")
}

/// The answer to deleting a task; see `deletion`.
pub fn task_deleted(removed: Option<u64>) -> (r: Result<(), ApiError>)
    ensures
        match removed {
            None => r matches Err(e) && is_error(e, Status::InternalServerError, "Database Error"@),
            Some(n) => if n == 0 {
                r matches Err(e) && is_error(e, Status::NotFound, "Task not found or access denied"@)
            } else {
                r is Ok
            },
        },
{
    deletion(removed, "Task not found or access denied", "Database Error")
}

/// The values a task holds after a partial update: each field that the update
/// sets replaces the stored one, each other field keeps its stored value.
#[derive(Debug, Clone)]
pub struct MergedTask {
    pub title: String,
    pub description: Option<String>,
    pub project_id: Option<i64>,
}

/// Merges a partial update into the stored task, field by field.
pub fn merge_task_update(existing: &TaskRow, update: &UpdatedTask) -> (r: MergedTask)
    ensures
        r.title@ == (match update.title {
            Some(t) => t@,
            None => existing.title@,
        }),
        r.description == (match update.description {
            Some(d) => Some(d),
            None => existing.description,
        }),
        r.project_id == (match update.project_id {
            Some(p) => Some(p),
            None => existing.project_id,
        }),
{
    let title = match &update.title {
        Some(t) => t.clone(),
        None => existing.title.clone(),
    };
    let description = match &update.description {
        Some(d) => Some(d.clone()),
        None => clone_text(&existing.description),
    };
    let project_id = match update.project_id {
        Some(p) => Some(p),
        None => existing.project_id,
    };
    MergedTask { title, description, project_id }
}

/// A task read under the filter `id` and `owner = user_id`: one that is
/// missing or owned by someone else is `NotFound` alike.
pub fn task_found(user_id: i64, lookup: Lookup<TaskRow>) -> (r: Result<Tasks, ApiError>)
    ensures
        match lookup {
            Lookup::Found(row) => match row.project_id {
                Some(p) => if valid_date_time(row.created_at) {
                    r matches Ok(t) && t.id == row.id && t.user_id == user_id && t.project_id == p
                        && t.title@ == row.title@ && t.description == row.description
                        && t.created_at == row.created_at
                } else {
                    r matches Err(e) && is_error(e, Status::InternalServerError, "Database error"@)
                },
                None => r matches Err(e) && is_error(e, Status::InternalServerError, "Task has no project"@),
            },
            Lookup::Missing => r matches Err(e) && is_error(e, Status::NotFound, "Task not found or access denied"@),
            Lookup::Failed => r matches Err(e) && is_error(e, Status::InternalServerError, "Database error"@),
        },
{
    match lookup {
        Lookup::Found(row) => {
            let project_id = match row.project_id {
                Some(p) => p,
                None => return Err(api_error(Status::InternalServerError, "Task has no project")),
            };
            let created_at = match parse_date(row.created_at) {
                Ok(t) => t,
                Err(e) => return Err(e),
            };
            Ok(Tasks {
                id: row.id,
                project_id,
                user_id,
                title: row.title,
                description: row.description,
                created_at,
            })
        },
        Lookup::Missing => Err(api_error(Status::NotFound, "Task not found or access denied")),
        Lookup::Failed => Err(api_error(Status::InternalServerError, "Database error")),
    }
}

/// A new task, once the store has inserted it (`Some` of its id) at time
/// `created_at`.
pub fn task_created(user_id: i64, project_id: i64, task: &NewTask, inserted: Option<i64>, created_at: UtcDateTime) -> (r: Result<Tasks, ApiError>)
    ensures
        match inserted {
            Some(id) => r matches Ok(t) && t.id == id && t.user_id == user_id && t.project_id == project_id
                && t.title@ == task.title@ && t.description == task.description && t.created_at == created_at,
            None => r matches Err(e) && is_error(e, Status::InternalServerError, "row not found"@),
        },
{
    match inserted {
        Some(id) => Ok(Tasks {
            id,
            user_id,
            project_id,
            title: task.title.clone(),
            description: clone_text(&task.description),
            created_at,
        }),
        None => Err(api_error(Status::InternalServerError, "row not found")),
    }
}

/// The stored task that an update applies to, read under the filter `id` and
/// `owner = user_id`.
pub fn task_to_update(lookup: Lookup<TaskRow>) -> (r: Result<TaskRow, ApiError>)
    ensures
        match lookup {
            Lookup::Found(row) => r == Ok::<TaskRow, ApiError>(row),
            Lookup::Missing => r matches Err(e) && is_error(e, Status::NotFound, "Task not found or access denied"@),
            Lookup::Failed => r matches Err(e) && is_error(e, Status::InternalServerError, "Database error"@),
        },
{
    match lookup {
        Lookup::Found(row) => Ok(row),
        Lookup::Missing => Err(api_error(Status::NotFound, "Task not found or access denied")),
        Lookup::Failed => Err(api_error(Status::InternalServerError, "Database error")),
    }
}

/// The project whose existence an update must be checked against before it is
/// written: the one it moves the task to, if it moves the task at all.
pub fn project_to_check(update: &UpdatedTask) -> (r: Option<i64>)
    ensures
        r == update.project_id,
{
    update.project_id
}

/// Whether the project that an update moves a task to exists.
pub fn target_project_exists(lookup: Lookup<i64>) -> (r: Result<(), ApiError>)
    ensures
        match lookup {
            Lookup::Found(_) => r is Ok,
            Lookup::Missing => r matches Err(e) && is_error(e, Status::NotFound, "Project not found"@),
            Lookup::Failed => r matches Err(e) && is_error(e, Status::InternalServerError, "Failed to check project existence"@),
        },
{
    match lookup {
        Lookup::Found(_) => Ok(()),
        Lookup::Missing => Err(api_error(Status::NotFound, "Project not found")),
        Lookup::Failed => Err(api_error(Status::InternalServerError, "Failed to check project existence")),
    }
}

/// The updated task, once the store has written the merged values (or failed
/// to).
pub fn task_updated(existing: &TaskRow, merged: MergedTask, written: bool) -> (r: Result<Tasks, ApiError>)
    ensures
        !written ==> (r matches Err(e) && is_error(e, Status::InternalServerError, "Failed to update the task"@)),
        written ==> match merged.project_id {
            None => r matches Err(e) && is_error(e, Status::InternalServerError, "Task has no project"@),
            Some(p) => if valid_date_time(existing.created_at) {
                r matches Ok(t) && t.id == existing.id && t.user_id == existing.user_id && t.project_id == p
                    && t.title@ == merged.title@ && t.description == merged.description
                    && t.created_at == existing.created_at
            } else {
                r matches Err(e) && is_error(e, Status::InternalServerError, "Database error"@)
            },
        },
{
    if !written {
        return Err(api_error(Status::InternalServerError, "Failed to update the task"));
    }
    let project_id = match merged.project_id {
        Some(p) => p,
        None => return Err(api_error(Status::InternalServerError, "Task has no project")),
    };
    let created_at = match parse_date(existing.created_at) {
        Ok(t) => t,
        Err(e) => return Err(e),
    };
    Ok(Tasks {
        id: existing.id,
        user_id: existing.user_id,
        project_id,
        title: merged.title,
        description: merged.description,
        created_at,
    })
}

} // verus!
