//! The HTTP surface: which method and path reach which operation, under the
//! prefix each table is mounted at.

use vstd::prelude::*;

verus! {

/// The prefixes that the three tables are mounted at.
pub const AUTH_PREFIX: &'static str = "/auth";
pub const PROJECT_PREFIX: &'static str = "/project";
pub const TASK_PREFIX: &'static str = "/task";

#[derive(Debug, Clone, Copy, PartialEq, Eq, Structural)]
pub enum Method {
    Get,
    Post,
    Put,
    Delete,
}

/// The operations that requests reach.
#[derive(Debug, Clone, Copy, PartialEq, Eq, Structural)]
pub enum Operation {
    SignIn,
    SignUp,
    CreateProject,
    GetProject,
    GetProjectTasks,
    UpdateProject,
    DeleteProject,
    CreateTask,
    GetTask,
    UpdateTask,
    DeleteTask,
}

/// One entry of a route table: a method and a path pattern, relative to the
/// table's prefix, leading to an operation.
#[derive(Debug, Clone)]
pub struct Route {
    pub method: Method,
    pub path: String,
    pub operation: Operation,
}

pub open spec fn is_route(r: Route, m: Method, path: Seq<char>, op: Operation) -> bool {
    r.method == m && r.path@ == path && r.operation == op
}

fn route(method: Method, path: &str, operation: Operation) -> (r: Route)
    ensures
        is_route(r, method, path@, operation),
{
    Route { method, path: path.to_string(), operation }
}

/// The body of `GET /`.
pub fn index() -> (r: &'static str)
    ensures
        r@ == "Hello, world!"@,
{
    "Hello, world!"
}

/// Sign-in and sign-up, under `/auth`.
pub fn auth_routes() -> (r: Vec<Route>)
    ensures
        r@.len() == 2,
        is_route(r@[0], Method::Post, "/sign-in"@, Operation::SignIn),
        is_route(r@[1], Method::Post, "/sign-up"@, Operation::SignUp),
{
    let mut v: Vec<Route> = Vec::new();
    v.push(route(Method::Post, "/sign-in", Operation::SignIn));
    v.push(route(Method::Post, "/sign-up", Operation::SignUp));
    v
}

/// The project operations, under `/project`.
pub fn project_routes() -> (r: Vec<Route>)
    ensures
        r@.len() == 5,
        is_route(r@[0], Method::Post, "/"@, Operation::CreateProject),
        is_route(r@[1], Method::Get, "/<id>"@, Operation::GetProject),
        is_route(r@[2], Method::Get, "/<id>/tasks"@, Operation::GetProjectTasks),
        is_route(r@[3], Method::Put, "/<id>"@, Operation::UpdateProject),
        is_route(r@[4], Method::Delete, "/<project_id>"@, Operation::DeleteProject),
{
    let mut v: Vec<Route> = Vec::new();
    v.push(route(Method::Post, "/", Operation::CreateProject));
    v.push(route(Method::Get, "/<id>", Operation::GetProject));
    v.push(route(Method::Get, "/<id>/tasks", Operation::GetProjectTasks));
    v.push(route(Method::Put, "/<id>", Operation::UpdateProject));
    v.push(route(Method::Delete, "/<project_id>", Operation::DeleteProject));
    v
}

/// The task operations, under `/task`.
pub fn tasks_routes() -> (r: Vec<Route>)
    ensures
        r@.len() == 4,
        is_route(r@[0], Method::Post, "/?<project_id>"@, Operation::CreateTask),
        is_route(r@[1], Method::Get, "/<id>"@, Operation::GetTask),
        is_route(r@[2], Method::Put, "/<task_id>"@, Operation::UpdateTask),
        is_route(r@[3], Method::Delete, "/<task_id>"@, Operation::DeleteTask),
{
    let mut v: Vec<Route> = Vec::new();
    v.push(route(Method::Post, "/?<project_id>", Operation::CreateTask));
    v.push(route(Method::Get, "/<id>", Operation::GetTask));
    v.push(route(Method::Put, "/<task_id>", Operation::UpdateTask));
    v.push(route(Method::Delete, "/<task_id>", Operation::DeleteTask));
    v
}

} // verus!
