use vstd::prelude::*;

use crate::request::{bool_text, bool_to_text, decimal, decimal_text, HttpMethod, PaginationRequestTrait, Request};
use crate::token::{format_utc_time, rfc3339_text, UtcTime};

verus! {

/// A page of tasks.
#[derive(Clone, Debug, PartialEq)]
pub struct Tasks {
    pub kind: String,
    pub etag: String,
    pub next_page_token: String,
    pub items: Vec<Task>,
}

/// A task of a task list.
#[derive(Clone, Debug, PartialEq)]
pub struct Task {
    pub kind: String,
    pub id: String,
    pub etag: String,
    pub title: String,
    pub updated: Option<UtcTime>,
    pub self_link: String,
    pub parent: String,
    pub position: String,
    pub notes: String,
    /// `needsAction` or `completed`.
    pub status: String,
    pub due: Option<UtcTime>,
    pub completed: Option<UtcTime>,
    pub deleted: bool,
    pub hidden: bool,
    pub links: Vec<TaskLink>,
    pub web_view_link: String,
    pub assignment_info: Option<AssignmentInfo>,
}

/// A link attached to a task.
#[derive(Clone, Debug, PartialEq)]
pub struct TaskLink {
    pub link_type: String,
    pub description: String,
    pub link: String,
}

/// Where an assigned task comes from.
#[derive(Clone, Debug, PartialEq)]
pub struct AssignmentInfo {
    pub link_to_task: String,
    pub surface_type: ContextType,
    pub drive_resource_info: Option<DriveResourceInfo>,
    pub space_info: Option<SpaceInfo>,
}

/// The kind of surface an assigned task originates from.
#[derive(Clone, Copy, Debug, PartialEq, Eq, Structural)]
pub enum ContextType {
    ContextTypeUnspecified,
    Gmail,
    Document,
    Space,
}

/// The Drive file an assigned task originates from.
#[derive(Clone, Debug, PartialEq)]
pub struct DriveResourceInfo {
    pub drive_file_id: String,
    pub resource_key: String,
}

/// The Chat space an assigned task originates from.
#[derive(Clone, Debug, PartialEq)]
pub struct SpaceInfo {
    pub space: String,
}

impl Task {
    /// An empty task that still needs action.
    pub fn new() -> (r: Task)
        ensures
            r.kind@.len() == 0,
            r.id@.len() == 0,
            r.etag@.len() == 0,
            r.title@.len() == 0,
            r.updated is None,
            r.self_link@.len() == 0,
            r.parent@.len() == 0,
            r.position@.len() == 0,
            r.notes@.len() == 0,
            r.status@ == "needsAction"@,
            r.due is None,
            r.completed is None,
            !r.deleted,
            !r.hidden,
            r.links@.len() == 0,
            r.web_view_link@.len() == 0,
            r.assignment_info is None,
    {
        Task {
            kind: String::new(),
            id: String::new(),
            etag: String::new(),
            title: String::new(),
            updated: None,
            self_link: String::new(),
            parent: String::new(),
            position: String::new(),
            notes: String::new(),
            status: String::from_str("needsAction"),
            due: None,
            completed: None,
            deleted: false,
            hidden: false,
            links: Vec::new(),
            web_view_link: String::new(),
            assignment_info: None,
        }
    }
}

/// Builder mode before an operation is chosen.
pub struct Uninitialized;

/// Builder mode for listing task lists.
pub struct TaskListMode;

/// Builder mode for inserting a task.
pub struct TaskInsertMode;

/// Builder mode for deleting a task.
pub struct TaskDeleteMode;

/// Builder mode for listing the tasks of a list; the task filters apply here.
pub struct TasksMode;

/// Builder mode for updating a task.
pub struct TaskPatchMode;

/// A request builder for the Tasks API. The mode `T` decides which settings
/// are offered.
pub struct TasksClient<T> {
    pub request: Request,
    pub task: Option<Task>,
    pub mode: std::marker::PhantomData<T>,
}

/// The address of the tasks of a task list.
pub open spec fn tasks_url(task_list_id: Seq<char>) -> Seq<char> {
    "https://tasks.googleapis.com/tasks/v1/lists/"@ + task_list_id + "/tasks"@
}

/// The address of one task of a task list.
pub open spec fn task_url(task_list_id: Seq<char>, task_id: Seq<char>) -> Seq<char> {
    tasks_url(task_list_id) + "/"@ + task_id
}

/// The body that marks a task completed.
pub open spec fn completion_body() -> Seq<char> {
    "{\"status\":\"completed\"}"@
}

fn tasks_address(task_list_id: &str) -> (r: String)
    ensures
        r@ == tasks_url(task_list_id@),
{
    let mut url = String::from_str("https://tasks.googleapis.com/tasks/v1/lists/");
    url.append(task_list_id);
    url.append("/tasks");
    url
}

fn task_address(task_list_id: &str, task_id: &str) -> (r: String)
    ensures
        r@ == task_url(task_list_id@, task_id@),
{
    let mut url = tasks_address(task_list_id);
    url.append("/");
    url.append(task_id);
    url
}

impl TasksClient<Uninitialized> {
    /// A builder with no operation chosen yet.
    pub fn new() -> (r: TasksClient<Uninitialized>)
        ensures
            r.request.url@ == Seq::<char>::empty(),
            r.request.method == HttpMethod::Get,
            r.request.params@.len() == 0,
            r.request.body is None,
            r.task is None,
    {
        TasksClient { request: Request::new(), task: None, mode: std::marker::PhantomData }
    }

    /// Lists the task lists of the signed-in user.
    pub fn get_task_lists(self) -> (r: TasksClient<TaskListMode>)
        ensures
            r.request.url@ == "https://tasks.googleapis.com/tasks/v1/users/@me/lists"@,
            r.request.method == HttpMethod::Get,
            r.request.params == self.request.params,
            r.request.body == self.request.body,
            r.task is None,
    {
        let mut request = self.request;
        request.url = String::from_str("https://tasks.googleapis.com/tasks/v1/users/@me/lists");
        request.method = HttpMethod::Get;
        TasksClient { request, task: None, mode: std::marker::PhantomData }
    }

    /// Lists the tasks of `task_list_id`.
    pub fn get_tasks(self, task_list_id: &str) -> (r: TasksClient<TasksMode>)
        ensures
            r.request.url@ == tasks_url(task_list_id@),
            r.request.method == HttpMethod::Get,
            r.request.params == self.request.params,
            r.request.body == self.request.body,
            r.task is None,
    {
        let mut request = self.request;
        request.url = tasks_address(task_list_id);
        request.method = HttpMethod::Get;
        TasksClient { request, task: None, mode: std::marker::PhantomData }
    }

    /// Inserts a new task, empty until its setters fill it, into `task_list_id`.
    pub fn insert_task(self, task_list_id: &str) -> (r: TasksClient<TaskInsertMode>)
        ensures
            r.request.url@ == tasks_url(task_list_id@),
            r.request.method == HttpMethod::Post,
            r.request.params == self.request.params,
            r.request.body == self.request.body,
            r.task is Some,
            r.task->0.title@.len() == 0,
            r.task->0.status@ == "needsAction"@,
    {
        let mut request = self.request;
        request.url = tasks_address(task_list_id);
        request.method = HttpMethod::Post;
        TasksClient { request, task: Some(Task::new()), mode: std::marker::PhantomData }
    }

    /// Marks the task `task_id` of `task_list_id` completed: a PATCH whose body
    /// sets the status.
    pub fn complete_task(self, task_id: &str, task_list_id: &str) -> (r: TasksClient<TaskPatchMode>)
        ensures
            r.request.url@ == task_url(task_list_id@, task_id@),
            r.request.method == HttpMethod::Patch,
            r.request.params == self.request.params,
            r.request.body is Some,
            r.request.body->0@ == completion_body(),
            r.task is None,
    {
        let mut request = self.request;
        request.url = task_address(task_list_id, task_id);
        request.method = HttpMethod::Patch;
        request.body = Some(String::from_str("{\"status\":\"completed\"}"));
        TasksClient { request, task: None, mode: std::marker::PhantomData }
    }

    /// Deletes the task `task_id` of `task_list_id`.
    pub fn delete_task(self, task_id: &str, task_list_id: &str) -> (r: TasksClient<TaskDeleteMode>)
        ensures
            r.request.url@ == task_url(task_list_id@, task_id@),
            r.request.method == HttpMethod::Delete,
            r.request.params == self.request.params,
            r.request.body == self.request.body,
            r.task is None,
    {
        let mut request = self.request;
        request.url = task_address(task_list_id, task_id);
        request.method = HttpMethod::Delete;
        TasksClient { request, task: None, mode: std::marker::PhantomData }
    }
}

impl<T> TasksClient<T> {
    /// The body to send with the request: none for a GET or a DELETE, the
    /// serialized task `payload` for a POST, and the request's own body for
    /// a PATCH.
    pub fn outgoing_body(&self, payload: Option<String>) -> (r: Option<String>)
        ensures
            self.request.method == HttpMethod::Get || self.request.method == HttpMethod::Delete ==> r is None,
            self.request.method == HttpMethod::Post ==> r == payload,
            self.request.method == HttpMethod::Patch ==> r == self.request.body,
    {
        match self.request.method {
            HttpMethod::Get => None,
            HttpMethod::Delete => None,
            HttpMethod::Post => payload,
            HttpMethod::Patch => self.request.body.clone(),
        }
    }

    /// `r` is `self` with the parameter `k = v` set, all else kept.
    pub open spec fn sets(&self, r: TasksClient<T>, k: Seq<char>, v: Seq<char>) -> bool {
        self.request.sets(r.request, k, v) && r.task == self.task
    }

    fn with_param(self, key: &str, value: String) -> (r: TasksClient<T>)
        ensures
            self.sets(r, key@, value@),
    {
        let mut request = self.request;
        request.insert_param(String::from_str(key), value);
        TasksClient { request, task: self.task, mode: std::marker::PhantomData }
    }

    fn with_time(self, key: &str, t: UtcTime) -> (r: TasksClient<T>)
        ensures
            match rfc3339_text(t.secs, t.nanos) {
                Some(s) => self.sets(r, key@, s),
                None => r.request == self.request && r.task == self.task,
            },
    {
        match format_utc_time(&t) {
            Some(s) => self.with_param(key, s),
            None => self,
        }
    }
}

impl PaginationRequestTrait for TasksClient<TaskListMode> {
    /// The most task lists on one page (`maxResults`).
    fn max_results(self, max: i64) -> (r: TasksClient<TaskListMode>)
        ensures
            self.sets(r, "maxResults"@, decimal(max as int)),
    {
        self.with_param("maxResults", decimal_text(max))
    }

    /// The page to return (`pageToken`).
    fn page_token(self, token: &str) -> (r: TasksClient<TaskListMode>)
        ensures
            self.sets(r, "pageToken"@, token@),
    {
        self.with_param("pageToken", String::from_str(token))
    }
}

impl PaginationRequestTrait for TasksClient<TasksMode> {
    /// The most tasks on one page (`maxResults`).
    fn max_results(self, max: i64) -> (r: TasksClient<TasksMode>)
        ensures
            self.sets(r, "maxResults"@, decimal(max as int)),
    {
        self.with_param("maxResults", decimal_text(max))
    }

    /// The page to return (`pageToken`).
    fn page_token(self, token: &str) -> (r: TasksClient<TasksMode>)
        ensures
            self.sets(r, "pageToken"@, token@),
    {
        self.with_param("pageToken", String::from_str(token))
    }
}

impl TasksClient<TasksMode> {
    /// Only tasks completed before `completed_max` (`completedMax`, RFC 3339).
    pub fn get_completed_max(self, completed_max: UtcTime) -> (r: TasksClient<TasksMode>)
        ensures
            match rfc3339_text(completed_max.secs, completed_max.nanos) {
                Some(s) => self.sets(r, "completedMax"@, s),
                None => r.request == self.request && r.task == self.task,
            },
    {
        self.with_time("completedMax", completed_max)
    }

    /// Only tasks completed at or after `completed_min` (`completedMin`, RFC 3339).
    pub fn get_completed_min(self, completed_min: UtcTime) -> (r: TasksClient<TasksMode>)
        ensures
            match rfc3339_text(completed_min.secs, completed_min.nanos) {
                Some(s) => self.sets(r, "completedMin"@, s),
                None => r.request == self.request && r.task == self.task,
            },
    {
        self.with_time("completedMin", completed_min)
    }

    /// Only tasks due before `due_max` (`dueMax`, RFC 3339).
    pub fn get_due_max(self, due_max: UtcTime) -> (r: TasksClient<TasksMode>)
        ensures
            match rfc3339_text(due_max.secs, due_max.nanos) {
                Some(s) => self.sets(r, "dueMax"@, s),
                None => r.request == self.request && r.task == self.task,
            },
    {
        self.with_time("dueMax", due_max)
    }

    /// Only tasks due at or after `due_min` (`dueMin`, RFC 3339).
    pub fn get_due_min(self, due_min: UtcTime) -> (r: TasksClient<TasksMode>)
        ensures
            match rfc3339_text(due_min.secs, due_min.nanos) {
                Some(s) => self.sets(r, "dueMin"@, s),
                None => r.request == self.request && r.task == self.task,
            },
    {
        self.with_time("dueMin", due_min)
    }

    /// Only tasks updated at or after `updated_min` (`updatedMin`, RFC 3339).
    pub fn get_updated_min(self, updated_min: UtcTime) -> (r: TasksClient<TasksMode>)
        ensures
            match rfc3339_text(updated_min.secs, updated_min.nanos) {
                Some(s) => self.sets(r, "updatedMin"@, s),
                None => r.request == self.request && r.task == self.task,
            },
    {
        self.with_time("updatedMin", updated_min)
    }

    /// Whether completed tasks are listed (`showCompleted`).
    pub fn show_completed(self, show_completed: bool) -> (r: TasksClient<TasksMode>)
        ensures
            self.sets(r, "showCompleted"@, bool_text(show_completed)),
    {
        self.with_param("showCompleted", bool_to_text(show_completed))
    }

    /// Whether deleted tasks are listed (`showDeleted`).
    pub fn show_deleted(self, show_deleted: bool) -> (r: TasksClient<TasksMode>)
        ensures
            self.sets(r, "showDeleted"@, bool_text(show_deleted)),
    {
        self.with_param("showDeleted", bool_to_text(show_deleted))
    }

    /// Whether hidden tasks are listed (`showHidden`).
    pub fn show_hidden(self, show_hidden: bool) -> (r: TasksClient<TasksMode>)
        ensures
            self.sets(r, "showHidden"@, bool_text(show_hidden)),
    {
        self.with_param("showHidden", bool_to_text(show_hidden))
    }

    /// Whether assigned tasks are listed (`showAssigned`).
    pub fn show_assigned(self, show_assigned: bool) -> (r: TasksClient<TasksMode>)
        ensures
            self.sets(r, "showAssigned"@, bool_text(show_assigned)),
    {
        self.with_param("showAssigned", bool_to_text(show_assigned))
    }
}

/// `r` is `t` where a task is present, with `f` applied to it.
pub open spec fn task_updated(t: Option<Task>, r: Option<Task>, f: spec_fn(Task, Task) -> bool) -> bool {
    match t {
        Some(a) => r is Some && f(a, r->0),
        None => r is None,
    }
}

impl TasksClient<TaskInsertMode> {
    /// Places the new task under the parent `parent_id` (`parent`).
    pub fn set_parent(self, parent_id: &str) -> (r: TasksClient<TaskInsertMode>)
        ensures
            self.sets(r, "parent"@, parent_id@),
    {
        self.with_param("parent", String::from_str(parent_id))
    }

    /// Places the new task after the sibling `previous_id` (`previous`).
    pub fn set_previous(self, previous_id: &str) -> (r: TasksClient<TaskInsertMode>)
        ensures
            self.sets(r, "previous"@, previous_id@),
    {
        self.with_param("previous", String::from_str(previous_id))
    }

    /// Replaces the task to insert.
    pub fn set_task(self, task: Task) -> (r: TasksClient<TaskInsertMode>)
        ensures
            r.request == self.request,
            r.task == Some(task),
    {
        TasksClient { request: self.request, task: Some(task), mode: std::marker::PhantomData }
    }

    /// Sets the title of the task to insert.
    pub fn set_task_title(self, title: &str) -> (r: TasksClient<TaskInsertMode>)
        ensures
            r.request == self.request,
            task_updated(self.task, r.task, |a: Task, b: Task| b == (Task { title: b.title, ..a }) && b.title@ == title@),
    {
        let task = match self.task {
            Some(mut t) => {
                t.title = String::from_str(title);
                Some(t)
            },
            None => None,
        };
        TasksClient { request: self.request, task, mode: std::marker::PhantomData }
    }

    /// Sets the ETag of the task to insert.
    pub fn set_task_etag(self, etag: &str) -> (r: TasksClient<TaskInsertMode>)
        ensures
            r.request == self.request,
            task_updated(self.task, r.task, |a: Task, b: Task| b == (Task { etag: b.etag, ..a }) && b.etag@ == etag@),
    {
        let task = match self.task {
            Some(mut t) => {
                t.etag = String::from_str(etag);
                Some(t)
            },
            None => None,
        };
        TasksClient { request: self.request, task, mode: std::marker::PhantomData }
    }

    /// Sets the notes of the task to insert.
    pub fn set_task_notes(self, notes: &str) -> (r: TasksClient<TaskInsertMode>)
        ensures
            r.request == self.request,
            task_updated(self.task, r.task, |a: Task, b: Task| b == (Task { notes: b.notes, ..a }) && b.notes@ == notes@),
    {
        let task = match self.task {
            Some(mut t) => {
                t.notes = String::from_str(notes);
                Some(t)
            },
            None => None,
        };
        TasksClient { request: self.request, task, mode: std::marker::PhantomData }
    }

    /// Sets the due date of the task to insert.
    pub fn set_task_due(self, due: UtcTime) -> (r: TasksClient<TaskInsertMode>)
        ensures
            r.request == self.request,
            task_updated(self.task, r.task, |a: Task, b: Task| b == (Task { due: Some(due), ..a })),
    {
        let task = match self.task {
            Some(mut t) => {
                t.due = Some(due);
                Some(t)
            },
            None => None,
        };
        TasksClient { request: self.request, task, mode: std::marker::PhantomData }
    }

    /// Sets the completion instant of the task to insert.
    pub fn set_task_completed(self, completed: UtcTime) -> (r: TasksClient<TaskInsertMode>)
        ensures
            r.request == self.request,
            task_updated(self.task, r.task, |a: Task, b: Task| b == (Task { completed: Some(completed), ..a })),
    {
        let task = match self.task {
            Some(mut t) => {
                t.completed = Some(completed);
                Some(t)
            },
            None => None,
        };
        TasksClient { request: self.request, task, mode: std::marker::PhantomData }
    }

    /// Sets whether the task to insert is hidden.
    pub fn set_task_hidden(self, hidden: bool) -> (r: TasksClient<TaskInsertMode>)
        ensures
            r.request == self.request,
            task_updated(self.task, r.task, |a: Task, b: Task| b == (Task { hidden: hidden, ..a })),
    {
        let task = match self.task {
            Some(mut t) => {
                t.hidden = hidden;
                Some(t)
            },
            None => None,
        };
        TasksClient { request: self.request, task, mode: std::marker::PhantomData }
    }

    /// Sets the links of the task to insert.
    pub fn set_task_links(self, links: Vec<TaskLink>) -> (r: TasksClient<TaskInsertMode>)
        ensures
            r.request == self.request,
            task_updated(self.task, r.task, |a: Task, b: Task| b == (Task { links: links, ..a })),
    {
        let task = match self.task {
            Some(mut t) => {
                t.links = links;
                Some(t)
            },
            None => None,
        };
        TasksClient { request: self.request, task, mode: std::marker::PhantomData }
    }
}

} // verus!
