use vstd::prelude::*;

verus! {

broadcast use vstd::std_specs::vec::group_vec_axioms;

/// Lifecycle state of a project.
#[derive(Clone, Copy, Debug, PartialEq, Eq, Structural)]
pub enum Status {
    Ignore,
    Abandoned,
    Maybe,
    Paused,
    Active,
}

/// The status that a lowercase token names, if it names one.
pub open spec fn status_of(token: Seq<char>) -> Option<Status> {
    if token == "ignore"@ {
        Some(Status::Ignore)
    } else if token == "abandoned"@ {
        Some(Status::Abandoned)
    } else if token == "maybe"@ {
        Some(Status::Maybe)
    } else if token == "paused"@ {
        Some(Status::Paused)
    } else if token == "active"@ {
        Some(Status::Active)
    } else {
        None
    }
}

/// Whether `a` and `b` hold the same characters.
pub fn same_text(a: &str, b: &str) -> (r: bool)
    ensures
        r == (a@ == b@),
{
    let n = a.unicode_len();
    if n != b.unicode_len() {
        return false;
    }
    let mut i: usize = 0;
    while i < n
        invariant
            n == a@.len(),
            n == b@.len(),
            i <= n,
            forall|k: int| 0 <= k < i ==> a@[k] == b@[k],
        decreases n - i,
    {
        if a.get_char(i) != b.get_char(i) {
            return false;
        }
        i = i + 1;
    }
    assert(a@ =~= b@);
    true
}

/// Maps a lowercase token to the status it names; any other token gives `None`.
pub fn parse_status(token: &str) -> (r: Option<Status>)
    ensures
        r == status_of(token@),
{
    if same_text(token, "ignore") {
        Some(Status::Ignore)
    } else if same_text(token, "abandoned") {
        Some(Status::Abandoned)
    } else if same_text(token, "maybe") {
        Some(Status::Maybe)
    } else if same_text(token, "paused") {
        Some(Status::Paused)
    } else if same_text(token, "active") {
        Some(Status::Active)
    } else {
        None
    }
}

/// The mathematical value of a task: its text as characters, its subtasks as models.
pub ghost struct TaskModel {
    pub title: Seq<char>,
    pub done: bool,
    pub time_spent: u32,
    pub time_estimate: Option<usize>,
    pub tasks: Seq<TaskModel>,
}

/// One entry of a project's task tree.
#[derive(Debug, PartialEq)]
pub struct Task {
    pub title: String,
    pub done: bool,
    pub time_spent: u32,
    pub time_estimate: Option<usize>,
    pub tasks: Vec<Task>,
}

pub open spec fn task_model(t: Task) -> TaskModel
    decreases t,
{

    TaskModel {
        title: t.title@,
        done: t.done,
        time_spent: t.time_spent,
        time_estimate: t.time_estimate,
        tasks: Seq::new(
            t.tasks@.len(),
            |i: int|
                if 0 <= i < t.tasks@.len() {
                    task_model(t.tasks[i])
                } else {
                    arbitrary()
                },
        ),
    }
}

/// The models of a sequence of tasks, in order.
pub open spec fn tasks_model(v: Seq<Task>) -> Seq<TaskModel> {
    Seq::new(v.len(), |i: int| task_model(v[i]))
}

/// The mathematical value of a project.
pub ghost struct ProjectModel {
    pub title: Seq<char>,
    pub status: Option<Status>,
    pub tasks: Seq<TaskModel>,
}

/// A project read from one document: its title, its status and its top-level tasks.
#[derive(Debug, PartialEq)]
pub struct Project {
    pub title: String,
    pub status: Option<Status>,
    pub tasks: Vec<Task>,
}

pub open spec fn project_model(p: Project) -> ProjectModel {
    ProjectModel { title: p.title@, status: p.status, tasks: tasks_model(p.tasks@) }
}

} // verus!
