use vstd::prelude::*;

verus! {

/// Where a task stands in its lifecycle. The three states form a cycle.
#[derive(Clone, Copy, Debug, PartialEq, Eq, Structural)]
pub enum Status {
    Upcoming,
    Active,
    Completed,
}

/// The status that follows `s` on the cycle `Upcoming -> Active -> Completed -> Upcoming`.
pub open spec fn next_status(s: Status) -> Status {
    match s {
        Status::Upcoming => Status::Active,
        Status::Active => Status::Completed,
        Status::Completed => Status::Upcoming,
    }
}

impl Status {
    /// The status that follows this one on the cycle.
    pub fn next(self) -> (r: Status)
        ensures
            r == next_status(self),
    {
        match self {
            Status::Upcoming => Status::Active,
            Status::Active => Status::Completed,
            Status::Completed => Status::Upcoming,
        }
    }
}

/// The mathematical content of a task: its two texts as character sequences and its status.
pub struct TaskView {
    pub title: Seq<char>,
    pub info: Seq<char>,
    pub status: Status,
}

/// A single work item: a title, a free-form detail text and a status.
#[derive(Debug)]
pub struct Task {
    pub title: String,
    pub info: String,
    pub status: Status,
}

impl View for Task {
    type V = TaskView;

    open spec fn view(&self) -> TaskView {
        TaskView { title: self.title@, info: self.info@, status: self.status }
    }
}

impl Task {
    /// A task with the given status and copies of the given texts.
    pub fn new(status: Status, title: &str, info: &str) -> (r: Task)
        ensures
            r@ == (TaskView { title: title@, info: info@, status }),
    {
        Task { status, title: title.to_owned(), info: info.to_owned() }
    }
}

} // verus!
