use vstd::prelude::*;

use crate::task::{next_status, Status, Task, TaskView};

verus! {

/// The abstract state of a task store: the tasks in curation order and the
/// optional selection cursor.
pub struct TodoListView {
    pub tasks: Seq<TaskView>,
    pub selected: Option<nat>,
}

impl TodoListView {
    /// The selection, when present, names a task of the sequence.
    pub open spec fn valid(self) -> bool {
        self.selected matches Some(i) ==> i < self.tasks.len()
    }

    /// The store after a task is appended; the selection stays.
    pub open spec fn inserted(self, t: TaskView) -> TodoListView {
        TodoListView { tasks: self.tasks.push(t), selected: self.selected }
    }

    /// The store after the title and detail of the task at `index` are replaced;
    /// its status and the selection stay.
    pub open spec fn updated(self, index: nat, title: Seq<char>, info: Seq<char>) -> TodoListView
        recommends
            index < self.tasks.len(),
    {
        TodoListView {
            tasks: self.tasks.update(
                index as int,
                TaskView { title, info, status: self.tasks[index as int].status },
            ),
            selected: self.selected,
        }
    }

    /// The store after the selected task is removed. With nothing selected it is
    /// unchanged. Otherwise the selection keeps its position, is clamped to the new
    /// last position, or becomes absent when no task is left.
    pub open spec fn after_delete_selected(self) -> TodoListView {
        match self.selected {
            None => self,
            Some(i) => {
                let tasks = self.tasks.remove(i as int);
                TodoListView {
                    tasks,
                    selected: if tasks.len() == 0 {
                        None
                    } else if i < tasks.len() {
                        Some(i)
                    } else {
                        Some((tasks.len() - 1) as nat)
                    },
                }
            },
        }
    }

    /// The store after the selection moves one position forward, wrapping from the
    /// last task to the first. An absent selection goes to the first task.
    pub open spec fn after_select_next(self) -> TodoListView {
        TodoListView {
            tasks: self.tasks,
            selected: if self.tasks.len() == 0 {
                self.selected
            } else {
                match self.selected {
                    None => Some(0),
                    Some(i) => Some(((i + 1) as int % (self.tasks.len() as int)) as nat),
                }
            },
        }
    }

    /// The store after the selection moves one position back, wrapping from the
    /// first task to the last. An absent selection goes to the last task.
    pub open spec fn after_select_previous(self) -> TodoListView {
        TodoListView {
            tasks: self.tasks,
            selected: if self.tasks.len() == 0 {
                self.selected
            } else {
                match self.selected {
                    Some(i) if i > 0 => Some((i - 1) as nat),
                    _ => Some((self.tasks.len() - 1) as nat),
                }
            },
        }
    }

    /// The store after the selected task's status advances on its cycle.
    pub open spec fn after_cycle_status_selected(self) -> TodoListView {
        match self.selected {
            None => self,
            Some(i) => TodoListView {
                tasks: self.tasks.update(
                    i as int,
                    TaskView { status: next_status(self.tasks[i as int].status), ..self.tasks[i as int] },
                ),
                selected: self.selected,
            },
        }
    }
}

/// The one way a store operation can fail.
#[derive(Clone, Copy, Debug, PartialEq, Eq, Structural)]
pub enum StoreError {
    /// The index names no task of the store.
    IndexOutOfRange,
}

/// An ordered collection of tasks with a single optional selection cursor.
pub struct TodoList {
    items: Vec<Task>,
    selected: Option<usize>,
}

impl View for TodoList {
    type V = TodoListView;

    closed spec fn view(&self) -> TodoListView {
        TodoListView {
            tasks: self.items@.map_values(|t: Task| t@),
            selected: match self.selected {
                Some(i) => Some(i as nat),
                None => None,
            },
        }
    }
}

impl TodoList {
    /// The store is well formed: its selection names one of its tasks.
    pub open spec fn wf(&self) -> bool {
        self@.valid()
    }

    /// An empty store with nothing selected.
    pub fn new() -> (r: TodoList)
        ensures
            r@.tasks.len() == 0,
            r@.selected is None,
            r.wf(),
    {
        TodoList { items: Vec::new(), selected: None }
    }

    /// A store holding the given tasks, in order, with nothing selected.
    pub fn from_tasks(items: Vec<Task>) -> (r: TodoList)
        ensures
            r@.tasks == items@.map_values(|t: Task| t@),
            r@.selected is None,
            r.wf(),
    {
        TodoList { items, selected: None }
    }

    /// How many tasks the store holds.
    pub fn len(&self) -> (r: usize)
        ensures
            r == self@.tasks.len(),
    {
        self.items.len()
    }

    /// The task at position `index`.
    pub fn get(&self, index: usize) -> (r: &Task)
        requires
            index < self@.tasks.len(),
        ensures
            r@ == self@.tasks[index as int],
    {
        &self.items[index]
    }

    /// All tasks, in order.
    pub fn tasks(&self) -> (r: &Vec<Task>)
        ensures
            r@.map_values(|t: Task| t@) == self@.tasks,
    {
        &self.items
    }

    /// The selection cursor.
    pub fn selected(&self) -> (r: Option<usize>)
        ensures
            r matches Some(i) ==> self@.selected == Some(i as nat),
            r is None ==> self@.selected is None,
    {
        self.selected
    }

    /// Appends a new task at the end and returns its position; the selection stays.
    pub fn insert(&mut self, title: &str, info: &str, status: Status) -> (r: usize)
        requires
            old(self).wf(),
        ensures
            final(self).wf(),
            r == old(self)@.tasks.len(),
            final(self)@ == old(self)@.inserted(TaskView { title: title@, info: info@, status }),
    {
        let index = self.items.len();
        self.items.push(Task::new(status, title, info));
        proof {
            assert(self@.tasks =~= old(self)@.tasks.push(TaskView { title: title@, info: info@, status }));
        }
        index
    }

    /// Replaces the title and detail of the task at `index`, keeping its status.
    /// Fails, changing nothing, when `index` names no task.
    pub fn update(&mut self, index: usize, title: &str, info: &str) -> (r: Result<(), StoreError>)
        requires
            old(self).wf(),
        ensures
            final(self).wf(),
            r is Err <==> index >= old(self)@.tasks.len(),
            r matches Err(e) ==> e == StoreError::IndexOutOfRange && final(self)@ == old(self)@,
            r is Ok ==> final(self)@ == old(self)@.updated(index as nat, title@, info@),
    {
        if index >= self.items.len() {
            return Err(StoreError::IndexOutOfRange);
        }
        self.items[index].title = title.to_owned();
        self.items[index].info = info.to_owned();
        proof {
            assert(self@.tasks =~= old(self)@.updated(index as nat, title@, info@).tasks);
        }
        Ok(())
    }

    /// Removes the selected task, if any, and recomputes the selection: same
    /// position, clamped to the new last position, or absent when the store is empty.
    pub fn delete_selected(&mut self)
        requires
            old(self).wf(),
        ensures
            final(self).wf(),
            final(self)@ == old(self)@.after_delete_selected(),
    {
        if let Some(i) = self.selected {
            self.items.remove(i);
            let n = self.items.len();
            if n == 0 {
                self.selected = None;
            } else if i < n {
                self.selected = Some(i);
            } else {
                self.selected = Some(n - 1);
            }
            proof {
                assert(self@.tasks =~= old(self)@.tasks.remove(i as int));
            }
        }
    }

    /// Moves the selection one position forward, wrapping at the end.
    pub fn select_next(&mut self)
        requires
            old(self).wf(),
        ensures
            final(self).wf(),
            final(self)@ == old(self)@.after_select_next(),
    {
        let n = self.items.len();
        if n > 0 {
            match self.selected {
                None => self.selected = Some(0),
                Some(i) => {
                    if i + 1 < n {
                        self.selected = Some(i + 1);
                    } else {
                        self.selected = Some(0);
                    }
                },
            }
        }
        proof {
            if n > 0 && old(self).selected is Some {
                let i = old(self).selected->0 as int;
                if i + 1 < n {
                    assert((i + 1) % (n as int) == i + 1) by (nonlinear_arith)
                        requires 0 <= i + 1 < n;
                } else {
                    assert(i + 1 == n);
                    assert((i + 1) % (n as int) == 0) by (nonlinear_arith)
                        requires i + 1 == n, n > 0;
                }
            }
        }
    }

    /// Moves the selection one position back, wrapping at the start.
    pub fn select_previous(&mut self)
        requires
            old(self).wf(),
        ensures
            final(self).wf(),
            final(self)@ == old(self)@.after_select_previous(),
    {
        let n = self.items.len();
        if n > 0 {
            match self.selected {
                Some(i) if i > 0 => self.selected = Some(i - 1),
                _ => self.selected = Some(n - 1),
            }
        }
    }

    /// Advances the selected task's status on its cycle; does nothing without a selection.
    pub fn cycle_status_selected(&mut self)
        requires
            old(self).wf(),
        ensures
            final(self).wf(),
            final(self)@ == old(self)@.after_cycle_status_selected(),
    {
        if let Some(i) = self.selected {
            let s = self.items[i].status.next();
            self.items[i].status = s;
            proof {
                assert(self@.tasks =~= old(self)@.after_cycle_status_selected().tasks);
            }
        }
    }
}

} // verus!
