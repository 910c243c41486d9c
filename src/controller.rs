use vstd::prelude::*;

use crate::store::{TodoList, TodoListView};
use crate::task::{Status, TaskView};

verus! {

/// Relies on `String::push`: the character is appended at the end of the string.
#[verifier::external_body]
fn push_char(s: &mut String, c: char)
    ensures
        final(s)@ == old(s)@.push(c),
{
    s.push(c)
}

/// Relies on `String::pop`: the last character is removed and returned; an empty
/// string is left as it is and `None` comes back.
#[verifier::external_body]
fn pop_char(s: &mut String) -> (r: Option<char>)
    ensures
        old(s)@.len() == 0 ==> r is None && final(s)@ == old(s)@,
        old(s)@.len() > 0 ==> r == Some(old(s)@.last()) && final(s)@ == old(s)@.drop_last(),
{
    s.pop()
}

/// A key press, as far as the interface tells keys apart.
#[derive(Clone, Copy, Debug, PartialEq, Eq, Structural)]
pub enum Key {
    Char(char),
    Up,
    Down,
    Left,
    Right,
    Tab,
    Enter,
    Esc,
    Backspace,
    Delete,
    /// Any key that no mode reacts to.
    Other,
}

/// Which text buffer of an edit session receives keystrokes.
#[derive(Clone, Copy, Debug, PartialEq, Eq, Structural)]
pub enum CurrentlyEditing {
    Title,
    Info,
}

/// The abstract content of an edit session.
pub struct EditSessionView {
    pub target: Option<nat>,
    pub field: CurrentlyEditing,
    pub title: Seq<char>,
    pub info: Seq<char>,
}

/// The draft of one task while the interface is in Edit mode.
#[derive(Debug)]
pub struct EditSession {
    /// The position of the task being revised, or `None` for a new task.
    pub target: Option<usize>,
    pub currently_editing: CurrentlyEditing,
    pub title_field: String,
    pub info_field: String,
}

impl View for EditSession {
    type V = EditSessionView;

    open spec fn view(&self) -> EditSessionView {
        EditSessionView {
            target: match self.target {
                Some(t) => Some(t as nat),
                None => None,
            },
            field: self.currently_editing,
            title: self.title_field@,
            info: self.info_field@,
        }
    }
}

/// The top-level state of the interface, in abstract form.
pub enum ModeView {
    View,
    Edit(EditSessionView),
    Help,
}

/// The top-level state of the interface. Only Edit mode carries a draft.
#[derive(Debug)]
pub enum Mode {
    View,
    Edit(EditSession),
    Help,
}

impl View for Mode {
    type V = ModeView;

    open spec fn view(&self) -> ModeView {
        match self {
            Mode::View => ModeView::View,
            Mode::Edit(s) => ModeView::Edit(s@),
            Mode::Help => ModeView::Help,
        }
    }
}

impl EditSessionView {
    /// The session that creating a new task starts with.
    pub open spec fn fresh() -> EditSessionView {
        EditSessionView {
            target: None,
            field: CurrentlyEditing::Title,
            title: Seq::empty(),
            info: Seq::empty(),
        }
    }

    /// The session that revising the task at `i` of `list` starts with.
    pub open spec fn revising(list: TodoListView, i: nat) -> EditSessionView {
        EditSessionView {
            target: Some(i),
            field: CurrentlyEditing::Title,
            title: list.tasks[i as int].title,
            info: list.tasks[i as int].info,
        }
    }

    /// The session with the other field active.
    pub open spec fn toggled(self) -> EditSessionView {
        EditSessionView {
            field: match self.field {
                CurrentlyEditing::Title => CurrentlyEditing::Info,
                CurrentlyEditing::Info => CurrentlyEditing::Title,
            },
            ..self
        }
    }

    /// The session with `c` appended to the active buffer.
    pub open spec fn typed(self, c: char) -> EditSessionView {
        match self.field {
            CurrentlyEditing::Title => EditSessionView { title: self.title.push(c), ..self },
            CurrentlyEditing::Info => EditSessionView { info: self.info.push(c), ..self },
        }
    }

    /// The session with the last character of the active buffer removed, if it has one.
    pub open spec fn erased(self) -> EditSessionView {
        match self.field {
            CurrentlyEditing::Title => if self.title.len() == 0 {
                self
            } else {
                EditSessionView { title: self.title.drop_last(), ..self }
            },
            CurrentlyEditing::Info => if self.info.len() == 0 {
                self
            } else {
                EditSessionView { info: self.info.drop_last(), ..self }
            },
        }
    }

    /// The store once this session is committed to `list`: an empty title changes
    /// nothing; otherwise the target task is revised, or a new `Upcoming` task is
    /// appended when there is no target.
    pub open spec fn committed_to(self, list: TodoListView) -> TodoListView {
        if self.title.len() == 0 {
            list
        } else {
            match self.target {
                Some(t) => list.updated(t, self.title, self.info),
                None => list.inserted(
                    TaskView { title: self.title, info: self.info, status: Status::Upcoming },
                ),
            }
        }
    }
}

/// The keys that open a new-task draft.
pub open spec fn is_new_task_key(k: Key) -> bool {
    k == Key::Char('n') || k == Key::Char('i') || k == Key::Char('a') || k == Key::Char('o')
}

/// The keys that cycle the selected task's status in View mode.
pub open spec fn is_toggle_status_key(k: Key) -> bool {
    k == Key::Char('l') || k == Key::Right || k == Key::Tab || k == Key::Left || k == Key::Char('t')
}

/// The abstract state of the interface.
pub struct AppView {
    pub exit: bool,
    pub list: TodoListView,
    pub mode: ModeView,
}

impl AppView {
    /// The store is well formed and an edit session revises a task that exists.
    pub open spec fn valid(self) -> bool {
        &&& self.list.valid()
        &&& (self.mode matches ModeView::Edit(s) ==> (s.target matches Some(t) ==> t < self.list.tasks.len()))
    }

    /// The state after one key press.
    pub open spec fn step(self, key: Key) -> AppView {
        match self.mode {
            ModeView::View => if key == Key::Char('q') {
                AppView { exit: true, ..self }
            } else if is_new_task_key(key) {
                AppView { mode: ModeView::Edit(EditSessionView::fresh()), ..self }
            } else if key == Key::Char('j') || key == Key::Down {
                AppView { list: self.list.after_select_next(), ..self }
            } else if key == Key::Char('k') || key == Key::Up {
                AppView { list: self.list.after_select_previous(), ..self }
            } else if key == Key::Char('h') {
                AppView { mode: ModeView::Help, ..self }
            } else if key == Key::Char('e') {
                match self.list.selected {
                    Some(i) => AppView {
                        mode: ModeView::Edit(EditSessionView::revising(self.list, i)),
                        ..self
                    },
                    None => self,
                }
            } else if key == Key::Delete || key == Key::Backspace || key == Key::Char('d') {
                AppView { list: self.list.after_delete_selected(), ..self }
            } else if is_toggle_status_key(key) {
                AppView { list: self.list.after_cycle_status_selected(), ..self }
            } else {
                self
            },
            ModeView::Edit(s) => match key {
                Key::Esc => AppView { mode: ModeView::View, ..self },
                Key::Tab | Key::Up | Key::Down => AppView { mode: ModeView::Edit(s.toggled()), ..self },
                Key::Backspace => AppView { mode: ModeView::Edit(s.erased()), ..self },
                Key::Char(c) => AppView { mode: ModeView::Edit(s.typed(c)), ..self },
                Key::Enter => match s.field {
                    CurrentlyEditing::Title => AppView {
                        mode: ModeView::Edit(EditSessionView { field: CurrentlyEditing::Info, ..s }),
                        ..self
                    },
                    CurrentlyEditing::Info => AppView {
                        list: s.committed_to(self.list),
                        mode: ModeView::View,
                        ..self
                    },
                },
                _ => self,
            },
            ModeView::Help => if key == Key::Esc {
                AppView { mode: ModeView::View, ..self }
            } else {
                self
            },
        }
    }
}

/// The interaction controller: the task store, the current mode with its draft,
/// and the request to leave.
pub struct App {
    exit: bool,
    list: TodoList,
    mode: Mode,
}

impl View for App {
    type V = AppView;

    closed spec fn view(&self) -> AppView {
        AppView { exit: self.exit, list: self.list@, mode: self.mode@ }
    }
}

impl Default for App {
    /// An empty store, View mode, no exit request.
    fn default() -> (r: App)
        ensures
            r.wf(),
            r@.exit == false,
            r@.list.tasks.len() == 0,
            r@.list.selected is None,
            r@.mode == ModeView::View,
    {
        App { exit: false, list: TodoList::new(), mode: Mode::View }
    }
}

impl EditSession {
    /// Switches the active field between Title and Info.
    pub fn toggle_editing_field(&mut self)
        ensures
            final(self)@ == old(self)@.toggled(),
    {
        match self.currently_editing {
            CurrentlyEditing::Title => self.currently_editing = CurrentlyEditing::Info,
            CurrentlyEditing::Info => self.currently_editing = CurrentlyEditing::Title,
        }
    }

    /// Appends `c` to the active buffer.
    pub fn type_char(&mut self, c: char)
        ensures
            final(self)@ == old(self)@.typed(c),
    {
        match self.currently_editing {
            CurrentlyEditing::Title => push_char(&mut self.title_field, c),
            CurrentlyEditing::Info => push_char(&mut self.info_field, c),
        }
    }

    /// Removes the last character of the active buffer, if it has one.
    pub fn erase_char(&mut self)
        ensures
            final(self)@ == old(self)@.erased(),
    {
        match self.currently_editing {
            CurrentlyEditing::Title => {
                let _ = pop_char(&mut self.title_field);
            },
            CurrentlyEditing::Info => {
                let _ = pop_char(&mut self.info_field);
            },
        }
    }
}

impl App {
    /// The controller is well formed; see `AppView::valid`.
    pub open spec fn wf(&self) -> bool {
        self@.valid()
    }

    /// A controller in View mode over the given store.
    pub fn with_list(list: TodoList) -> (r: App)
        requires
            list.wf(),
        ensures
            r.wf(),
            r@ == (AppView { exit: false, list: list@, mode: ModeView::View }),
    {
        App { exit: false, list, mode: Mode::View }
    }

    /// Whether leaving has been requested.
    pub fn is_exiting(&self) -> (r: bool)
        ensures
            r == self@.exit,
    {
        self.exit
    }

    /// The task store.
    pub fn list(&self) -> (r: &TodoList)
        ensures
            r@ == self@.list,
    {
        &self.list
    }

    /// The current mode, with the draft when in Edit mode.
    pub fn mode(&self) -> (r: &Mode)
        ensures
            r@ == self@.mode,
    {
        &self.mode
    }

    /// Handles one key press according to the current mode.
    pub fn handle_key_events(&mut self, key: Key)
        requires
            old(self).wf(),
        ensures
            final(self).wf(),
            final(self)@ == old(self)@.step(key),
    {
        let mut mode = Mode::View;
        std::mem::swap(&mut mode, &mut self.mode);
        match mode {
            Mode::View => self.handle_view_key(key),
            Mode::Edit(session) => self.handle_edit_key(session, key),
            Mode::Help => {
                if key != Key::Esc {
                    self.mode = Mode::Help;
                }
            },
        }
    }

    fn handle_view_key(&mut self, key: Key)
        requires
            old(self).wf(),
            old(self)@.mode == ModeView::View,
        ensures
            final(self).wf(),
            final(self)@ == old(self)@.step(key),
    {
        match key {
            Key::Char('q') => self.exit(),
            Key::Char('n') | Key::Char('i') | Key::Char('a') | Key::Char('o') => {
                self.mode = Mode::Edit(
                    EditSession {
                        target: None,
                        currently_editing: CurrentlyEditing::Title,
                        title_field: String::new(),
                        info_field: String::new(),
                    },
                );
            },
            Key::Char('j') | Key::Down => self.list.select_next(),
            Key::Char('k') | Key::Up => self.list.select_previous(),
            Key::Char('h') => self.mode = Mode::Help,
            Key::Char('e') => self.edit_task(),
            Key::Delete | Key::Backspace | Key::Char('d') => self.delete_task(),
            Key::Char('l') | Key::Right | Key::Tab | Key::Left | Key::Char('t') => self.toggle_status(),
            _ => {},
        }
    }

    fn handle_edit_key(&mut self, session: EditSession, key: Key)
        requires
            old(self)@.list.valid(),
            old(self)@.mode == ModeView::View,
            session.target matches Some(t) ==> t < old(self)@.list.tasks.len(),
        ensures
            final(self).wf(),
            final(self)@ == (AppView { mode: ModeView::Edit(session@), ..old(self)@ }).step(key),
    {
        let mut session = session;
        match key {
            Key::Esc => {},
            Key::Tab | Key::Up | Key::Down => {
                session.toggle_editing_field();
                self.mode = Mode::Edit(session);
            },
            Key::Backspace => {
                session.erase_char();
                self.mode = Mode::Edit(session);
            },
            Key::Char(c) => {
                session.type_char(c);
                self.mode = Mode::Edit(session);
            },
            Key::Enter => match session.currently_editing {
                CurrentlyEditing::Title => {
                    session.currently_editing = CurrentlyEditing::Info;
                    self.mode = Mode::Edit(session);
                },
                CurrentlyEditing::Info => self.new_task(session),
            },
            _ => self.mode = Mode::Edit(session),
        }
    }

    /// Commits a finished draft to the store: a non-empty title revises the target
    /// task, or appends a new `Upcoming` task when there is none; an empty title is
    /// dropped. The draft is consumed either way.
    fn new_task(&mut self, session: EditSession)
        requires
            old(self)@.list.valid(),
            session.target matches Some(t) ==> t < old(self)@.list.tasks.len(),
        ensures
            final(self)@.list.valid(),
            final(self)@ == (AppView { list: session@.committed_to(old(self)@.list), ..old(self)@ }),
    {
        if !session.title_field.as_str().is_empty() {
            match session.target {
                Some(i) => {
                    let _ = self.list.update(i, session.title_field.as_str(), session.info_field.as_str());
                },
                None => {
                    let _ = self.list.insert(
                        session.title_field.as_str(),
                        session.info_field.as_str(),
                        Status::Upcoming,
                    );
                },
            }
        }
    }

    /// Opens a draft of the selected task, if any.
    fn edit_task(&mut self)
        requires
            old(self).wf(),
            old(self)@.mode == ModeView::View,
        ensures
            final(self).wf(),
            final(self)@ == old(self)@.step(Key::Char('e')),
    {
        if let Some(i) = self.list.selected() {
            let task = self.list.get(i);
            self.mode = Mode::Edit(
                EditSession {
                    target: Some(i),
                    currently_editing: CurrentlyEditing::Title,
                    title_field: task.title.clone(),
                    info_field: task.info.clone(),
                },
            );
        }
    }

    /// Removes the selected task, if any.
    fn delete_task(&mut self)
        requires
            old(self).wf(),
            old(self)@.mode == ModeView::View,
        ensures
            final(self).wf(),
            final(self)@ == (AppView { list: old(self)@.list.after_delete_selected(), ..old(self)@ }),
    {
        self.list.delete_selected();
    }

    /// Records the request to leave.
    fn exit(&mut self)
        ensures
            final(self)@ == (AppView { exit: true, ..old(self)@ }),
    {
        self.exit = true;
    }

    /// Cycles the selected task's status, if any.
    fn toggle_status(&mut self)
        requires
            old(self).wf(),
        ensures
            final(self).wf(),
            final(self)@ == (AppView { list: old(self)@.list.after_cycle_status_selected(), ..old(self)@ }),
    {
        self.list.cycle_status_selected();
    }
}

} // verus!
