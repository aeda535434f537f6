use vstd::prelude::*;
use vstd::string::*;
use crate::bulk::{Invocation, Operation, Outcome, log_line, line_of, plan, status_line, status_line_of};
use crate::cursor::{advanced, retreated};
use crate::focus::{Focus, SelectedWidget};
use crate::path::parent_of;
use crate::selection::toggled;
use crate::session::{FileList, ListModel, listed, first_cursor, settled};

verus! {

/// A key as the terminal reports it, reduced to the keys the browser knows.
#[derive(Clone, Copy, Debug, PartialEq, Eq, Structural)]
pub enum Key {
    Char(char),
    Up,
    Down,
    End,
    Insert,
    PageUp,
    PageDown,
    Enter,
    Tab,
    Backspace,
    Other,
}

/// What the user asks for.
#[derive(Clone, Copy, Debug, PartialEq, Eq, Structural)]
pub enum Action {
    Quit,
    Backward,
    Forward,
    AppendPath,
    AppendEntry,
    Descend,
    Ascend,
    Open,
    ToggleSelect,
    CycleFocus,
    Bulk(Operation),
    ToggleHelp,
    ListEntry,
    ClearSelection,
}

/// The action bound to a key, if any.
pub open spec fn action_of(key: Key) -> Option<Action> {
    match key {
        Key::Char('q') => Some(Action::Quit),
        Key::Up => Some(Action::Backward),
        Key::Down => Some(Action::Forward),
        Key::End => Some(Action::AppendPath),
        Key::Insert => Some(Action::AppendEntry),
        Key::PageUp => Some(Action::Descend),
        Key::PageDown => Some(Action::Ascend),
        Key::Enter => Some(Action::Open),
        Key::Char(' ') => Some(Action::ToggleSelect),
        Key::Tab => Some(Action::CycleFocus),
        Key::Char('m') => Some(Action::Bulk(Operation::Move)),
        Key::Char('c') => Some(Action::Bulk(Operation::Copy)),
        Key::Char('d') => Some(Action::Bulk(Operation::Delete)),
        Key::Char('h') => Some(Action::ToggleHelp),
        Key::Char('t') => Some(Action::ListEntry),
        Key::Backspace => Some(Action::ClearSelection),
        _ => None,
    }
}

/// The action bound to `key`.
pub fn action_for(key: Key) -> (r: Option<Action>)
    ensures
        r == action_of(key),
{
    match key {
        Key::Char('q') => Some(Action::Quit),
        Key::Up => Some(Action::Backward),
        Key::Down => Some(Action::Forward),
        Key::End => Some(Action::AppendPath),
        Key::Insert => Some(Action::AppendEntry),
        Key::PageUp => Some(Action::Descend),
        Key::PageDown => Some(Action::Ascend),
        Key::Enter => Some(Action::Open),
        Key::Char(' ') => Some(Action::ToggleSelect),
        Key::Tab => Some(Action::CycleFocus),
        Key::Char('m') => Some(Action::Bulk(Operation::Move)),
        Key::Char('c') => Some(Action::Bulk(Operation::Copy)),
        Key::Char('d') => Some(Action::Bulk(Operation::Delete)),
        Key::Char('h') => Some(Action::ToggleHelp),
        Key::Char('t') => Some(Action::ListEntry),
        Key::Backspace => Some(Action::ClearSelection),
        _ => None,
    }
}

/// Outside work that an action leaves to the caller, who reports back.
pub enum Request {
    /// Nothing is left to do.
    Done,
    /// Find whether the path is a directory, list it if so, and report to
    /// `complete_descend`.
    Descend(String),
    /// List the path and report to `complete_ascend`.
    Ascend(String),
    /// Open the path with its default application and report to `record`.
    Open(String),
    /// List the path and report the text to `record_text`.
    List(String),
    /// Run each command in turn, list the current directory, and report to
    /// `finish_operation`.
    Bulk(Vec<Invocation>),
}

/// The application state, as plain values.
pub struct AppModel {
    pub exit: bool,
    pub input: Seq<char>,
    pub list: ListModel,
    pub widget: SelectedWidget,
    pub log: Seq<Seq<char>>,
    pub help: bool,
}

/// The state after a move forward: the list cursor where the list has the
/// focus (every text pane back at its top where there is an entry), else the
/// focused pane's scroll.
pub open spec fn forward(m: AppModel) -> AppModel {
    if m.widget.focus == Focus::List {
        if m.list.entries.len() == 0 {
            m
        } else {
            AppModel {
                list: ListModel {
                    cursor: advanced(m.list.cursor, m.list.entries.len() as usize),
                    ..m.list
                },
                widget: m.widget.scrolls_reset(),
                ..m
            }
        }
    } else {
        AppModel { widget: m.widget.scrolled_down(), ..m }
    }
}

/// The state after a move backward, as `forward` with the other direction.
pub open spec fn backward(m: AppModel) -> AppModel {
    if m.widget.focus == Focus::List {
        if m.list.entries.len() == 0 {
            m
        } else {
            AppModel {
                list: ListModel {
                    cursor: retreated(m.list.cursor, m.list.entries.len() as usize),
                    ..m.list
                },
                widget: m.widget.scrolls_reset(),
                ..m
            }
        }
    } else {
        AppModel { widget: m.widget.scrolled_up(), ..m }
    }
}

/// The entry under the list cursor.
pub open spec fn entry_of(l: ListModel) -> Option<Seq<char>> {
    match l.cursor {
        Some(i) => Some(l.entries[i as int]),
        None => None,
    }
}

/// The log lines of one bulk operation: one for each chosen path, in order.
pub open spec fn lines_of(chosen: Seq<Seq<char>>, outcomes: Seq<Outcome>) -> Seq<Seq<char>> {
    Seq::new(chosen.len(), |i: int| line_of(chosen[i], outcomes[i].status@, outcomes[i].stderr@))
}

/// The state after `a`. Actions that need outside work leave the state as it
/// is: the caller does that work and reports back.
pub open spec fn step(m: AppModel, a: Action) -> AppModel {
    match a {
        Action::Quit => AppModel { exit: true, ..m },
        Action::Backward => backward(m),
        Action::Forward => forward(m),
        Action::AppendPath => AppModel { input: m.input + m.list.path, ..m },
        Action::AppendEntry => match entry_of(m.list) {
            Some(e) => AppModel { input: m.input + e, ..m },
            None => m,
        },
        Action::ToggleSelect => match entry_of(m.list) {
            Some(e) if m.widget.focus == Focus::List => AppModel {
                list: ListModel { selection: toggled(m.list.selection, e), ..m.list },
                ..m
            },
            _ => m,
        },
        Action::CycleFocus => AppModel {
            widget: SelectedWidget { focus: m.widget.focus.following(), ..m.widget },
            ..m
        },
        Action::ToggleHelp => AppModel { help: !m.help, ..m },
        Action::ClearSelection => AppModel {
            list: ListModel { selection: Seq::<Seq<char>>::empty(), ..m.list },
            ..m
        },
        _ => m,
    }
}

/// `r` is the outside work that `a` asks for in state `m`. Entering, going up,
/// opening and bulk operations act only where the list has the focus; entering,
/// opening and listing need a highlighted entry.
pub open spec fn answers(r: Request, m: AppModel, a: Action) -> bool {
    let on_list = m.widget.focus == Focus::List;
    match a {
        Action::Descend => if on_list && entry_of(m.list) is Some {
            r matches Request::Descend(t) && t@ == entry_of(m.list)->0
        } else {
            r is Done
        },
        Action::Ascend => if on_list {
            r matches Request::Ascend(t) && t@ == parent_of(m.list.path)
        } else {
            r is Done
        },
        Action::Open => if on_list && entry_of(m.list) is Some {
            r matches Request::Open(t) && t@ == entry_of(m.list)->0
        } else {
            r is Done
        },
        Action::ListEntry => if entry_of(m.list) is Some {
            r matches Request::List(t) && t@ == entry_of(m.list)->0
        } else {
            r is Done
        },
        Action::Bulk(op) => if on_list {
            r matches Request::Bulk(v) && v@.len() == m.list.selection.len() && forall|i: int|
                0 <= i < v@.len() ==> #[trigger] v@[i].carries_out(
                    op,
                    m.list.selection[i],
                    m.list.path,
                )
        } else {
            r is Done
        },
        _ => r is Done,
    }
}

/// The state after a bulk operation whose runs gave `outcomes`, with `entries`
/// the new listing of the current directory: one log line for each chosen path,
/// the new entries with the cursor kept where it can be, and nothing chosen.
pub open spec fn finished(m: AppModel, outcomes: Seq<Outcome>, entries: Seq<Seq<char>>) -> AppModel {
    AppModel {
        list: ListModel {
            entries: entries,
            cursor: settled(m.list.cursor, entries.len()),
            selection: Seq::<Seq<char>>::empty(),
            ..m.list
        },
        log: m.log + lines_of(m.list.selection, outcomes),
        ..m
    }
}

/// A bulk operation on `k` chosen paths, given the outcome of each of its `k`
/// runs, logs exactly `k` lines after the earlier ones, the line of each run
/// starting with its path, whatever the runs gave back; afterwards nothing is
/// chosen.
pub proof fn lemma_bulk_logs_each(m: AppModel, outcomes: Seq<Outcome>, entries: Seq<Seq<char>>)
    requires
        outcomes.len() == m.list.selection.len(),
    ensures
        finished(m, outcomes, entries).log.len() == m.log.len() + m.list.selection.len(),
        finished(m, outcomes, entries).log.subrange(0, m.log.len() as int) == m.log,
        forall|i: int|
            0 <= i < m.list.selection.len() ==> #[trigger] finished(m, outcomes, entries).log[m.log.len()
                + i].subrange(0, m.list.selection[i].len() as int) == m.list.selection[i],
        finished(m, outcomes, entries).list.selection.len() == 0,
{
    let f = finished(m, outcomes, entries);
    assert(f.log.subrange(0, m.log.len() as int) =~= m.log);
    assert forall|i: int| 0 <= i < m.list.selection.len() implies #[trigger] f.log[m.log.len()
        + i].subrange(0, m.list.selection[i].len() as int) == m.list.selection[i] by {
        let l = f.log[m.log.len() + i];
        assert(l == line_of(m.list.selection[i], outcomes[i].status@, outcomes[i].stderr@));
        assert(l.subrange(0, m.list.selection[i].len() as int) =~= m.list.selection[i]);
    }
}

/// The whole application: the directory session, the panes, the log of
/// outside commands, the input buffer and the help and exit flags.
pub struct App {
    exit: bool,
    input: String,
    notes: FileList,
    selected_widget: SelectedWidget,
    error_output: Vec<String>,
    help: bool,
}

impl View for App {
    type V = AppModel;

    closed spec fn view(&self) -> AppModel {
        AppModel {
            exit: self.exit,
            input: self.input@,
            list: self.notes@,
            widget: self.selected_widget,
            log: self.error_output@.map_values(|s: String| s@),
            help: self.help,
        }
    }
}

impl App {
    /// The directory session is well formed: the cursor is absent exactly
    /// when there is no entry and points at an entry otherwise, no path is
    /// chosen twice, and the entries can be counted in a `usize`.
    pub open spec fn wf(&self) -> bool {
        &&& match self@.list.cursor {
            Some(i) => i < self@.list.entries.len(),
            None => self@.list.entries.len() == 0,
        }
        &&& self@.list.selection.no_duplicates()
        &&& self@.list.entries.len() <= usize::MAX
    }

    /// A browser at `path` with the given listing of it: list focused, first
    /// entry highlighted, nothing chosen, nothing logged.
    pub fn new(path: String, listing: Option<Vec<String>>) -> (r: App)
        ensures
            r.wf(),
            r@.exit == false,
            r@.help == false,
            r@.input == Seq::<char>::empty(),
            r@.log == Seq::<Seq<char>>::empty(),
            r@.widget.is_initial(),
            r@.list.path == path@,
            r@.list.entries == listed(listing),
            r@.list.cursor == first_cursor(listed(listing).len()),
            r@.list.selection == Seq::<Seq<char>>::empty(),
    {
        let r = App {
            exit: false,
            input: String::new(),
            notes: FileList::new(path, listing),
            selected_widget: SelectedWidget::new(),
            error_output: Vec::new(),
            help: false,
        };
        assert(r@.log =~= Seq::<Seq<char>>::empty());
        r
    }

    /// Raises the exit flag.
    pub fn exit(&mut self)
        requires
            old(self).wf(),
        ensures
            final(self).wf(),
            final(self)@ == (AppModel { exit: true, ..old(self)@ }),
    {
        self.exit = true;
    }

    /// Moves backward: the list cursor, or the focused pane's scroll.
    pub fn previous(&mut self)
        requires
            old(self).wf(),
        ensures
            final(self).wf(),
            final(self)@ == backward(old(self)@),
    {
        match self.selected_widget.focus {
            Focus::List => {
                if self.notes.items().len() > 0 {
                    self.notes.previous();
                    self.selected_widget.reset_scrolls();
                }
            },
            _ => self.selected_widget.scroll_up(),
        }
    }

    /// Moves forward: the list cursor, or the focused pane's scroll.
    pub fn next(&mut self)
        requires
            old(self).wf(),
        ensures
            final(self).wf(),
            final(self)@ == forward(old(self)@),
    {
        match self.selected_widget.focus {
            Focus::List => {
                if self.notes.items().len() > 0 {
                    self.notes.next();
                    self.selected_widget.reset_scrolls();
                }
            },
            _ => self.selected_widget.scroll_down(),
        }
    }

    /// Chooses the highlighted entry, or takes it out of the choice.
    pub fn select_files(&mut self)
        requires
            old(self).wf(),
        ensures
            final(self).wf(),
            final(self)@ == (AppModel {
                list: ListModel {
                    selection: match entry_of(old(self)@.list) {
                        Some(e) => toggled(old(self)@.list.selection, e),
                        None => old(self)@.list.selection,
                    },
                    ..old(self)@.list
                },
                ..old(self)@
            }),
    {
        self.notes.toggle_selected();
    }

    /// The commands that move each chosen path into the current directory.
    pub fn move_files(&self) -> (r: Vec<Invocation>)
        requires
            self.wf(),
        ensures
            r@.len() == self@.list.selection.len(),
            forall|i: int| 0 <= i < r@.len() ==> #[trigger] r@[i].carries_out(
                Operation::Move,
                self@.list.selection[i],
                self@.list.path,
            ),
    {
        self.bulk_files(Operation::Move)
    }

    /// The commands that copy each chosen path into the current directory.
    pub fn copy_files(&self) -> (r: Vec<Invocation>)
        requires
            self.wf(),
        ensures
            r@.len() == self@.list.selection.len(),
            forall|i: int| 0 <= i < r@.len() ==> #[trigger] r@[i].carries_out(
                Operation::Copy,
                self@.list.selection[i],
                self@.list.path,
            ),
    {
        self.bulk_files(Operation::Copy)
    }

    /// The commands that delete each chosen path.
    pub fn delete_files(&self) -> (r: Vec<Invocation>)
        requires
            self.wf(),
        ensures
            r@.len() == self@.list.selection.len(),
            forall|i: int| 0 <= i < r@.len() ==> #[trigger] r@[i].carries_out(
                Operation::Delete,
                self@.list.selection[i],
                self@.list.path,
            ),
    {
        self.bulk_files(Operation::Delete)
    }

    /// The commands that carry out `op` on each chosen path, in the order of
    /// the choice, with the current directory as destination.
    pub fn bulk_files(&self, op: Operation) -> (r: Vec<Invocation>)
        requires
            self.wf(),
        ensures
            r@.len() == self@.list.selection.len(),
            forall|i: int| 0 <= i < r@.len() ==> #[trigger] r@[i].carries_out(
                op,
                self@.list.selection[i],
                self@.list.path,
            ),
    {
        let chosen = self.notes.selection().members();
        plan(op, &chosen, self.notes.path())
    }

    /// Takes in the outcome of each command of a bulk operation, one for each
    /// chosen path in order: logs one line for each, whatever it says, takes the
    /// new listing of the current directory, and empties the choice.
    pub fn finish_operation(&mut self, outcomes: &Vec<Outcome>, listing: Option<Vec<String>>)
        requires
            old(self).wf(),
            outcomes@.len() == old(self)@.list.selection.len(),
        ensures
            final(self).wf(),
            final(self)@ == finished(old(self)@, outcomes@, listed(listing)),
    {
        let chosen = self.notes.selection().members();
        let ghost log0 = self@.log;
        let ghost sel = self@.list.selection;
        let mut i: usize = 0;
        while i < chosen.len()
            invariant
                self.wf(),
                chosen@.map_values(|x: String| x@) == sel,
                outcomes@.len() == sel.len(),
                i <= chosen@.len(),
                self@.log == log0 + lines_of(sel.subrange(0, i as int), outcomes@),
                self.notes == old(self).notes,
                self.selected_widget == old(self).selected_widget,
                self.input == old(self).input,
                self.exit == old(self).exit,
                self.help == old(self).help,
            decreases chosen.len() - i,
        {
            let line = log_line(&chosen[i], &outcomes[i]);
            let ghost before = self.error_output@;
            self.error_output.push(line);
            assert(chosen@[i as int]@ == sel[i as int]);
            assert(self@.log =~= before.map_values(|s: String| s@).push(line@));
            assert(lines_of(sel.subrange(0, i + 1), outcomes@) =~= lines_of(
                sel.subrange(0, i as int),
                outcomes@,
            ).push(line@));
            i = i + 1;
        }
        assert(sel.subrange(0, i as int) =~= sel);
        self.notes.update(listing);
        self.notes.clear_selection();
    }

    /// Adds the log line of the run that opened an entry: its status and its
    /// error output.
    pub fn record(&mut self, outcome: &Outcome)
        requires
            old(self).wf(),
        ensures
            final(self).wf(),
            final(self)@ == (AppModel {
                log: old(self)@.log.push(status_line_of(outcome.status@, outcome.stderr@)),
                ..old(self)@
            }),
    {
        let line = status_line(outcome);
        self.error_output.push(line);
        assert(self@.log =~= old(self)@.log.push(line@));
    }

    /// Adds a text to the log as it is.
    pub fn record_text(&mut self, text: String)
        requires
            old(self).wf(),
        ensures
            final(self).wf(),
            final(self)@ == (AppModel { log: old(self)@.log.push(text@), ..old(self)@ }),
    {
        let ghost t = text@;
        self.error_output.push(text);
        assert(self@.log =~= old(self)@.log.push(t));
    }

    /// Takes in whether the highlighted entry is a directory, with its listing:
    /// a directory is entered and every text pane goes back to its top; a file
    /// is handed on to be opened.
    pub fn complete_descend(&mut self, is_dir: bool, listing: Option<Vec<String>>) -> (r: Request)
        requires
            old(self).wf(),
        ensures
            final(self).wf(),
            is_dir && entry_of(old(self)@.list) is Some ==> final(self)@ == (AppModel {
                list: ListModel {
                    path: entry_of(old(self)@.list)->0,
                    entries: listed(listing),
                    cursor: first_cursor(listed(listing).len()),
                    ..old(self)@.list
                },
                widget: old(self)@.widget.scrolls_reset(),
                ..old(self)@
            }) && r is Done,
            !is_dir ==> final(self)@ == old(self)@,
            !is_dir && entry_of(old(self)@.list) is Some ==> match r {
                Request::Open(t) => t@ == entry_of(old(self)@.list)->0,
                _ => false,
            },
            entry_of(old(self)@.list) is None ==> final(self)@ == old(self)@ && r is Done,
    {
        match self.notes.selected_path() {
            None => Request::Done,
            Some(target) => {
                if is_dir {
                    self.notes.dir_next(true, listing);
                    self.selected_widget.reset_scrolls();
                    Request::Done
                } else {
                    Request::Open(target)
                }
            },
        }
    }

    /// Takes in the listing of the parent directory and goes up to it; every
    /// text pane goes back to its top.
    pub fn complete_ascend(&mut self, listing: Option<Vec<String>>)
        requires
            old(self).wf(),
        ensures
            final(self).wf(),
            final(self)@ == (AppModel {
                list: ListModel {
                    path: parent_of(old(self)@.list.path),
                    entries: listed(listing),
                    cursor: first_cursor(listed(listing).len()),
                    ..old(self)@.list
                },
                widget: old(self)@.widget.scrolls_reset(),
                ..old(self)@
            }),
    {
        self.notes.dir_back(listing);
        self.selected_widget.reset_scrolls();
    }

    /// Carries out `a` as far as it needs no outside work, and returns the
    /// outside work that is left.
    pub fn handle_action(&mut self, a: Action) -> (r: Request)
        requires
            old(self).wf(),
        ensures
            final(self).wf(),
            final(self)@ == step(old(self)@, a),
            answers(r, old(self)@, a),
    {
        let on_list = match self.selected_widget.focus {
            Focus::List => true,
            _ => false,
        };
        match a {
            Action::Quit => {
                self.exit();
                Request::Done
            },
            Action::Backward => {
                self.previous();
                Request::Done
            },
            Action::Forward => {
                self.next();
                Request::Done
            },
            Action::AppendPath => {
                self.input.append(self.notes.path().as_str());
                Request::Done
            },
            Action::AppendEntry => {
                if let Some(e) = self.notes.selected_path() {
                    self.input.append(e.as_str());
                }
                Request::Done
            },
            Action::Descend => match self.notes.selected_path() {
                Some(e) if on_list => Request::Descend(e),
                _ => Request::Done,
            },
            Action::Ascend => if on_list {
                Request::Ascend(self.notes.parent_path())
            } else {
                Request::Done
            },
            Action::Open => match self.notes.selected_path() {
                Some(e) if on_list => Request::Open(e),
                _ => Request::Done,
            },
            Action::ListEntry => match self.notes.selected_path() {
                Some(e) => Request::List(e),
                None => Request::Done,
            },
            Action::ToggleSelect => {
                if on_list {
                    self.select_files();
                }
                Request::Done
            },
            Action::CycleFocus => {
                self.selected_widget.change_widget();
                Request::Done
            },
            Action::Bulk(op) => if on_list {
                Request::Bulk(self.bulk_files(op))
            } else {
                Request::Done
            },
            Action::ToggleHelp => {
                self.help = !self.help;
                Request::Done
            },
            Action::ClearSelection => {
                self.notes.clear_selection();
                Request::Done
            },
        }
    }

    /// Carries out the action bound to `key`, if any, and returns the outside
    /// work that is left.
    pub fn handle_key_events(&mut self, key: Key) -> (r: Request)
        requires
            old(self).wf(),
        ensures
            final(self).wf(),
            match action_of(key) {
                Some(a) => final(self)@ == step(old(self)@, a) && answers(r, old(self)@, a),
                None => final(self)@ == old(self)@ && r is Done,
            },
    {
        match action_for(key) {
            Some(a) => self.handle_action(a),
            None => Request::Done,
        }
    }

    /// Whether the exit flag is raised.
    pub fn should_exit(&self) -> (r: bool)
        ensures
            r == self@.exit,
    {
        self.exit
    }

    /// Whether the help overlay is shown.
    pub fn help(&self) -> (r: bool)
        ensures
            r == self@.help,
    {
        self.help
    }

    /// The input buffer.
    pub fn input(&self) -> (r: &String)
        ensures
            r@ == self@.input,
    {
        &self.input
    }

    /// The directory session.
    pub fn notes(&self) -> (r: &FileList)
        ensures
            r@ == self@.list,
            self.wf() ==> r.wf(),
    {
        &self.notes
    }

    /// The focus and the scroll offsets of the panes.
    pub fn selected_widget(&self) -> (r: SelectedWidget)
        ensures
            r == self@.widget,
    {
        self.selected_widget
    }

    /// The log of outside commands, oldest first.
    pub fn error_output(&self) -> (r: &Vec<String>)
        ensures
            r@.map_values(|s: String| s@) == self@.log,
    {
        &self.error_output
    }
}

} // verus!
