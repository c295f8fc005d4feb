//! The state of the panel that lists the annotations: the entries, the
//! scroll position, the selected row, and what a click asks of the host.

use vstd::prelude::*;

use crate::scanner::{TodoEntry, TodoKind};

verus! {

/// The command that shows the panel, or focuses it when it is open.
pub struct ToggleTodosPanel;

/// What the host does on [`ToggleTodosPanel`].
#[derive(Clone, Copy, Debug, PartialEq, Eq, Structural)]
pub enum ToggleResponse {
    /// The panel is open: move the focus to it, with no new scan.
    FocusPanel,
    /// No panel yet: scan, then show the panel with the result.
    ScanAndShow,
}

/// The decision taken on [`ToggleTodosPanel`].
pub fn handle_toggle_todos(panel_exists: bool) -> (r: ToggleResponse)
    ensures
        panel_exists ==> r == ToggleResponse::FocusPanel,
        !panel_exists ==> r == ToggleResponse::ScanAndShow,
{
    if panel_exists {
        ToggleResponse::FocusPanel
    } else {
        ToggleResponse::ScanAndShow
    }
}

/// Where the host moves the cursor when an entry is opened: the file, the
/// 1-based line and the byte column where the message starts.
#[derive(Clone, Debug, PartialEq, Eq)]
pub struct NavigationRequest {
    pub file_path: String,
    pub line: usize,
    pub column: usize,
}

/// The request that opens `entry` at its message.
pub fn navigation_request_for(entry: &TodoEntry) -> (r: NavigationRequest)
    ensures
        r.file_path@ == entry.file_path@,
        r.line == entry.todo.line,
        r.column == entry.todo.start,
{
    NavigationRequest {
        file_path: entry.file_path.clone(),
        line: entry.todo.line,
        column: entry.todo.start,
    }
}

/// A selection index that names no entry.
#[derive(Clone, Copy, Debug, PartialEq, Eq, Structural)]
pub struct OutOfRange {
    pub index: usize,
    pub len: usize,
}

/// Number of entries of kind `k`.
pub open spec fn count_kind(entries: Seq<TodoEntry>, k: TodoKind) -> nat
    decreases entries.len(),
{
    if entries.len() == 0 {
        0
    } else {
        count_kind(entries.drop_last(), k) + if entries.last().todo.kind == k {
            1nat
        } else {
            0nat
        }
    }
}

/// Every entry is of one of the two kinds: the two counts add up to the
/// number of entries.
pub proof fn counts_cover_all(entries: Seq<TodoEntry>)
    ensures
        count_kind(entries, TodoKind::Todo) + count_kind(entries, TodoKind::Fixme)
            == entries.len(),
    decreases entries.len(),
{
    if entries.len() > 0 {
        counts_cover_all(entries.drop_last());
    }
}

/// The number of Todo and of Fixme entries, in one pass.
pub fn count_todos(entries: &Vec<TodoEntry>) -> (r: (usize, usize))
    ensures
        r.0 == count_kind(entries@, TodoKind::Todo),
        r.1 == count_kind(entries@, TodoKind::Fixme),
{
    let mut todos: usize = 0;
    let mut fixmes: usize = 0;
    for i in 0..entries.len()
        invariant
            todos == count_kind(entries@.take(i as int), TodoKind::Todo),
            fixmes == count_kind(entries@.take(i as int), TodoKind::Fixme),
    {
        proof {
            assert(entries@.take(i + 1).drop_last() == entries@.take(i as int));
            counts_cover_all(entries@.take(i as int));
        }
        match entries[i].todo.kind {
            TodoKind::Todo => todos += 1,
            TodoKind::Fixme => fixmes += 1,
        }
    }
    assert(entries@.take(entries.len() as int) == entries@);
    (todos, fixmes)
}

/// The mathematical value of a [`TodosPanel`].
pub struct PanelView {
    pub entries: Seq<TodoEntry>,
    pub scroll_top: nat,
    pub selected: Option<nat>,
    pub generation: nat,
}

/// The panel's state: the entries in scan order, the first row shown, the
/// selected row, and the number of the latest scan asked for.
pub struct TodosPanel {
    todos: Vec<TodoEntry>,
    scroll_top: usize,
    selected_index: Option<usize>,
    generation: u64,
}

/// The panel under its other name.
pub type TodoPanel = TodosPanel;

impl View for TodosPanel {
    type V = PanelView;

    closed spec fn view(&self) -> PanelView {
        PanelView {
            entries: self.todos@,
            scroll_top: self.scroll_top as nat,
            selected: match self.selected_index {
                Some(i) => Some(i as nat),
                None => None,
            },
            generation: self.generation as nat,
        }
    }
}

impl TodosPanel {
    /// A selected row always names an entry.
    pub open spec fn wf(&self) -> bool {
        self@.selected matches Some(i) ==> i < self@.entries.len()
    }

    /// An empty panel, scrolled to the top, with nothing selected.
    pub fn new() -> (r: Self)
        ensures
            r.wf(),
            r@.entries.len() == 0,
            r@.scroll_top == 0,
            r@.selected is None,
            r@.generation == 0,
    {
        TodosPanel { todos: Vec::new(), scroll_top: 0, selected_index: None, generation: 0 }
    }

    /// A panel that shows `todos` from the top, with nothing selected.
    pub fn with_todos(todos: Vec<TodoEntry>) -> (r: Self)
        ensures
            r.wf(),
            r@.entries == todos@,
            r@.scroll_top == 0,
            r@.selected is None,
            r@.generation == 0,
    {
        TodosPanel { todos, scroll_top: 0, selected_index: None, generation: 0 }
    }

    /// Replaces the entries wholesale, scrolls to the top and clears the
    /// selection, whatever the state was.
    pub fn set_todos(&mut self, todos: Vec<TodoEntry>)
        ensures
            final(self).wf(),
            final(self)@.entries == todos@,
            final(self)@.scroll_top == 0,
            final(self)@.selected is None,
            final(self)@.generation == old(self)@.generation,
    {
        self.todos = todos;
        self.scroll_top = 0;
        self.selected_index = None;
    }

    /// Starts a new scan and returns its number. From now on only that
    /// scan's result is taken (see [`TodosPanel::finish_refresh`]).
    pub fn begin_refresh(&mut self) -> (r: u64)
        requires
            old(self).wf(),
        ensures
            final(self).wf(),
            r as nat == (old(self)@.generation + 1) % 0x1_0000_0000_0000_0000,
            final(self)@ == (PanelView { generation: r as nat, ..old(self)@ }),
    {
        self.generation = self.generation.wrapping_add(1);
        self.generation
    }

    /// Delivers the result of scan number `generation`. The result of the
    /// latest scan replaces the entries as [`TodosPanel::set_todos`] does; a
    /// stale one is dropped and the panel stays as it was.
    pub fn finish_refresh(&mut self, generation: u64, todos: Vec<TodoEntry>) -> (applied: bool)
        requires
            old(self).wf(),
        ensures
            final(self).wf(),
            applied == (generation as nat == old(self)@.generation),
            applied ==> final(self)@ == (PanelView {
                entries: todos@,
                scroll_top: 0,
                selected: None,
                ..old(self)@
            }),
            !applied ==> final(self)@ == old(self)@,
    {
        if generation == self.generation {
            self.set_todos(todos);
            true
        } else {
            false
        }
    }

    /// The entries, in scan order.
    pub fn todos(&self) -> (r: &Vec<TodoEntry>)
        ensures
            r@ == self@.entries,
    {
        &self.todos
    }

    /// The first row shown.
    pub fn scroll_top(&self) -> (r: usize)
        ensures
            r == self@.scroll_top,
    {
        self.scroll_top
    }

    /// The selected row, if any.
    pub fn selected_index(&self) -> (r: Option<usize>)
        ensures
            r matches Some(i) ==> self@.selected == Some(i as nat),
            r is None ==> self@.selected is None,
    {
        self.selected_index
    }

    /// Records that the list was scrolled so that row `row` is the first shown.
    pub fn scroll_to(&mut self, row: usize)
        requires
            old(self).wf(),
        ensures
            final(self).wf(),
            final(self)@ == (PanelView { scroll_top: row as nat, ..old(self)@ }),
    {
        self.scroll_top = row;
    }

    /// The number of Todo and of Fixme entries.
    pub fn todo_count(&self) -> (r: (usize, usize))
        ensures
            r.0 == count_kind(self@.entries, TodoKind::Todo),
            r.1 == count_kind(self@.entries, TodoKind::Fixme),
    {
        count_todos(&self.todos)
    }

    /// Selects the entry at `index` and hands it out; an index past the last
    /// entry changes nothing and is reported.
    pub fn select_entry(&mut self, index: usize) -> (r: Result<&TodoEntry, OutOfRange>)
        requires
            old(self).wf(),
        ensures
            final(self).wf(),
            index < old(self)@.entries.len() <==> r is Ok,
            r matches Ok(e) ==> *e == old(self)@.entries[index as int] && final(self)@ == (
            PanelView { selected: Some(index as nat), ..old(self)@ }),
            r matches Err(e) ==> e == (OutOfRange { index, len: old(self)@.entries.len() as usize })
                && final(self)@ == old(self)@,
    {
        if index < self.todos.len() {
            self.selected_index = Some(index);
            Ok(&self.todos[index])
        } else {
            Err(OutOfRange { index, len: self.todos.len() })
        }
    }
}

} // verus!
