//! The two task lists, their selection cursors and the focus, and the
//! transitions that keys make on them.
use vstd::prelude::*;
use crate::codec::{decode, decode_text, encode, encode_text, views};
use crate::nav::{cursor_down, cursor_up, list_down, list_up, Status};
use crate::ui::{CellModel, Ui, UiModel, HIGHLIGHT_PAIR, REGULAR_PAIR};

verus! {

broadcast use vstd::seq_lib::group_to_multiset_ensures;

/// A cursor that stands on a row of a list of `len` rows, or is zero when
/// the list is empty.
pub open spec fn cursor_ok(cur: nat, len: nat) -> bool {
    if len == 0 {
        cur == 0
    } else {
        cur < len
    }
}

/// The cursor after the row that it stood on was removed, leaving `len`
/// rows: it moves to the last row if it stood past it.
pub open spec fn reclamp(cur: nat, len: nat) -> nat {
    if cur >= len && cur > 0 {
        (len - 1) as nat
    } else {
        cur
    }
}

/// The mathematical state of a task store.
pub ghost struct StoreModel {
    pub todos: Seq<Seq<char>>,
    pub todo_curr: nat,
    pub dones: Seq<Seq<char>>,
    pub done_curr: nat,
    pub focus: Status,
}

impl StoreModel {
    /// Both cursors stand on a row of their list, or at zero on an empty one.
    pub open spec fn wf(self) -> bool {
        cursor_ok(self.todo_curr, self.todos.len()) && cursor_ok(self.done_curr, self.dones.len())
    }

    /// The store that a file's text gives: the decoded lists, both cursors
    /// on the first row, pending in focus.
    pub open spec fn from_text(text: Seq<char>) -> StoreModel {
        StoreModel {
            todos: decode_text(text).0,
            todo_curr: 0,
            dones: decode_text(text).1,
            done_curr: 0,
            focus: Status::Todo,
        }
    }

    pub open spec fn toggled(self) -> StoreModel {
        StoreModel { focus: self.focus.spec_toggle(), ..self }
    }

    pub open spec fn selected_up(self) -> StoreModel {
        match self.focus {
            Status::Todo => StoreModel { todo_curr: cursor_up(self.todo_curr), ..self },
            Status::Done => StoreModel { done_curr: cursor_up(self.done_curr), ..self },
        }
    }

    pub open spec fn selected_down(self) -> StoreModel {
        match self.focus {
            Status::Todo => StoreModel {
                todo_curr: cursor_down(self.todo_curr, self.todos.len()),
                ..self
            },
            Status::Done => StoreModel {
                done_curr: cursor_down(self.done_curr, self.dones.len()),
                ..self
            },
        }
    }

    /// The selected task of the focused list goes to the tail of the other
    /// list, and the cursor is put back on a row; nothing happens when the
    /// focused list is empty.
    pub open spec fn moved(self) -> StoreModel {
        match self.focus {
            Status::Todo => if self.todo_curr < self.todos.len() {
                let rest = self.todos.remove(self.todo_curr as int);
                StoreModel {
                    todos: rest,
                    todo_curr: reclamp(self.todo_curr, rest.len()),
                    dones: self.dones.push(self.todos[self.todo_curr as int]),
                    ..self
                }
            } else {
                self
            },
            Status::Done => if self.done_curr < self.dones.len() {
                let rest = self.dones.remove(self.done_curr as int);
                StoreModel {
                    dones: rest,
                    done_curr: reclamp(self.done_curr, rest.len()),
                    todos: self.todos.push(self.dones[self.done_curr as int]),
                    ..self
                }
            } else {
                self
            },
        }
    }

    /// The state after a key is pressed.
    pub open spec fn after_key(self, key: char) -> StoreModel {
        if key == 'w' {
            self.selected_up()
        } else if key == 's' {
            self.selected_down()
        } else if key == '\n' {
            self.moved()
        } else if key == '\t' {
            self.toggled()
        } else {
            self
        }
    }
}

/// The heading of the frame while the pending list has the focus.
pub open spec fn todo_heading() -> Seq<char> {
    "[TODO] DONE  <tab>"@
}

/// The heading of the frame while the completed list has the focus.
pub open spec fn done_heading() -> Seq<char> {
    " TODO [DONE] <tab>"@
}

/// The line under the heading.
pub open spec fn heading_rule() -> Seq<char> {
    "-------------"@
}

/// What stands before a pending title.
pub open spec fn todo_mark() -> Seq<char> {
    "- [ ] "@
}

/// What stands before a completed title.
pub open spec fn done_mark() -> Seq<char> {
    "- [x] "@
}

/// The rows of a list from `row` down at `col`: one for each title with
/// `mark` before it, the one at `sel` highlighted.
pub open spec fn list_rows(
    mark: Seq<char>,
    items: Seq<Seq<char>>,
    sel: nat,
    row: nat,
    col: nat,
) -> Seq<CellModel> {
    Seq::new(
        items.len(),
        |i: int|
            (
                (row + i) as nat,
                col,
                mark + items[i],
                if i == sel {
                    HIGHLIGHT_PAIR
                } else {
                    REGULAR_PAIR
                },
            ),
    )
}

/// The list that has the focus.
pub open spec fn focused_list(m: StoreModel) -> Seq<Seq<char>> {
    match m.focus {
        Status::Todo => m.todos,
        Status::Done => m.dones,
    }
}

/// The frame of a store: from row 1, column 1, the heading that names the
/// focused list, a rule, then the focused list's rows.
pub open spec fn frame_of(m: StoreModel) -> Seq<CellModel> {
    match m.focus {
        Status::Todo => seq![
            (1nat, 1nat, todo_heading(), REGULAR_PAIR),
            (2nat, 1nat, heading_rule(), REGULAR_PAIR),
        ] + list_rows(todo_mark(), m.todos, m.todo_curr, 3, 1),
        Status::Done => seq![
            (1nat, 1nat, done_heading(), REGULAR_PAIR),
            (2nat, 1nat, heading_rule(), REGULAR_PAIR),
        ] + list_rows(done_mark(), m.dones, m.done_curr, 3, 1),
    }
}

/// What the loop around the store does after a key.
#[derive(Debug, Clone, Copy, PartialEq, Eq, Structural)]
pub enum Command {
    /// Draw the next frame.
    Continue,
    /// Write the lists out, then draw the next frame.
    Save,
    /// Stop.
    Quit,
}

pub open spec fn command_of(key: char) -> Command {
    if key == 'q' {
        Command::Quit
    } else if key == 'e' {
        Command::Save
    } else {
        Command::Continue
    }
}

/// Pending and completed tasks, a cursor in each list, and the focus.
pub struct TaskStore {
    todos: Vec<String>,
    todo_curr: usize,
    dones: Vec<String>,
    done_curr: usize,
    focus: Status,
}

impl View for TaskStore {
    type V = StoreModel;

    closed spec fn view(&self) -> StoreModel {
        StoreModel {
            todos: views(self.todos@),
            todo_curr: self.todo_curr as nat,
            dones: views(self.dones@),
            done_curr: self.done_curr as nat,
            focus: self.focus,
        }
    }
}

/// Takes the task at `cur` out of `from`, appends it to `to`, and puts the
/// cursor back on a row of `from`; does nothing when `cur` is past the end.
fn transfer(from: &mut Vec<String>, cur: &mut usize, to: &mut Vec<String>)
    requires
        cursor_ok(*old(cur) as nat, old(from)@.len()),
    ensures
        ({
            let c = *old(cur) as int;
            if c < old(from)@.len() {
                &&& views(final(from)@) == views(old(from)@).remove(c)
                &&& views(final(to)@) == views(old(to)@).push(views(old(from)@)[c])
                &&& *final(cur) as nat == reclamp(c as nat, (old(from)@.len() - 1) as nat)
            } else {
                &&& final(from)@ == old(from)@
                &&& final(to)@ == old(to)@
                &&& *final(cur) == *old(cur)
            }
        }),
{
    if *cur < from.len() {
        let ghost f0 = from@;
        let ghost t0 = to@;
        let item = from.remove(*cur);
        to.push(item);
        assert(views(from@) =~= views(f0).remove(*old(cur) as int));
        assert(views(to@) =~= views(t0).push(views(f0)[*old(cur) as int]));
        if *cur >= from.len() && *cur > 0 {
            *cur = from.len() - 1;
        }
    }
}

impl TaskStore {
    /// A store with both lists empty, both cursors at zero, pending in focus.
    pub fn new() -> (r: TaskStore)
        ensures
            r@ == (StoreModel {
                todos: Seq::empty(),
                todo_curr: 0,
                dones: Seq::empty(),
                done_curr: 0,
                focus: Status::Todo,
            }),
            r@.wf(),
    {
        let r = TaskStore {
            todos: Vec::new(),
            todo_curr: 0,
            dones: Vec::new(),
            done_curr: 0,
            focus: Status::Todo,
        };
        assert(views(r.todos@) =~= Seq::empty());
        assert(views(r.dones@) =~= Seq::empty());
        r
    }

    /// The store that a file's text holds.
    pub fn from_text(text: &str) -> (r: TaskStore)
        ensures
            r@ == StoreModel::from_text(text@),
            r@.wf(),
    {
        let (todos, dones) = decode(text);
        TaskStore { todos, todo_curr: 0, dones, done_curr: 0, focus: Status::Todo }
    }

    /// The file's text for the store's two lists.
    pub fn to_text(&self) -> (r: String)
        ensures
            r@ == encode_text(self@.todos, self@.dones),
    {
        encode(&self.todos, &self.dones)
    }

    /// The pending titles, in order.
    pub fn todos(&self) -> (r: &Vec<String>)
        ensures
            views(r@) == self@.todos,
    {
        &self.todos
    }

    /// The completed titles, in order.
    pub fn dones(&self) -> (r: &Vec<String>)
        ensures
            views(r@) == self@.dones,
    {
        &self.dones
    }

    /// The cursor of the pending list.
    pub fn todo_curr(&self) -> (r: usize)
        ensures
            r as nat == self@.todo_curr,
    {
        self.todo_curr
    }

    /// The cursor of the completed list.
    pub fn done_curr(&self) -> (r: usize)
        ensures
            r as nat == self@.done_curr,
    {
        self.done_curr
    }

    /// The list that has the focus.
    pub fn focus(&self) -> (r: Status)
        ensures
            r == self@.focus,
    {
        self.focus
    }

    /// Lays out the frame of the store on `ui`: a heading, a rule and the
    /// focused list, its selected row highlighted.
    pub fn render(&self, ui: &mut Ui)
        requires
            old(ui)@.list_curr is None,
            focused_list(self@).len() <= usize::MAX - 3,
        ensures
            final(ui)@ == (UiModel {
                list_curr: None,
                row: 3 + focused_list(self@).len(),
                col: 1,
                in_frame: false,
                cells: frame_of(self@),
            }),
    {
        ui.begin(1, 1);
        let heading = match self.focus {
            Status::Todo => "[TODO] DONE  <tab>",
            Status::Done => " TODO [DONE] <tab>",
        };
        ui.label(heading, REGULAR_PAIR);
        ui.label("-------------", REGULAR_PAIR);
        let (list, curr, mark) = match self.focus {
            Status::Todo => (&self.todos, self.todo_curr, "- [ ] "),
            Status::Done => (&self.dones, self.done_curr, "- [x] "),
        };
        let ghost head = ui@.cells;
        let ghost rows = list_rows(mark@, views(list@), curr as nat, 3, 1);
        assert(head + rows == frame_of(self@));
        ui.begin_list(curr);
        let mut i: usize = 0;
        assert(head + rows.take(0) =~= head);
        while i < list.len()
            invariant
                i <= list@.len(),
                list@.len() <= usize::MAX - 3,
                rows == list_rows(mark@, views(list@), curr as nat, 3, 1),
                ui@ == (UiModel {
                    list_curr: Some(curr as nat),
                    row: (3 + i) as nat,
                    col: 1,
                    in_frame: true,
                    cells: head + rows.take(i as int),
                }),
            decreases list@.len() - i,
        {
            let mut text = mark.to_owned();
            text.append(list[i].as_str());
            ui.list_element(text.as_str(), i);
            assert(head + rows.take(i + 1) =~= (head + rows.take(i as int)).push(rows[i as int]));
            i = i + 1;
        }
        assert(rows.take(i as int) =~= rows);
        ui.end_list();
        ui.end();
    }

    /// Moves the focused list's cursor one row up.
    pub fn select_up(&mut self)
        requires
            old(self)@.wf(),
        ensures
            final(self)@ == old(self)@.selected_up(),
            final(self)@.wf(),
    {
        match self.focus {
            Status::Todo => list_up(&self.todos, &mut self.todo_curr),
            Status::Done => list_up(&self.dones, &mut self.done_curr),
        }
    }

    /// Moves the focused list's cursor one row down.
    pub fn select_down(&mut self)
        requires
            old(self)@.wf(),
        ensures
            final(self)@ == old(self)@.selected_down(),
            final(self)@.wf(),
    {
        match self.focus {
            Status::Todo => list_down(&self.todos, &mut self.todo_curr),
            Status::Done => list_down(&self.dones, &mut self.done_curr),
        }
    }

    /// Gives the focus to the other list.
    pub fn toggle_focus(&mut self)
        requires
            old(self)@.wf(),
        ensures
            final(self)@ == old(self)@.toggled(),
            final(self)@.wf(),
    {
        self.focus = self.focus.toggle();
    }

    /// Moves the selected task of the focused list to the tail of the other.
    pub fn move_selected(&mut self)
        requires
            old(self)@.wf(),
        ensures
            final(self)@ == old(self)@.moved(),
            final(self)@.wf(),
    {
        match self.focus {
            Status::Todo => transfer(&mut self.todos, &mut self.todo_curr, &mut self.dones),
            Status::Done => transfer(&mut self.dones, &mut self.done_curr, &mut self.todos),
        }
    }

    /// Applies a key: `w` and `s` move the cursor, Enter moves the selected
    /// task, Tab moves the focus; says whether to save or quit.
    pub fn handle_key(&mut self, key: char) -> (r: Command)
        requires
            old(self)@.wf(),
        ensures
            final(self)@ == old(self)@.after_key(key),
            final(self)@.wf(),
            r == command_of(key),
    {
        if key == 'w' {
            self.select_up();
        } else if key == 's' {
            self.select_down();
        } else if key == '\n' {
            self.move_selected();
        } else if key == '\t' {
            self.toggle_focus();
        }
        if key == 'q' {
            Command::Quit
        } else if key == 'e' {
            Command::Save
        } else {
            Command::Continue
        }
    }
}

/// Toggling the focus twice gives the state back: focus, lists and cursors.
pub proof fn lemma_toggle_twice(m: StoreModel)
    ensures
        m.toggled().toggled() == m,
{
}

/// Moving the selected pending task to the completed list and back (Enter,
/// Tab, Enter, Tab) keeps the titles of each list as a multiset, and the
/// task comes back at the tail of the pending list. The way back moves the
/// task that the completed list's cursor selects, so this holds when that
/// cursor selects the moved task.
pub proof fn lemma_move_there_and_back(m: StoreModel)
    requires
        m.wf(),
        m.focus == Status::Todo,
        m.todo_curr < m.todos.len(),
        m.dones.push(m.todos[m.todo_curr as int])[m.done_curr as int] == m.todos[m.todo_curr as int],
    ensures
        ({
            let r = m.moved().toggled().moved().toggled();
            &&& r.focus == Status::Todo
            &&& r.todos.to_multiset() == m.todos.to_multiset()
            &&& r.dones.to_multiset() == m.dones.to_multiset()
            &&& r.todos.last() == m.todos[m.todo_curr as int]
        }),
{
    let t = m.todos[m.todo_curr as int];
    let m1 = m.moved();
    let m2 = m1.toggled();
    let m3 = m2.moved();
    assert(m1.dones == m.dones.push(t));
    assert(m2.done_curr < m2.dones.len());
    assert(m3.dones == m.dones.push(t).remove(m.done_curr as int));
    assert(m3.todos == m.todos.remove(m.todo_curr as int).push(t));
    assert(m.todos.contains(t));
    assert(m3.todos.to_multiset() =~= m.todos.to_multiset());
    assert(m3.dones.to_multiset() =~= m.dones.to_multiset());
}

} // verus!
