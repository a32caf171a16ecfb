//! The controller: which of the input line and the list has the keys, which
//! entry is being renamed, and what each key press does.

use crate::inputter::{Inputter, InputterView};
use crate::key::{KeyCode, KeyEvent, KeyEventKind, CONTROL, NONE};
use crate::list::{index_view, lemma_surviving_entry, surviving, ItemList, ItemListView};
use crate::todo::{fmt_itemsleft, items_left_text, pending, remaining};
use vstd::prelude::*;

verus! {

/// Which part of the screen takes the keys.
#[derive(Clone, Copy, Debug, PartialEq, Eq, Structural)]
pub enum Focus {
    /// The input line: keys edit text.
    Input,
    /// The list: keys move the selection and act on entries.
    List,
}

/// How the frame round a part of the screen is drawn.
#[derive(Clone, Copy, Debug, PartialEq, Eq, Structural)]
pub enum BorderStyle {
    /// The part does not have the keys.
    Plain,
    /// The part has the keys.
    Blue,
    /// The input line has the keys and an entry is being renamed on it.
    Yellow,
}

/// Which line of key hints goes with the state.
#[derive(Clone, Copy, Debug, PartialEq, Eq, Structural)]
pub enum Hints {
    /// An entry is being renamed: how to save, how to cancel.
    Editing,
    /// The input line has the keys: how to save.
    Input,
    /// The list has the keys: how to mark all and how to clear.
    List,
}

/// The controller as plain values.
pub struct AppView {
    pub exit: bool,
    pub todolist: ItemListView,
    pub focus: Focus,
    pub inputter: InputterView,
    pub first_todo: bool,
    pub editing: Option<nat>,
}

impl AppView {
    /// The state at start: empty line, empty list, keys go to the line.
    pub open spec fn initial() -> AppView {
        AppView {
            exit: false,
            todolist: ItemListView::empty(),
            focus: Focus::Input,
            inputter: InputterView::empty(),
            first_todo: true,
            editing: None,
        }
    }

    /// The entry being renamed, where there is one, is an entry of the list.
    pub open spec fn editing_in_range(self) -> bool {
        self.editing matches Some(i) ==> i < self.todolist.items.len()
    }

    /// The selection and the entry being renamed, where there is one, are
    /// entries of the list, and the cursor is within the line.
    pub open spec fn inv(self) -> bool {
        &&& self.todolist.wf()
        &&& self.inputter.wf()
        &&& self.editing_in_range()
    }

    /// No entry has an empty name.
    pub open spec fn names_given(self) -> bool {
        forall|i: int| 0 <= i < self.todolist.items.len() ==> self.todolist.items[i].name.len() > 0
    }

    /// The frame of the part `part`.
    pub open spec fn focus_border(self, part: Focus) -> BorderStyle {
        if self.focus != part {
            BorderStyle::Plain
        } else if part == Focus::Input && self.editing is Some {
            BorderStyle::Yellow
        } else {
            BorderStyle::Blue
        }
    }

    /// The line of key hints.
    pub open spec fn hints(self) -> Hints {
        if self.editing is Some {
            Hints::Editing
        } else if self.focus == Focus::Input {
            Hints::Input
        } else {
            Hints::List
        }
    }

    /// The text under the list: nothing before the first entry was made,
    /// then the number of entries left to do.
    pub open spec fn status_line(self) -> Seq<char> {
        if self.first_todo {
            Seq::empty()
        } else {
            items_left_text(remaining(self.todolist.items))
        }
    }

    /// The confirm key on the input line. An empty line does nothing. While
    /// an entry is being renamed, the line becomes its name, the rename
    /// ends, the keys go to the list and the line gets back what it held
    /// before. Otherwise the line becomes a new entry and is emptied.
    pub open spec fn commit(self) -> AppView {
        if self.inputter.input.len() == 0 {
            self
        } else {
            match self.editing {
                Some(i) => AppView {
                    todolist: self.todolist.rename(i, self.inputter.input),
                    focus: Focus::List,
                    editing: None,
                    inputter: self.inputter.restore(),
                    ..self
                },
                None => AppView {
                    todolist: self.todolist.append(self.inputter.input),
                    first_todo: false,
                    inputter: self.inputter.reset(),
                    ..self
                },
            }
        }
    }

    /// The cancel key on the input line. It ends a rename without changing
    /// the entry: the line gets back what it held before and the keys go to
    /// the list. With no rename under way it does nothing.
    pub open spec fn cancel(self) -> AppView {
        match self.editing {
            Some(_) => AppView {
                focus: Focus::List,
                editing: None,
                inputter: self.inputter.restore(),
                ..self
            },
            None => self,
        }
    }

    /// The edit key on the list. With an entry selected and no rename under
    /// way, the line is saved and then holds the entry's name with the
    /// cursor behind it, and the keys go to the line. Otherwise nothing.
    pub open spec fn begin_edit(self) -> AppView {
        match (self.todolist.selected, self.editing) {
            (Some(s), None) if s < self.todolist.items.len() => AppView {
                inputter: self.inputter.save().load(self.todolist.items[s as int].name),
                focus: Focus::Input,
                editing: Some(s),
                ..self
            },
            _ => self,
        }
    }

    /// The clear key on the list. The complete entries go. A rename under
    /// way follows its entry as the selection does; if that entry goes, the
    /// rename ends as by the cancel key.
    pub open spec fn clear(self) -> AppView {
        let cleared = self.todolist.clear_completed();
        match self.editing {
            Some(i) => match surviving(self.todolist.items, i) {
                Some(j) => AppView { todolist: cleared, editing: Some(j), ..self },
                None => AppView {
                    todolist: cleared,
                    editing: None,
                    inputter: self.inputter.restore(),
                    ..self
                },
            },
            None => AppView { todolist: cleared, ..self },
        }
    }

    /// A key press while the input line has the keys. With control held
    /// and nothing else, `a` and `e` move to the start and the end of the
    /// line. A key that comes as typed edits the line, commits it or
    /// cancels a rename. A key with any other modifier held is ignored, and
    /// so is a key that has no meaning here.
    pub open spec fn input_key(self, key: KeyEvent) -> AppView {
        if key.modifiers == CONTROL {
            match key.code {
                KeyCode::Char(c) if c == 'a' => AppView {
                    inputter: self.inputter.move_to_start(),
                    ..self
                },
                KeyCode::Char(c) if c == 'e' => AppView {
                    inputter: self.inputter.move_to_end(),
                    ..self
                },
                _ => self,
            }
        } else if key.is_typed() {
            match key.code {
                KeyCode::Char(c) => AppView { inputter: self.inputter.insert(c), ..self },
                KeyCode::Left => AppView { inputter: self.inputter.left(), ..self },
                KeyCode::Right => AppView { inputter: self.inputter.right(), ..self },
                KeyCode::Backspace => AppView { inputter: self.inputter.delete_left(), ..self },
                KeyCode::Delete => AppView { inputter: self.inputter.delete_right(), ..self },
                KeyCode::Enter => self.commit(),
                KeyCode::Esc => self.cancel(),
                _ => self,
            }
        } else {
            self
        }
    }

    /// A key press while the list has the keys. An empty list takes no key,
    /// and a key with any modifier held is ignored.
    pub open spec fn list_key(self, key: KeyEvent) -> AppView {
        if self.todolist.items.len() == 0 || key.modifiers != NONE {
            self
        } else if key.code == KeyCode::Down || key.code == KeyCode::Char('j') {
            AppView { todolist: self.todolist.move_selection(1), ..self }
        } else if key.code == KeyCode::Up || key.code == KeyCode::Char('k') {
            AppView { todolist: self.todolist.move_selection(-1), ..self }
        } else if key.code == KeyCode::Enter || key.code == KeyCode::Char(' ') {
            AppView { todolist: self.todolist.toggle_selected(), ..self }
        } else if key.code == KeyCode::Char('e') {
            self.begin_edit()
        } else if key.code == KeyCode::Char('m') {
            AppView { todolist: self.todolist.mark_all_complete(), ..self }
        } else if key.code == KeyCode::Char('c') {
            self.clear()
        } else {
            self
        }
    }

    /// The state after one keyboard event. Only presses count. Control
    /// with `c` asks to leave, whatever has the keys; the tab key, with no
    /// modifier held, hands the keys from the line to the list or back;
    /// every other key goes to the part that has the keys.
    pub open spec fn handle_key(self, key: KeyEvent) -> AppView {
        if key.kind != KeyEventKind::Press {
            self
        } else if key.is_quit() {
            AppView { exit: true, ..self }
        } else if key.code == KeyCode::Tab && key.modifiers == NONE {
            AppView {
                focus: if self.focus == Focus::Input {
                    Focus::List
                } else {
                    Focus::Input
                },
                ..self
            }
        } else if self.focus == Focus::Input {
            self.input_key(key)
        } else {
            self.list_key(key)
        }
    }
}

/// The whole state of the editor.
#[derive(Debug)]
pub struct App {
    /// Set once the user has asked to leave.
    pub exit: bool,
    pub todolist: ItemList,
    pub focus: Focus,
    pub inputter: Inputter,
    /// True until the first entry has been made.
    pub first_todo: bool,
    /// The entry that is being renamed on the input line, if any.
    pub editing: Option<usize>,
}

impl View for App {
    type V = AppView;

    open spec fn view(&self) -> AppView {
        AppView {
            exit: self.exit,
            todolist: self.todolist@,
            focus: self.focus,
            inputter: self.inputter@,
            first_todo: self.first_todo,
            editing: index_view(self.editing),
        }
    }
}

impl App {
    pub fn new() -> (app: App)
        ensures
            app@ == AppView::initial(),
            app@.inv(),
    {
        App {
            exit: false,
            todolist: ItemList::new(),
            focus: Focus::Input,
            inputter: Inputter::new(),
            first_todo: true,
            editing: None,
        }
    }

    /// How to draw the frame of `check_focus`: plain unless that part has
    /// the keys, yellow for the input line during a rename, blue otherwise.
    pub fn focus_border(&self, check_focus: &Focus) -> (style: BorderStyle)
        ensures
            style == self@.focus_border(*check_focus),
    {
        if self.focus == *check_focus {
            if self.focus == Focus::Input && self.editing.is_some() {
                return BorderStyle::Yellow;
            }
            return BorderStyle::Blue;
        }
        BorderStyle::Plain
    }

    /// Which key hints to show.
    pub fn hints(&self) -> (hints: Hints)
        ensures
            hints == self@.hints(),
    {
        if self.editing.is_some() {
            Hints::Editing
        } else if self.focus == Focus::Input {
            Hints::Input
        } else {
            Hints::List
        }
    }

    /// Whether the input line shows its prompt in place of its text.
    pub fn shows_placeholder(&self) -> (shown: bool)
        ensures
            shown == (self@.inputter.render_placeholder && self@.editing is None),
    {
        self.inputter.render_placeholder && self.editing.is_none()
    }

    /// The text under the list.
    pub fn status_line(&self) -> (line: String)
        ensures
            line@ == self@.status_line(),
    {
        if self.first_todo {
            String::new()
        } else {
            fmt_itemsleft(&self.todolist.items)
        }
    }

    /// Whether the selection, the entry being renamed and the cursors are
    /// all in range.
    pub fn is_valid(&self) -> (valid: bool)
        ensures
            valid == self@.inv(),
            valid ==> self@.editing_in_range(),
    {
        let len: usize = self.todolist.len();
        let selected_ok: bool = match self.todolist.selected {
            Some(i) => i < len,
            None => true,
        };
        let editing_ok: bool = match self.editing {
            Some(i) => i < len,
            None => true,
        };
        selected_ok && editing_ok && self.inputter.cursor <= self.inputter.char_count()
            && self.inputter.saved_cursor <= self.inputter.saved_input.as_str().unicode_len()
    }

    fn commit(&mut self)
        requires
            old(self)@.editing_in_range(),
        ensures
            final(self)@ == old(self)@.commit(),
    {
        let name: String = self.inputter.input.clone();
        if !name.as_str().is_empty() {
            match self.editing {
                Some(idx) => {
                    let _ = self.todolist.rename(idx, name);
                    self.focus = Focus::List;
                    self.editing = None;
                    self.inputter.restore();
                },
                None => {
                    self.todolist.append(name);
                    self.first_todo = false;
                    self.inputter.reset();
                },
            }
        }
    }

    fn cancel(&mut self)
        ensures
            final(self)@ == old(self)@.cancel(),
    {
        if self.editing.is_some() {
            self.focus = Focus::List;
            self.inputter.restore();
            self.editing = None;
        }
    }

    fn begin_edit(&mut self)
        ensures
            final(self)@ == old(self)@.begin_edit(),
    {
        if let Some(current) = self.todolist.selected {
            if self.editing.is_none() && current < self.todolist.items.len() {
                self.inputter.save();
                self.focus = Focus::Input;
                self.editing = Some(current);
                self.inputter.load(self.todolist.items[current].name.clone());
            }
        }
    }

    fn clear(&mut self)
        ensures
            final(self)@ == old(self)@.clear(),
    {
        if let Some(idx) = self.editing {
            self.editing = self.todolist.surviving_index(idx);
            if self.editing.is_none() {
                self.inputter.restore();
            }
        }
        self.todolist.clear_completed();
    }

    fn input_key(&mut self, key: KeyEvent)
        requires
            old(self)@.editing_in_range(),
        ensures
            final(self)@ == old(self)@.input_key(key),
    {
        if key.modifiers == CONTROL {
            match key.code {
                KeyCode::Char(c) => {
                    if c == 'a' {
                        self.inputter.move_to_start();
                    } else if c == 'e' {
                        self.inputter.move_to_end();
                    }
                },
                _ => {},
            }
            return ;
        }
        if !key.typed() {
            return ;
        }
        match key.code {
            KeyCode::Char(c) => {
                self.inputter.insert(c);
            },
            KeyCode::Left => {
                self.inputter.left();
            },
            KeyCode::Right => {
                self.inputter.right();
            },
            KeyCode::Backspace => {
                self.inputter.delete(false);
            },
            KeyCode::Delete => {
                self.inputter.delete(true);
            },
            KeyCode::Enter => {
                self.commit();
            },
            KeyCode::Esc => {
                self.cancel();
            },
            _ => {},
        }
    }

    fn list_key(&mut self, key: KeyEvent)
        ensures
            final(self)@ == old(self)@.list_key(key),
    {
        if self.todolist.len() == 0 || key.modifiers != NONE {
            return ;
        }
        match key.code {
            KeyCode::Down => {
                self.todolist.move_selection(1);
            },
            KeyCode::Up => {
                self.todolist.move_selection(-1);
            },
            KeyCode::Enter => {
                self.todolist.toggle_selected();
            },
            KeyCode::Char(c) => {
                if c == 'j' {
                    self.todolist.move_selection(1);
                } else if c == 'k' {
                    self.todolist.move_selection(-1);
                } else if c == ' ' {
                    self.todolist.toggle_selected();
                } else if c == 'e' {
                    self.begin_edit();
                } else if c == 'm' {
                    self.todolist.mark_all_complete();
                } else if c == 'c' {
                    self.clear();
                }
            },
            _ => {},
        }
    }

    /// Takes one keyboard event and changes the state as `AppView::handle_key`
    /// says. The entry being renamed must be an entry of the list, and it
    /// still is one afterwards; a state that is valid as a whole stays so,
    /// and no entry gets an empty name.
    pub fn handle_key(&mut self, key: KeyEvent)
        requires
            old(self)@.editing_in_range(),
        ensures
            final(self)@ == old(self)@.handle_key(key),
            final(self)@.editing_in_range(),
            old(self)@.inv() ==> final(self)@.inv(),
            old(self)@.names_given() ==> final(self)@.names_given(),
    {
        match key.kind {
            KeyEventKind::Press => {},
            _ => {
                return ;
            },
        }
        match key.code {
            KeyCode::Char(c) => {
                if c == 'c' && key.modifiers == CONTROL {
                    self.exit = true;
                    return ;
                }
            },
            KeyCode::Tab => {
                if key.modifiers == NONE {
                    match self.focus {
                        Focus::Input => {
                            self.focus = Focus::List;
                        },
                        Focus::List => {
                            self.focus = Focus::Input;
                        },
                    }
                    return ;
                }
            },
            _ => {},
        }
        proof {
            lemma_key_keeps_editing(self@, key);
            if self@.inv() {
                lemma_key_keeps_inv(self@, key);
            }
            if self@.names_given() {
                lemma_key_keeps_names(self@, key);
            }
        }
        match self.focus {
            Focus::Input => {
                self.input_key(key);
            },
            Focus::List => {
                self.list_key(key);
            },
        }
    }
}

/// After any key press the entry being renamed, if there is one, is still
/// an entry of the list.
pub proof fn lemma_key_keeps_editing(state: AppView, key: KeyEvent)
    requires
        state.editing_in_range(),
    ensures
        state.handle_key(key).editing_in_range(),
{
    let items = state.todolist.items;
    if let Some(i) = state.editing {
        if !items[i as int].complete {
            lemma_surviving_entry(items, i);
        }
    }
}

/// Every key press leaves a valid state valid.
pub proof fn lemma_key_keeps_inv(state: AppView, key: KeyEvent)
    requires
        state.inv(),
    ensures
        state.handle_key(key).inv(),
{
    let items = state.todolist.items;
    if let Some(s) = state.todolist.selected {
        if !items[s as int].complete {
            lemma_surviving_entry(items, s);
        }
    }
    if let Some(i) = state.editing {
        if !items[i as int].complete {
            lemma_surviving_entry(items, i);
        }
    }
}

/// No key press gives an entry an empty name.
pub proof fn lemma_key_keeps_names(state: AppView, key: KeyEvent)
    requires
        state.editing_in_range(),
        state.names_given(),
    ensures
        state.handle_key(key).names_given(),
{
    let items = state.todolist.items;
    let cleared = state.todolist.clear_completed().items;
    assert forall|i: int| 0 <= i < cleared.len() implies cleared[i].name.len() > 0 by {
        assert(cleared.contains(cleared[i]));
        items.lemma_filter_contains_rev(pending(), cleared[i]);
    }
}

} // verus!
