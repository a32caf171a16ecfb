//! One entry of the list: a name and a completion flag.

use crate::decimal::{decimal, decimal_string};
use vstd::prelude::*;
use vstd::string::*;

verus! {

/// What an entry is, as plain values.
pub struct TodoView {
    pub name: Seq<char>,
    pub complete: bool,
}

/// A named entry that can be ticked off.
#[derive(Debug)]
pub struct Todo {
    pub name: String,
    pub complete: bool,
}

impl View for Todo {
    type V = TodoView;

    open spec fn view(&self) -> TodoView {
        TodoView { name: self.name@, complete: self.complete }
    }
}

impl Todo {
    /// A fresh entry with the given name, not yet complete.
    pub fn new(name: String) -> (t: Todo)
        ensures
            t@ == (TodoView { name: name@, complete: false }),
    {
        Todo { name, complete: false }
    }

    /// Flips the completion flag and leaves the name alone.
    pub fn toggle(&mut self)
        ensures
            final(self)@ == (TodoView { name: old(self)@.name, complete: !old(self)@.complete }),
    {
        self.complete = !self.complete;
    }

    /// The entry as it is shown in the list: a blank line above, the tick
    /// box and the name, two line ends below.
    pub fn fmt_item(&self) -> (r: String)
        ensures
            r@ == item_text(self@),
    {
        let mut r: String = String::from_str("\n   ");
        if self.complete {
            r.append("(X) ");
        } else {
            r.append("( ) ");
        }
        r.append(self.name.as_str());
        r.append("\n\n");
        r
    }
}

/// The text of one list row.
pub open spec fn item_text(t: TodoView) -> Seq<char> {
    "\n   "@ + (if t.complete {
        "(X) "@
    } else {
        "( ) "@
    }) + t.name + "\n\n"@
}

/// The entries in display order.
pub type Todos = Vec<Todo>;

/// The entries of a list as plain values, in order.
pub open spec fn views_of(items: Seq<Todo>) -> Seq<TodoView> {
    items.map_values(|t: Todo| t@)
}

/// Holds of the entries that are not complete.
pub open spec fn pending() -> spec_fn(TodoView) -> bool {
    |t: TodoView| !t.complete
}

/// How many entries are not complete.
pub open spec fn remaining(items: Seq<TodoView>) -> nat {
    items.filter(pending()).len()
}

/// The status line for `n` entries left to do.
pub open spec fn items_left_text(n: nat) -> Seq<char> {
    if n == 0 {
        "woohoo! all done"@
    } else if n == 1 {
        "1 item left"@
    } else {
        decimal(n) + " items left"@
    }
}

/// Counts the entries that are not complete.
pub fn count_remaining(ts: &Todos) -> (n: usize)
    ensures
        n == remaining(views_of(ts@)),
{
    let ghost all = views_of(ts@);
    let mut n: usize = 0;
    let mut i: usize = 0;
    proof {
        reveal(Seq::filter);
        assert(all.subrange(0, 0).len() == 0);
    }
    while i < ts.len()
        invariant
            i <= ts.len(),
            all == views_of(ts@),
            n == remaining(all.subrange(0, i as int)),
            n <= i,
        decreases ts.len() - i,
    {
        proof {
            reveal(Seq::filter);
            let next = all.subrange(0, i + 1);
            assert(next.drop_last() == all.subrange(0, i as int));
            assert(next.last() == ts@[i as int]@);
        }
        if !ts[i].complete {
            n = n + 1;
        }
        i = i + 1;
    }
    assert(all.subrange(0, i as int) == all);
    n
}

/// The status line: how many entries are left to do.
pub fn fmt_itemsleft(ts: &Todos) -> (r: String)
    ensures
        r@ == items_left_text(remaining(views_of(ts@))),
{
    let n: usize = count_remaining(ts);
    if n == 0 {
        String::from_str("woohoo! all done")
    } else if n == 1 {
        String::from_str("1 item left")
    } else {
        let mut r: String = decimal_string(n);
        r.append(" items left");
        r
    }
}

/// Marks every entry complete; names and order stay.
pub fn complete_all(ts: &mut Todos)
    ensures
        views_of(final(ts)@) == all_complete(views_of(old(ts)@)),
{
    let mut i: usize = 0;
    while i < ts.len()
        invariant
            i <= ts.len(),
            ts@.len() == old(ts)@.len(),
            forall|k: int| 0 <= k < i ==> #[trigger] ts@[k]@ == (TodoView { complete: true, ..old(ts)@[k]@ }),
            forall|k: int| i <= k < ts@.len() ==> #[trigger] ts@[k] == old(ts)@[k],
        decreases ts.len() - i,
    {
        ts[i].complete = true;
        i = i + 1;
    }
    assert(views_of(ts@) =~= all_complete(views_of(old(ts)@)));
}

/// Every entry of `items` with its flag set.
pub open spec fn all_complete(items: Seq<TodoView>) -> Seq<TodoView> {
    items.map_values(|t: TodoView| TodoView { complete: true, ..t })
}

} // verus!
