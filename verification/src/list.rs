//! The list of entries and the selection that follows an entry when others
//! are removed around it.

use crate::todo::{all_complete, complete_all, pending, views_of, Todo, TodoView, Todos};
use vstd::prelude::*;

verus! {

/// The entries that are not complete, in their order.
pub open spec fn kept(items: Seq<TodoView>) -> Seq<TodoView> {
    items.filter(pending())
}

/// Where the entry at `index` stands once the complete entries are gone:
/// behind the kept entries that stood before it. `None` if there is no such
/// entry or if it is complete itself.
pub open spec fn surviving(items: Seq<TodoView>, index: nat) -> Option<nat> {
    if index < items.len() && !items[index as int].complete {
        Some(kept(items.subrange(0, index as int)).len())
    } else {
        None
    }
}

/// `target` brought into the indices of a list of `len > 0` entries.
pub open spec fn clamp_index(target: int, len: nat) -> nat
    recommends
        len > 0,
{
    if target < 0 {
        0
    } else if target >= len {
        (len - 1) as nat
    } else {
        target as nat
    }
}

/// Taking one more entry into a prefix adds it to the kept entries exactly
/// when it is not complete.
pub proof fn lemma_kept_step(items: Seq<TodoView>, i: int)
    requires
        0 <= i < items.len(),
    ensures
        kept(items.subrange(0, i + 1)) == if items[i].complete {
            kept(items.subrange(0, i))
        } else {
            kept(items.subrange(0, i)).push(items[i])
        },
{
    reveal(Seq::filter);
    let next = items.subrange(0, i + 1);
    assert(next.drop_last() == items.subrange(0, i));
    assert(next.last() == items[i]);
}

/// An entry that survives stands in the kept list at its new index.
pub proof fn lemma_surviving_entry(items: Seq<TodoView>, index: nat)
    requires
        index < items.len(),
        !items[index as int].complete,
    ensures
        surviving(items, index) == Some(kept(items.subrange(0, index as int)).len()),
        kept(items.subrange(0, index as int)).len() < kept(items).len(),
        kept(items)[kept(items.subrange(0, index as int)).len() as int] == items[index as int],
{
    let head = items.subrange(0, index as int);
    let upto = items.subrange(0, index as int + 1);
    let tail = items.subrange(index as int + 1, items.len() as int);
    lemma_kept_step(items, index as int);
    assert(items == upto + tail);
    Seq::filter_distributes_over_add(upto, tail, pending());
}

/// A list without complete entries is kept whole.
pub proof fn lemma_kept_whole(items: Seq<TodoView>)
    requires
        forall|i: int| 0 <= i < items.len() ==> !items[i].complete,
    ensures
        kept(items) == items,
    decreases items.len(),
{
    reveal(Seq::filter);
    if items.len() > 0 {
        lemma_kept_whole(items.drop_last());
        assert(items.drop_last().push(items.last()) == items);
    }
}

/// Holds of the entries that are complete.
pub open spec fn done() -> spec_fn(TodoView) -> bool {
    |t: TodoView| t.complete
}

/// Each entry is either kept or among the complete ones.
pub proof fn lemma_kept_and_done(items: Seq<TodoView>)
    ensures
        kept(items).len() + items.filter(done()).len() == items.len(),
    decreases items.len(),
{
    reveal(Seq::filter);
    if items.len() > 0 {
        lemma_kept_and_done(items.drop_last());
    }
}

/// An optional index as a plain value.
pub open spec fn index_view(index: Option<usize>) -> Option<nat> {
    match index {
        Some(i) => Some(i as nat),
        None => None,
    }
}

/// The list as plain values.
pub struct ItemListView {
    pub items: Seq<TodoView>,
    pub selected: Option<nat>,
}

impl ItemListView {
    /// A selection, if there is one, names an entry of the list.
    pub open spec fn wf(self) -> bool {
        self.selected matches Some(i) ==> i < self.items.len()
    }

    /// No entry, no selection.
    pub open spec fn empty() -> ItemListView {
        ItemListView { items: Seq::empty(), selected: None }
    }

    /// A new entry at the end, selected. An empty name adds nothing.
    pub open spec fn append(self, name: Seq<char>) -> ItemListView {
        if name.len() == 0 {
            self
        } else {
            ItemListView {
                items: self.items.push(TodoView { name, complete: false }),
                selected: Some(self.items.len()),
            }
        }
    }

    /// The entry at `index` under a new name.
    pub open spec fn rename(self, index: nat, name: Seq<char>) -> ItemListView
        recommends
            index < self.items.len(),
    {
        ItemListView {
            items: self.items.update(
                index as int,
                TodoView { name, ..self.items[index as int] },
            ),
            ..self
        }
    }

    /// The entry at `index` with its flag flipped.
    pub open spec fn toggle(self, index: nat) -> ItemListView
        recommends
            index < self.items.len(),
    {
        ItemListView {
            items: self.items.update(
                index as int,
                TodoView {
                    complete: !self.items[index as int].complete,
                    ..self.items[index as int]
                },
            ),
            ..self
        }
    }

    /// The selected entry with its flag flipped; nothing without a selection
    /// that names an entry.
    pub open spec fn toggle_selected(self) -> ItemListView {
        match self.selected {
            Some(i) if i < self.items.len() => self.toggle(i),
            _ => self,
        }
    }

    /// Every entry complete; the selection stays.
    pub open spec fn mark_all_complete(self) -> ItemListView {
        ItemListView { items: all_complete(self.items), ..self }
    }

    /// The complete entries removed; the selection follows its entry, and
    /// is gone if that entry is.
    pub open spec fn clear_completed(self) -> ItemListView {
        ItemListView {
            items: kept(self.items),
            selected: match self.selected {
                Some(s) => surviving(self.items, s),
                None => None,
            },
        }
    }

    /// The selection moved by `delta` entries and held at the ends. Without
    /// a selection a move down picks the first entry and a move up the last.
    /// An empty list has no selection.
    pub open spec fn move_selection(self, delta: int) -> ItemListView {
        if self.items.len() == 0 {
            ItemListView { selected: None, ..self }
        } else {
            ItemListView {
                selected: match self.selected {
                    Some(i) => Some(clamp_index(i + delta, self.items.len())),
                    None => if delta > 0 {
                        Some(0)
                    } else if delta < 0 {
                        Some((self.items.len() - 1) as nat)
                    } else {
                        None
                    },
                },
                ..self
            }
        }
    }
}

/// Clearing a second time changes nothing.
pub proof fn law_clear_completed_twice(list: ItemListView)
    ensures
        list.clear_completed().clear_completed() == list.clear_completed(),
{
    let once = list.clear_completed();
    assert forall|i: int| 0 <= i < once.items.len() implies !once.items[i].complete by {
        list.items.lemma_filter_pred(pending(), i);
    }
    lemma_kept_whole(once.items);
    if let Some(j) = once.selected {
        let s = list.selected->Some_0;
        lemma_surviving_entry(list.items, s);
        lemma_kept_whole(once.items.subrange(0, j as int));
    }
}

/// A selected entry that is not complete is still the selected entry after
/// the complete ones are cleared: the selection names the same entry, at
/// its new place.
pub proof fn law_selection_follows_entry(list: ItemListView, s: nat)
    requires
        list.selected == Some(s),
        s < list.items.len(),
        !list.items[s as int].complete,
    ensures
        list.clear_completed().selected is Some,
        list.clear_completed().selected->Some_0 < list.clear_completed().items.len(),
        list.clear_completed().items[list.clear_completed().selected->Some_0 as int]
            == list.items[s as int],
{
    lemma_surviving_entry(list.items, s);
}

/// The new index of a selection that stays is the old one less the number
/// of complete entries that stood before it.
pub proof fn law_selection_shifts_left(list: ItemListView, s: nat)
    requires
        list.selected == Some(s),
        s < list.items.len(),
        !list.items[s as int].complete,
    ensures
        list.clear_completed().selected == Some(
            (s - list.items.subrange(0, s as int).filter(done()).len()) as nat,
        ),
{
    lemma_kept_and_done(list.items.subrange(0, s as int));
}

/// A selection whose entry is complete is gone after the clearing.
pub proof fn law_selection_lost_with_entry(list: ItemListView, s: nat)
    requires
        list.selected == Some(s),
        s < list.items.len(),
        list.items[s as int].complete,
    ensures
        list.clear_completed().selected is None,
{
}

/// An index that names no entry of the list.
#[derive(Clone, Copy, Debug, PartialEq, Eq, Structural)]
pub struct IndexError {
    /// The index that was asked for.
    pub index: usize,
    /// The number of entries at that time.
    pub len: usize,
}

/// The entries and the index of the one that is selected, if any.
#[derive(Debug)]
pub struct ItemList {
    pub items: Todos,
    pub selected: Option<usize>,
}

impl View for ItemList {
    type V = ItemListView;

    open spec fn view(&self) -> ItemListView {
        ItemListView { items: views_of(self.items@), selected: index_view(self.selected) }
    }
}

impl ItemList {
    pub fn new() -> (r: ItemList)
        ensures
            r@ == ItemListView::empty(),
    {
        let r = ItemList { items: Vec::new(), selected: None };
        assert(r@.items =~= Seq::empty());
        r
    }

    /// Number of entries.
    pub fn len(&self) -> (n: usize)
        ensures
            n == self@.items.len(),
    {
        self.items.len()
    }

    /// Adds an entry named `name` at the end and selects it. An empty name
    /// is not taken: the list stays as it is.
    pub fn append(&mut self, name: String)
        ensures
            final(self)@ == old(self)@.append(name@),
            old(self)@.wf() || name@.len() > 0 ==> final(self)@.wf(),
    {
        if name.as_str().is_empty() {
            return ;
        }
        self.items.push(Todo::new(name));
        self.selected = Some(self.items.len() - 1);
        assert(self@.items =~= old(self)@.items.push(TodoView { name: name@, complete: false }));
    }

    /// Gives the entry at `index` the name `new_name`.
    pub fn rename(&mut self, index: usize, new_name: String) -> (r: Result<(), IndexError>)
        ensures
            index < old(self)@.items.len() ==> r is Ok && final(self)@ == old(self)@.rename(
                index as nat,
                new_name@,
            ),
            index >= old(self)@.items.len() ==> r == Err::<(), IndexError>(
                IndexError { index, len: old(self).items.len() },
            ) && *final(self) == *old(self),
    {
        let len: usize = self.items.len();
        if index >= len {
            return Err(IndexError { index, len });
        }
        self.items[index].name = new_name;
        assert(self@.items =~= old(self)@.rename(index as nat, new_name@).items);
        Ok(())
    }

    /// Flips the flag of the entry at `index`.
    pub fn toggle(&mut self, index: usize) -> (r: Result<(), IndexError>)
        ensures
            index < old(self)@.items.len() ==> r is Ok && final(self)@ == old(self)@.toggle(
                index as nat,
            ),
            index >= old(self)@.items.len() ==> r == Err::<(), IndexError>(
                IndexError { index, len: old(self).items.len() },
            ) && *final(self) == *old(self),
    {
        let len: usize = self.items.len();
        if index >= len {
            return Err(IndexError { index, len });
        }
        self.items[index].toggle();
        assert(self@.items =~= old(self)@.toggle(index as nat).items);
        Ok(())
    }

    /// Flips the flag of the selected entry. Without a selection nothing
    /// happens.
    pub fn toggle_selected(&mut self)
        ensures
            final(self)@ == old(self)@.toggle_selected(),
    {
        if let Some(sel) = self.selected {
            let _ = self.toggle(sel);
        }
    }

    /// Marks every entry complete.
    pub fn mark_all_complete(&mut self)
        ensures
            final(self)@ == old(self)@.mark_all_complete(),
    {
        complete_all(&mut self.items);
    }

    /// Where the entry at `index` will stand after `clear_completed`, or
    /// `None` if it will be gone or if there is no such entry.
    pub fn surviving_index(&self, index: usize) -> (r: Option<usize>)
        ensures
            index_view(r) == surviving(self@.items, index as nat),
    {
        if index >= self.items.len() || self.items[index].complete {
            return None;
        }
        let ghost all = self@.items;
        let mut before: usize = 0;
        let mut i: usize = 0;
        proof {
            reveal(Seq::filter);
            assert(all.subrange(0, 0).len() == 0);
        }
        while i < index
            invariant
                i <= index < self.items.len(),
                all == views_of(self.items@),
                before == kept(all.subrange(0, i as int)).len(),
                before <= i,
            decreases index - i,
        {
            proof {
                lemma_kept_step(all, i as int);
            }
            if !self.items[i].complete {
                before = before + 1;
            }
            i = i + 1;
        }
        Some(before)
    }

    /// Removes the complete entries and keeps the others in their order.
    /// The selection goes with its entry: its index drops by one for each
    /// entry removed before it, and there is no selection left if the
    /// selected entry itself was removed.
    pub fn clear_completed(&mut self)
        ensures
            final(self)@ == old(self)@.clear_completed(),
            final(self)@.wf(),
    {
        let ghost all = self@.items;
        let len: usize = self.items.len();
        let mut new_list: Vec<Todo> = Vec::new();
        let sel: usize = match self.selected {
            None => len,
            Some(i) => i,
        };
        // New index of the selection, and whether its entry is removed.
        let mut new_sel: usize = sel;
        let mut sel_cleared: bool = true;
        let mut i: usize = 0;
        proof {
            reveal(Seq::filter);
            assert(all.subrange(0, 0).len() == 0);
            assert(views_of(new_list@) =~= kept(all.subrange(0, 0)));
        }
        while i < len
            invariant
                i <= len == self.items.len(),
                all == views_of(self.items@),
                views_of(new_list@) == kept(all.subrange(0, i as int)),
                new_list@.len() <= i,
                i <= sel ==> new_sel + i == sel + new_list@.len(),
                i > sel ==> new_sel == kept(all.subrange(0, sel as int)).len(),
                sel_cleared == !(sel < i && !all[sel as int].complete),
            decreases len - i,
        {
            proof {
                lemma_kept_step(all, i as int);
            }
            if self.items[i].complete {
                if i < sel {
                    new_sel = new_sel - 1;
                }
            } else {
                let ghost before = views_of(new_list@);
                new_list.push(Todo { name: self.items[i].name.clone(), complete: false });
                assert(views_of(new_list@) =~= before.push(all[i as int]));
                if i == sel {
                    sel_cleared = false;
                }
            }
            i = i + 1;
        }
        proof {
            assert(all.subrange(0, len as int) == all);
            if sel < len && !all[sel as int].complete {
                lemma_surviving_entry(all, sel as nat);
            }
        }
        self.items = new_list;
        self.selected = if !sel_cleared {
            Some(new_sel)
        } else {
            None
        };
    }

    /// Moves the selection by `delta` entries, down for a positive `delta`
    /// and up for a negative one, and stops at the first and the last entry:
    /// it does not wrap around. Without a selection, a move down selects the
    /// first entry and a move up the last. An empty list has no selection.
    pub fn move_selection(&mut self, delta: isize)
        ensures
            final(self)@ == old(self)@.move_selection(delta as int),
            final(self)@.wf(),
    {
        let len: usize = self.items.len();
        if len == 0 {
            self.selected = None;
            return ;
        }
        match self.selected {
            Some(i) => {
                if delta >= 0 {
                    let target: usize = i.saturating_add(delta as usize);
                    self.selected = Some(
                        if target >= len {
                            len - 1
                        } else {
                            target
                        },
                    );
                } else {
                    // One less than the number of entries to go up.
                    let back: usize = (-(delta + 1)) as usize;
                    if i > back {
                        let target: usize = i - back - 1;
                        self.selected = Some(
                            if target >= len {
                                len - 1
                            } else {
                                target
                            },
                        );
                    } else {
                        self.selected = Some(0);
                    }
                }
            },
            None => {
                if delta > 0 {
                    self.selected = Some(0);
                } else if delta < 0 {
                    self.selected = Some(len - 1);
                }
            },
        }
    }
}

} // verus!
