use todomvc::list::{IndexError, ItemList};
use todomvc::todo::{complete_all, count_remaining, fmt_itemsleft, Todo};

fn list_of(entries: &[(&str, bool)], selected: Option<usize>) -> ItemList {
    let mut list = ItemList::new();
    for (name, complete) in entries {
        list.items.push(Todo { name: name.to_string(), complete: *complete });
    }
    list.selected = selected;
    list
}

fn names(list: &ItemList) -> Vec<String> {
    let mut out = Vec::new();
    for t in &list.items {
        out.push(t.name.clone());
    }
    out
}

#[test]
fn row_text() {
    let mut t = Todo::new("milk".to_string());
    assert_eq!(t.fmt_item(), "\n   ( ) milk\n\n");
    t.toggle();
    assert_eq!(t.fmt_item(), "\n   (X) milk\n\n");
}

#[test]
fn items_left_wording() {
    let mut ts = Vec::new();
    assert_eq!(fmt_itemsleft(&ts), "woohoo! all done");
    ts.push(Todo::new("a".to_string()));
    assert_eq!(fmt_itemsleft(&ts), "1 item left");
    ts.push(Todo::new("b".to_string()));
    assert_eq!(fmt_itemsleft(&ts), "2 items left");
    for _ in 0..10 {
        ts.push(Todo::new("more".to_string()));
    }
    assert_eq!(fmt_itemsleft(&ts), "12 items left");
    assert_eq!(count_remaining(&ts), 12);
    complete_all(&mut ts);
    assert_eq!(count_remaining(&ts), 0);
    assert_eq!(fmt_itemsleft(&ts), "woohoo! all done");
}

#[test]
fn one_item_then_done() {
    let mut ts = vec![Todo::new("only".to_string())];
    assert_eq!(fmt_itemsleft(&ts), "1 item left");
    ts[0].toggle();
    assert_eq!(fmt_itemsleft(&ts), "woohoo! all done");
}

#[test]
fn append_selects_the_new_entry() {
    let mut list = ItemList::new();
    assert_eq!(list.len(), 0);
    assert_eq!(list.selected, None);
    list.append("a".to_string());
    assert_eq!(list.selected, Some(0));
    list.append("b".to_string());
    assert_eq!(list.selected, Some(1));
    assert_eq!(names(&list), vec!["a".to_string(), "b".to_string()]);
    assert!(!list.items[0].complete);
    assert!(!list.items[1].complete);
}

#[test]
fn append_refuses_an_empty_name() {
    let mut list = list_of(&[("a", false), ("b", true)], Some(0));
    list.append(String::new());
    assert_eq!(list.len(), 2);
    assert_eq!(list.selected, Some(0));
}

#[test]
fn rename_in_range() {
    let mut list = list_of(&[("a", false), ("b", true)], Some(0));
    assert_eq!(list.rename(1, "z".to_string()), Ok(()));
    assert_eq!(names(&list), vec!["a".to_string(), "z".to_string()]);
    assert!(list.items[1].complete);
    assert_eq!(list.selected, Some(0));
}

#[test]
fn rename_out_of_range() {
    let mut list = list_of(&[("a", false), ("b", true)], Some(0));
    assert_eq!(list.rename(2, "z".to_string()), Err(IndexError { index: 2, len: 2 }));
    assert_eq!(names(&list), vec!["a".to_string(), "b".to_string()]);
    assert_eq!(list.selected, Some(0));
}

#[test]
fn toggle_in_and_out_of_range() {
    let mut list = list_of(&[("a", false), ("b", true)], None);
    assert_eq!(list.toggle(0), Ok(()));
    assert_eq!(list.toggle(1), Ok(()));
    assert!(list.items[0].complete);
    assert!(!list.items[1].complete);
    assert_eq!(list.toggle(5), Err(IndexError { index: 5, len: 2 }));
    assert!(list.items[0].complete);
    assert!(!list.items[1].complete);
}

#[test]
fn toggle_selected_needs_a_selection() {
    let mut list = list_of(&[("a", false)], None);
    list.toggle_selected();
    assert!(!list.items[0].complete);
    list.selected = Some(0);
    list.toggle_selected();
    assert!(list.items[0].complete);
}

#[test]
fn mark_all_keeps_the_selection() {
    let mut list = list_of(&[("a", false), ("b", true), ("c", false)], Some(2));
    list.mark_all_complete();
    assert!(list.items.iter().all(|t| t.complete));
    assert_eq!(names(&list), vec!["a".to_string(), "b".to_string(), "c".to_string()]);
    assert_eq!(list.selected, Some(2));
}

#[test]
fn clear_keeps_selected_entry() {
    let mut list = list_of(&[("a", true), ("b", false), ("c", true)], Some(1));
    list.clear_completed();
    assert_eq!(names(&list), vec!["b".to_string()]);
    assert_eq!(list.selected, Some(0));
}

#[test]
fn clear_drops_selection_with_its_entry() {
    let mut list = list_of(&[("a", true), ("b", false)], Some(0));
    list.clear_completed();
    assert_eq!(names(&list), vec!["b".to_string()]);
    assert_eq!(list.selected, None);
}

#[test]
fn clear_shifts_past_each_removed_entry() {
    let mut list = list_of(
        &[("a", true), ("b", false), ("c", true), ("d", true), ("e", false), ("f", true), ("g", false)],
        Some(4),
    );
    assert_eq!(list.surviving_index(4), Some(1));
    assert_eq!(list.surviving_index(6), Some(2));
    assert_eq!(list.surviving_index(1), Some(0));
    assert_eq!(list.surviving_index(0), None);
    assert_eq!(list.surviving_index(7), None);
    list.clear_completed();
    assert_eq!(names(&list), vec!["b".to_string(), "e".to_string(), "g".to_string()]);
    assert_eq!(list.selected, Some(1));
    assert_eq!(list.items[1].name, "e");
}

#[test]
fn clear_twice_is_clear_once() {
    let mut list = list_of(&[("a", false), ("b", true), ("c", false), ("d", true)], Some(2));
    list.clear_completed();
    let once_names = names(&list);
    let once_selected = list.selected;
    list.clear_completed();
    assert_eq!(names(&list), once_names);
    assert_eq!(list.selected, once_selected);
    assert_eq!(once_names, vec!["a".to_string(), "c".to_string()]);
    assert_eq!(once_selected, Some(1));
}

#[test]
fn clear_without_selection_and_on_empty_list() {
    let mut list = list_of(&[("a", true), ("b", false)], None);
    list.clear_completed();
    assert_eq!(names(&list), vec!["b".to_string()]);
    assert_eq!(list.selected, None);
    let mut empty = ItemList::new();
    empty.clear_completed();
    assert_eq!(empty.len(), 0);
    assert_eq!(empty.selected, None);
}

#[test]
fn clear_everything() {
    let mut list = list_of(&[("a", true), ("b", true)], Some(1));
    list.clear_completed();
    assert_eq!(list.len(), 0);
    assert_eq!(list.selected, None);
}

#[test]
fn selection_does_not_wrap() {
    let mut list = list_of(&[("a", false), ("b", false), ("c", false)], Some(1));
    list.move_selection(1);
    assert_eq!(list.selected, Some(2));
    list.move_selection(1);
    assert_eq!(list.selected, Some(2));
    list.move_selection(-1);
    list.move_selection(-1);
    assert_eq!(list.selected, Some(0));
    list.move_selection(-1);
    assert_eq!(list.selected, Some(0));
}

#[test]
fn selection_moves_by_more_than_one() {
    let mut list = list_of(&[("a", false), ("b", false), ("c", false), ("d", false)], Some(0));
    list.move_selection(2);
    assert_eq!(list.selected, Some(2));
    list.move_selection(isize::MAX);
    assert_eq!(list.selected, Some(3));
    list.move_selection(-3);
    assert_eq!(list.selected, Some(0));
    list.move_selection(3);
    list.move_selection(isize::MIN);
    assert_eq!(list.selected, Some(0));
    list.move_selection(0);
    assert_eq!(list.selected, Some(0));
}

#[test]
fn first_move_without_selection() {
    let mut list = list_of(&[("a", false), ("b", false)], None);
    list.move_selection(1);
    assert_eq!(list.selected, Some(0));
    list.selected = None;
    list.move_selection(-1);
    assert_eq!(list.selected, Some(1));
    list.selected = None;
    list.move_selection(0);
    assert_eq!(list.selected, None);
}

#[test]
fn empty_list_has_no_selection() {
    let mut list = ItemList::new();
    list.move_selection(1);
    assert_eq!(list.selected, None);
    list.move_selection(-1);
    assert_eq!(list.selected, None);
}
