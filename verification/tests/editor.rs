use todomvc::decimal::decimal_string;
use todomvc::inputter::Inputter;
use todomvc::text::without_char;

fn line(text: &str, cursor: usize) -> Inputter {
    let mut inp = Inputter::new();
    inp.input = text.to_string();
    inp.cursor = cursor;
    inp
}

#[test]
fn new_editor_is_empty() {
    let inp = Inputter::new();
    assert_eq!(inp.input, "");
    assert_eq!(inp.cursor, 0);
    assert_eq!(inp.saved_input, "");
    assert_eq!(inp.saved_cursor, 0);
    assert!(inp.render_placeholder);
}

#[test]
fn insert_in_the_middle() {
    let mut inp = line("held", 2);
    inp.insert('l');
    assert_eq!(inp.input, "helld");
    assert_eq!(inp.cursor, 3);
    assert!(!inp.render_placeholder);
}

#[test]
fn insert_at_start_and_end() {
    let mut inp = line("bc", 0);
    inp.insert('a');
    assert_eq!(inp.input, "abc");
    assert_eq!(inp.cursor, 1);
    inp.cursor = 3;
    inp.insert('d');
    assert_eq!(inp.input, "abcd");
    assert_eq!(inp.cursor, 4);
}

#[test]
fn insert_between_wide_characters() {
    let mut inp = line("é本🦀", 2);
    inp.insert('ß');
    assert_eq!(inp.input, "é本ß🦀");
    assert_eq!(inp.cursor, 3);
    assert_eq!(inp.char_count(), 4);
    inp.insert('x');
    assert_eq!(inp.input, "é本ßx🦀");
    assert_eq!(inp.cursor, 4);
}

#[test]
fn insert_counts_characters_not_bytes() {
    let mut inp = Inputter::new();
    for (i, c) in ['a', 'é', '本', '🦀'].into_iter().enumerate() {
        let before = inp.char_count();
        inp.insert(c);
        assert_eq!(inp.char_count(), before + 1);
        assert_eq!(inp.cursor, i + 1);
    }
    assert_eq!(inp.input, "aé本🦀");
    assert_eq!(inp.input.len(), 10);
}

#[test]
fn insert_with_cursor_beyond_the_end_appends() {
    let mut inp = line("ab", 9);
    inp.insert('c');
    assert_eq!(inp.input, "abc");
    assert_eq!(inp.cursor, 3);
}

#[test]
fn byte_index_follows_character_widths() {
    assert_eq!(line("é本🦀x", 0).byte_index(), 0);
    assert_eq!(line("é本🦀x", 1).byte_index(), 2);
    assert_eq!(line("é本🦀x", 2).byte_index(), 5);
    assert_eq!(line("é本🦀x", 3).byte_index(), 9);
    assert_eq!(line("é本🦀x", 4).byte_index(), 10);
    assert_eq!(line("é本🦀x", 40).byte_index(), 10);
}

#[test]
fn clamp_holds_an_index_in_the_line() {
    let inp = line("abc", 0);
    assert_eq!(inp.clamp(0), 0);
    assert_eq!(inp.clamp(3), 3);
    assert_eq!(inp.clamp(4), 3);
    assert_eq!(inp.clamp(usize::MAX), 3);
}

#[test]
fn moves_stop_at_both_ends() {
    let mut inp = line("ab", 1);
    inp.right();
    assert_eq!(inp.cursor, 2);
    inp.right();
    inp.right();
    assert_eq!(inp.cursor, 2);
    inp.left();
    inp.left();
    assert_eq!(inp.cursor, 0);
    assert!(inp.render_placeholder);
    inp.left();
    assert_eq!(inp.cursor, 0);
    inp.right();
    assert!(!inp.render_placeholder);
}

#[test]
fn moves_bring_a_stray_cursor_back() {
    let mut inp = line("ab", usize::MAX);
    inp.right();
    assert_eq!(inp.cursor, 2);
    let mut inp = line("ab", 7);
    inp.left();
    assert_eq!(inp.cursor, 2);
}

#[test]
fn moves_on_an_empty_line() {
    let mut inp = Inputter::new();
    inp.left();
    assert_eq!(inp.cursor, 0);
    inp.right();
    assert_eq!(inp.cursor, 0);
    inp.move_to_end();
    assert_eq!(inp.cursor, 0);
}

#[test]
fn start_and_end_of_line() {
    let mut inp = line("a本c", 1);
    inp.move_to_end();
    assert_eq!(inp.cursor, 3);
    inp.move_to_start();
    assert_eq!(inp.cursor, 0);
    assert_eq!(inp.input, "a本c");
}

#[test]
fn delete_left_at_start_does_nothing() {
    let mut inp = line("abc", 0);
    inp.delete_left();
    assert_eq!(inp.input, "abc");
    assert_eq!(inp.cursor, 0);
}

#[test]
fn delete_left_takes_a_whole_character() {
    let mut inp = line("a🦀b", 2);
    inp.delete_left();
    assert_eq!(inp.input, "ab");
    assert_eq!(inp.cursor, 1);
}

#[test]
fn delete_left_at_the_end() {
    let mut inp = line("abc", 3);
    inp.delete(false);
    assert_eq!(inp.input, "ab");
    assert_eq!(inp.cursor, 2);
}

#[test]
fn delete_right_at_end_does_nothing() {
    let mut inp = line("abc", 3);
    inp.delete_right();
    assert_eq!(inp.input, "abc");
    assert_eq!(inp.cursor, 3);
}

#[test]
fn delete_right_takes_a_whole_character() {
    let mut inp = line("é本🦀", 1);
    inp.delete(true);
    assert_eq!(inp.input, "é🦀");
    assert_eq!(inp.cursor, 1);
    inp.delete_right();
    assert_eq!(inp.input, "é");
    assert_eq!(inp.cursor, 1);
}

#[test]
fn deletes_with_cursor_beyond_the_end() {
    let mut inp = line("ab", 5);
    inp.delete_right();
    assert_eq!(inp.input, "ab");
    assert_eq!(inp.cursor, 5);
    inp.delete_left();
    assert_eq!(inp.input, "ab");
    assert_eq!(inp.cursor, 2);
}

#[test]
fn delete_left_then_insert_again_restores() {
    let mut inp = line("a本c", 2);
    inp.delete_left();
    assert_eq!(inp.input, "ac");
    inp.insert('本');
    assert_eq!(inp.input, "a本c");
    assert_eq!(inp.cursor, 2);
}

#[test]
fn reset_empties_the_line() {
    let mut inp = line("abc", 2);
    inp.save();
    inp.reset();
    assert_eq!(inp.input, "");
    assert_eq!(inp.cursor, 0);
    assert!(inp.render_placeholder);
    assert_eq!(inp.saved_input, "abc");
    assert_eq!(inp.saved_cursor, 2);
}

#[test]
fn restore_after_many_edits() {
    let mut inp = line("first", 3);
    inp.save();
    inp.load("second".to_string());
    assert_eq!(inp.cursor, 6);
    inp.insert('!');
    inp.left();
    inp.delete_left();
    inp.move_to_start();
    inp.delete_right();
    inp.reset();
    inp.insert('z');
    inp.restore();
    assert_eq!(inp.input, "first");
    assert_eq!(inp.cursor, 3);
}

#[test]
fn load_puts_the_cursor_behind_the_text() {
    let mut inp = line("x", 0);
    inp.load("本本".to_string());
    assert_eq!(inp.input, "本本");
    assert_eq!(inp.cursor, 2);
}

#[test]
fn without_char_removes_one_character() {
    assert_eq!(without_char(&"a本c".to_string(), 0), "本c");
    assert_eq!(without_char(&"a本c".to_string(), 1), "ac");
    assert_eq!(without_char(&"a本c".to_string(), 2), "a本");
}

#[test]
fn decimal_numerals() {
    assert_eq!(decimal_string(0), "0");
    assert_eq!(decimal_string(7), "7");
    assert_eq!(decimal_string(10), "10");
    assert_eq!(decimal_string(409), "409");
    assert_eq!(decimal_string(1234567890), "1234567890");
    assert_eq!(decimal_string(usize::MAX), format!("{}", usize::MAX));
}
