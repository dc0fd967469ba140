use catalog_nav::text_field::{TextField, FIELD_WIDTH};

fn typed(text: &str) -> TextField {
    let mut field = TextField::new();
    for c in text.chars() {
        field.insert_char(c);
    }
    field
}

#[test]
fn new_field_is_empty() {
    let field = TextField::new();
    assert_eq!(field.text(), "");
    assert_eq!(field.cursor_pos(), 0);
    assert_eq!(field.len(), 0);
}

#[test]
fn field_width_is_fifty() {
    assert_eq!(FIELD_WIDTH, 50);
}

#[test]
fn insert_goes_in_at_the_cursor() {
    let mut field = TextField::new();
    field.insert_char('a');
    field.insert_char('c');
    field.move_cursor_left();
    field.insert_char('b');
    assert_eq!(field.text(), "abc");
    assert_eq!(field.cursor_pos(), 2);
    assert_eq!(field.len(), 3);
}

#[test]
fn insert_stops_at_field_width() {
    let mut field = TextField::new();
    for _ in 0..FIELD_WIDTH {
        field.insert_char('x');
    }
    assert_eq!(field.len(), FIELD_WIDTH);
    assert_eq!(field.cursor_pos(), FIELD_WIDTH);
    field.move_cursor_left();
    field.insert_char('y');
    assert_eq!(field.len(), FIELD_WIDTH);
    assert_eq!(field.cursor_pos(), FIELD_WIDTH - 1);
    assert_eq!(field.text(), "x".repeat(FIELD_WIDTH));
}

#[test]
fn insert_works_again_once_there_is_room() {
    let mut field = typed(&"x".repeat(FIELD_WIDTH));
    field.delete_char();
    field.insert_char('y');
    assert_eq!(field.text(), format!("{}y", "x".repeat(FIELD_WIDTH - 1)));
}

#[test]
fn delete_removes_the_character_left_of_the_cursor() {
    let mut field = typed("abc");
    field.move_cursor_left();
    field.delete_char();
    assert_eq!(field.text(), "ac");
    assert_eq!(field.cursor_pos(), 1);
}

#[test]
fn delete_at_the_start_changes_nothing() {
    let mut field = typed("ab");
    field.move_cursor_left();
    field.move_cursor_left();
    field.delete_char();
    assert_eq!(field.text(), "ab");
    assert_eq!(field.cursor_pos(), 0);
}

#[test]
fn delete_on_an_empty_field_changes_nothing() {
    let mut field = TextField::new();
    field.delete_char();
    assert_eq!(field.text(), "");
    assert_eq!(field.cursor_pos(), 0);
}

#[test]
fn move_left_stops_at_the_start() {
    let mut field = typed("ab");
    field.move_cursor_left();
    assert_eq!(field.cursor_pos(), 1);
    field.move_cursor_left();
    assert_eq!(field.cursor_pos(), 0);
    field.move_cursor_left();
    assert_eq!(field.cursor_pos(), 0);
    assert_eq!(field.text(), "ab");
}

#[test]
fn move_right_stops_behind_the_last_character() {
    let mut field = typed("ab");
    field.move_cursor_right();
    assert_eq!(field.cursor_pos(), 2);
    field.move_cursor_left();
    field.move_cursor_left();
    field.move_cursor_right();
    assert_eq!(field.cursor_pos(), 1);
    field.move_cursor_right();
    field.move_cursor_right();
    assert_eq!(field.cursor_pos(), 2);
}

#[test]
fn cursor_counts_characters_not_bytes() {
    let mut field = typed("né");
    assert_eq!(field.len(), 2);
    assert_eq!(field.cursor_pos(), 2);
    field.insert_char('e');
    assert_eq!(field.text(), "née");
    field.move_cursor_left();
    field.delete_char();
    assert_eq!(field.text(), "ne");
    assert_eq!(field.cursor_pos(), 1);
}

#[test]
fn cursor_stays_within_the_text_after_every_step() {
    let mut field = TextField::new();
    let steps = "idlrrildddliirlrdlllrrrriiddd";
    for round in 0..10 {
        for step in steps.chars() {
            match step {
                'i' => field.insert_char(char::from(b'a' + round)),
                'd' => field.delete_char(),
                'l' => field.move_cursor_left(),
                _ => field.move_cursor_right(),
            }
            assert!(field.cursor_pos() <= field.len());
            assert!(field.len() <= FIELD_WIDTH);
            assert_eq!(field.text().chars().count(), field.len());
        }
    }
}

#[test]
fn display_text_fills_the_box() {
    assert_eq!(TextField::new().display_text(), " ".repeat(50));
    let field = typed("matrix");
    assert_eq!(field.display_text(), format!("matrix{}", " ".repeat(44)));
    let full = typed(&"x".repeat(50));
    assert_eq!(full.display_text(), "x".repeat(50));
}
