use svim::Document;
use svim::Position;

#[test]
fn open_splits_lines() {
    let d = Document::open("f.txt", "ab\ncd");
    assert_eq!(d.len(), 2);
    assert_eq!(d.row(0).unwrap().text(), "ab");
    assert_eq!(d.row(1).unwrap().text(), "cd");
    assert!(!d.is_dirty());
    assert_eq!(d.file_name, Some("f.txt".to_string()));
}

#[test]
fn open_drops_the_final_empty_segment() {
    let d = Document::open("f", "ab\ncd\n");
    assert_eq!(d.len(), 2);
    let d2 = Document::open("f", "ab\n\n");
    assert_eq!(d2.len(), 2);
    assert_eq!(d2.row(1).unwrap().text(), "");
    let d3 = Document::open("f", "");
    assert_eq!(d3.len(), 0);
    assert!(d3.is_empty());
    let d4 = Document::open("f", "\n");
    assert_eq!(d4.len(), 1);
    assert_eq!(d4.row(0).unwrap().text(), "");
}

#[test]
fn row_is_present_exactly_below_the_row_count() {
    let d = Document::open("f", "a\nb\nc");
    for y in 0..3 {
        assert!(d.row(y).is_some());
    }
    assert!(d.row(3).is_none());
    assert!(d.row(100).is_none());
    let empty = Document::default();
    assert!(empty.row(0).is_none());
}

#[test]
fn insert_lengthens_the_row_by_one_and_marks_dirty() {
    let mut d = Document::open("f", "ac");
    assert!(!d.is_dirty());
    d.insert(&Position { x: 1, y: 0 }, 'b');
    assert!(d.is_dirty());
    assert_eq!(d.row(0).unwrap().len(), 3);
    assert_eq!(d.row(0).unwrap().char_at(1), 'b');
    assert_eq!(d.row(0).unwrap().text(), "abc");
}

#[test]
fn insert_at_the_virtual_append_row() {
    let mut d = Document::default();
    d.insert(&Position { x: 0, y: 0 }, 'a');
    assert_eq!(d.len(), 1);
    assert_eq!(d.row(0).unwrap().text(), "a");
    d.insert(&Position { x: 0, y: 1 }, 'b');
    assert_eq!(d.len(), 2);
    assert_eq!(d.row(1).unwrap().text(), "b");
}

#[test]
fn insert_below_the_append_row_is_a_no_op() {
    let mut d = Document::open("f", "ab");
    d.insert(&Position { x: 0, y: 5 }, 'x');
    assert_eq!(d.len(), 1);
    assert_eq!(d.row(0).unwrap().text(), "ab");
    assert!(!d.is_dirty());
}

#[test]
fn newline_splits_a_row() {
    let mut d = Document::open("f", "abcd");
    d.insert(&Position { x: 2, y: 0 }, '\n');
    assert_eq!(d.len(), 2);
    assert_eq!(d.row(0).unwrap().text(), "ab");
    assert_eq!(d.row(1).unwrap().text(), "cd");
    assert!(d.is_dirty());
}

#[test]
fn newline_at_the_append_row_adds_an_empty_row() {
    let mut d = Document::open("f", "ab");
    d.insert(&Position { x: 0, y: 1 }, '\n');
    assert_eq!(d.len(), 2);
    assert_eq!(d.row(1).unwrap().text(), "");
}

#[test]
fn delete_shortens_the_row_by_one() {
    let mut d = Document::open("f", "abc");
    d.delete(&Position { x: 1, y: 0 });
    assert_eq!(d.row(0).unwrap().text(), "ac");
    assert_eq!(d.row(0).unwrap().len(), 2);
    assert!(d.is_dirty());
}

#[test]
fn delete_at_row_end_merges_the_next_row() {
    let mut d = Document::open("f", "ab\ncd");
    d.delete(&Position { x: 2, y: 0 });
    assert_eq!(d.len(), 1);
    assert_eq!(d.row(0).unwrap().text(), "abcd");
}

#[test]
fn delete_past_the_buffer_is_a_no_op() {
    let mut d = Document::open("f", "ab");
    d.delete(&Position { x: 0, y: 1 });
    assert_eq!(d.len(), 1);
    assert_eq!(d.row(0).unwrap().text(), "ab");
    assert!(!d.is_dirty());
    d.delete(&Position { x: 2, y: 0 });
    assert_eq!(d.row(0).unwrap().text(), "ab");
    assert!(d.is_dirty());
}

#[test]
fn insert_then_delete_restores_the_row() {
    let mut d = Document::open("f", "abc\nxy");
    d.insert(&Position { x: 1, y: 0 }, 'q');
    d.delete(&Position { x: 1, y: 0 });
    assert_eq!(d.row(0).unwrap().text(), "abc");
    assert_eq!(d.row(1).unwrap().text(), "xy");
    assert_eq!(d.len(), 2);
}

#[test]
fn newline_then_delete_restores_the_row() {
    let mut d = Document::open("f", "abcd");
    d.insert(&Position { x: 2, y: 0 }, '\n');
    d.delete(&Position { x: 2, y: 0 });
    assert_eq!(d.len(), 1);
    assert_eq!(d.row(0).unwrap().text(), "abcd");
}

#[test]
fn save_contents_joins_rows_with_newlines() {
    let d = Document::open("f", "ab\ncd");
    assert_eq!(d.save_contents(), "ab\ncd\n");
    let empty = Document::default();
    assert_eq!(empty.save_contents(), "");
}

#[test]
fn open_then_save_round_trip() {
    // A newline-terminated text is reproduced exactly.
    let text = "ab\ncd\n";
    let d = Document::open("f", text);
    assert_eq!(d.save_contents(), text);
    // A text without a trailing newline gains exactly one.
    let d2 = Document::open("f", "ab\ncd");
    assert_eq!(d2.save_contents(), "ab\ncd\n");
    // The empty text stays empty.
    let d3 = Document::open("f", "");
    assert_eq!(d3.save_contents(), "");
    // Blank lines survive the round trip.
    let d4 = Document::open("f", "a\n\nb\n");
    assert_eq!(d4.save_contents(), "a\n\nb\n");
}

#[test]
fn mark_saved_clears_the_dirty_flag() {
    let mut d = Document::open("f", "ab");
    d.insert(&Position { x: 0, y: 0 }, 'x');
    assert!(d.is_dirty());
    d.mark_saved();
    assert!(!d.is_dirty());
    assert_eq!(d.row(0).unwrap().text(), "xab");
}

#[test]
fn file_name_accessors() {
    let mut d = Document::default();
    assert!(!d.has_file_name());
    assert!(d.file_name_ref().is_none());
    d.set_file_name("out.txt".to_string());
    assert!(d.has_file_name());
    assert_eq!(d.file_name_ref().unwrap().as_str(), "out.txt");
    assert_eq!(d.file_name, Some("out.txt".to_string()));
}

#[test]
fn row_len_reads_zero_past_the_end() {
    let d = Document::open("f", "abc\nx");
    assert_eq!(d.row_len(0), 3);
    assert_eq!(d.row_len(1), 1);
    assert_eq!(d.row_len(2), 0);
}
