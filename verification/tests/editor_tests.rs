use svim::Document;
use svim::Editor;
use svim::Key;
use svim::Position;
use svim::QUIT_TIMES;
use svim::StatusMessage;
use svim::Terminal;
use svim::render::status_bar_text;
use svim::render::usize_to_string;
use svim::to_ctrl_byte;

fn editor_with(doc: Document) -> Editor {
    Editor::new(Terminal::new(80, 24), doc, String::from("HELP: Ctrl-Q = quit"))
}

#[test]
fn typing_abc_into_an_empty_document() {
    let mut e = editor_with(Document::default());
    e.process_keypress(Key::Char('a'));
    e.process_keypress(Key::Char('b'));
    e.process_keypress(Key::Char('c'));
    assert_eq!(e.document().row(0).unwrap().text(), "abc");
    assert_eq!(e.cursor_position(), Position { x: 3, y: 0 });
    assert!(e.document().is_dirty());
}

#[test]
fn backspace_deletes_the_character_left_of_the_cursor() {
    let mut e = editor_with(Document::open("f", "ab"));
    e.process_keypress(Key::Right);
    e.process_keypress(Key::Right);
    assert_eq!(e.cursor_position(), Position { x: 2, y: 0 });
    e.process_keypress(Key::Backspace);
    assert_eq!(e.document().row(0).unwrap().text(), "a");
    assert_eq!(e.cursor_position(), Position { x: 1, y: 0 });
}

#[test]
fn backspace_at_the_buffer_start_does_nothing() {
    let mut e = editor_with(Document::open("f", "ab"));
    e.process_keypress(Key::Backspace);
    assert_eq!(e.document().row(0).unwrap().text(), "ab");
    assert_eq!(e.cursor_position(), Position { x: 0, y: 0 });
    assert!(!e.document().is_dirty());
}

#[test]
fn backspace_at_a_line_start_merges_lines() {
    let mut e = editor_with(Document::open("f", "ab\ncd"));
    e.process_keypress(Key::Down);
    assert_eq!(e.cursor_position(), Position { x: 0, y: 1 });
    e.process_keypress(Key::Backspace);
    assert_eq!(e.document().len(), 1);
    assert_eq!(e.document().row(0).unwrap().text(), "abcd");
    assert_eq!(e.cursor_position(), Position { x: 2, y: 0 });
}

#[test]
fn left_at_a_line_start_wraps_to_the_previous_line_end() {
    let mut e = editor_with(Document::open("f", "ab\ncd"));
    e.process_keypress(Key::Down);
    assert_eq!(e.cursor_position(), Position { x: 0, y: 1 });
    e.process_keypress(Key::Left);
    assert_eq!(e.cursor_position(), Position { x: 2, y: 0 });
}

#[test]
fn enter_splits_the_line_and_moves_to_the_next_row() {
    let mut e = editor_with(Document::open("f", "abcd"));
    e.process_keypress(Key::Right);
    e.process_keypress(Key::Right);
    e.process_keypress(Key::Char('\n'));
    assert_eq!(e.document().len(), 2);
    assert_eq!(e.document().row(0).unwrap().text(), "ab");
    assert_eq!(e.document().row(1).unwrap().text(), "cd");
    assert_eq!(e.cursor_position(), Position { x: 0, y: 1 });
}

#[test]
fn quitting_a_clean_document_takes_one_press() {
    let mut e = editor_with(Document::open("f", "ab"));
    assert!(!e.should_quit());
    e.process_keypress(Key::Ctrl('q'));
    assert!(e.should_quit());
}

#[test]
fn quitting_a_dirty_document_takes_all_confirmations() {
    let mut e = editor_with(Document::default());
    e.process_keypress(Key::Char('x'));
    assert_eq!(e.quit_countdown(), QUIT_TIMES);

    e.process_keypress(Key::Ctrl('q'));
    assert!(!e.should_quit());
    assert_eq!(e.quit_countdown(), 2);
    assert_eq!(
        e.status_message().text,
        "WARNING! File has unsaved changes. Press Ctrl-Q 2 more times to quit."
    );

    e.process_keypress(Key::Ctrl('q'));
    assert!(!e.should_quit());
    assert_eq!(e.quit_countdown(), 1);
    assert_eq!(
        e.status_message().text,
        "WARNING! File has unsaved changes. Press Ctrl-Q 1 more times to quit."
    );

    e.process_keypress(Key::Ctrl('q'));
    assert!(e.should_quit());
}

#[test]
fn any_other_key_resets_the_quit_countdown() {
    let mut e = editor_with(Document::default());
    e.process_keypress(Key::Char('x'));
    e.process_keypress(Key::Ctrl('q'));
    e.process_keypress(Key::Ctrl('q'));
    assert_eq!(e.quit_countdown(), 1);
    e.process_keypress(Key::Up);
    assert_eq!(e.quit_countdown(), QUIT_TIMES);
    assert_eq!(e.status_message().text, "");
    // The full count is demanded again.
    e.process_keypress(Key::Ctrl('q'));
    e.process_keypress(Key::Ctrl('q'));
    assert!(!e.should_quit());
    e.process_keypress(Key::Ctrl('q'));
    assert!(e.should_quit());
}

#[test]
fn saving_with_a_file_name_asks_for_the_write_at_once() {
    let mut e = editor_with(Document::open("f.txt", "ab"));
    e.process_keypress(Key::Char('x'));
    assert!(e.document().is_dirty());
    let write_now = e.process_keypress(Key::Ctrl('s'));
    assert!(write_now);
    e.report_save(true);
    assert!(!e.document().is_dirty());
    assert_eq!(e.status_message().text, "File saved successfully.");
}

#[test]
fn a_failed_write_keeps_the_document_dirty() {
    let mut e = editor_with(Document::open("f.txt", "ab"));
    e.process_keypress(Key::Char('x'));
    let write_now = e.process_keypress(Key::Ctrl('s'));
    assert!(write_now);
    e.report_save(false);
    assert!(e.document().is_dirty());
    assert_eq!(e.status_message().text, "File save failed.");
}

#[test]
fn saving_an_untitled_document_prompts_for_a_name() {
    let mut e = editor_with(Document::default());
    e.process_keypress(Key::Char('x'));
    let write_now = e.process_keypress(Key::Ctrl('s'));
    assert!(!write_now);
    assert_eq!(e.status_message().text, "Save as: ");
    assert!(!e.process_keypress(Key::Char('o')));
    assert_eq!(e.status_message().text, "Save as: o");
    assert!(!e.process_keypress(Key::Char('u')));
    assert!(!e.process_keypress(Key::Char('t')));
    assert_eq!(e.status_message().text, "Save as: out");
    let write_now = e.process_keypress(Key::Char('\n'));
    assert!(write_now);
    assert_eq!(e.document().file_name, Some("out".to_string()));
    e.report_save(true);
    assert!(!e.document().is_dirty());
}

#[test]
fn escape_aborts_the_prompt() {
    let mut e = editor_with(Document::default());
    e.process_keypress(Key::Char('x'));
    e.process_keypress(Key::Ctrl('s'));
    e.process_keypress(Key::Char('o'));
    e.process_keypress(Key::Esc);
    assert_eq!(e.status_message().text, "Save aborted.");
    assert_eq!(e.document().file_name, None);
    // Keys flow to the buffer again.
    e.process_keypress(Key::Char('y'));
    assert_eq!(e.document().row(0).unwrap().text(), "xy");
}

#[test]
fn emptying_the_prompt_input_aborts_it() {
    let mut e = editor_with(Document::default());
    e.process_keypress(Key::Char('x'));
    e.process_keypress(Key::Ctrl('s'));
    e.process_keypress(Key::Char('o'));
    e.process_keypress(Key::Backspace);
    assert_eq!(e.status_message().text, "Save aborted.");
    assert_eq!(e.document().file_name, None);
}

#[test]
fn a_control_character_is_not_collected_by_the_prompt() {
    let mut e = editor_with(Document::default());
    e.process_keypress(Key::Char('x'));
    e.process_keypress(Key::Ctrl('s'));
    e.process_keypress(Key::Char('o'));
    e.process_keypress(Key::Char('\t'));
    assert_eq!(e.status_message().text, "Save as: o");
}

#[test]
fn a_non_character_key_on_an_empty_prompt_aborts_it() {
    let mut e = editor_with(Document::default());
    e.process_keypress(Key::Char('x'));
    e.process_keypress(Key::Ctrl('s'));
    e.process_keypress(Key::Up);
    assert_eq!(e.status_message().text, "Save aborted.");
    // With input already collected, the same key leaves the prompt alone.
    e.process_keypress(Key::Ctrl('s'));
    e.process_keypress(Key::Char('o'));
    e.process_keypress(Key::Up);
    assert_eq!(e.status_message().text, "Save as: o");
    assert!(e.process_keypress(Key::Char('\n')));
    assert_eq!(e.document().file_name, Some("o".to_string()));
}

#[test]
fn committing_an_empty_prompt_sets_an_empty_file_name() {
    let mut e = editor_with(Document::default());
    e.process_keypress(Key::Char('x'));
    e.process_keypress(Key::Ctrl('s'));
    let write_now = e.process_keypress(Key::Char('\n'));
    assert!(write_now);
    assert_eq!(e.document().file_name, Some(String::new()));
}

#[test]
fn scrolling_follows_the_cursor_down() {
    let text = (0..30).map(|i| format!("line{}", i)).collect::<Vec<_>>().join("\n");
    let mut e = Editor::new(Terminal::new(80, 10), Document::open("f", &text), String::new());
    for _ in 0..12 {
        e.process_keypress(Key::Down);
    }
    assert_eq!(e.cursor_position(), Position { x: 0, y: 12 });
    let o = e.offset();
    assert!(o.y <= 12 && 12 < o.y + 10);
    assert_eq!(o.y, 3);
    for _ in 0..12 {
        e.process_keypress(Key::Up);
    }
    assert_eq!(e.offset().y, 0);
}

#[test]
fn scrolling_follows_the_cursor_right() {
    let mut e = Editor::new(
        Terminal::new(5, 10),
        Document::open("f", "abcdefghij"),
        String::new(),
    );
    for _ in 0..7 {
        e.process_keypress(Key::Right);
    }
    assert_eq!(e.cursor_position(), Position { x: 7, y: 0 });
    let o = e.offset();
    assert_eq!(o.x, 3);
    assert!(o.x <= 7 && 7 < o.x + 5);
}

#[test]
fn status_message_from_keeps_the_text() {
    let s = StatusMessage::from(String::from("hello"));
    assert_eq!(s.text, "hello");
}

#[test]
fn ctrl_byte_masks_to_the_control_range() {
    assert_eq!(to_ctrl_byte('q'), 17);
    assert_eq!(to_ctrl_byte('a'), 1);
    assert_eq!(to_ctrl_byte('s'), 19);
}

#[test]
fn decimal_formatting() {
    assert_eq!(usize_to_string(0), "0");
    assert_eq!(usize_to_string(7), "7");
    assert_eq!(usize_to_string(10), "10");
    assert_eq!(usize_to_string(90210), "90210");
}

#[test]
fn status_bar_shows_name_count_and_dirty_marker() {
    let d = Document::open("notes.txt", "a\nb\n");
    let bar = status_bar_text(&d, 0, 40);
    assert_eq!(bar.len(), 40);
    assert_eq!(bar, format!("notes.txt - 2 lines {}", " ".repeat(20)));

    let mut d2 = Document::open("notes.txt", "a\nb\n");
    d2.insert(&Position { x: 0, y: 0 }, 'z');
    let bar2 = status_bar_text(&d2, 1, 45);
    assert!(bar2.starts_with("notes.txt - 2 lines  (modified)"));
    assert_eq!(bar2.len(), 45);
}

#[test]
fn status_bar_for_an_untitled_buffer() {
    let d = Document::default();
    let bar = status_bar_text(&d, 0, 10);
    assert_eq!(bar, "[NoName] -");
}

#[test]
fn status_bar_truncates_a_long_file_name() {
    let d = Document::open("a_very_long_file_name_indeed.txt", "x");
    let bar = status_bar_text(&d, 0, 60);
    assert!(bar.starts_with("a_very_long_file_nam - 1 lines "));
}

#[test]
fn terminal_reports_its_size() {
    let t = Terminal::new(80, 24);
    assert_eq!(t.size().width, 80);
    assert_eq!(t.size().height, 24);
}
