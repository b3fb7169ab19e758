use vstd::prelude::*;

use crate::QUIT_TIMES;
use crate::document::DocModel;
use crate::document::Document;
use crate::document::doc_deleted;
use crate::document::doc_inserted;
use crate::key::Key;
use crate::navigation::moved_position;
use crate::navigation::new_position;
use crate::navigation::row_len_at;
use crate::navigation::scroll_offset;
use crate::navigation::scrolled_axis;
use crate::position::Position;
use crate::terminal::Size;
use crate::terminal::Terminal;
use crate::text::check_control_char;
use crate::text::digit;
use crate::text::digit_char;
use crate::text::is_control_char;
use crate::text::push_char;
use crate::text::string_of_chars;
use vstd::string::StringExecFns;

verus! {

/// A transient line of feedback shown under the buffer.
pub struct StatusMessage {
    pub text: String,
}

impl StatusMessage {
    /// A status message with the given text.
    pub fn from(msg: String) -> (s: StatusMessage)
        ensures
            s.text == msg,
    {
        StatusMessage { text: msg }
    }
}

/// The prompt line shown while a file name is being collected.
pub open spec fn save_prompt_text(input: Seq<char>) -> Seq<char> {
    "Save as: "@ + input
}

/// The warning shown while quit confirmations remain.
pub open spec fn quit_warning_text(remaining: u8) -> Seq<char> {
    "WARNING! File has unsaved changes. Press Ctrl-Q "@ + seq![digit_char(remaining)]
        + " more times to quit."@
}

/// The status shown when a prompt is abandoned.
pub open spec fn save_aborted_text() -> Seq<char> {
    "Save aborted."@
}

/// The mathematical state of the editor: everything a key press may read
/// or change. `prompt` is the accumulated input of an active file-name
/// prompt, absent in normal mode.
#[verifier::ext_equal]
pub ghost struct EditorModel {
    pub should_quit: bool,
    pub cursor: Position,
    pub offset: Position,
    pub doc: DocModel,
    pub status: Seq<char>,
    pub quit_times: u8,
    pub prompt: Option<Seq<char>>,
    pub size: Size,
}

/// The editor states every key press must keep: the cursor stays inside
/// the buffer (the row one past the last line counts, with no columns),
/// and the quit countdown never exceeds its configured maximum.
pub open spec fn wf_editor(m: EditorModel) -> bool {
    &&& m.cursor.y <= m.doc.rows.len()
    &&& m.cursor.x as int <= row_len_at(m.doc.rows, m.cursor.y as int)
    &&& m.quit_times <= QUIT_TIMES
}

/// The model after scroll recomputation: each offset axis moves just far
/// enough to keep the cursor visible.
pub open spec fn with_scroll(m: EditorModel) -> EditorModel {
    EditorModel {
        offset: Position {
            x: scrolled_axis(m.cursor.x as int, m.offset.x as int, m.size.width as int) as usize,
            y: scrolled_axis(m.cursor.y as int, m.offset.y as int, m.size.height as int) as usize,
        },
        ..m
    }
}

/// The model after the quit countdown is reset: once a key other than the
/// quit key arrives, the remaining confirmations return to the maximum and
/// the warning is cleared.
pub open spec fn with_reset(m: EditorModel) -> EditorModel {
    if m.quit_times < QUIT_TIMES {
        EditorModel { quit_times: QUIT_TIMES, status: Seq::empty(), ..m }
    } else {
        m
    }
}

/// The model after a cursor movement key.
pub open spec fn with_move(m: EditorModel, key: Key) -> EditorModel {
    let (x, y) = moved_position(
        m.doc.rows,
        m.cursor.x as int,
        m.cursor.y as int,
        key,
        m.size.height as int,
    );
    EditorModel { cursor: Position { x: x as usize, y: y as usize }, ..m }
}

/// The model after a character is typed in normal mode: the document takes
/// it at the cursor, then the cursor moves one step right (across the new
/// line boundary when the character was a line break).
pub open spec fn step_insert(m: EditorModel, c: char) -> EditorModel {
    let doc2 = DocModel {
        rows: doc_inserted(m.doc.rows, m.cursor, c),
        dirty: m.doc.dirty || m.cursor.y <= m.doc.rows.len(),
        ..m.doc
    };
    with_move(EditorModel { doc: doc2, ..m }, Key::Right)
}

/// The model after a backspace in normal mode: anywhere but the very start
/// of the buffer, the cursor moves one step left (wrapping to the end of
/// the previous line) and the document deletes at the new position.
pub open spec fn step_backspace(m: EditorModel) -> EditorModel {
    if m.cursor.x > 0 || m.cursor.y > 0 {
        let m2 = with_move(m, Key::Left);
        let doc2 = DocModel {
            rows: doc_deleted(m2.doc.rows, m2.cursor),
            dirty: m2.doc.dirty || m2.cursor.y < m2.doc.rows.len(),
            ..m2.doc
        };
        EditorModel { doc: doc2, ..m2 }
    } else {
        m
    }
}

/// The model after the save key: with a file identity the state is
/// unchanged (the caller is asked to write the contents out); without one
/// a file-name prompt opens.
pub open spec fn step_save(m: EditorModel) -> EditorModel {
    if m.doc.file_name is Some {
        m
    } else {
        EditorModel { prompt: Some(Seq::empty()), status: save_prompt_text(Seq::empty()), ..m }
    }
}

/// The model after the quit key. A clean document quits at once. A dirty
/// one spends one of the remaining confirmations: while any are left the
/// editor only warns, and the press that uses up the last one quits.
pub open spec fn step_quit(m: EditorModel) -> EditorModel {
    if m.doc.dirty && m.quit_times > 0 {
        let q = (m.quit_times - 1) as u8;
        if q == 0 {
            with_scroll(with_reset(EditorModel { should_quit: true, quit_times: q, ..m }))
        } else {
            EditorModel { quit_times: q, status: quit_warning_text(q), ..m }
        }
    } else {
        with_scroll(with_reset(EditorModel { should_quit: true, ..m }))
    }
}

/// The prompt state after a key leaves the accumulated input as `input2`:
/// an input that has become empty aborts the prompt, any other refreshes
/// the prompt line.
pub open spec fn prompt_after(m: EditorModel, input2: Seq<char>) -> EditorModel {
    if input2.len() == 0 {
        EditorModel { prompt: None, status: save_aborted_text(), ..m }
    } else {
        EditorModel { prompt: Some(input2), status: save_prompt_text(input2), ..m }
    }
}

/// The model after a key while a file-name prompt is active. Enter commits
/// the input as the file identity (the caller is then asked to write);
/// Escape aborts; Backspace drops the last character; a printable
/// character is appended; control and unclassified keys change nothing —
/// and after every key but Enter and Escape an empty input aborts.
pub open spec fn step_prompt(m: EditorModel, input: Seq<char>, key: Key) -> EditorModel {
    match key {
        Key::Char(c) => if c == '\n' {
            EditorModel {
                prompt: None,
                doc: DocModel { file_name: Some(input), ..m.doc },
                ..m
            }
        } else if is_control_char(c) {
            prompt_after(m, input)
        } else {
            prompt_after(m, input.push(c))
        },
        Key::Backspace => prompt_after(
            m,
            if input.len() > 0 {
                input.drop_last()
            } else {
                input
            },
        ),
        Key::Esc => EditorModel { prompt: None, status: save_aborted_text(), ..m },
        _ => prompt_after(m, input),
    }
}

/// The model after one key in normal mode: the quit key runs the
/// confirmation protocol; every other key first resets that protocol, then
/// takes its effect, and finally the scroll offset is recomputed.
pub open spec fn step_normal(m: EditorModel, key: Key) -> EditorModel {
    if key == Key::Ctrl('q') {
        step_quit(m)
    } else {
        let m1 = with_reset(m);
        match key {
            Key::Ctrl(c) => if c == 's' {
                with_scroll(step_save(m1))
            } else {
                with_scroll(m1)
            },
            Key::Up | Key::Down | Key::Left | Key::Right | Key::PageUp | Key::PageDown
                | Key::Home | Key::End => with_scroll(with_move(m1, key)),
            Key::Backspace => with_scroll(step_backspace(m1)),
            Key::Char(c) => with_scroll(step_insert(m1, c)),
            _ => with_scroll(m1),
        }
    }
}

/// The editor's transition function: what one key press does to the whole
/// state, in prompt mode or in normal mode.
pub open spec fn step(m: EditorModel, key: Key) -> EditorModel {
    match m.prompt {
        Some(input) => step_prompt(m, input, key),
        None => step_normal(m, key),
    }
}

/// Whether one key press asks the caller to write the buffer out: the save
/// key when a file identity exists, or Enter committing a file-name
/// prompt.
pub open spec fn step_saves(m: EditorModel, key: Key) -> bool {
    match m.prompt {
        Some(_) => key == Key::Char('\n'),
        None => key == Key::Ctrl('s') && m.doc.file_name is Some,
    }
}

/// The state after a whole sequence of key presses.
pub open spec fn apply_keys(m: EditorModel, keys: Seq<Key>) -> EditorModel
    decreases keys.len(),
{
    if keys.len() == 0 {
        m
    } else {
        apply_keys(step(m, keys[0]), keys.drop_first())
    }
}

/// The keystroke-to-mutation state machine: dispatches key events to the
/// buffer and the cursor, and runs the save-prompt and quit-confirmation
/// protocols. All terminal work stays with the caller, which feeds in keys
/// and reads the state back out.
pub struct Editor {
    should_quit: bool,
    terminal: Terminal,
    cursor_posi: Position,
    offset: Position,
    document: Document,
    status_msg: StatusMessage,
    quit_times: u8,
    prompting: bool,
    prompt_input: Vec<char>,
}

impl View for Editor {
    type V = EditorModel;

    closed spec fn view(&self) -> EditorModel {
        EditorModel {
            should_quit: self.should_quit,
            cursor: self.cursor_posi,
            offset: self.offset,
            doc: self.document@,
            status: self.status_msg.text@,
            quit_times: self.quit_times,
            prompt: if self.prompting {
                Some(self.prompt_input@)
            } else {
                None
            },
            size: self.terminal@,
        }
    }
}

impl Editor {
    /// An editor over the given terminal and document, showing
    /// `initial_status`, with the cursor and the viewport at the origin
    /// and the full quit countdown.
    pub fn new(terminal: Terminal, document: Document, initial_status: String) -> (e: Editor)
        ensures
            e@ == (EditorModel {
                should_quit: false,
                cursor: Position { x: 0, y: 0 },
                offset: Position { x: 0, y: 0 },
                doc: document@,
                status: initial_status@,
                quit_times: QUIT_TIMES,
                prompt: None,
                size: terminal@,
            }),
            wf_editor(e@),
    {
        Editor {
            should_quit: false,
            terminal,
            cursor_posi: Position { x: 0, y: 0 },
            offset: Position { x: 0, y: 0 },
            document,
            status_msg: StatusMessage::from(initial_status),
            quit_times: QUIT_TIMES,
            prompting: false,
            prompt_input: Vec::new(),
        }
    }

    /// Recomputes the viewport offset so the cursor stays visible.
    pub fn scroll(&mut self)
        ensures
            final(self)@ == with_scroll(old(self)@),
    {
        let width = self.terminal.size().width as usize;
        let height = self.terminal.size().height as usize;
        self.offset = scroll_offset(self.cursor_posi, self.offset, width, height);
    }

    /// Resets the quit countdown once a key other than the quit key
    /// arrives, clearing the warning.
    fn reset_quit_countdown(&mut self)
        ensures
            final(self)@ == with_reset(old(self)@),
    {
        if self.quit_times < QUIT_TIMES {
            self.quit_times = QUIT_TIMES;
            self.status_msg = StatusMessage::from(String::new());
        }
    }

    /// Moves the cursor for one navigation key.
    fn move_cursor(&mut self, key: Key)
        requires
            old(self)@.cursor.y <= old(self)@.doc.rows.len(),
        ensures
            final(self)@ == with_move(old(self)@, key),
            final(self)@.cursor.y <= final(self)@.doc.rows.len(),
            final(self)@.cursor.x as int <= row_len_at(
                final(self)@.doc.rows,
                final(self)@.cursor.y as int,
            ),
    {
        let height = self.terminal.size().height as usize;
        self.cursor_posi = new_position(&self.document, self.cursor_posi, key, height);
    }

    /// Inserts one typed character at the cursor and steps right.
    fn insert_char(&mut self, c: char)
        requires
            wf_editor(old(self)@),
        ensures
            final(self)@ == step_insert(old(self)@, c),
            wf_editor(final(self)@),
    {
        let pos = self.cursor_posi;
        self.document.insert(&pos, c);
        proof {
            assert(self.cursor_posi.y <= self@.doc.rows.len());
        }
        self.move_cursor(Key::Right);
    }

    /// Handles backspace: steps left, then deletes there.
    fn backspace(&mut self)
        requires
            wf_editor(old(self)@),
        ensures
            final(self)@ == step_backspace(old(self)@),
            wf_editor(final(self)@),
    {
        if self.cursor_posi.x > 0 || self.cursor_posi.y > 0 {
            self.move_cursor(Key::Left);
            let pos = self.cursor_posi;
            self.document.delete(&pos);
        }
    }

    /// Starts the save protocol: with a file identity present it asks the
    /// caller to write the contents out (returning true); otherwise it
    /// opens the file-name prompt.
    pub fn save(&mut self) -> (write_now: bool)
        ensures
            final(self)@ == step_save(old(self)@),
            write_now == (old(self)@.doc.file_name is Some),
    {
        if self.document.has_file_name() {
            true
        } else {
            self.prompting = true;
            self.prompt_input = Vec::new();
            self.status_msg = StatusMessage::from(String::from_str("Save as: "));
            false
        }
    }

    /// Runs the quit-confirmation protocol for one quit-key press.
    fn handle_quit(&mut self)
        requires
            wf_editor(old(self)@),
        ensures
            final(self)@ == step_quit(old(self)@),
            wf_editor(final(self)@),
    {
        if self.document.is_dirty() && self.quit_times > 0 {
            self.quit_times = self.quit_times - 1;
            if self.quit_times == 0 {
                self.should_quit = true;
                self.reset_quit_countdown();
                self.scroll();
            } else {
                let warning = quit_warning_status(self.quit_times);
                self.status_msg = StatusMessage::from(warning);
            }
        } else {
            self.should_quit = true;
            self.reset_quit_countdown();
            self.scroll();
        }
    }

    /// Refreshes or aborts the prompt after its input settled: an empty
    /// input abandons the prompt, any other redraws the prompt line.
    fn prompt_refresh_or_abort(&mut self)
        requires
            old(self)@.prompt is Some,
        ensures
            final(self)@ == prompt_after(old(self)@, old(self)@.prompt.unwrap()),
    {
        if self.prompt_input.len() == 0 {
            self.prompting = false;
            self.status_msg = StatusMessage::from(String::from_str("Save aborted."));
        } else {
            let line = save_prompt_status(&self.prompt_input);
            self.status_msg = StatusMessage::from(line);
        }
    }

    /// Handles one key while the file-name prompt is active.
    fn process_prompt_key(&mut self, key: Key) -> (write_now: bool)
        requires
            old(self)@.prompt is Some,
            wf_editor(old(self)@),
        ensures
            final(self)@ == step(old(self)@, key),
            write_now == step_saves(old(self)@, key),
            wf_editor(final(self)@),
    {
        match key {
            Key::Char(c) => {
                if c == '\n' {
                    self.prompting = false;
                    let name = string_of_chars(&self.prompt_input);
                    self.document.set_file_name(name);
                    true
                } else if check_control_char(c) {
                    self.prompt_refresh_or_abort();
                    false
                } else {
                    self.prompt_input.push(c);
                    self.prompt_refresh_or_abort();
                    false
                }
            },
            Key::Backspace => {
                if self.prompt_input.len() > 0 {
                    self.prompt_input.pop();
                }
                self.prompt_refresh_or_abort();
                false
            },
            Key::Esc => {
                self.prompting = false;
                self.status_msg = StatusMessage::from(String::from_str("Save aborted."));
                false
            },
            _ => {
                self.prompt_refresh_or_abort();
                false
            },
        }
    }

    /// Handles one key in normal mode.
    fn process_normal_key(&mut self, key: Key) -> (write_now: bool)
        requires
            old(self)@.prompt is None,
            wf_editor(old(self)@),
        ensures
            final(self)@ == step(old(self)@, key),
            write_now == step_saves(old(self)@, key),
            wf_editor(final(self)@),
    {
        match key {
            Key::Ctrl('q') => {
                self.handle_quit();
                false
            },
            _ => {
                self.reset_quit_countdown();
                let mut write_now = false;
                match key {
                    Key::Ctrl(c) => {
                        if c == 's' {
                            write_now = self.save();
                        }
                    },
                    Key::Up | Key::Down | Key::Left | Key::Right | Key::PageUp | Key::PageDown
                        | Key::Home | Key::End => {
                        self.move_cursor(key);
                    },
                    Key::Backspace => {
                        self.backspace();
                    },
                    Key::Char(c) => {
                        self.insert_char(c);
                    },
                    _ => {},
                }
                self.scroll();
                write_now
            },
        }
    }

    /// Applies one key press to the whole editor state, as [`step`] says,
    /// and reports whether the caller should now write the buffer to its
    /// file (and answer with [`Editor::report_save`]).
    pub fn process_keypress(&mut self, key: Key) -> (write_now: bool)
        requires
            wf_editor(old(self)@),
        ensures
            final(self)@ == step(old(self)@, key),
            write_now == step_saves(old(self)@, key),
            wf_editor(final(self)@),
    {
        if self.prompting {
            self.process_prompt_key(key)
        } else {
            self.process_normal_key(key)
        }
    }

    /// Records the outcome of the write the caller performed: success
    /// clears the dirty flag, and either way a status message reports it.
    pub fn report_save(&mut self, success: bool)
        ensures
            success ==> final(self)@ == (EditorModel {
                doc: DocModel { dirty: false, ..old(self)@.doc },
                status: "File saved successfully."@,
                ..old(self)@
            }),
            !success ==> final(self)@ == (EditorModel {
                status: "File save failed."@,
                ..old(self)@
            }),
            wf_editor(old(self)@) ==> wf_editor(final(self)@),
    {
        if success {
            self.document.mark_saved();
            self.status_msg = StatusMessage::from(String::from_str("File saved successfully."));
        } else {
            self.status_msg = StatusMessage::from(String::from_str("File save failed."));
        }
    }

    /// Whether the editor has decided to quit.
    pub fn should_quit(&self) -> (r: bool)
        ensures
            r == self@.should_quit,
    {
        self.should_quit
    }

    /// The cursor's buffer position.
    pub fn cursor_position(&self) -> (p: Position)
        ensures
            p == self@.cursor,
    {
        self.cursor_posi
    }

    /// The viewport offset.
    pub fn offset(&self) -> (p: Position)
        ensures
            p == self@.offset,
    {
        self.offset
    }

    /// The document being edited.
    pub fn document(&self) -> (d: &Document)
        ensures
            d@ == self@.doc,
    {
        &self.document
    }

    /// The current status message.
    pub fn status_message(&self) -> (s: &StatusMessage)
        ensures
            s.text@ == self@.status,
    {
        &self.status_msg
    }

    /// The terminal the editor was built over.
    pub fn terminal(&self) -> (t: &Terminal)
        ensures
            t@ == self@.size,
    {
        &self.terminal
    }

    /// How many quit confirmations are still demanded.
    pub fn quit_countdown(&self) -> (n: u8)
        ensures
            n == self@.quit_times,
    {
        self.quit_times
    }
}

/// Builds the quit warning shown while confirmations remain.
fn quit_warning_status(remaining: u8) -> (r: String)
    requires
        remaining < 10,
    ensures
        r@ == quit_warning_text(remaining),
{
    let mut r = String::from_str("WARNING! File has unsaved changes. Press Ctrl-Q ");
    push_char(&mut r, digit(remaining));
    r.append(" more times to quit.");
    proof {
        assert(r@ =~= quit_warning_text(remaining));
    }
    r
}

/// Builds the prompt line for the accumulated input.
fn save_prompt_status(input: &Vec<char>) -> (r: String)
    ensures
        r@ == save_prompt_text(input@),
{
    let mut r = String::from_str("Save as: ");
    let mut i: usize = 0;
    while i < input.len()
        invariant
            i <= input@.len(),
            r@ == "Save as: "@ + input@.take(i as int),
        decreases input@.len() - i,
    {
        push_char(&mut r, input[i]);
        i = i + 1;
        proof {
            assert(r@ =~= "Save as: "@ + input@.take(i as int));
        }
    }
    proof {
        assert(input@.take(input@.len() as int) =~= input@);
    }
    r
}

/// Law: with unsaved changes and the full countdown, a run of consecutive
/// quit-key presses quits exactly when their number reaches the configured
/// maximum; any shorter run only warns.
pub proof fn lemma_quit_needs_all_confirmations(m: EditorModel, keys: Seq<Key>)
    requires
        m.prompt is None,
        m.doc.dirty,
        !m.should_quit,
        m.quit_times == QUIT_TIMES,
        forall|i: int| 0 <= i < keys.len() ==> keys[i] == Key::Ctrl('q'),
        keys.len() <= QUIT_TIMES,
    ensures
        apply_keys(m, keys).should_quit <==> keys.len() == QUIT_TIMES,
{
    lemma_quit_countdown(m, keys);
}

/// With unsaved changes, `quit_times` presses of the quit key are exactly
/// what quitting takes, from any point of the countdown.
proof fn lemma_quit_countdown(m: EditorModel, keys: Seq<Key>)
    requires
        m.prompt is None,
        m.doc.dirty,
        !m.should_quit,
        m.quit_times >= 1,
        forall|i: int| 0 <= i < keys.len() ==> keys[i] == Key::Ctrl('q'),
        keys.len() <= m.quit_times,
    ensures
        apply_keys(m, keys).should_quit <==> keys.len() == m.quit_times,
    decreases keys.len(),
{
    if keys.len() == 0 {
    } else {
        assert(keys[0] == Key::Ctrl('q'));
        let m1 = step(m, keys[0]);
        assert(m1 == step_quit(m));
        if m.quit_times == 1 {
            assert(m1.should_quit);
            assert(keys.len() == 1);
            assert(apply_keys(m1, keys.drop_first()) == m1);
        } else {
            assert(m1.quit_times == m.quit_times - 1);
            assert(!m1.should_quit);
            assert(m1.doc == m.doc);
            assert(m1.prompt == m.prompt);
            lemma_quit_countdown(m1, keys.drop_first());
        }
    }
}

/// After scroll recomputation the cursor sits inside the viewport, as long
/// as both viewport dimensions are positive.
proof fn lemma_with_scroll_bounds(m: EditorModel)
    requires
        m.size.width > 0,
        m.size.height > 0,
    ensures
        with_scroll(m).cursor == m.cursor,
        with_scroll(m).offset.x <= m.cursor.x < with_scroll(m).offset.x + m.size.width,
        with_scroll(m).offset.y <= m.cursor.y < with_scroll(m).offset.y + m.size.height,
{
    let sx = scrolled_axis(m.cursor.x as int, m.offset.x as int, m.size.width as int);
    let sy = scrolled_axis(m.cursor.y as int, m.offset.y as int, m.size.height as int);
    assert(0 <= sx <= m.cursor.x);
    assert(0 <= sy <= m.cursor.y);
    assert(sx as usize as int == sx);
    assert(sy as usize as int == sy);
}

/// Law: every key but the quit key ends its turn in normal mode with
/// scroll recomputation, so the cursor is visible afterwards — whatever
/// sequence of moves and mutations came before — whenever the viewport
/// dimensions are positive.
pub proof fn lemma_step_keeps_cursor_visible(m: EditorModel, key: Key)
    requires
        m.prompt is None,
        key != Key::Ctrl('q'),
        m.size.width > 0,
        m.size.height > 0,
    ensures
        step(m, key).offset.x <= step(m, key).cursor.x < step(m, key).offset.x + m.size.width,
        step(m, key).offset.y <= step(m, key).cursor.y < step(m, key).offset.y + m.size.height,
{
    let m1 = with_reset(m);
    match key {
        Key::Ctrl(c) => {
            if c == 's' {
                lemma_with_scroll_bounds(step_save(m1));
            } else {
                lemma_with_scroll_bounds(m1);
            }
        },
        Key::Up | Key::Down | Key::Left | Key::Right | Key::PageUp | Key::PageDown | Key::Home
            | Key::End => {
            lemma_with_scroll_bounds(with_move(m1, key));
        },
        Key::Backspace => {
            lemma_with_scroll_bounds(step_backspace(m1));
        },
        Key::Char(c) => {
            lemma_with_scroll_bounds(step_insert(m1, c));
        },
        _ => {
            lemma_with_scroll_bounds(m1);
        },
    }
}

/// Law: any key other than the quit key restores the quit countdown to its
/// configured maximum.
pub proof fn lemma_other_key_resets_countdown(m: EditorModel, key: Key)
    requires
        m.prompt is None,
        m.quit_times <= QUIT_TIMES,
        key != Key::Ctrl('q'),
    ensures
        step(m, key).quit_times == QUIT_TIMES,
{
}

} // verus!
