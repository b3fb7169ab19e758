//! Core engine of a terminal line editor: a line buffer (`Document` of
//! `Row`s), cursor and viewport coordination, and the keystroke-to-mutation
//! state machine. Terminal input/output itself stays outside the library;
//! callers hand in key events and plain text and read the resulting state.

use vstd::prelude::*;

pub mod document;
pub mod editor;
pub mod key;
pub mod navigation;
pub mod position;
pub mod render;
pub mod row;
pub mod terminal;
pub mod text;

pub use document::Document;
pub use editor::Editor;
pub use editor::StatusMessage;
pub use terminal::Size;
pub use terminal::Terminal;

pub use key::Key;
pub use key::to_ctrl_byte;
pub use position::Position;
pub use row::Row;

verus! {

/// Number of confirmations demanded before a dirty document may be quit.
pub const QUIT_TIMES: u8 = 3;

} // verus!
