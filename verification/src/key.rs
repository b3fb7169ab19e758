use vstd::prelude::*;

verus! {

/// A classified key event, as the terminal collaborator reports it.
/// `Char('\n')` is the Enter key; `Other` covers every unclassified event.
#[derive(Clone, Copy, Debug, PartialEq, Eq, Structural)]
pub enum Key {
    Char(char),
    Ctrl(char),
    Up,
    Down,
    Left,
    Right,
    PageUp,
    PageDown,
    Home,
    End,
    Backspace,
    Delete,
    Esc,
    Other,
}

/// The byte a terminal sends for a control-modified character key.
pub fn to_ctrl_byte(c: char) -> (b: u8)
    ensures
        b == (c as u32 & 0x1f) as u8,
{
    let byte: u8 = #[verifier::truncate] (c as u8);
    let r: u8 = byte & 0b0001_1111;
    proof {
        let u = c as u32;
        assert((u as u8) & 0x1f == (u & 0x1f) as u8) by (bit_vector);
    }
    r
}

} // verus!
