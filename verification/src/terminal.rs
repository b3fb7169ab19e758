use vstd::prelude::*;

verus! {

/// A character-cell terminal size.
#[derive(Clone, Copy, Debug, PartialEq, Eq, Structural)]
pub struct Size {
    pub width: u16,
    pub height: u16,
}

/// The terminal as the editor core sees it: its size, queried once by the
/// caller that owns the real device.
#[derive(Clone, Copy, Debug)]
pub struct Terminal {
    size: Size,
}

impl View for Terminal {
    type V = Size;

    closed spec fn view(&self) -> Size {
        self.size
    }
}

impl Terminal {
    /// A terminal of the given size.
    pub fn new(width: u16, height: u16) -> (t: Terminal)
        ensures
            t@ == (Size { width, height }),
    {
        Terminal { size: Size { width, height } }
    }

    /// The terminal's size in character cells.
    pub fn size(&self) -> (s: &Size)
        ensures
            *s == self@,
    {
        &self.size
    }
}

} // verus!
