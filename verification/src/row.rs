use vstd::prelude::*;

use crate::text::push_char;
use crate::text::string_of_chars;
use vstd::string::StrSliceExecFns;

verus! {

/// The columns a row keeps when a character is inserted before column `at`:
/// `at` is clamped to the row length, so an out-of-range insert appends.
pub open spec fn row_inserted(row: Seq<char>, at: int, c: char) -> Seq<char> {
    if at <= row.len() {
        row.insert(at, c)
    } else {
        row.push(c)
    }
}

/// The row after the character at column `at` is removed; a removal past the
/// end changes nothing.
pub open spec fn row_deleted(row: Seq<char>, at: int) -> Seq<char> {
    if 0 <= at < row.len() {
        row.remove(at)
    } else {
        row
    }
}

/// `at` clamped to the row length.
pub open spec fn clamped(row: Seq<char>, at: int) -> int {
    if at <= row.len() {
        at
    } else {
        row.len() as int
    }
}

/// The visible part of a row for the column range `[start, end)`, clipped to
/// the row's bounds.
pub open spec fn rendered(row: Seq<char>, start: int, end: int) -> Seq<char> {
    let e = if end <= row.len() {
        end
    } else {
        row.len() as int
    };
    let s = if start <= e {
        start
    } else {
        e
    };
    if s < 0 {
        row.take(e)
    } else {
        row.subrange(s, e)
    }
}

/// One line of text in the buffer, an ordered sequence of characters.
/// Lengths and columns count characters, not bytes.
#[derive(Clone, Debug)]
pub struct Row {
    chars: Vec<char>,
}

impl View for Row {
    type V = Seq<char>;

    closed spec fn view(&self) -> Seq<char> {
        self.chars@
    }
}

impl Row {
    /// An empty row.
    pub fn new() -> (r: Row)
        ensures
            r@ == Seq::<char>::empty(),
    {
        Row { chars: Vec::new() }
    }

    /// A row owning the given characters.
    pub fn from_chars(chars: Vec<char>) -> (r: Row)
        ensures
            r@ == chars@,
    {
        Row { chars }
    }

    /// A row holding the characters of `s`.
    pub fn from_text(s: &str) -> (r: Row)
        ensures
            r@ == s@,
    {
        let n = s.unicode_len();
        let mut chars: Vec<char> = Vec::new();
        let mut i: usize = 0;
        while i < n
            invariant
                n == s@.len(),
                i <= n,
                chars@ == s@.take(i as int),
            decreases n - i,
        {
            chars.push(s.get_char(i));
            i = i + 1;
            proof {
                assert(chars@ =~= s@.take(i as int));
            }
        }
        proof {
            assert(s@.take(n as int) =~= s@);
        }
        Row { chars }
    }

    /// The number of characters in the row.
    pub fn len(&self) -> (n: usize)
        ensures
            n == self@.len(),
    {
        self.chars.len()
    }

    /// Whether the row holds no characters.
    pub fn is_empty(&self) -> (r: bool)
        ensures
            r == (self@.len() == 0),
    {
        self.chars.len() == 0
    }

    /// The character at column `at`.
    pub fn char_at(&self, at: usize) -> (c: char)
        requires
            at < self@.len(),
        ensures
            c == self@[at as int],
    {
        self.chars[at]
    }

    /// Inserts `c` before column `at`; if `at` is past the end, the
    /// character is appended. Always succeeds.
    pub fn insert(&mut self, at: usize, c: char)
        ensures
            final(self)@ == row_inserted(old(self)@, at as int, c),
    {
        if at >= self.chars.len() {
            self.chars.push(c);
        } else {
            self.chars.insert(at, c);
        }
        proof {
            if at as int <= old(self)@.len() {
                if at as int == old(self)@.len() {
                    assert(old(self)@.push(c) =~= old(self)@.insert(at as int, c));
                }
            }
        }
    }

    /// Removes the character at column `at`; a no-op past the end.
    pub fn delete(&mut self, at: usize)
        ensures
            final(self)@ == row_deleted(old(self)@, at as int),
    {
        if at < self.chars.len() {
            self.chars.remove(at);
        }
    }

    /// Divides the row at column `at`: this row keeps the columns before
    /// `at`, the returned row holds the rest. `at` is clamped to the length.
    pub fn split(&mut self, at: usize) -> (tail: Row)
        ensures
            final(self)@ == old(self)@.take(clamped(old(self)@, at as int)),
            tail@ == old(self)@.skip(clamped(old(self)@, at as int)),
    {
        let a = if at <= self.chars.len() {
            at
        } else {
            self.chars.len()
        };
        let mut tail_chars: Vec<char> = Vec::new();
        let mut i: usize = a;
        while i < self.chars.len()
            invariant
                a <= i <= self.chars@.len(),
                self.chars@ == old(self)@,
                tail_chars@ == self.chars@.subrange(a as int, i as int),
            decreases self.chars@.len() - i,
        {
            tail_chars.push(self.chars[i]);
            i = i + 1;
            proof {
                assert(tail_chars@ =~= self.chars@.subrange(a as int, i as int));
            }
        }
        self.chars.truncate(a);
        proof {
            assert(final(self)@ =~= old(self)@.take(clamped(old(self)@, at as int)));
            assert(tail_chars@ =~= old(self)@.skip(clamped(old(self)@, at as int)));
        }
        Row { chars: tail_chars }
    }

    /// Appends the characters of `other` to this row; used when a deletion
    /// merges two lines.
    pub fn append(&mut self, other: &Row)
        ensures
            final(self)@ == old(self)@ + other@,
    {
        let mut i: usize = 0;
        while i < other.chars.len()
            invariant
                i <= other.chars@.len(),
                self.chars@ == old(self)@ + other.chars@.take(i as int),
            decreases other.chars@.len() - i,
        {
            self.chars.push(other.chars[i]);
            i = i + 1;
            proof {
                assert(old(self)@ + other.chars@.take(i as int) =~= (old(self)@
                    + other.chars@.take(i - 1)).push(other.chars@[i - 1]));
            }
        }
        proof {
            assert(old(self)@ + other.chars@.take(other.chars@.len() as int) =~= old(self)@
                + other@);
        }
    }

    /// The substring of characters in the column range `[start, end)`,
    /// clipped to the row's bounds; used for horizontal scrolling.
    pub fn render(&self, start: usize, end: usize) -> (r: String)
        ensures
            r@ == rendered(self@, start as int, end as int),
    {
        let e = if end <= self.chars.len() {
            end
        } else {
            self.chars.len()
        };
        let s = if start <= e {
            start
        } else {
            e
        };
        let mut r = String::new();
        let mut i: usize = s;
        while i < e
            invariant
                s <= i <= e <= self.chars@.len(),
                r@ == self.chars@.subrange(s as int, i as int),
            decreases e - i,
        {
            push_char(&mut r, self.chars[i]);
            i = i + 1;
            proof {
                assert(r@ =~= self.chars@.subrange(s as int, i as int));
            }
        }
        proof {
            assert(r@ =~= rendered(self@, start as int, end as int));
        }
        r
    }

    /// The whole row as a `String`.
    pub fn text(&self) -> (r: String)
        ensures
            r@ == self@,
    {
        string_of_chars(&self.chars)
    }
}

} // verus!
