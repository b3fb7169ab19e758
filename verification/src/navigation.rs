use vstd::prelude::*;

use crate::document::Document;
use crate::key::Key;
use crate::position::Position;

verus! {

/// The column count of row `y`, or zero past the last row (the virtual
/// append row has no columns).
pub open spec fn row_len_at(rows: Seq<Seq<char>>, y: int) -> int {
    if 0 <= y < rows.len() {
        rows[y].len() as int
    } else {
        0
    }
}

/// The cursor position a key moves `(x, y)` to, before the final clamp:
/// vertical keys keep the column, Left and Right wrap across line ends, and
/// the page keys jump by one viewport height.
pub open spec fn moved_raw(
    rows: Seq<Seq<char>>,
    x: int,
    y: int,
    key: Key,
    viewport_height: int,
) -> (int, int) {
    let height = rows.len() as int;
    let width = row_len_at(rows, y);
    match key {
        Key::Up => (x, if y > 0 {
            y - 1
        } else {
            0
        }),
        Key::Down => (x, if y < height {
            y + 1
        } else {
            y
        }),
        Key::Left => if x > 0 {
            (x - 1, y)
        } else if y > 0 {
            (row_len_at(rows, y - 1), y - 1)
        } else {
            (x, y)
        },
        Key::Right => if x < width {
            (x + 1, y)
        } else if y < height {
            (0, y + 1)
        } else {
            (x, y)
        },
        Key::PageUp => (x, if y > viewport_height {
            y - viewport_height
        } else {
            0
        }),
        Key::PageDown => (x, if y + viewport_height < height {
            y + viewport_height
        } else {
            height
        }),
        Key::Home => (0, y),
        Key::End => (width, y),
        _ => (x, y),
    }
}

/// The cursor position a key moves `(x, y)` to: [`moved_raw`], then the
/// column clamped to the destination row's length, so the cursor never
/// dangles past the end of a shorter line.
pub open spec fn moved_position(
    rows: Seq<Seq<char>>,
    x: int,
    y: int,
    key: Key,
    viewport_height: int,
) -> (int, int) {
    let (x1, y1) = moved_raw(rows, x, y, key, viewport_height);
    let w = row_len_at(rows, y1);
    (if x1 > w {
        w
    } else {
        x1
    }, y1)
}

/// Moves the cursor for one key over the given buffer. The page keys jump
/// by `viewport_height` rows.
pub fn new_position(doc: &Document, pos: Position, key: Key, viewport_height: usize) -> (p:
    Position)
    requires
        pos.y <= doc@.rows.len(),
    ensures
        (p.x as int, p.y as int) == moved_position(
            doc@.rows,
            pos.x as int,
            pos.y as int,
            key,
            viewport_height as int,
        ),
        p.y <= doc@.rows.len(),
        p.x as int <= row_len_at(doc@.rows, p.y as int),
{
    let mut x = pos.x;
    let mut y = pos.y;
    let height = doc.len();
    let width = doc.row_len(y);
    match key {
        Key::Up => {
            if y > 0 {
                y = y - 1;
            }
        },
        Key::Down => {
            if y < height {
                y = y + 1;
            }
        },
        Key::Left => {
            if x > 0 {
                x = x - 1;
            } else if y > 0 {
                y = y - 1;
                x = doc.row_len(y);
            }
        },
        Key::Right => {
            if x < width {
                x = x + 1;
            } else if y < height {
                y = y + 1;
                x = 0;
            }
        },
        Key::PageUp => {
            y = if y > viewport_height {
                y - viewport_height
            } else {
                0
            };
        },
        Key::PageDown => {
            y = if viewport_height < height && y < height - viewport_height {
                y + viewport_height
            } else {
                height
            };
        },
        Key::Home => {
            x = 0;
        },
        Key::End => {
            x = width;
        },
        _ => {},
    }
    let w = doc.row_len(y);
    if x > w {
        x = w;
    }
    Position { x, y }
}

/// One axis of the scroll rule: an offset that keeps coordinate `c` inside
/// a viewport of extent `dim` starting at offset `o`, moving the window as
/// little as possible. With `dim == 0` the push past the window floor is
/// capped at the machine's largest coordinate.
pub open spec fn scrolled_axis(c: int, o: int, dim: int) -> int {
    if c < o {
        c
    } else if c >= o + dim {
        if c + 1 - dim <= usize::MAX {
            c + 1 - dim
        } else {
            usize::MAX as int
        }
    } else {
        o
    }
}

/// Recomputes one axis of the viewport offset; see [`scrolled_axis`].
pub fn scroll_axis(c: usize, o: usize, dim: usize) -> (r: usize)
    ensures
        r as int == scrolled_axis(c as int, o as int, dim as int),
{
    if c < o {
        c
    } else if dim <= c - o {
        let base = c - dim;
        if base < usize::MAX {
            base + 1
        } else {
            usize::MAX
        }
    } else {
        o
    }
}

/// The viewport offset after scroll recomputation: each axis adjusted just
/// far enough that the cursor is visible.
pub fn scroll_offset(cursor: Position, offset: Position, width: usize, height: usize) -> (r:
    Position)
    ensures
        r.x as int == scrolled_axis(cursor.x as int, offset.x as int, width as int),
        r.y as int == scrolled_axis(cursor.y as int, offset.y as int, height as int),
        width > 0 ==> r.x <= cursor.x < r.x + width,
        height > 0 ==> r.y <= cursor.y < r.y + height,
{
    Position {
        x: scroll_axis(cursor.x, offset.x, width),
        y: scroll_axis(cursor.y, offset.y, height),
    }
}

/// The screen cell a buffer coordinate lands on under the given viewport
/// offset: the difference, floored at the screen's origin.
pub fn screen_position(cursor: Position, offset: Position) -> (p: Position)
    ensures
        p.x == if cursor.x >= offset.x {
            (cursor.x - offset.x) as int
        } else {
            0
        },
        p.y == if cursor.y >= offset.y {
            (cursor.y - offset.y) as int
        } else {
            0
        },
{
    Position {
        x: if cursor.x >= offset.x {
            cursor.x - offset.x
        } else {
            0
        },
        y: if cursor.y >= offset.y {
            cursor.y - offset.y
        } else {
            0
        },
    }
}

/// Law: whenever the viewport dimensions are positive, scroll recomputation
/// puts the offset at or before the cursor and the cursor strictly inside
/// the viewport, whatever cursor and offset a history of moves and
/// mutations has produced.
pub proof fn lemma_scroll_keeps_cursor_visible(c: int, o: int, dim: int)
    requires
        0 <= c <= usize::MAX,
        dim > 0,
    ensures
        scrolled_axis(c, o, dim) <= c < scrolled_axis(c, o, dim) + dim,
{
}

/// Law: the Left and Right keys are symmetric at line boundaries. Left at
/// the start of a row below the first lands at the end of the previous row;
/// Right at the end of any row above the last lands at the start of the
/// next.
pub proof fn lemma_move_boundary_symmetry(rows: Seq<Seq<char>>, y: int, viewport_height: int)
    requires
        0 <= y <= rows.len(),
    ensures
        y > 0 ==> moved_position(rows, 0, y, Key::Left, viewport_height) == (
        row_len_at(rows, y - 1),
        y - 1,
        ),
        y < rows.len() ==> moved_position(
            rows,
            row_len_at(rows, y),
            y,
            Key::Right,
            viewport_height,
        ) == (0int, y + 1),
{
}

} // verus!
