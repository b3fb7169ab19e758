use vstd::prelude::*;

use crate::document::Document;
use crate::text::digit;
use crate::text::digit_char;
use crate::text::string_of_chars;
use vstd::string::StrSliceExecFns;

verus! {

/// The decimal representation of `n`, most significant digit first.
pub open spec fn dec_rep(n: nat) -> Seq<char>
    decreases n,
{
    if n < 10 {
        seq![digit_char(n as u8)]
    } else {
        dec_rep(n / 10).push(digit_char((n % 10) as u8))
    }
}

/// `k` spaces (none for `k <= 0`).
pub open spec fn space_seq(k: int) -> Seq<char> {
    if k <= 0 {
        Seq::empty()
    } else {
        Seq::new(k as nat, |i: int| ' ')
    }
}

/// `s` cut off after its first `k` characters.
pub open spec fn truncated(s: Seq<char>, k: int) -> Seq<char> {
    if s.len() <= k {
        s
    } else if k < 0 {
        Seq::empty()
    } else {
        s.take(k)
    }
}

/// The status bar's one line of text for a terminal `width` columns wide:
/// the file name (at most its first twenty characters, `[NoName]` for an
/// untitled buffer), the line count, a marker for unsaved changes, then —
/// padded to the right edge — the cursor's line over the line count, the
/// whole cut to the width. Columns count characters.
pub open spec fn status_bar_line(
    name: Option<Seq<char>>,
    row_count: nat,
    dirty: bool,
    cursor_y: nat,
    width: int,
) -> Seq<char> {
    let shown = match name {
        Some(n) => truncated(n, 20),
        None => "[NoName]"@,
    };
    let marker = if dirty {
        " (modified)"@
    } else {
        Seq::empty()
    };
    let base = shown + " - "@ + dec_rep(row_count) + " lines "@ + marker;
    let padded = base + space_seq(width - base.len());
    let line_number = if cursor_y + 1 <= usize::MAX {
        cursor_y + 1
    } else {
        usize::MAX as nat
    };
    let line_indicator = dec_rep(line_number) + "/"@ + dec_rep(row_count);
    let padded2 = padded + space_seq(width - padded.len() - line_indicator.len());
    truncated(padded2 + line_indicator, width)
}

/// The decimal digits of `n`.
pub fn usize_to_string(n: usize) -> (r: String)
    ensures
        r@ == dec_rep(n as nat),
{
    let mut digits: Vec<char> = Vec::new();
    let mut m = n;
    while m >= 10
        invariant
            dec_rep(n as nat) == dec_rep(m as nat) + digits@.reverse(),
        decreases m,
    {
        let d = (m % 10) as u8;
        digits.push(digit(d));
        m = m / 10;
        proof {
            assert(digits@.reverse() =~= seq![digit_char(d)] + digits@.drop_last().reverse());
            assert(dec_rep(n as nat) =~= dec_rep(m as nat) + digits@.reverse());
        }
    }
    digits.push(digit((m % 10) as u8));
    proof {
        assert(m % 10 == m as int);
        assert(digits@.reverse() =~= seq![digit_char(m as u8)] + digits@.drop_last().reverse());
        assert(dec_rep(n as nat) =~= digits@.reverse());
    }
    let mut out: Vec<char> = Vec::new();
    let mut k: usize = digits.len();
    while k > 0
        invariant
            k <= digits@.len(),
            out@ == digits@.reverse().take(digits@.len() - k),
        decreases k,
    {
        k = k - 1;
        out.push(digits[k]);
        proof {
            assert(out@ =~= digits@.reverse().take(digits@.len() - k));
        }
    }
    proof {
        assert(digits@.reverse().take(digits@.len() as int) =~= digits@.reverse());
    }
    string_of_chars(&out)
}

/// Pushes the characters of `s` onto `v`.
fn push_str_chars(v: &mut Vec<char>, s: &str)
    ensures
        final(v)@ == old(v)@ + s@,
{
    let n = s.unicode_len();
    let mut i: usize = 0;
    while i < n
        invariant
            n == s@.len(),
            i <= n,
            v@ == old(v)@ + s@.take(i as int),
        decreases n - i,
    {
        v.push(s.get_char(i));
        i = i + 1;
        proof {
            assert(v@ =~= old(v)@ + s@.take(i as int));
        }
    }
    proof {
        assert(old(v)@ + s@.take(n as int) =~= old(v)@ + s@);
    }
}

/// Pushes `k` spaces onto `v`.
fn push_spaces(v: &mut Vec<char>, k: usize)
    ensures
        final(v)@ == old(v)@ + space_seq(k as int),
{
    let mut i: usize = 0;
    while i < k
        invariant
            i <= k,
            v@ == old(v)@ + space_seq(i as int),
        decreases k - i,
    {
        v.push(' ');
        i = i + 1;
        proof {
            assert(v@ =~= old(v)@ + space_seq(i as int));
        }
    }
}

/// Builds the status bar for the given document, cursor row, and terminal
/// width; see [`status_bar_line`].
pub fn status_bar_text(doc: &Document, cursor_y: usize, width: usize) -> (r: String)
    ensures
        r@ == status_bar_line(
            doc@.file_name,
            doc@.rows.len(),
            doc@.dirty,
            cursor_y as nat,
            width as int,
        ),
{
    let mut line: Vec<char> = Vec::new();
    match doc.file_name_ref() {
        Some(name) => {
            let n = name.as_str().unicode_len();
            let shown = name.as_str().substring_char(0, if n < 20 {
                n
            } else {
                20
            });
            push_str_chars(&mut line, shown);
            proof {
                assert(shown@ =~= truncated(name@, 20));
            }
        },
        None => {
            push_str_chars(&mut line, "[NoName]");
        },
    }
    push_str_chars(&mut line, " - ");
    let count = usize_to_string(doc.len());
    push_str_chars(&mut line, count.as_str());
    push_str_chars(&mut line, " lines ");
    if doc.is_dirty() {
        push_str_chars(&mut line, " (modified)");
    }
    let ghost base = line@;
    if width > line.len() {
        let pad = width - line.len();
        push_spaces(&mut line, pad);
    }
    proof {
        assert(line@ =~= base + space_seq(width - base.len()));
    }
    let ghost padded = line@;
    let mut indicator: Vec<char> = Vec::new();
    let line_number = if cursor_y < usize::MAX {
        cursor_y + 1
    } else {
        usize::MAX
    };
    let row_text = usize_to_string(line_number);
    push_str_chars(&mut indicator, row_text.as_str());
    push_str_chars(&mut indicator, "/");
    let count2 = usize_to_string(doc.len());
    push_str_chars(&mut indicator, count2.as_str());
    if width > line.len() {
        let room = width - line.len();
        if room > indicator.len() {
            push_spaces(&mut line, room - indicator.len());
        }
    }
    proof {
        assert(line@ =~= padded + space_seq(width - padded.len() - indicator@.len()));
    }
    let mut i: usize = 0;
    let ghost before = line@;
    while i < indicator.len()
        invariant
            i <= indicator@.len(),
            line@ == before + indicator@.take(i as int),
        decreases indicator@.len() - i,
    {
        line.push(indicator[i]);
        i = i + 1;
        proof {
            assert(line@ =~= before + indicator@.take(i as int));
        }
    }
    proof {
        assert(before + indicator@.take(indicator@.len() as int) =~= before + indicator@);
    }
    if line.len() > width {
        line.truncate(width);
    }
    proof {
        assert(line@ =~= status_bar_line(
            doc@.file_name,
            doc@.rows.len(),
            doc@.dirty,
            cursor_y as nat,
            width as int,
        ));
    }
    string_of_chars(&line)
}

} // verus!
