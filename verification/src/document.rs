use vstd::prelude::*;

use crate::position::Position;
use crate::row::Row;
use crate::row::clamped;
use crate::row::row_deleted;
use crate::row::row_inserted;
use crate::text::push_char;
use vstd::string::StrSliceExecFns;
use vstd::string::StringExecFns;

verus! {

/// The lines of a text: segments delimited by `'\n'`, where a trailing
/// newline closes the last line and adds none after it.
pub open spec fn parsed_lines(s: Seq<char>) -> Seq<Seq<char>>
    decreases s.len(),
{
    if s.len() == 0 {
        Seq::empty()
    } else if s[0] == '\n' {
        seq![Seq::<char>::empty()] + parsed_lines(s.drop_first())
    } else {
        let rest = parsed_lines(s.drop_first());
        if rest.len() == 0 {
            seq![seq![s[0]]]
        } else {
            seq![seq![s[0]] + rest[0]] + rest.drop_first()
        }
    }
}

/// The text that a buffer writes out: every row followed by one `'\n'`.
pub open spec fn joined_lines(rows: Seq<Seq<char>>) -> Seq<char>
    decreases rows.len(),
{
    if rows.len() == 0 {
        Seq::empty()
    } else {
        rows[0] + seq!['\n'] + joined_lines(rows.drop_first())
    }
}

/// The buffer after a character is inserted at `at`. At the virtual row
/// one past the last line a fresh one-character row appears; a line break
/// splits the row instead; a position below that leaves the buffer alone.
pub open spec fn doc_inserted(rows: Seq<Seq<char>>, at: Position, c: char) -> Seq<Seq<char>> {
    if c == '\n' {
        doc_split(rows, at)
    } else if at.y == rows.len() {
        rows.push(seq![c])
    } else if at.y < rows.len() {
        rows.update(at.y as int, row_inserted(rows[at.y as int], at.x as int, c))
    } else {
        rows
    }
}

/// The buffer after a line break is inserted at `at`: the row divides at
/// column `at.x` and its tail becomes the next row. At the virtual row one
/// past the last line an empty row is appended instead.
pub open spec fn doc_split(rows: Seq<Seq<char>>, at: Position) -> Seq<Seq<char>> {
    if at.y == rows.len() {
        rows.push(Seq::empty())
    } else if at.y < rows.len() {
        let row = rows[at.y as int];
        let k = clamped(row, at.x as int);
        rows.update(at.y as int, row.take(k)).insert(at.y as int + 1, row.skip(k))
    } else {
        rows
    }
}

/// The buffer after a deletion at `at`: at the end of a row that has a
/// successor the two rows merge; otherwise the character at the column
/// goes; past the last row nothing changes.
pub open spec fn doc_deleted(rows: Seq<Seq<char>>, at: Position) -> Seq<Seq<char>> {
    if at.y >= rows.len() {
        rows
    } else {
        let row = rows[at.y as int];
        if at.x == row.len() && at.y + 1 < rows.len() {
            rows.update(at.y as int, row + rows[at.y as int + 1]).remove(at.y as int + 1)
        } else {
            rows.update(at.y as int, row_deleted(row, at.x as int))
        }
    }
}

/// The mathematical content of a [`Document`]: its rows as character
/// sequences, the file identity, and the dirty flag.
pub ghost struct DocModel {
    pub rows: Seq<Seq<char>>,
    pub file_name: Option<Seq<char>>,
    pub dirty: bool,
}

/// The view of an optional file name.
pub open spec fn name_view(n: Option<String>) -> Option<Seq<char>> {
    match n {
        Some(s) => Some(s@),
        None => None,
    }
}

/// An ordered buffer of [`Row`]s together with an optional file identity
/// (absent means untitled) and a flag recording unsaved changes.
#[derive(Debug)]
pub struct Document {
    rows: Vec<Row>,
    pub file_name: Option<String>,
    dirty: bool,
}

impl View for Document {
    type V = DocModel;

    closed spec fn view(&self) -> DocModel {
        DocModel {
            rows: self.rows@.map_values(|r: Row| r@),
            file_name: name_view(self.file_name),
            dirty: self.dirty,
        }
    }
}

impl Document {
    /// An empty untitled buffer.
    pub fn default() -> (d: Document)
        ensures
            d@.rows == Seq::<Seq<char>>::empty(),
            d@.file_name is None,
            !d@.dirty,
    {
        let d = Document { rows: Vec::new(), file_name: None, dirty: false };
        proof {
            assert(d@.rows =~= Seq::<Seq<char>>::empty());
        }
        d
    }

    /// A clean buffer read from `contents`, one row per newline-delimited
    /// line, bound to the file identity `file_name`.
    pub fn open(file_name: &str, contents: &str) -> (d: Document)
        ensures
            d@.rows == parsed_lines(contents@),
            d@.file_name == Some(file_name@),
            !d@.dirty,
    {
        let n = contents.unicode_len();
        let mut rows: Vec<Row> = Vec::new();
        let mut cur: Vec<char> = Vec::new();
        let ghost s = contents@;
        let mut i: usize = 0;
        let ghost mut j: int = 0;
        proof {
            assert(s.skip(0) =~= s);
            assert(cur@ =~= s.subrange(0, 0));
            assert(rows@.map_values(|r: Row| r@) + parsed_lines(s) =~= parsed_lines(s));
        }
        while i < n
            invariant
                n == s.len(),
                contents@ == s,
                0 <= j <= i <= n,
                cur@ == s.subrange(j, i as int),
                forall|m: int| j <= m < i ==> s[m] != '\n',
                parsed_lines(s) == rows@.map_values(|r: Row| r@) + parsed_lines(s.skip(j)),
            decreases n - i,
        {
            let c = contents.get_char(i);
            if c == '\n' {
                proof {
                    lemma_parsed_lines_first(s.skip(j), i - j);
                    assert(s.skip(j).take(i - j) =~= cur@);
                    assert(s.skip(j).skip(i - j + 1) =~= s.skip(i + 1));
                }
                let row = Row::from_chars(cur);
                rows.push(row);
                proof {
                    assert(rows@.map_values(|r: Row| r@) =~= rows@.drop_last().map_values(
                        |r: Row| r@,
                    ).push(row@));
                }
                cur = Vec::new();
                proof {
                    j = i + 1;
                    assert(cur@ =~= s.subrange(j, i + 1));
                }
            } else {
                cur.push(c);
                proof {
                    assert(cur@ =~= s.subrange(j, i + 1));
                }
            }
            i = i + 1;
        }
        if cur.len() > 0 {
            proof {
                lemma_parsed_lines_first(s.skip(j), n - j);
                assert(s.skip(j) =~= cur@);
            }
            let row = Row::from_chars(cur);
            rows.push(row);
            proof {
                assert(rows@.map_values(|r: Row| r@) =~= rows@.drop_last().map_values(
                    |r: Row| r@,
                ).push(row@));
                assert(parsed_lines(s.skip(j)) =~= seq![cur@]);
            }
        } else {
            proof {
                assert(s.skip(j) =~= Seq::<char>::empty());
            }
        }
        proof {
            assert(parsed_lines(s) =~= rows@.map_values(|r: Row| r@));
        }
        let d = Document { rows, file_name: Some(String::from_str(file_name)), dirty: false };
        d
    }

    /// The text that saving writes out: all rows, each followed by one
    /// newline.
    pub fn save_contents(&self) -> (r: String)
        ensures
            r@ == joined_lines(self@.rows),
    {
        let mut out = String::new();
        let mut k: usize = 0;
        let ghost rows = self@.rows;
        while k < self.rows.len()
            invariant
                rows == self@.rows,
                self.rows@.map_values(|r: Row| r@) == rows,
                k <= rows.len(),
                out@ == joined_lines(rows.take(k as int)),
            decreases rows.len() - k,
        {
            let t = self.rows[k].text();
            out.append(t.as_str());
            push_char(&mut out, '\n');
            proof {
                lemma_joined_lines_push(rows.take(k as int), rows[k as int]);
                assert(rows.take(k as int).push(rows[k as int]) =~= rows.take(k + 1));
                assert(out@ =~= joined_lines(rows.take(k as int)) + rows[k as int] + seq!['\n']);
            }
            k = k + 1;
        }
        proof {
            assert(rows.take(rows.len() as int) =~= rows);
        }
        out
    }

    /// Clears the dirty flag; the caller reports that the contents were
    /// written out successfully.
    pub fn mark_saved(&mut self)
        ensures
            final(self)@ == (DocModel { dirty: false, ..old(self)@ }),
    {
        self.dirty = false;
    }

    /// Whether a file identity is set.
    pub fn has_file_name(&self) -> (r: bool)
        ensures
            r == (self@.file_name is Some),
    {
        self.file_name.is_some()
    }

    /// The file identity, if one is set.
    pub fn file_name_ref(&self) -> (r: Option<&String>)
        ensures
            match r {
                Some(s) => self@.file_name == Some(s@),
                None => self@.file_name is None,
            },
    {
        self.file_name.as_ref()
    }

    /// Binds the buffer to the file identity `name`.
    pub fn set_file_name(&mut self, name: String)
        ensures
            final(self)@ == (DocModel { file_name: Some(name@), ..old(self)@ }),
    {
        self.file_name = Some(name);
    }

    /// The number of rows in the buffer.
    pub fn len(&self) -> (n: usize)
        ensures
            n == self@.rows.len(),
    {
        self.rows.len()
    }

    /// Whether the buffer has no rows.
    pub fn is_empty(&self) -> (r: bool)
        ensures
            r == (self@.rows.len() == 0),
    {
        self.rows.len() == 0
    }

    /// Whether unsaved changes exist.
    pub fn is_dirty(&self) -> (r: bool)
        ensures
            r == self@.dirty,
    {
        self.dirty
    }

    /// The row at index `y`, or absent for every `y` at or past the row
    /// count.
    pub fn row(&self, y: usize) -> (r: Option<&Row>)
        ensures
            match r {
                Some(row) => y < self@.rows.len() && row@ == self@.rows[y as int],
                None => y >= self@.rows.len(),
            },
    {
        if y < self.rows.len() {
            Some(&self.rows[y])
        } else {
            None
        }
    }

    /// The character count of the row at index `y`, or zero past the end.
    pub fn row_len(&self, y: usize) -> (n: usize)
        ensures
            y < self@.rows.len() ==> n == self@.rows[y as int].len(),
            y >= self@.rows.len() ==> n == 0,
    {
        if y < self.rows.len() {
            self.rows[y].len()
        } else {
            0
        }
    }

    /// Inserts `c` at `at` and records the change in the dirty flag: a
    /// printable character goes into the row (or begins a fresh row at the
    /// virtual position past the last line), a line break splits the row.
    /// A position below the virtual append row leaves the buffer alone.
    pub fn insert(&mut self, at: &Position, c: char)
        ensures
            final(self)@.rows == doc_inserted(old(self)@.rows, *at, c),
            final(self)@.dirty == (old(self)@.dirty || at.y <= old(self)@.rows.len()),
            final(self)@.file_name == old(self)@.file_name,
    {
        let ghost rows0 = self@.rows;
        if at.y > self.rows.len() {
            return ;
        }
        self.dirty = true;
        if c == '\n' {
            if at.y == self.rows.len() {
                self.rows.push(Row::new());
                proof {
                    assert(self.rows@.map_values(|r: Row| r@) =~= doc_inserted(rows0, *at, c));
                }
            } else {
                let mut row = self.rows.remove(at.y);
                let tail = row.split(at.x);
                self.rows.insert(at.y, row);
                self.rows.insert(at.y + 1, tail);
                proof {
                    assert(self.rows@.map_values(|r: Row| r@) =~= doc_inserted(rows0, *at, c));
                }
            }
        } else {
            if at.y == self.rows.len() {
                let mut row = Row::new();
                row.insert(0, c);
                proof {
                    assert(row@ =~= seq![c]);
                }
                self.rows.push(row);
                proof {
                    assert(self.rows@.map_values(|r: Row| r@) =~= doc_inserted(rows0, *at, c));
                }
            } else {
                let mut row = self.rows.remove(at.y);
                row.insert(at.x, c);
                self.rows.insert(at.y, row);
                proof {
                    assert(self.rows@.map_values(|r: Row| r@) =~= doc_inserted(rows0, *at, c));
                }
            }
        }
    }

    /// Deletes at `at` and records the change in the dirty flag: at the end
    /// of a row that has a successor the successor's characters merge into
    /// the row; otherwise the character at the column goes. A position past
    /// the last row leaves the buffer (and the flag) alone.
    pub fn delete(&mut self, at: &Position)
        ensures
            final(self)@.rows == doc_deleted(old(self)@.rows, *at),
            final(self)@.dirty == (old(self)@.dirty || at.y < old(self)@.rows.len()),
            final(self)@.file_name == old(self)@.file_name,
    {
        let ghost rows0 = self@.rows;
        if at.y >= self.rows.len() {
            return ;
        }
        self.dirty = true;
        let row_count = self.rows.len();
        if at.x == self.rows[at.y].len() && at.y + 1 < row_count {
            let next = self.rows.remove(at.y + 1);
            let mut row = self.rows.remove(at.y);
            row.append(&next);
            self.rows.insert(at.y, row);
            proof {
                assert(self.rows@.map_values(|r: Row| r@) =~= doc_deleted(rows0, *at));
            }
        } else {
            let mut row = self.rows.remove(at.y);
            row.delete(at.x);
            self.rows.insert(at.y, row);
            proof {
                assert(self.rows@.map_values(|r: Row| r@) =~= doc_deleted(rows0, *at));
            }
        }
    }
}

/// Where a sequence's first `k` characters hold no newline (and, short of
/// the end, a newline follows), the parse splits there first: the head line
/// is exactly those characters.
proof fn lemma_parsed_lines_first(s: Seq<char>, k: int)
    requires
        0 <= k <= s.len(),
        forall|m: int| 0 <= m < k ==> s[m] != '\n',
        k < s.len() ==> s[k] == '\n',
    ensures
        k < s.len() ==> parsed_lines(s) == seq![s.take(k)] + parsed_lines(s.skip(k + 1)),
        k == s.len() && k > 0 ==> parsed_lines(s) == seq![s],
    decreases k,
{
    if k == 0 {
        if 0 < s.len() {
            assert(s.take(0) =~= Seq::<char>::empty());
            assert(s.skip(1) =~= s.drop_first());
            assert(parsed_lines(s) =~= seq![s.take(0)] + parsed_lines(s.skip(1)));
        }
    } else {
        let d = s.drop_first();
        assert(forall|m: int| 0 <= m < k - 1 ==> d[m] != '\n');
        lemma_parsed_lines_first(d, k - 1);
        let rest = parsed_lines(d);
        if k == s.len() {
            if d.len() == 0 {
                assert(parsed_lines(s) =~= seq![seq![s[0]]]);
                assert(seq![s[0]] =~= s);
            } else {
                assert(rest == seq![d]);
                assert(parsed_lines(s) == seq![seq![s[0]] + rest[0]] + rest.drop_first());
                assert(seq![s[0]] + d =~= s);
                assert(rest.drop_first() =~= Seq::<Seq<char>>::empty());
                assert(parsed_lines(s) =~= seq![s]);
            }
        } else {
            assert(rest == seq![d.take(k - 1)] + parsed_lines(d.skip(k)));
            assert(rest.len() > 0);
            assert(parsed_lines(s) == seq![seq![s[0]] + rest[0]] + rest.drop_first());
            assert(seq![s[0]] + d.take(k - 1) =~= s.take(k));
            assert(rest.drop_first() =~= parsed_lines(d.skip(k)));
            assert(d.skip(k) =~= s.skip(k + 1));
            assert(parsed_lines(s) =~= seq![s.take(k)] + parsed_lines(s.skip(k + 1)));
        }
    }
}

/// Law: a buffer read from a text and written back with no edits
/// reproduces that text exactly, after the trailing-newline normalization:
/// the empty text stays empty, a text that ends in a newline comes back as
/// it is, and any other text gains exactly one final newline.
pub proof fn lemma_open_save_round_trip(s: Seq<char>)
    ensures
        s.len() == 0 ==> joined_lines(parsed_lines(s)) == s,
        s.len() > 0 && s.last() == '\n' ==> joined_lines(parsed_lines(s)) == s,
        s.len() > 0 && s.last() != '\n' ==> joined_lines(parsed_lines(s)) == s.push('\n'),
    decreases s.len(),
{
    if s.len() == 0 {
        assert(joined_lines(parsed_lines(s)) =~= s);
    } else {
        let d = s.drop_first();
        let p = parsed_lines(s);
        lemma_open_save_round_trip(d);
        if s[0] == '\n' {
            assert(p == seq![Seq::<char>::empty()] + parsed_lines(d));
            assert(p.drop_first() =~= parsed_lines(d));
            assert(joined_lines(p) == p[0] + seq!['\n'] + joined_lines(parsed_lines(d)));
            if d.len() == 0 {
                assert(joined_lines(p) =~= s);
            } else if d.last() == '\n' {
                assert(joined_lines(p) =~= s);
            } else {
                assert(joined_lines(p) =~= s.push('\n'));
            }
        } else {
            let rest = parsed_lines(d);
            if d.len() == 0 {
                assert(p == seq![seq![s[0]]]);
                assert(p.drop_first() =~= Seq::<Seq<char>>::empty());
                assert(joined_lines(p) == p[0] + seq!['\n'] + joined_lines(p.drop_first()));
                assert(joined_lines(p) =~= s.push('\n'));
            } else {
                assert(rest.len() > 0);
                assert(p == seq![seq![s[0]] + rest[0]] + rest.drop_first());
                assert(p.drop_first() =~= rest.drop_first());
                assert(joined_lines(p) == p[0] + seq!['\n'] + joined_lines(p.drop_first()));
                assert(joined_lines(rest) == rest[0] + seq!['\n'] + joined_lines(
                    rest.drop_first(),
                ));
                assert(joined_lines(p) =~= seq![s[0]] + joined_lines(rest));
                if d.last() == '\n' {
                    assert(joined_lines(p) =~= s);
                } else {
                    assert(joined_lines(p) =~= s.push('\n'));
                }
            }
        }
    }
}

/// Law: inserting a character inside an existing row, at a column no
/// greater than that row's length, lengthens the row by exactly one, puts
/// the character at the insertion column, and touches no other row.
pub proof fn lemma_insert_effect(rows: Seq<Seq<char>>, at: Position, c: char)
    requires
        c != '\n',
        at.y < rows.len(),
        at.x <= rows[at.y as int].len(),
    ensures
        doc_inserted(rows, at, c).len() == rows.len(),
        doc_inserted(rows, at, c)[at.y as int].len() == rows[at.y as int].len() + 1,
        doc_inserted(rows, at, c)[at.y as int][at.x as int] == c,
        forall|i: int|
            0 <= i < rows.len() && i != at.y ==> doc_inserted(rows, at, c)[i] == rows[i],
{
    rows[at.y as int].insert_ensures(at.x as int, c);
}

/// Law: deleting a character inside an existing row, at a column below that
/// row's length, shortens the row by exactly one and touches no other row.
pub proof fn lemma_delete_effect(rows: Seq<Seq<char>>, at: Position)
    requires
        at.y < rows.len(),
        at.x < rows[at.y as int].len(),
    ensures
        doc_deleted(rows, at).len() == rows.len(),
        doc_deleted(rows, at)[at.y as int].len() == rows[at.y as int].len() - 1,
        forall|i: int| 0 <= i < rows.len() && i != at.y ==> doc_deleted(rows, at)[i] == rows[i],
{
    rows[at.y as int].remove_ensures(at.x as int);
}

/// Law: a deletion at the position of an insertion undoes it — the whole
/// buffer, the inserted row included, is restored. This holds for a line
/// break too: deleting at the split point merges the halves back together.
pub proof fn lemma_insert_then_delete(rows: Seq<Seq<char>>, at: Position, c: char)
    requires
        at.y < rows.len(),
        at.x <= rows[at.y as int].len(),
    ensures
        doc_deleted(doc_inserted(rows, at, c), at) == rows,
{
    let row = rows[at.y as int];
    let x = at.x as int;
    let y = at.y as int;
    if c == '\n' {
        let split = doc_split(rows, at);
        assert(clamped(row, x) == x);
        assert(split == rows.update(y, row.take(x)).insert(y + 1, row.skip(x)));
        assert(split.len() == rows.len() + 1);
        assert(split[y] =~= row.take(x));
        assert(split[y + 1] =~= row.skip(x));
        assert(at.x == split[y].len());
        assert(doc_deleted(split, at) == split.update(y, split[y] + split[y + 1]).remove(y + 1));
        assert(row.take(x) + row.skip(x) =~= row);
        assert(doc_deleted(split, at) =~= rows);
    } else {
        let ins = doc_inserted(rows, at, c);
        assert(ins == rows.update(y, row.insert(x, c)));
        row.insert_ensures(x, c);
        assert(ins[y].len() == row.len() + 1);
        assert(at.x < ins[y].len());
        assert(doc_deleted(ins, at) == ins.update(y, row_deleted(ins[y], x)));
        assert(row_deleted(ins[y], x) =~= row);
        assert(doc_deleted(ins, at) =~= rows);
    }
}

/// Appending a row to a buffer appends its characters and one newline to
/// the joined text.
proof fn lemma_joined_lines_push(rows: Seq<Seq<char>>, row: Seq<char>)
    ensures
        joined_lines(rows.push(row)) == joined_lines(rows) + row + seq!['\n'],
    decreases rows.len(),
{
    let p = rows.push(row);
    if rows.len() == 0 {
        assert(p[0] == row);
        assert(p.drop_first() =~= Seq::<Seq<char>>::empty());
        assert(joined_lines(p) == p[0] + seq!['\n'] + joined_lines(p.drop_first()));
        assert(joined_lines(p) =~= joined_lines(rows) + row + seq!['\n']);
    } else {
        lemma_joined_lines_push(rows.drop_first(), row);
        assert(p.drop_first() =~= rows.drop_first().push(row));
        assert(p[0] == rows[0]);
        assert(joined_lines(p) == p[0] + seq!['\n'] + joined_lines(p.drop_first()));
        assert(joined_lines(p) =~= joined_lines(rows) + row + seq!['\n']);
    }
}

} // verus!
