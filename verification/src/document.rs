//! Line storage for the editor: an ordered sequence of text lines, each a
//! sequence of Unicode code points, with the line-level mutation primitives
//! (insert/delete a code point, split/join lines, wholesale replace).

use vstd::prelude::*;

verus! {

/// The text being edited. A document always holds at least one line, even
/// when that line is empty.
pub struct Document {
    lines: Vec<Vec<char>>,
}

/// The mathematical content of a list of lines: one sequence of code points
/// per line, in order.
pub open spec fn lines_view(lines: Vec<Vec<char>>) -> Seq<Seq<char>> {
    Seq::new(lines@.len(), |i: int| lines@[i]@)
}

impl View for Document {
    type V = Seq<Seq<char>>;

    closed spec fn view(&self) -> Seq<Seq<char>> {
        lines_view(self.lines)
    }
}

impl Document {
    /// A document is well formed when it holds at least one line.
    pub open spec fn wf(&self) -> bool {
        self@.len() >= 1
    }

    /// A fresh document: a single empty line.
    pub fn new() -> (d: Document)
        ensures
            d@ == seq![Seq::<char>::empty()],
            d.wf(),
    {
        let mut lines: Vec<Vec<char>> = Vec::new();
        lines.push(Vec::new());
        let d = Document { lines };
        proof {
            assert(d@ =~= seq![Seq::<char>::empty()]);
        }
        d
    }

    /// How many lines the document holds.
    pub fn line_count(&self) -> (n: usize)
        ensures
            n == self@.len(),
    {
        self.lines.len()
    }

    /// The number of code points in line `row`.
    pub fn line_len(&self, row: usize) -> (n: usize)
        requires
            row < self@.len(),
        ensures
            n == self@[row as int].len(),
    {
        self.lines[row].len()
    }

    /// Read access to line `row`, for rendering.
    pub fn line(&self, row: usize) -> (l: &Vec<char>)
        requires
            row < self@.len(),
        ensures
            l@ == self@[row as int],
    {
        &self.lines[row]
    }

    /// Inserts `ch` at code-point offset `col` of line `row`.
    pub fn insert_code_point(&mut self, row: usize, col: usize, ch: char)
        requires
            row < old(self)@.len(),
            col <= old(self)@[row as int].len(),
        ensures
            final(self)@ == old(self)@.update(
                row as int,
                old(self)@[row as int].insert(col as int, ch),
            ),
            old(self)@[row as int].len() < usize::MAX,
    {
        let line = &mut self.lines[row];
        line.insert(col, ch);
        proof {
            assert(self.lines@[row as int].len() == self.lines@[row as int]@.len());
            assert(self.lines@[row as int]@.len() == old(self)@[row as int].len() + 1);
            assert(self@ =~= old(self)@.update(
                row as int,
                old(self)@[row as int].insert(col as int, ch),
            ));
        }
    }

    /// Removes the code point just before offset `col` of line `row`
    /// ("delete before position `col`", as backspace does).
    pub fn delete_code_point(&mut self, row: usize, col: usize)
        requires
            row < old(self)@.len(),
            0 < col <= old(self)@[row as int].len(),
        ensures
            final(self)@ == old(self)@.update(
                row as int,
                old(self)@[row as int].remove(col - 1),
            ),
    {
        let line = &mut self.lines[row];
        line.remove(col - 1);
        proof {
            assert(self@ =~= old(self)@.update(
                row as int,
                old(self)@[row as int].remove(col - 1),
            ));
        }
    }

    /// Truncates line `row` to its first `col` code points and inserts a new
    /// line at `row + 1` holding the remainder.
    pub fn split_line(&mut self, row: usize, col: usize)
        requires
            row < old(self)@.len(),
            col <= old(self)@[row as int].len(),
        ensures
            final(self)@ == old(self)@.update(
                row as int,
                old(self)@[row as int].take(col as int),
            ).insert(row as int + 1, old(self)@[row as int].skip(col as int)),
            old(self)@.len() < usize::MAX,
    {
        let count = self.lines.len();
        let line = &mut self.lines[row];
        let rest = line.split_off(col);
        assert(row < count);
        self.lines.insert(row + 1, rest);
        proof {
            assert(self.lines.len() == self.lines@.len());
            assert(self.lines@.len() == old(self)@.len() + 1);
            assert(self@ =~= old(self)@.update(
                row as int,
                old(self)@[row as int].take(col as int),
            ).insert(row as int + 1, old(self)@[row as int].skip(col as int)));
        }
    }

    /// Removes line `row` and appends its full content to line `row - 1`.
    pub fn join_with_previous(&mut self, row: usize)
        requires
            0 < row < old(self)@.len(),
        ensures
            final(self)@ == old(self)@.update(
                row - 1,
                old(self)@[row - 1] + old(self)@[row as int],
            ).remove(row as int),
    {
        let mut tail = self.lines.remove(row);
        let prev = &mut self.lines[row - 1];
        prev.append(&mut tail);
        proof {
            assert(self@ =~= old(self)@.update(
                row - 1,
                old(self)@[row - 1] + old(self)@[row as int],
            ).remove(row as int));
        }
    }

    /// Replaces the whole document. An empty replacement leaves a single
    /// empty line, so that the document never has zero lines.
    pub fn replace_all(&mut self, new_lines: Vec<Vec<char>>)
        ensures
            new_lines@.len() == 0 ==> final(self)@ == seq![Seq::<char>::empty()],
            new_lines@.len() > 0 ==> final(self)@ == lines_view(new_lines),
            final(self).wf(),
    {
        if new_lines.len() == 0 {
            let mut lines: Vec<Vec<char>> = Vec::new();
            lines.push(Vec::new());
            self.lines = lines;
            proof {
                assert(self@ =~= seq![Seq::<char>::empty()]);
            }
        } else {
            self.lines = new_lines;
        }
    }
}

} // verus!
