use vstd::prelude::*;

use crate::proto::CaretPosition;

verus! {

/// The lines of a text: it is split at each line feed, and the line feeds
/// themselves are dropped. Any text, the empty one too, has at least one line.
pub open spec fn lines_of(s: Seq<char>) -> Seq<Seq<char>>
    decreases s.len(),
{
    if s.len() == 0 {
        seq![Seq::empty()]
    } else {
        let p = lines_of(s.drop_last());
        if s.last() == '\n' {
            p.push(Seq::empty())
        } else {
            p.update(p.len() - 1, p.last().push(s.last()))
        }
    }
}

/// The text of a sequence of lines, joined by line feeds.
pub open spec fn text_of(ls: Seq<Seq<char>>) -> Seq<char>
    decreases ls.len(),
{
    if ls.len() <= 1 {
        if ls.len() == 0 { Seq::empty() } else { ls[0] }
    } else {
        text_of(ls.drop_last()) + seq!['\n'] + ls.last()
    }
}

/// An edit of a buffer's content at its caret.
#[derive(Debug, Clone, Copy, PartialEq, Eq, Structural)]
pub enum EditOp {
    /// Inserts a character before the caret; a line feed splits the line.
    Insert(char),
    /// Deletes the character before the caret; at the start of a line it
    /// joins the line to the one above.
    Backspace,
}

/// A move of a buffer's caret.
#[derive(Debug, Clone, Copy, PartialEq, Eq, Structural)]
pub enum MovementOp {
    Left,
    Right,
    Up,
    Down,
}

/// A caret lies on an existing line, at most one past its last character.
pub open spec fn caret_in(ls: Seq<Seq<char>>, c: CaretPosition) -> bool {
    c.line < ls.len() && c.col <= ls[c.line as int].len()
}

/// The smaller of two integers.
pub open spec fn min_int(a: int, b: int) -> int {
    if a <= b { a } else { b }
}

/// The lines after an edit at caret `c`.
pub open spec fn edited_lines(ls: Seq<Seq<char>>, c: CaretPosition, op: EditOp) -> Seq<Seq<char>> {
    let l = c.line as int;
    let k = c.col as int;
    match op {
        EditOp::Insert(ch) => if ch == '\n' {
            ls.update(l, ls[l].take(k)).insert(l + 1, ls[l].skip(k))
        } else {
            ls.update(l, ls[l].insert(k, ch))
        },
        EditOp::Backspace => if k > 0 {
            ls.update(l, ls[l].remove(k - 1))
        } else if l > 0 {
            ls.update(l - 1, ls[l - 1] + ls[l]).remove(l)
        } else {
            ls
        },
    }
}

/// The caret after an edit at caret `c`.
pub open spec fn edited_caret(ls: Seq<Seq<char>>, c: CaretPosition, op: EditOp) -> CaretPosition {
    let l = c.line as int;
    let k = c.col as int;
    match op {
        EditOp::Insert(ch) => if ch == '\n' {
            CaretPosition { line: (l + 1) as usize, col: 0 }
        } else {
            CaretPosition { line: c.line, col: (k + 1) as usize }
        },
        EditOp::Backspace => if k > 0 {
            CaretPosition { line: c.line, col: (k - 1) as usize }
        } else if l > 0 {
            CaretPosition { line: (l - 1) as usize, col: ls[l - 1].len() as usize }
        } else {
            c
        },
    }
}

/// The caret after a movement from caret `c`; the lines do not change.
pub open spec fn moved_caret(ls: Seq<Seq<char>>, c: CaretPosition, op: MovementOp) -> CaretPosition {
    let l = c.line as int;
    let k = c.col as int;
    match op {
        MovementOp::Left => if k > 0 {
            CaretPosition { line: c.line, col: (k - 1) as usize }
        } else if l > 0 {
            CaretPosition { line: (l - 1) as usize, col: ls[l - 1].len() as usize }
        } else {
            c
        },
        MovementOp::Right => if k < ls[l].len() {
            CaretPosition { line: c.line, col: (k + 1) as usize }
        } else if l + 1 < ls.len() {
            CaretPosition { line: (l + 1) as usize, col: 0 }
        } else {
            c
        },
        MovementOp::Up => if l > 0 {
            CaretPosition { line: (l - 1) as usize, col: min_int(k, ls[l - 1].len() as int) as usize }
        } else {
            c
        },
        MovementOp::Down => if l + 1 < ls.len() {
            CaretPosition { line: (l + 1) as usize, col: min_int(k, ls[l + 1].len() as int) as usize }
        } else {
            c
        },
    }
}

/// The lines from `first` on, at most `height` of them.
pub open spec fn visible(ls: Seq<Seq<char>>, first: int, height: int) -> Seq<Seq<char>> {
    let start = min_int(first, ls.len() as int);
    let end = min_int(first + height, ls.len() as int);
    ls.subrange(start, end)
}

/// A text held as lines, with one caret.
pub struct Buffer {
    lines: Vec<Vec<char>>,
    caret: CaretPosition,
}

impl Buffer {
    /// The lines of the text.
    pub closed spec fn text_lines(&self) -> Seq<Seq<char>> {
        self.lines@.map_values(|l: Vec<char>| l@)
    }

    /// Where the caret stands.
    pub closed spec fn caret(&self) -> CaretPosition {
        self.caret
    }

    /// The text has a line, and the caret lies on it.
    pub open spec fn wf(&self) -> bool {
        &&& self.text_lines().len() >= 1
        &&& caret_in(self.text_lines(), self.caret())
    }

    /// A buffer that holds `text`, with the caret at its start.
    pub fn from_text(text: &Vec<char>) -> (r: Buffer)
        ensures
            r.wf(),
            r.text_lines() == lines_of(text@),
            r.caret() == (CaretPosition { line: 0, col: 0 }),
    {
        let mut lines: Vec<Vec<char>> = Vec::new();
        let mut cur: Vec<char> = Vec::new();
        let mut i: usize = 0;
        while i < text.len()
            invariant
                i <= text@.len(),
                lines@.map_values(|l: Vec<char>| l@).push(cur@) == lines_of(text@.take(i as int)),
            decreases text@.len() - i,
        {
            proof {
                assert(text@.take(i as int + 1).drop_last() == text@.take(i as int));
            }
            let ch = text[i];
            if ch == '\n' {
                let done = cur;
                proof {
                    assert(lines@.push(done).map_values(|l: Vec<char>| l@)
                        == lines@.map_values(|l: Vec<char>| l@).push(done@));
                }
                lines.push(done);
                cur = Vec::new();
            } else {
                cur.push(ch);
            }
            i = i + 1;
        }
        proof {
            assert(text@.take(text@.len() as int) == text@);
        }
        let ghost before = lines@;
        lines.push(cur);
        proof {
            assert(lines@.map_values(|l: Vec<char>| l@)
                == before.map_values(|l: Vec<char>| l@).push(cur@));
        }
        Buffer { lines, caret: CaretPosition { line: 0, col: 0 } }
    }

    /// Applies an edit at the caret.
    pub fn apply_edit_op(&mut self, op: EditOp)
        requires
            old(self).wf(),
        ensures
            final(self).wf(),
            final(self).text_lines() == edited_lines(old(self).text_lines(), old(self).caret(), op),
            final(self).caret() == edited_caret(old(self).text_lines(), old(self).caret(), op),
    {
        let ghost ls = self.text_lines();
        let l = self.caret.line;
        let k = self.caret.col;
        let n = self.lines.len();
        let m = self.lines[l].len();
        match op {
            EditOp::Insert(ch) => {
                if ch == '\n' {
                    let tail = self.lines[l].split_off(k);
                    self.lines.insert(l + 1, tail);
                    self.caret = CaretPosition { line: l + 1, col: 0 };
                } else {
                    self.lines[l].insert(k, ch);
                    let grown = self.lines[l].len();
                    assert(k < grown);
                    self.caret = CaretPosition { line: l, col: k + 1 };
                }
            },
            EditOp::Backspace => {
                if k > 0 {
                    self.lines[l].remove(k - 1);
                    self.caret = CaretPosition { line: l, col: k - 1 };
                } else if l > 0 {
                    let mut cur = self.lines.remove(l);
                    let col = self.lines[l - 1].len();
                    self.lines[l - 1].append(&mut cur);
                    self.caret = CaretPosition { line: l - 1, col };
                }
            },
        }
        proof {
            assert(self.text_lines() =~= edited_lines(ls, old(self).caret(), op));
        }
    }

    /// Moves the caret; the text stays as it is.
    pub fn apply_movement_op(&mut self, op: MovementOp)
        requires
            old(self).wf(),
        ensures
            final(self).wf(),
            final(self).text_lines() == old(self).text_lines(),
            final(self).caret() == moved_caret(old(self).text_lines(), old(self).caret(), op),
    {
        let l = self.caret.line;
        let k = self.caret.col;
        let n = self.lines.len();
        match op {
            MovementOp::Left => {
                if k > 0 {
                    self.caret = CaretPosition { line: l, col: k - 1 };
                } else if l > 0 {
                    self.caret = CaretPosition { line: l - 1, col: self.lines[l - 1].len() };
                }
            },
            MovementOp::Right => {
                if k < self.lines[l].len() {
                    self.caret = CaretPosition { line: l, col: k + 1 };
                } else if l + 1 < n {
                    self.caret = CaretPosition { line: l + 1, col: 0 };
                }
            },
            MovementOp::Up => {
                if l > 0 {
                    let len = self.lines[l - 1].len();
                    self.caret = CaretPosition { line: l - 1, col: if k <= len { k } else { len } };
                }
            },
            MovementOp::Down => {
                if l + 1 < n {
                    let len = self.lines[l + 1].len();
                    self.caret = CaretPosition { line: l + 1, col: if k <= len { k } else { len } };
                }
            },
        }
    }

    /// The caret.
    pub fn caret_position(&self) -> (r: CaretPosition)
        ensures
            r == self.caret(),
    {
        self.caret
    }

    /// The whole text, its lines joined by line feeds.
    pub fn content(&self) -> (r: Vec<char>)
        requires
            self.wf(),
        ensures
            r@ == text_of(self.text_lines()),
    {
        let ghost ls = self.text_lines();
        let mut r = self.lines[0].clone();
        proof {
            assert(r@ =~= self.lines@[0]@);
            assert(ls.take(1).drop_last() =~= Seq::<Seq<char>>::empty());
            assert(text_of(ls.take(1)) == ls[0]);
        }
        let mut i: usize = 1;
        while i < self.lines.len()
            invariant
                1 <= i <= self.lines@.len(),
                ls == self.text_lines(),
                ls.len() == self.lines@.len(),
                r@ == text_of(ls.take(i as int)),
            decreases self.lines@.len() - i,
        {
            r.push('\n');
            let mut line = self.lines[i].clone();
            proof {
                assert(line@ =~= ls[i as int]);
                assert(ls.take(i as int + 1).drop_last() =~= ls.take(i as int));
            }
            r.append(&mut line);
            i = i + 1;
        }
        proof {
            assert(ls.take(ls.len() as int) =~= ls);
        }
        r
    }

    /// The lines from `first_line` on, at most `height` of them.
    pub fn visible_lines(&self, first_line: usize, height: usize) -> (r: Vec<Vec<char>>)
        ensures
            r@.map_values(|l: Vec<char>| l@) == visible(self.text_lines(), first_line as int, height as int),
    {
        let ghost ls = self.text_lines();
        let n = self.lines.len();
        let start = if first_line <= n { first_line } else { n };
        let end = if height <= n - start { start + height } else { n };
        let mut r: Vec<Vec<char>> = Vec::new();
        let mut i: usize = start;
        while i < end
            invariant
                start <= i <= end <= n,
                n == self.lines@.len(),
                ls == self.text_lines(),
                r@.map_values(|l: Vec<char>| l@) == ls.subrange(start as int, i as int),
            decreases end - i,
        {
            let line = self.lines[i].clone();
            let ghost before = r@;
            r.push(line);
            proof {
                assert(line@ =~= ls[i as int]);
                assert(r@.map_values(|l: Vec<char>| l@) =~= before.map_values(|l: Vec<char>| l@).push(line@));
                assert(ls.subrange(start as int, i as int + 1) =~= ls.subrange(start as int, i as int).push(ls[i as int]));
            }
            i = i + 1;
        }
        proof {
            assert(visible(ls, first_line as int, height as int) =~= ls.subrange(start as int, end as int));
        }
        r
    }
}

} // verus!
