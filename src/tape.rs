//! A tape that is infinite in both directions, with one head.

use vstd::prelude::*;

use crate::text::{chars_of, push_char};
use crate::transition::Direction;

verus! {

/// The mathematical picture of a tape: the stored cells (`None` is blank),
/// the head's index into them, and the offset that turns a stored index into a
/// position on the tape (`position == index + offset`).
pub struct TapeView {
    pub cells: Seq<Option<char>>,
    pub head: int,
    pub offset: int,
}

impl TapeView {
    pub open spec fn len(self) -> int {
        self.cells.len() as int
    }

    /// The head lies on a stored cell, and every position fits in an `isize`.
    pub open spec fn wf(self) -> bool {
        &&& 0 <= self.head < self.len() <= isize::MAX
        &&& -self.len() <= self.offset <= 0
    }

    /// One more cell can be stored.
    pub open spec fn has_room(self) -> bool {
        self.len() < isize::MAX
    }

    pub open spec fn read(self) -> Option<char> {
        self.cells[self.head]
    }

    pub open spec fn write(self, cell: Option<char>) -> TapeView {
        TapeView { cells: self.cells.update(self.head, cell), head: self.head, offset: self.offset }
    }

    pub open spec fn move_left(self) -> TapeView {
        if self.head == 0 {
            TapeView { cells: seq![None].add(self.cells), head: 0, offset: self.offset - 1 }
        } else {
            TapeView { cells: self.cells, head: self.head - 1, offset: self.offset }
        }
    }

    pub open spec fn move_right(self) -> TapeView {
        if self.head + 1 == self.len() {
            TapeView { cells: self.cells.push(None), head: self.head + 1, offset: self.offset }
        } else {
            TapeView { cells: self.cells, head: self.head + 1, offset: self.offset }
        }
    }

    pub open spec fn move_to(self, dir: Direction) -> TapeView {
        match dir {
            Direction::Left => self.move_left(),
            Direction::Right => self.move_right(),
            Direction::Stay => self,
        }
    }

    /// The symbol at a tape position; positions that were never stored are blank.
    pub open spec fn symbol_at(self, pos: int) -> Option<char> {
        let i = pos - self.offset;
        if 0 <= i < self.len() {
            self.cells[i]
        } else {
            None
        }
    }

    /// The tape position of the head.
    pub open spec fn head_pos(self) -> int {
        self.head + self.offset
    }

    /// Stored index where a frozen snapshot starts: the first cell before the
    /// head that holds a symbol other than `blank`, else the head.
    pub open spec fn window_start(self, blank: char) -> int {
        first_marked(self.cells, blank, 0, self.head)
    }

    /// Stored index where a frozen snapshot ends (inclusive): the last cell
    /// after the head that holds a symbol other than `blank`, else the head.
    pub open spec fn window_end(self, blank: char) -> int {
        last_marked(self.cells, blank, self.head, self.len())
    }

    /// No stored cell holds a symbol other than `blank`.
    pub open spec fn all_blank(self, blank: char) -> bool {
        forall|i: int| 0 <= i < self.len() ==> !marked(#[trigger] self.cells[i], blank)
    }

    /// The text of a snapshot: one character per cell of the window, a blank
    /// cell shown as `blank`; empty when the whole tape is blank.
    pub open spec fn frozen_text(self, blank: char) -> Seq<char> {
        if self.all_blank(blank) {
            Seq::empty()
        } else {
            self.cells.subrange(self.window_start(blank), self.window_end(blank) + 1).map_values(
                |cell: Option<char>| render(cell, blank),
            )
        }
    }
}

/// The tape that `Tape::new` builds from `s`: one cell per character, or a
/// single blank cell for the empty string, with the head on the first cell.
pub open spec fn fresh_tape(s: Seq<char>) -> TapeView {
    TapeView {
        cells: if s.len() == 0 {
            seq![None]
        } else {
            s.map_values(|c: char| Some(c))
        },
        head: 0,
        offset: 0,
    }
}

/// A cell holds a symbol other than `blank`.
pub open spec fn marked(cell: Option<char>, blank: char) -> bool {
    match cell {
        Some(c) => c != blank,
        None => false,
    }
}

/// Index of the first marked cell in `cells[lo..hi)`, or `hi` when there is none.
pub open spec fn first_marked(cells: Seq<Option<char>>, blank: char, lo: int, hi: int) -> int
    decreases hi - lo,
{
    if lo >= hi {
        hi
    } else if marked(cells[lo], blank) {
        lo
    } else {
        first_marked(cells, blank, lo + 1, hi)
    }
}

/// Index of the last marked cell in `cells(lo..hi)`, `lo` excluded, or `lo`
/// when there is none.
pub open spec fn last_marked(cells: Seq<Option<char>>, blank: char, lo: int, hi: int) -> int
    decreases hi - lo,
{
    if hi <= lo + 1 {
        lo
    } else if marked(cells[hi - 1], blank) {
        hi - 1
    } else {
        last_marked(cells, blank, lo, hi - 1)
    }
}

/// The character shown for a cell: its symbol, or `blank` for a blank cell.
pub open spec fn render(cell: Option<char>, blank: char) -> char {
    match cell {
        Some(c) => c,
        None => blank,
    }
}

proof fn lemma_first_marked(cells: Seq<Option<char>>, blank: char, lo: int, hi: int)
    requires
        0 <= lo <= hi <= cells.len(),
    ensures
        lo <= first_marked(cells, blank, lo, hi) <= hi,
        first_marked(cells, blank, lo, hi) < hi ==> marked(
            cells[first_marked(cells, blank, lo, hi)],
            blank,
        ),
        forall|i: int| lo <= i < first_marked(cells, blank, lo, hi) ==> !marked(cells[i], blank),
    decreases hi - lo,
{
    if lo < hi && !marked(cells[lo], blank) {
        lemma_first_marked(cells, blank, lo + 1, hi);
    }
}

proof fn lemma_last_marked(cells: Seq<Option<char>>, blank: char, lo: int, hi: int)
    requires
        0 <= lo < hi <= cells.len(),
    ensures
        lo <= last_marked(cells, blank, lo, hi) < hi,
        last_marked(cells, blank, lo, hi) > lo ==> marked(
            cells[last_marked(cells, blank, lo, hi)],
            blank,
        ),
        forall|i: int| last_marked(cells, blank, lo, hi) < i < hi ==> !marked(cells[i], blank),
    decreases hi - lo,
{
    if hi > lo + 1 && !marked(cells[hi - 1], blank) {
        lemma_last_marked(cells, blank, lo, hi - 1);
    }
}

/// Every marked cell of a well-formed tape lies inside its snapshot window.
pub proof fn lemma_window_covers_marks(t: TapeView, blank: char)
    requires
        t.wf(),
    ensures
        0 <= t.window_start(blank) <= t.head <= t.window_end(blank) < t.len(),
        t.window_start(blank) < t.head ==> marked(t.cells[t.window_start(blank)], blank),
        t.window_end(blank) > t.head ==> marked(t.cells[t.window_end(blank)], blank),
        forall|i: int|
            0 <= i < t.len() && marked(#[trigger] t.cells[i], blank) ==> t.window_start(blank) <= i
                <= t.window_end(blank),
{
    lemma_first_marked(t.cells, blank, 0, t.head);
    lemma_last_marked(t.cells, blank, t.head, t.len());
}

/// A fresh tape frozen with a blank character that its text does not hold
/// gives the text back, the head at 0 and the range `0..s.len()`.
pub proof fn lemma_fresh_tape_round_trip(s: Seq<char>, blank: char)
    requires
        0 < s.len() <= isize::MAX,
        !s.contains(blank),
    ensures
        fresh_tape(s).frozen_text(blank) == s,
        fresh_tape(s).head_pos() == 0,
        fresh_tape(s).window_start(blank) + fresh_tape(s).offset == 0,
        fresh_tape(s).window_end(blank) + 1 + fresh_tape(s).offset == s.len(),
{
    let t = fresh_tape(s);
    assert(marked(t.cells[s.len() - 1], blank)) by {
        assert(s[s.len() - 1] != blank);
    }
    assert(t.window_end(blank) == s.len() - 1);
    assert(!t.all_blank(blank));
    assert(t.cells.subrange(0, s.len() as int) =~= t.cells);
    assert(t.frozen_text(blank) =~= s);
}

/// Moving left from the first stored cell loses no symbol: every position
/// holds what it held, the head moves to the position before and reads
/// blank, and a snapshot taken afterwards still shows every symbol other than
/// the blank character at its position.
pub proof fn lemma_move_left_keeps_symbols(t: TapeView, blank: char)
    requires
        t.wf(),
        t.has_room(),
        t.head == 0,
    ensures
        t.move_left().wf(),
        t.move_left().head_pos() == t.head_pos() - 1,
        t.move_left().read() is None,
        forall|pos: int| #[trigger] t.move_left().symbol_at(pos) == t.symbol_at(pos),
        forall|pos: int|
            marked(#[trigger] t.symbol_at(pos), blank) ==> {
                let u = t.move_left();
                let lo = u.window_start(blank) + u.offset;
                &&& lo <= pos < u.window_end(blank) + 1 + u.offset
                &&& u.frozen_text(blank)[pos - lo] == t.symbol_at(pos)->0
            },
{
    let u = t.move_left();
    lemma_window_covers_marks(u, blank);
    assert forall|pos: int| #[trigger] u.symbol_at(pos) == t.symbol_at(pos) by {
        let i = pos - u.offset;
        if 0 <= i < u.len() && i > 0 {
            assert(u.cells[i] == t.cells[i - 1]);
        }
    }
    assert forall|pos: int| marked(#[trigger] t.symbol_at(pos), blank) implies {
        let lo = u.window_start(blank) + u.offset;
        &&& lo <= pos < u.window_end(blank) + 1 + u.offset
        &&& u.frozen_text(blank)[pos - lo] == t.symbol_at(pos)->0
    } by {
        let i = pos - u.offset;
        assert(u.symbol_at(pos) == t.symbol_at(pos));
        assert(0 <= i < u.len());
        assert(marked(u.cells[i], blank));
        assert(!u.all_blank(blank));
        let w = u.cells.subrange(u.window_start(blank), u.window_end(blank) + 1);
        assert(w[i - u.window_start(blank)] == u.cells[i]);
    }
}

/// A snapshot of a tape: its visible symbols, the head's position and the
/// half-open range of positions that the snapshot window covers.
#[derive(Debug)]
pub struct FrozenTape {
    pub tape: String,
    pub head: isize,
    pub range: std::ops::Range<isize>,
}

impl Clone for FrozenTape {
    fn clone(&self) -> (r: FrozenTape)
        ensures
            r.tape@ == self.tape@,
            r.head == self.head,
            r.range == self.range,
    {
        FrozenTape {
            tape: self.tape.clone(),
            head: self.head,
            range: std::ops::Range { start: self.range.start, end: self.range.end },
        }
    }
}

impl FrozenTape {
    /// `self` is the snapshot of `t` with `blank` as the blank character.
    pub open spec fn is_snapshot_of(self, t: TapeView, blank: char) -> bool {
        &&& self.tape@ == t.frozen_text(blank)
        &&& self.head == t.head_pos()
        &&& self.range.start == t.window_start(blank) + t.offset
        &&& self.range.end == t.window_end(blank) + 1 + t.offset
    }
}

/// A tape that is infinite in both directions. Cells left of the first
/// stored cell are kept in `left`, nearest first, so that growing on either
/// side is an amortized constant-time push.
#[derive(Debug, Clone)]
pub struct Tape {
    left: Vec<Option<char>>,
    right: Vec<Option<char>>,
    head: usize,
}

impl View for Tape {
    type V = TapeView;

    closed spec fn view(&self) -> TapeView {
        TapeView {
            cells: Seq::new(
                (self.left@.len() + self.right@.len()) as nat,
                |i: int| self.stored(i),
            ),
            head: self.head as int,
            offset: -(self.left@.len() as int),
        }
    }
}

impl Tape {
    spec fn stored(&self, i: int) -> Option<char> {
        if i < self.left@.len() {
            self.left@[self.left@.len() - 1 - i]
        } else {
            self.right@[i - self.left@.len()]
        }
    }

    /// A tape that holds `s` from position 0 on, with the head on position 0.
    /// The empty string gives one blank cell.
    pub fn new(s: &str) -> (r: Tape)
        requires
            s@.len() <= isize::MAX,
        ensures
            r@ == fresh_tape(s@),
            r@.wf(),
    {
        let chars = chars_of(s);
        let mut right: Vec<Option<char>> = Vec::new();
        let mut i: usize = 0;
        while i < chars.len()
            invariant
                i <= chars@.len(),
                chars@ == s@,
                right@ == chars@.subrange(0, i as int).map_values(|c: char| Some(c)),
            decreases chars@.len() - i,
        {
            right.push(Some(chars[i]));
            i += 1;
            assert(right@ =~= chars@.subrange(0, i as int).map_values(|c: char| Some(c)));
        }
        if right.len() == 0 {
            right.push(None);
        }
        let r = Tape { left: Vec::new(), right, head: 0 };
        assert(r@.cells =~= fresh_tape(s@).cells);
        r
    }

    /// Number of stored cells.
    pub fn len(&self) -> (r: usize)
        requires
            self@.wf(),
        ensures
            r == self@.len(),
    {
        self.left.len() + self.right.len()
    }

    /// Whether one more cell can be stored, as a move requires.
    pub fn has_room(&self) -> (r: bool)
        requires
            self@.wf(),
        ensures
            r == self@.has_room(),
    {
        self.len() < isize::MAX as usize
    }

    /// Stored index of the head.
    pub fn head(&self) -> (r: usize)
        ensures
            r == self@.head,
    {
        self.head
    }

    /// Offset from a stored index to a tape position.
    pub fn offset(&self) -> (r: isize)
        requires
            self@.wf(),
        ensures
            r == self@.offset,
    {
        0 - self.left.len() as isize
    }

    /// The stored cell at index `i`.
    pub fn cell(&self, i: usize) -> (r: Option<char>)
        requires
            self@.wf(),
            i < self@.len(),
        ensures
            r == self@.cells[i as int],
    {
        if i < self.left.len() {
            self.left[self.left.len() - 1 - i]
        } else {
            self.right[i - self.left.len()]
        }
    }

    /// The symbol under the head; `None` is blank.
    pub fn read(&self) -> (r: Option<char>)
        requires
            self@.wf(),
        ensures
            r == self@.read(),
    {
        self.cell(self.head)
    }

    fn put(&mut self, cell: Option<char>)
        requires
            old(self)@.wf(),
        ensures
            final(self)@ == old(self)@.write(cell),
    {
        if self.head < self.left.len() {
            let i = self.left.len() - 1 - self.head;
            self.left.set(i, cell);
        } else {
            let i = self.head - self.left.len();
            self.right.set(i, cell);
        }
        assert(self@.cells =~= old(self)@.write(cell).cells);
    }

    /// Writes `c` under the head.
    pub fn write(&mut self, c: char)
        requires
            old(self)@.wf(),
        ensures
            final(self)@ == old(self)@.write(Some(c)),
            final(self)@.wf(),
    {
        self.put(Some(c));
    }

    /// Makes the cell under the head blank; nothing is removed.
    pub fn write_blank(&mut self)
        requires
            old(self)@.wf(),
        ensures
            final(self)@ == old(self)@.write(None),
            final(self)@.wf(),
    {
        self.put(None);
    }

    /// Moves the head one cell left, storing a new blank cell at the left
    /// end when the head is already on the first stored cell.
    pub fn move_left(&mut self)
        requires
            old(self)@.wf(),
            old(self)@.has_room(),
        ensures
            final(self)@ == old(self)@.move_left(),
            final(self)@.wf(),
    {
        if self.head == 0 {
            self.left.push(None);
            assert(self@.cells =~= old(self)@.move_left().cells);
        } else {
            self.head = self.head - 1;
            assert(self@.cells =~= old(self)@.cells);
        }
    }

    /// Moves the head one cell right, storing a new blank cell at the right
    /// end when the head is on the last stored cell.
    pub fn move_right(&mut self)
        requires
            old(self)@.wf(),
            old(self)@.has_room(),
        ensures
            final(self)@ == old(self)@.move_right(),
            final(self)@.wf(),
    {
        if self.head == self.left.len() + self.right.len() - 1 {
            self.right.push(None);
            self.head = self.head + 1;
            assert(self@.cells =~= old(self)@.move_right().cells);
        } else {
            self.head = self.head + 1;
            assert(self@.cells =~= old(self)@.cells);
        }
    }

    /// Moves the head in the given direction; `Stay` leaves it where it is.
    pub fn move_to(&mut self, dir: Direction)
        requires
            old(self)@.wf(),
            old(self)@.has_room(),
        ensures
            final(self)@ == old(self)@.move_to(dir),
            final(self)@.wf(),
    {
        match dir {
            Direction::Left => self.move_left(),
            Direction::Right => self.move_right(),
            Direction::Stay => {},
        }
    }

    /// A snapshot of the tape, with `empty` as the blank character: the cells
    /// from the first marked cell before the head to the last marked cell
    /// after it (the head's cell always included), one character each, a
    /// blank cell shown as `empty`. A tape with no marked cell gives an
    /// empty text.
    pub fn freeze(&self, empty: char) -> (r: FrozenTape)
        requires
            self@.wf(),
        ensures
            r.is_snapshot_of(self@, empty),
    {
        let ghost t = self@;
        let len = self.len();
        proof {
            lemma_window_covers_marks(t, empty);
        }
        let mut start: usize = 0;
        while start < self.head && !is_marked(self.cell(start), empty)
            invariant
                self@ == t,
                t.wf(),
                len == t.len(),
                start <= self.head,
                first_marked(t.cells, empty, start as int, t.head) == t.window_start(empty),
            decreases self.head - start,
        {
            start = start + 1;
        }
        let mut end: usize = len - 1;
        while end > self.head && !is_marked(self.cell(end), empty)
            invariant
                self@ == t,
                t.wf(),
                len == t.len(),
                self.head <= end < len,
                last_marked(t.cells, empty, t.head, end + 1) == t.window_end(empty),
            decreases end - self.head,
        {
            end = end - 1;
        }
        let nothing = start == self.head && end == self.head && !is_marked(
            self.cell(self.head),
            empty,
        );
        assert(nothing <==> t.all_blank(empty)) by {
            if !nothing {
                if start < self.head {
                    assert(marked(t.cells[start as int], empty));
                } else if end > self.head {
                    assert(marked(t.cells[end as int], empty));
                } else {
                    assert(marked(t.cells[t.head], empty));
                }
            }
        }
        let mut text = String::new();
        if !nothing {
            let mut i: usize = start;
            while i <= end
                invariant
                    self@ == t,
                    t.wf(),
                    start == t.window_start(empty),
                    end == t.window_end(empty),
                    start <= i <= end + 1,
                    end < t.len(),
                    text@ == t.cells.subrange(start as int, i as int).map_values(
                        |cell: Option<char>| render(cell, empty),
                    ),
                decreases end + 1 - i,
            {
                let c = match self.cell(i) {
                    Some(c) => c,
                    None => empty,
                };
                push_char(&mut text, c);
                i = i + 1;
                assert(text@ =~= t.cells.subrange(start as int, i as int).map_values(
                    |cell: Option<char>| render(cell, empty),
                ));
            }
        }
        let offset = self.offset();
        FrozenTape {
            tape: text,
            head: self.head as isize + offset,
            range: std::ops::Range { start: start as isize + offset, end: end as isize + 1 + offset },
        }
    }
}

/// Executable form of `marked`.
fn is_marked(cell: Option<char>, blank: char) -> (r: bool)
    ensures
        r == marked(cell, blank),
{
    match cell {
        Some(c) => c != blank,
        None => false,
    }
}

} // verus!
