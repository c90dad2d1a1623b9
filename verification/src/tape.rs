//! The memory tape: byte cells that grow to the right, and a cursor.

use vstd::prelude::*;

verus! {

/// The tape as a value: its cells and the index of the active cell.
pub ghost struct TapeView {
    pub cells: Seq<u8>,
    pub cursor: nat,
}

impl TapeView {
    /// The tape at the start of a run: one zero cell, selected.
    pub open spec fn fresh() -> TapeView {
        TapeView { cells: seq![0u8], cursor: 0 }
    }

    /// The cursor selects a cell of the tape.
    pub open spec fn wf(self) -> bool {
        self.cursor < self.cells.len()
    }

    /// The value of the active cell.
    pub open spec fn active(self) -> u8 {
        self.cells[self.cursor as int]
    }

    /// The cursor one cell further right; a zero cell is appended where the
    /// tape ended at the cursor.
    pub open spec fn right(self) -> TapeView {
        TapeView {
            cells: if self.cursor + 1 >= self.cells.len() {
                self.cells.push(0u8)
            } else {
                self.cells
            },
            cursor: self.cursor + 1,
        }
    }

    /// The cursor one cell further left. Meant for a cursor that is not 0.
    pub open spec fn left(self) -> TapeView {
        TapeView { cells: self.cells, cursor: (self.cursor - 1) as nat }
    }

    /// The active cell set to `value`.
    pub open spec fn write(self, value: u8) -> TapeView {
        TapeView { cells: self.cells.update(self.cursor as int, value), cursor: self.cursor }
    }
}

/// The successor of a cell value: 255 is followed by 0.
pub open spec fn next_value(value: u8) -> u8 {
    if value == 255 {
        0
    } else {
        (value + 1) as u8
    }
}

/// The predecessor of a cell value: 0 is preceded by 255.
pub open spec fn previous_value(value: u8) -> u8 {
    if value == 0 {
        255
    } else {
        (value - 1) as u8
    }
}

/// The successor and the predecessor are the sum and the difference modulo 256.
pub proof fn cell_arithmetic_wraps(value: u8)
    ensures
        next_value(value) == (value + 1) % 256,
        previous_value(value) == (value - 1) % 256,
        previous_value(next_value(value)) == value,
        next_value(previous_value(value)) == value,
{
}

/// A growable tape of byte cells with a cursor on the active cell.
pub struct Tape {
    cells: Vec<u8>,
    cursor: usize,
}

impl View for Tape {
    type V = TapeView;

    closed spec fn view(&self) -> TapeView {
        TapeView { cells: self.cells@, cursor: self.cursor as nat }
    }
}

impl Tape {
    /// A tape of one zero cell, with the cursor on it.
    pub fn new() -> (tape: Tape)
        ensures
            tape@ == TapeView::fresh(),
            tape@.wf(),
    {
        let mut cells: Vec<u8> = Vec::new();
        cells.push(0u8);
        Tape { cells, cursor: 0 }
    }

    /// The index of the active cell.
    pub fn cursor(&self) -> (cursor: usize)
        ensures
            cursor == self@.cursor,
    {
        self.cursor
    }

    /// The number of cells.
    pub fn len(&self) -> (n: usize)
        ensures
            n == self@.cells.len(),
    {
        self.cells.len()
    }

    /// The value of the active cell.
    pub fn get(&self) -> (value: u8)
        requires
            self@.wf(),
        ensures
            value == self@.active(),
    {
        self.cells[self.cursor]
    }

    /// Sets the active cell.
    pub fn set(&mut self, value: u8)
        requires
            old(self)@.wf(),
        ensures
            final(self)@ == old(self)@.write(value),
            final(self)@.wf(),
    {
        self.cells.set(self.cursor, value);
    }

    /// Moves the cursor one cell to the right and grows the tape by a zero
    /// cell where the cursor would leave it.
    pub fn move_right(&mut self)
        requires
            old(self)@.wf(),
            old(self)@.cursor < usize::MAX,
        ensures
            final(self)@ == old(self)@.right(),
            final(self)@.wf(),
    {
        self.cursor = self.cursor + 1;
        if self.cursor >= self.cells.len() {
            self.cells.push(0u8);
        }
    }

    /// Moves the cursor one cell to the left, or leaves the tape as it is and
    /// returns `false` where the cursor is on the first cell.
    pub fn move_left(&mut self) -> (moved: bool)
        requires
            old(self)@.wf(),
        ensures
            moved == (old(self)@.cursor > 0),
            moved ==> final(self)@ == old(self)@.left(),
            !moved ==> final(self)@ == old(self)@,
            final(self)@.wf(),
    {
        if self.cursor == 0 {
            false
        } else {
            self.cursor = self.cursor - 1;
            true
        }
    }

    /// Adds one to the active cell, from 255 to 0.
    pub fn increment(&mut self)
        requires
            old(self)@.wf(),
        ensures
            final(self)@ == old(self)@.write(next_value(old(self)@.active())),
            final(self)@.wf(),
    {
        let value: u8 = self.cells[self.cursor];
        self.cells.set(self.cursor, value.wrapping_add(1));
    }

    /// Takes one from the active cell, from 0 to 255.
    pub fn decrement(&mut self)
        requires
            old(self)@.wf(),
        ensures
            final(self)@ == old(self)@.write(previous_value(old(self)@.active())),
            final(self)@.wf(),
    {
        let value: u8 = self.cells[self.cursor];
        self.cells.set(self.cursor, value.wrapping_sub(1));
    }

    /// A copy of the cells, which shares nothing with the tape.
    pub fn contents(&self) -> (cells: Vec<u8>)
        ensures
            cells@ == self@.cells,
    {
        copy_bytes(&self.cells)
    }
}

/// A copy of `bytes` in a vector of its own.
pub fn copy_bytes(bytes: &Vec<u8>) -> (copy: Vec<u8>)
    ensures
        copy@ == bytes@,
{
    let mut copy: Vec<u8> = Vec::with_capacity(bytes.len());
    let mut i: usize = 0;
    while i < bytes.len()
        invariant
            0 <= i <= bytes.len(),
            copy@ == bytes@.take(i as int),
        decreases bytes.len() - i,
    {
        copy.push(bytes[i]);
        proof {
            assert(copy@ =~= bytes@.take(i + 1));
        }
        i += 1;
    }
    proof {
        assert(bytes@.take(i as int) =~= bytes@);
    }
    copy
}

/// A value written one cell to the right is still there after the cursor has
/// come back: growing the tape and moving on it change no other cell, and the
/// tape keeps the length that it grew to.
pub proof fn written_value_survives_return(tape: TapeView, value: u8)
    requires
        tape.wf(),
    ensures
        ({
            let back = tape.right().write(value).left();
            &&& back.wf()
            &&& back.cursor == tape.cursor
            &&& back.cells.len() == tape.right().cells.len()
            &&& back.cells.len() >= tape.cells.len()
            &&& back.cells[tape.cursor as int + 1] == value
            &&& back.right().active() == value
            &&& back.right().cells == back.cells
            &&& forall|i: int|
                0 <= i < tape.cells.len() && i != tape.cursor + 1 ==> back.cells[i]
                    == tape.cells[i]
        }),
{
}

/// No tape operation drops a cell.
pub proof fn tape_never_shrinks(tape: TapeView, value: u8)
    requires
        tape.wf(),
    ensures
        tape.right().cells.len() >= tape.cells.len(),
        tape.left().cells.len() == tape.cells.len(),
        tape.write(value).cells.len() == tape.cells.len(),
{
}

} // verus!
