//! The program's input: bytes fixed at construction, read front to back.

use crate::tape::copy_bytes;
use vstd::prelude::*;

verus! {

/// A read-only byte sequence with the position of the next byte to read.
pub struct InputCursor {
    bytes: Vec<u8>,
    position: usize,
}

impl InputCursor {
    /// The bytes that the cursor was made with.
    pub closed spec fn bytes(&self) -> Seq<u8> {
        self.bytes@
    }

    /// The number of bytes read so far.
    pub closed spec fn position(&self) -> nat {
        self.position as nat
    }

    /// The position never passes the end of the bytes.
    pub open spec fn wf(&self) -> bool {
        self.position() <= self.bytes().len()
    }

    /// A cursor at the start of `bytes`.
    pub fn new(bytes: Vec<u8>) -> (cursor: InputCursor)
        ensures
            cursor.bytes() == bytes@,
            cursor.position() == 0,
            cursor.wf(),
    {
        InputCursor { bytes, position: 0 }
    }

    /// The number of bytes read so far; the length of the input once it is
    /// exhausted.
    pub fn consumed(&self) -> (position: usize)
        ensures
            position == self.position(),
    {
        self.position
    }

    /// The length of the whole input.
    pub fn len(&self) -> (n: usize)
        ensures
            n == self.bytes().len(),
    {
        self.bytes.len()
    }

    /// A copy of the whole input.
    pub fn contents(&self) -> (bytes: Vec<u8>)
        ensures
            bytes@ == self.bytes(),
    {
        copy_bytes(&self.bytes)
    }

    /// Reads the next byte and steps past it. Once every byte has been read
    /// it returns `None` and the position stays at the end.
    pub fn read(&mut self) -> (byte: Option<u8>)
        requires
            old(self).wf(),
        ensures
            final(self).wf(),
            final(self).bytes() == old(self).bytes(),
            byte == next_byte(old(self).bytes(), old(self).position()),
            final(self).position() == position_after_read(
                old(self).bytes(),
                old(self).position(),
            ),
    {
        if self.position < self.bytes.len() {
            let byte: u8 = self.bytes[self.position];
            self.position = self.position + 1;
            Some(byte)
        } else {
            None
        }
    }
}

/// The byte that a read at `position` gives, if any is left.
pub open spec fn next_byte(bytes: Seq<u8>, position: nat) -> Option<u8> {
    if position < bytes.len() {
        Some(bytes[position as int])
    } else {
        None
    }
}

/// The position after a read at `position`: one further, but never past
/// the end.
pub open spec fn position_after_read(bytes: Seq<u8>, position: nat) -> nat {
    if position < bytes.len() {
        position + 1
    } else {
        position
    }
}

} // verus!
