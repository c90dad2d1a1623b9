//! What it means for the brackets of a program to be balanced and paired.
//!
//! Everything here is stated over the nesting depth of a prefix: the number
//! of loop starts in it, less the number of loop ends.

use vstd::prelude::*;

verus! {

/// One position of a program's text.
#[derive(Clone, Copy, Debug, PartialEq, Eq, Structural)]
pub enum Instruction {
    /// `>`
    MoveRight,
    /// `<`
    MoveLeft,
    /// `+`
    Increment,
    /// `-`
    Decrement,
    /// `.`
    Output,
    /// `,`
    Input,
    /// `[`
    LoopStart,
    /// `]`
    LoopEnd,
    /// Any other byte: it is stepped over and changes nothing.
    Comment,
}

/// The instruction that a byte of program text stands for.
pub open spec fn decode(byte: u8) -> Instruction {
    if byte == 0x3E {
        Instruction::MoveRight
    } else if byte == 0x3C {
        Instruction::MoveLeft
    } else if byte == 0x2B {
        Instruction::Increment
    } else if byte == 0x2D {
        Instruction::Decrement
    } else if byte == 0x2E {
        Instruction::Output
    } else if byte == 0x2C {
        Instruction::Input
    } else if byte == 0x5B {
        Instruction::LoopStart
    } else if byte == 0x5D {
        Instruction::LoopEnd
    } else {
        Instruction::Comment
    }
}

/// The instructions that a whole text stands for, position by position.
pub open spec fn decode_all(text: Seq<u8>) -> Seq<Instruction> {
    Seq::new(text.len(), |i: int| decode(text[i]))
}

impl Instruction {
    /// Reads one byte of program text.
    pub fn from_byte(byte: u8) -> (instruction: Instruction)
        ensures
            instruction == decode(byte),
    {
        if byte == 0x3E {
            Instruction::MoveRight
        } else if byte == 0x3C {
            Instruction::MoveLeft
        } else if byte == 0x2B {
            Instruction::Increment
        } else if byte == 0x2D {
            Instruction::Decrement
        } else if byte == 0x2E {
            Instruction::Output
        } else if byte == 0x2C {
            Instruction::Input
        } else if byte == 0x5B {
            Instruction::LoopStart
        } else if byte == 0x5D {
            Instruction::LoopEnd
        } else {
            Instruction::Comment
        }
    }
}

/// What one instruction adds to the nesting depth.
pub open spec fn weight(instruction: Instruction) -> int {
    match instruction {
        Instruction::LoopStart => 1,
        Instruction::LoopEnd => -1,
        _ => 0,
    }
}

/// The nesting depth after the first `n` instructions.
pub open spec fn depth(code: Seq<Instruction>, n: int) -> int
    decreases n,
{
    if n <= 0 {
        0
    } else {
        depth(code, n - 1) + weight(code[n - 1])
    }
}

/// No prefix of the first `n` instructions closes more loops than it opened.
pub open spec fn never_negative(code: Seq<Instruction>, n: int) -> bool {
    forall|m: int| 0 <= m <= n ==> depth(code, m) >= 0
}

/// Every bracket has a partner: no prefix closes more loops than it opened,
/// and the whole text closes as many as it opened.
pub open spec fn balanced(code: Seq<Instruction>) -> bool {
    never_negative(code, code.len() as int) && depth(code, code.len() as int) == 0
}

/// The loop opened at `open` is still open after the first `n` instructions.
pub open spec fn pending(code: Seq<Instruction>, open: int, n: int) -> bool {
    forall|m: int| open < m <= n ==> depth(code, m) > depth(code, open)
}

/// The loop end at `close` is the partner of the loop start at `open`: it is
/// the first position after `open` that brings the depth back to what it was.
pub open spec fn paired(code: Seq<Instruction>, open: int, close: int) -> bool {
    &&& 0 <= open < close < code.len()
    &&& code[open] == Instruction::LoopStart
    &&& code[close] == Instruction::LoopEnd
    &&& pending(code, open, close)
    &&& depth(code, close + 1) == depth(code, open)
}

/// The loop end at `close` is the first that has no loop start to close.
pub open spec fn first_stray_close(code: Seq<Instruction>, close: int) -> bool {
    &&& 0 <= close < code.len()
    &&& never_negative(code, close)
    &&& depth(code, close + 1) < 0
}

/// The loop start at `open` is the last that is never closed.
pub open spec fn last_unclosed_open(code: Seq<Instruction>, open: int) -> bool {
    &&& 0 <= open < code.len()
    &&& code[open] == Instruction::LoopStart
    &&& pending(code, open, code.len() as int)
    &&& forall|later: int|
        open < later < code.len() && code[later] == Instruction::LoopStart ==> !pending(
            code,
            later,
            code.len() as int,
        )
}

/// A loop start has at most one partner.
pub proof fn paired_close_is_unique(code: Seq<Instruction>, open: int, a: int, b: int)
    requires
        paired(code, open, a),
        paired(code, open, b),
    ensures
        a == b,
{
    if a < b {
        assert(depth(code, a + 1) > depth(code, open));
    } else if b < a {
        assert(depth(code, b + 1) > depth(code, open));
    }
}

/// A loop end has at most one partner.
pub proof fn paired_open_is_unique(code: Seq<Instruction>, a: int, b: int, close: int)
    requires
        paired(code, a, close),
        paired(code, b, close),
    ensures
        a == b,
{
    if a < b {
        // `b` lies inside the loop opened at `a`, so it is deeper than `a`.
        assert(depth(code, b) > depth(code, a));
    } else if b < a {
        assert(depth(code, a) > depth(code, b));
    }
}

/// The bracket at `position`, if it is one, has a partner.
pub open spec fn has_partner(code: Seq<Instruction>, position: int) -> bool {
    match code[position] {
        Instruction::LoopStart => exists|close: int| paired(code, position, close),
        Instruction::LoopEnd => exists|open: int| paired(code, open, position),
        _ => true,
    }
}

/// Every bracket of the text has a partner.
pub open spec fn every_bracket_paired(code: Seq<Instruction>) -> bool {
    forall|position: int| 0 <= position < code.len() ==> has_partner(code, position)
}

/// A loop that is still open after `n` instructions, in a text that ends no
/// deeper than the loop began, is closed at `n` or behind it.
proof fn close_exists(code: Seq<Instruction>, open: int, n: int)
    requires
        0 <= open < n <= code.len(),
        code[open] == Instruction::LoopStart,
        pending(code, open, n),
        depth(code, code.len() as int) <= depth(code, open),
    ensures
        exists|close: int| paired(code, open, close),
    decreases code.len() - n,
{
    if n < code.len() {
        assert(depth(code, n + 1) == depth(code, n) + weight(code[n]));
        if depth(code, n + 1) > depth(code, open) {
            close_exists(code, open, n + 1);
        } else {
            assert(paired(code, open, n));
        }
    }
}

/// A loop end that leaves the depth at zero or above closes a loop start
/// before `m`, where every prefix from `m` to the loop end is deeper than the
/// text is behind it.
proof fn open_exists(code: Seq<Instruction>, close: int, m: int)
    requires
        0 <= m <= close < code.len(),
        code[close] == Instruction::LoopEnd,
        depth(code, close + 1) >= 0,
        forall|k: int| m <= k <= close ==> #[trigger] depth(code, k) > depth(code, close + 1),
    ensures
        exists|open: int| paired(code, open, close),
    decreases m,
{
    assert(depth(code, 0) == 0);
    assert(m > 0);
    assert(depth(code, m) == depth(code, m - 1) + weight(code[m - 1]));
    if depth(code, m - 1) > depth(code, close + 1) {
        open_exists(code, close, m - 1);
    } else {
        assert(paired(code, m - 1, close));
    }
}

/// Where some prefix closes more loops than it opened, some loop end is the
/// first to close nothing.
proof fn stray_close_exists(code: Seq<Instruction>, n: int)
    requires
        0 <= n <= code.len(),
        depth(code, n) < 0,
    ensures
        exists|close: int| first_stray_close(code, close),
    decreases n,
{
    assert(depth(code, 0) == 0);
    if never_negative(code, n - 1) {
        assert(first_stray_close(code, n - 1));
    } else {
        let m = choose|m: int| 0 <= m <= n - 1 && depth(code, m) < 0;
        stray_close_exists(code, m);
    }
}

/// Where the text ends deeper than it began, some loop start before `m` is
/// the last that is never closed, given that no prefix from `m` on is
/// shallower than the whole text.
proof fn unclosed_open_exists(code: Seq<Instruction>, m: int)
    requires
        0 <= m <= code.len(),
        depth(code, code.len() as int) > 0,
        forall|k: int|
            m <= k <= code.len() ==> #[trigger] depth(code, k) >= depth(code, code.len() as int),
    ensures
        exists|open: int| last_unclosed_open(code, open),
    decreases m,
{
    assert(depth(code, 0) == 0);
    assert(m > 0);
    assert(depth(code, m) == depth(code, m - 1) + weight(code[m - 1]));
    if depth(code, m - 1) >= depth(code, code.len() as int) {
        unclosed_open_exists(code, m - 1);
    } else {
        assert(last_unclosed_open(code, m - 1));
    }
}

/// The first loop end that closes nothing is a loop end without a partner.
pub proof fn stray_close_has_no_partner(code: Seq<Instruction>, close: int)
    requires
        first_stray_close(code, close),
    ensures
        code[close] == Instruction::LoopEnd,
        !has_partner(code, close),
{
    assert(depth(code, close + 1) == depth(code, close) + weight(code[close]));
    assert(depth(code, close) >= 0);
    assert forall|open: int| !paired(code, open, close) by {
        if paired(code, open, close) {
            assert(depth(code, open) >= 0);
        }
    }
}

/// A loop start that is never closed is a loop start without a partner.
pub proof fn unclosed_open_has_no_partner(code: Seq<Instruction>, open: int)
    requires
        last_unclosed_open(code, open),
    ensures
        code[open] == Instruction::LoopStart,
        !has_partner(code, open),
{
    assert forall|close: int| !paired(code, open, close) by {
        if paired(code, open, close) {
            assert(depth(code, close + 1) > depth(code, open));
        }
    }
}

/// A text that is not balanced has a bracket to blame: a first loop end that
/// closes nothing, or, where there is none, a last loop start left open.
pub proof fn unbalanced_has_culprit(code: Seq<Instruction>)
    requires
        !balanced(code),
    ensures
        (exists|close: int| first_stray_close(code, close)) || (never_negative(
            code,
            code.len() as int,
        ) && exists|open: int| last_unclosed_open(code, open)),
{
    if never_negative(code, code.len() as int) {
        unclosed_open_exists(code, code.len() as int);
    } else {
        let n = choose|n: int| 0 <= n <= code.len() && depth(code, n) < 0;
        stray_close_exists(code, n);
    }
}

/// The brackets of a text are balanced exactly when each of them has a
/// partner.
pub proof fn balanced_iff_every_bracket_paired(code: Seq<Instruction>)
    ensures
        balanced(code) <==> every_bracket_paired(code),
{
    if balanced(code) {
        assert forall|position: int| 0 <= position < code.len() implies has_partner(
            code,
            position,
        ) by {
            assert(depth(code, position + 1) == depth(code, position) + weight(code[position]));
            assert(depth(code, position) >= 0);
            assert(depth(code, position + 1) >= 0);
            if code[position] == Instruction::LoopStart {
                close_exists(code, position, position + 1);
            } else if code[position] == Instruction::LoopEnd {
                open_exists(code, position, position);
            }
        }
    } else {
        unbalanced_has_culprit(code);
        if exists|close: int| first_stray_close(code, close) {
            let close = choose|close: int| first_stray_close(code, close);
            stray_close_has_no_partner(code, close);
        } else {
            let open = choose|open: int| last_unclosed_open(code, open);
            unclosed_open_has_no_partner(code, open);
        }
    }
}

} // verus!
