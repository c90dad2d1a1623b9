//! A loaded program: its instructions and the partner of every bracket.

use crate::bracket::{
    balanced, decode_all, depth, first_stray_close, last_unclosed_open, never_negative, paired,
    pending, weight, Instruction,
};
use vstd::prelude::*;
use vstd::string::StringSliceAdditionalSpecFns;

verus! {

/// Why a text is no program.
#[derive(Clone, Copy, Debug, PartialEq, Eq, Structural)]
pub enum SyntaxError {
    /// The loop start at `position` is never closed.
    UnmatchedOpen { position: usize },
    /// The loop end at `position` closes nothing.
    UnmatchedClose { position: usize },
}

/// A validated instruction sequence with its table of bracket partners.
pub struct Program {
    code: Vec<Instruction>,
    partner: Vec<usize>,
}

impl View for Program {
    type V = Seq<Instruction>;

    closed spec fn view(&self) -> Seq<Instruction> {
        self.code@
    }
}

impl Program {
    /// The partner table: at a bracket's position, the position of its partner.
    pub closed spec fn partners(&self) -> Seq<usize> {
        self.partner@
    }

    /// The brackets are balanced and the table pairs each with its partner.
    pub open spec fn wf(&self) -> bool {
        &&& balanced(self@)
        &&& self.partners().len() == self@.len()
        &&& forall|i: int|
            0 <= i < self@.len() && self@[i] == Instruction::LoopStart ==> paired(
                self@,
                i,
                #[trigger] self.partners()[i] as int,
            )
        &&& forall|i: int|
            0 <= i < self@.len() && self@[i] == Instruction::LoopEnd ==> paired(
                self@,
                #[trigger] self.partners()[i] as int,
                i,
            )
    }

    /// Loads a program from its text, one instruction per byte.
    pub fn load(text: &str) -> (loaded: Result<Program, SyntaxError>)
        ensures
            loaded is Ok <==> balanced(decode_all(text.spec_bytes())),
            load_outcome(text.spec_bytes(), loaded),
    {
        Program::from_bytes(text.as_bytes())
    }

    /// Loads a program from the bytes of its text.
    ///
    /// The text is scanned once from the left with a stack of the loop starts
    /// that are still open. It is a program exactly when its brackets are
    /// balanced; otherwise the error names the first loop end that closes
    /// nothing, or, where there is none, the last loop start left open.
    pub fn from_bytes(text: &[u8]) -> (loaded: Result<Program, SyntaxError>)
        ensures
            loaded is Ok <==> balanced(decode_all(text@)),
            load_outcome(text@, loaded),
    {
        let ghost all = decode_all(text@);
        let mut code: Vec<Instruction> = Vec::new();
        let mut partner: Vec<usize> = Vec::new();
        let mut open: Vec<usize> = Vec::new();
        let mut n: usize = 0;
        while n < text.len()
            invariant
                all == decode_all(text@),
                0 <= n <= text.len(),
                code@ == all.take(n as int),
                partner.len() == n,
                never_negative(all, n as int),
                open.len() == depth(all, n as int),
                forall|k: int|
                    0 <= k < open.len() ==> {
                        &&& (#[trigger] open[k]) < n
                        &&& all[open[k] as int] == Instruction::LoopStart
                        &&& depth(all, open[k] as int) == k
                        &&& pending(all, open[k] as int, n as int)
                    },
                forall|j: int, k: int| 0 <= j < k < open.len() ==> open[j] < open[k],
                forall|i: int|
                    0 <= i < n && #[trigger] all[i] == Instruction::LoopStart && pending(
                        all,
                        i,
                        n as int,
                    ) ==> 0 <= depth(all, i) < open.len() && open[depth(all, i)] == i,
                forall|i: int|
                    0 <= i < n && #[trigger] all[i] == Instruction::LoopStart && !pending(
                        all,
                        i,
                        n as int,
                    ) ==> paired(all, i, partner[i] as int),
                forall|i: int|
                    0 <= i < n && #[trigger] all[i] == Instruction::LoopEnd ==> paired(
                        all,
                        partner[i] as int,
                        i,
                    ),
            decreases text.len() - n,
        {
            let instruction = Instruction::from_byte(text[n]);
            assert(instruction == all[n as int]);
            assert(depth(all, n + 1) == depth(all, n as int) + weight(instruction));
            match instruction {
                Instruction::LoopStart => {
                    open.push(n);
                    partner.push(n);
                },
                Instruction::LoopEnd => {
                    if open.len() == 0 {
                        proof {
                            assert(first_stray_close(all, n as int));
                            assert(!balanced(all));
                        }
                        return Err(SyntaxError::UnmatchedClose { position: n });
                    }
                    let start: usize = open.pop().unwrap();
                    assert(paired(all, start as int, n as int));
                    partner.set(start, n);
                    partner.push(start);
                },
                _ => {
                    partner.push(n);
                },
            }
            code.push(instruction);
            proof {
                assert(code@ =~= all.take(n + 1));
            }
            n += 1;
        }
        assert(all.take(n as int) =~= all);
        if open.len() > 0 {
            let start: usize = open[open.len() - 1];
            proof {
                assert(last_unclosed_open(all, start as int)) by {
                    assert forall|later: int|
                        start < later < all.len() && all[later]
                            == Instruction::LoopStart implies !pending(
                        all,
                        later,
                        all.len() as int,
                    ) by {
                        if pending(all, later, all.len() as int) {
                            assert(open[depth(all, later)] == later);
                        }
                    }
                }
                assert(!balanced(all));
            }
            return Err(SyntaxError::UnmatchedOpen { position: start });
        }
        let program = Program { code, partner };
        proof {
            assert(balanced(all));
            assert(program@ == all);
        }
        Ok(program)
    }

    /// The number of instructions.
    pub fn len(&self) -> (n: usize)
        ensures
            n == self@.len(),
    {
        self.code.len()
    }

    /// The instruction at `position`.
    pub fn instruction(&self, position: usize) -> (instruction: Instruction)
        requires
            position < self@.len(),
        ensures
            instruction == self@[position as int],
    {
        self.code[position]
    }

    /// The position of the partner of the bracket at `position`.
    pub fn partner_of(&self, position: usize) -> (other: usize)
        requires
            self.wf(),
            position < self@.len(),
            self@[position as int] == Instruction::LoopStart || self@[position as int]
                == Instruction::LoopEnd,
        ensures
            other == self.partners()[position as int],
            other < self@.len(),
            self@[position as int] == Instruction::LoopStart ==> paired(
                self@,
                position as int,
                other as int,
            ),
            self@[position as int] == Instruction::LoopEnd ==> paired(
                self@,
                other as int,
                position as int,
            ),
    {
        self.partner[position]
    }
}

/// The error names the bracket that keeps `code` from being a program: the
/// first loop end that closes nothing, or, where there is none, the last loop
/// start that is left open.
pub open spec fn names_fault(code: Seq<Instruction>, error: SyntaxError) -> bool {
    match error {
        SyntaxError::UnmatchedClose { position } => first_stray_close(code, position as int),
        SyntaxError::UnmatchedOpen { position } => {
            &&& never_negative(code, code.len() as int)
            &&& last_unclosed_open(code, position as int)
        },
    }
}

/// What loading the text `text` must give: the program of exactly these
/// instructions, or the one error that names the offending bracket.
pub open spec fn load_outcome(text: Seq<u8>, loaded: Result<Program, SyntaxError>) -> bool {
    match loaded {
        Ok(program) => program.wf() && program@ == decode_all(text),
        Err(error) => names_fault(decode_all(text), error),
    }
}

} // verus!
