//! The engine: it executes a loaded program step by step and keeps a
//! snapshot of every step.

use crate::bracket::{
    balanced, decode_all, paired_close_is_unique, paired_open_is_unique, Instruction,
};
use crate::clock::{elapsed, nanoseconds, now};
use crate::input::InputCursor;
use crate::machine::{
    closing, effect, empty_program_does_nothing, halted, initial, opening, sound, state_after,
    step, stop_is_unique, stops_at, Config, Effect,
};
use crate::program::{names_fault, Program, SyntaxError};
use crate::snapshot::{frame, views, Snapshot, SnapshotView};
use crate::tape::{copy_bytes, Tape};
use vstd::prelude::*;
use vstd::string::StringSliceAdditionalSpecFns;

verus! {

/// How a run ended.
#[derive(Clone, Copy, Debug, PartialEq, Eq, Structural)]
pub enum Halt {
    /// The instruction pointer left the program.
    Completed,
    /// A step failed; the last snapshot says why.
    Faulted,
    /// The run was stopped at its step limit with instructions left.
    Interrupted,
}

/// What a run leaves: its output, its trace and its statistics.
#[derive(Clone, Debug, PartialEq, Eq)]
pub struct Product {
    /// The bytes that the program wrote.
    pub output: Vec<u8>,
    /// One snapshot for every executed step, in order.
    pub snapshots: Vec<Snapshot>,
    /// The number of executed steps.
    pub executions: usize,
    /// The time that the run took, in nanoseconds.
    pub time: u128,
    /// How the run ended.
    pub halt: Halt,
}

/// How a run that has reached `config` and stops there has ended.
pub open spec fn halt_of(code: Seq<Instruction>, config: Config) -> Halt {
    if config.faulted {
        Halt::Faulted
    } else if config.ip >= code.len() {
        Halt::Completed
    } else {
        Halt::Interrupted
    }
}

/// The snapshots of the first `count` steps of a run.
pub open spec fn frames(code: Seq<Instruction>, input: Seq<u8>, count: nat) -> Seq<SnapshotView> {
    Seq::new(count, |i: int| frame(code, input, i as nat))
}

/// `product` is what the run of `code` on `input` leaves when it may take at
/// most `limit` steps. Only the time is left open.
pub open spec fn product_of(
    code: Seq<Instruction>,
    input: Seq<u8>,
    limit: nat,
    product: Product,
) -> bool {
    &&& stops_at(code, input, limit, product.executions as nat)
    &&& product.snapshots@.len() == product.executions
    &&& views(product.snapshots@) == frames(code, input, product.executions as nat)
    &&& product.output@ == state_after(code, input, product.executions as nat).output
    &&& product.halt == halt_of(code, state_after(code, input, product.executions as nat))
}

/// An engine for one run of one program on one input.
pub struct Runtime {
    program: Program,
    input: InputCursor,
    tape: Tape,
    ip: usize,
    output: Vec<u8>,
    faulted: bool,
    snapshots: Vec<Snapshot>,
    executions: usize,
}

impl Runtime {
    /// The instructions of the program.
    pub closed spec fn code(&self) -> Seq<Instruction> {
        self.program@
    }

    /// The input that the engine was made with.
    pub closed spec fn input_bytes(&self) -> Seq<u8> {
        self.input.bytes()
    }

    /// The configuration that the run has reached.
    pub closed spec fn config(&self) -> Config {
        Config {
            ip: self.ip as nat,
            tape: self.tape@,
            input_position: self.input.position(),
            output: self.output@,
            faulted: self.faulted,
        }
    }

    /// The snapshots recorded so far.
    pub closed spec fn trace(&self) -> Seq<SnapshotView> {
        views(self.snapshots@)
    }

    /// The number of steps executed so far.
    pub closed spec fn count(&self) -> nat {
        self.executions as nat
    }

    /// The bracket table of the program is sound.
    pub closed spec fn table_wf(&self) -> bool {
        self.program.wf()
    }

    /// The engine is where `count()` steps of the run lead, none of which
    /// found the run over, and it holds the snapshot of each of them.
    pub open spec fn wf(&self) -> bool {
        &&& self.table_wf()
        &&& balanced(self.code())
        &&& self.config() == state_after(self.code(), self.input_bytes(), self.count())
        &&& sound(self.input_bytes(), self.config())
        &&& self.config().tape.cursor <= self.count()
        &&& self.trace().len() == self.count()
        &&& self.trace() == frames(self.code(), self.input_bytes(), self.count())
        &&& forall|earlier: nat|
            earlier < self.count() ==> !halted(
                self.code(),
                #[trigger] state_after(self.code(), self.input_bytes(), earlier),
            )
    }

    /// Loads `instructions` and makes an engine that is ready to run them on
    /// `input`. A text whose brackets are not balanced is refused before
    /// anything is executed, whatever the input holds.
    pub fn new(instructions: &str, input: Vec<u8>) -> (made: Result<Runtime, SyntaxError>)
        ensures
            made is Ok <==> balanced(decode_all(instructions.spec_bytes())),
            match made {
                Ok(runtime) => {
                    &&& runtime.wf()
                    &&& runtime.code() == decode_all(instructions.spec_bytes())
                    &&& runtime.input_bytes() == input@
                    &&& runtime.count() == 0
                },
                Err(error) => names_fault(decode_all(instructions.spec_bytes()), error),
            },
    {
        match Program::load(instructions) {
            Ok(program) => {
                let runtime = Runtime {
                    program,
                    input: InputCursor::new(input),
                    tape: Tape::new(),
                    ip: 0,
                    output: Vec::new(),
                    faulted: false,
                    snapshots: Vec::new(),
                    executions: 0,
                };
                proof {
                    assert(runtime.config() == initial());
                    assert(runtime.trace() =~= frames(runtime.code(), runtime.input_bytes(), 0));
                }
                Ok(runtime)
            },
            Err(error) => Err(error),
        }
    }

    /// Whether the run is over.
    pub fn is_halted(&self) -> (over: bool)
        ensures
            over == halted(self.code(), self.config()),
    {
        self.faulted || self.ip >= self.program.len()
    }

    /// The number of steps executed so far.
    pub fn executions(&self) -> (count: usize)
        ensures
            count == self.count(),
    {
        self.executions
    }

    /// Executes the next instruction and records its snapshot.
    ///
    /// The snapshots recorded before stay as they are: the new one is
    /// appended behind them.
    pub fn step(&mut self) -> (done: Effect)
        requires
            old(self).wf(),
            !halted(old(self).code(), old(self).config()),
            old(self).count() < usize::MAX,
        ensures
            final(self).wf(),
            final(self).code() == old(self).code(),
            final(self).input_bytes() == old(self).input_bytes(),
            final(self).count() == old(self).count() + 1,
            done == effect(old(self).code(), old(self).input_bytes(), old(self).config()),
            final(self).config() == step(
                old(self).code(),
                old(self).input_bytes(),
                old(self).config(),
            ),
            final(self).trace() == old(self).trace().push(
                frame(old(self).code(), old(self).input_bytes(), old(self).count()),
            ),
            forall|i: int|
                0 <= i < old(self).count() ==> final(self).trace()[i] == old(self).trace()[i],
    {
        let ghost code = self.code();
        let ghost input = self.input_bytes();
        let ghost before = self.config();
        let ghost count = self.count();
        let ghost earlier_snapshots = self.snapshots@;
        let executed: usize = self.ip;
        let length: usize = self.program.len();
        assert(executed < length);
        let done: Effect = match self.program.instruction(executed) {
            Instruction::MoveRight => {
                self.tape.move_right();
                self.ip = executed + 1;
                Effect::MovedRight
            },
            Instruction::MoveLeft => {
                if self.tape.move_left() {
                    self.ip = executed + 1;
                    Effect::MovedLeft
                } else {
                    self.faulted = true;
                    Effect::PointerUnderflow
                }
            },
            Instruction::Increment => {
                self.tape.increment();
                self.ip = executed + 1;
                Effect::Incremented
            },
            Instruction::Decrement => {
                self.tape.decrement();
                self.ip = executed + 1;
                Effect::Decremented
            },
            Instruction::Output => {
                let value: u8 = self.tape.get();
                self.output.push(value);
                self.ip = executed + 1;
                Effect::Wrote
            },
            Instruction::Input => {
                self.ip = executed + 1;
                match self.input.read() {
                    Some(byte) => {
                        self.tape.set(byte);
                        Effect::Read
                    },
                    None => {
                        self.tape.set(0u8);
                        Effect::InputExhausted
                    },
                }
            },
            Instruction::LoopStart => {
                if self.tape.get() == 0 {
                    let close: usize = self.program.partner_of(executed);
                    proof {
                        paired_close_is_unique(
                            code,
                            executed as int,
                            close as int,
                            closing(code, executed as int),
                        );
                    }
                    self.ip = close + 1;
                    Effect::LoopSkipped
                } else {
                    self.ip = executed + 1;
                    Effect::LoopEntered
                }
            },
            Instruction::LoopEnd => {
                if self.tape.get() != 0 {
                    let open: usize = self.program.partner_of(executed);
                    proof {
                        paired_open_is_unique(
                            code,
                            open as int,
                            opening(code, executed as int),
                            executed as int,
                        );
                    }
                    self.ip = open + 1;
                    Effect::LoopRepeated
                } else {
                    self.ip = executed + 1;
                    Effect::LoopLeft
                }
            },
            Instruction::Comment => {
                self.ip = executed + 1;
                Effect::Ignored
            },
        };
        assert(self.config() == step(code, input, before));
        let snapshot = Snapshot {
            instruction_pointer: executed,
            memory: self.tape.contents(),
            memory_pointer: self.tape.cursor(),
            input_pointer: self.input.consumed(),
            output: copy_bytes(&self.output),
            message: done.message(),
            is_error: self.faulted,
        };
        self.snapshots.push(snapshot);
        self.executions = self.executions + 1;
        proof {
            assert(state_after(code, input, count + 1) == step(code, input, before));
            assert(snapshot@ == frame(code, input, count));
            assert(views(self.snapshots@) =~= views(earlier_snapshots).push(snapshot@));
            assert(self.trace() =~= frames(code, input, count + 1));
        }
        done
    }

    /// Ends the run where it is and hands out what it has left, with `time`
    /// as its duration.
    pub fn into_product(self, time: u128) -> (product: Product)
        ensures
            product.output@ == self.config().output,
            views(product.snapshots@) == self.trace(),
            product.executions == self.count(),
            product.time == time,
            product.halt == halt_of(self.code(), self.config()),
    {
        let halt = if self.faulted {
            Halt::Faulted
        } else if self.ip >= self.program.len() {
            Halt::Completed
        } else {
            Halt::Interrupted
        };
        Product {
            output: self.output,
            snapshots: self.snapshots,
            executions: self.executions,
            time,
            halt,
        }
    }

    /// Runs the program until it is over or has executed `limit` steps in
    /// all, and times the run.
    pub fn run_bounded(self, limit: usize) -> (product: Product)
        requires
            self.wf(),
        ensures
            product_of(
                self.code(),
                self.input_bytes(),
                if self.count() > limit {
                    self.count()
                } else {
                    limit as nat
                },
                product,
            ),
    {
        let ghost code = self.code();
        let ghost input = self.input_bytes();
        let ghost bound = if self.count() > limit {
            self.count()
        } else {
            limit as nat
        };
        let mut engine = self;
        let started = now();
        while engine.executions < limit && !engine.is_halted()
            invariant
                engine.wf(),
                engine.code() == code,
                engine.input_bytes() == input,
                self.count() <= engine.count() <= bound,
                limit <= bound,
            decreases limit - engine.executions,
        {
            engine.step();
        }
        let span = elapsed(&started);
        engine.into_product(nanoseconds(&span))
    }

    /// Runs the program until it is over, and times the run.
    pub fn run(self) -> (product: Product)
        requires
            self.wf(),
        ensures
            product_of(self.code(), self.input_bytes(), usize::MAX as nat, product),
    {
        self.run_bounded(usize::MAX)
    }
}

/// A program without instructions leaves nothing, whatever its input and its
/// step limit: no executed step, no snapshot, no output.
pub proof fn empty_program_leaves_nothing(
    code: Seq<Instruction>,
    input: Seq<u8>,
    limit: nat,
    product: Product,
)
    requires
        code.len() == 0,
        product_of(code, input, limit, product),
    ensures
        product.executions == 0,
        product.snapshots@.len() == 0,
        product.output@ == Seq::<u8>::empty(),
        product.halt == Halt::Completed,
{
    assert(code =~= Seq::<Instruction>::empty());
    empty_program_does_nothing(input, limit, product.executions as nat);
}

/// The snapshot of a step does not depend on how far the run goes on: a
/// longer trace begins with every shorter one.
pub proof fn later_steps_keep_earlier_frames(
    code: Seq<Instruction>,
    input: Seq<u8>,
    sooner: nat,
    later: nat,
)
    requires
        sooner <= later,
    ensures
        frames(code, input, sooner) == frames(code, input, later).take(sooner as int),
        frames(code, input, later).len() == later,
{
    assert(frames(code, input, sooner) =~= frames(code, input, later).take(sooner as int));
}

/// Two products of one run under one step limit differ in nothing but the
/// time that was measured.
pub proof fn product_is_determined(
    code: Seq<Instruction>,
    input: Seq<u8>,
    limit: nat,
    one: Product,
    other: Product,
)
    requires
        product_of(code, input, limit, one),
        product_of(code, input, limit, other),
    ensures
        one.executions == other.executions,
        one.output@ == other.output@,
        views(one.snapshots@) == views(other.snapshots@),
        one.halt == other.halt,
{
    stop_is_unique(code, input, limit, one.executions as nat, other.executions as nat);
}

} // verus!
