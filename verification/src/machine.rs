//! The language as a state machine: what one step does to a configuration,
//! and the configuration that a run has reached after any number of steps.

use crate::bracket::{paired, Instruction};
use crate::tape::{next_value, previous_value, TapeView};
use vstd::prelude::*;

verus! {

/// Everything that a run can change.
pub ghost struct Config {
    /// The position of the next instruction.
    pub ip: nat,
    pub tape: TapeView,
    /// The number of input bytes read so far.
    pub input_position: nat,
    pub output: Seq<u8>,
    /// A step has failed; the run is over.
    pub faulted: bool,
}

/// What a step did.
#[derive(Clone, Copy, Debug, PartialEq, Eq, Structural)]
pub enum Effect {
    /// `>`: the cursor went right.
    MovedRight,
    /// `<`: the cursor went left.
    MovedLeft,
    /// `<` on the first cell: the step failed and changed nothing.
    PointerUnderflow,
    /// `+`
    Incremented,
    /// `-`
    Decremented,
    /// `.`: the active cell was appended to the output.
    Wrote,
    /// `,`: the next input byte was stored in the active cell.
    Read,
    /// `,` with no input left: zero was stored in the active cell.
    InputExhausted,
    /// `[` on a zero cell: the run went on behind the matching `]`.
    LoopSkipped,
    /// `[` on a nonzero cell: the run went on inside the loop.
    LoopEntered,
    /// `]` on a nonzero cell: the run went back behind the matching `[`.
    LoopRepeated,
    /// `]` on a zero cell: the run went on behind the loop.
    LoopLeft,
    /// A byte that is no opcode was stepped over.
    Ignored,
}

/// The position of the loop end that is paired with the loop start at `open`.
pub open spec fn closing(code: Seq<Instruction>, open: int) -> int {
    choose|close: int| paired(code, open, close)
}

/// The position of the loop start that is paired with the loop end at `close`.
pub open spec fn opening(code: Seq<Instruction>, close: int) -> int {
    choose|open: int| paired(code, open, close)
}

/// The configuration in which every run starts.
pub open spec fn initial() -> Config {
    Config {
        ip: 0,
        tape: TapeView::fresh(),
        input_position: 0,
        output: Seq::empty(),
        faulted: false,
    }
}

/// The run is over: a step has failed, or no instruction is left to execute.
pub open spec fn halted(code: Seq<Instruction>, config: Config) -> bool {
    config.faulted || config.ip >= code.len()
}

/// What executing the instruction at `config.ip` does.
pub open spec fn effect(code: Seq<Instruction>, input: Seq<u8>, config: Config) -> Effect {
    match code[config.ip as int] {
        Instruction::MoveRight => Effect::MovedRight,
        Instruction::MoveLeft => if config.tape.cursor == 0 {
            Effect::PointerUnderflow
        } else {
            Effect::MovedLeft
        },
        Instruction::Increment => Effect::Incremented,
        Instruction::Decrement => Effect::Decremented,
        Instruction::Output => Effect::Wrote,
        Instruction::Input => if config.input_position < input.len() {
            Effect::Read
        } else {
            Effect::InputExhausted
        },
        Instruction::LoopStart => if config.tape.active() == 0 {
            Effect::LoopSkipped
        } else {
            Effect::LoopEntered
        },
        Instruction::LoopEnd => if config.tape.active() != 0 {
            Effect::LoopRepeated
        } else {
            Effect::LoopLeft
        },
        Instruction::Comment => Effect::Ignored,
    }
}

/// The configuration after executing the instruction at `config.ip`.
pub open spec fn step(code: Seq<Instruction>, input: Seq<u8>, config: Config) -> Config {
    let next = (config.ip + 1) as nat;
    match effect(code, input, config) {
        Effect::MovedRight => Config { ip: next, tape: config.tape.right(), ..config },
        Effect::MovedLeft => Config { ip: next, tape: config.tape.left(), ..config },
        Effect::PointerUnderflow => Config { faulted: true, ..config },
        Effect::Incremented => Config {
            ip: next,
            tape: config.tape.write(next_value(config.tape.active())),
            ..config
        },
        Effect::Decremented => Config {
            ip: next,
            tape: config.tape.write(previous_value(config.tape.active())),
            ..config
        },
        Effect::Wrote => Config {
            ip: next,
            output: config.output.push(config.tape.active()),
            ..config
        },
        Effect::Read => Config {
            ip: next,
            tape: config.tape.write(input[config.input_position as int]),
            input_position: config.input_position + 1,
            ..config
        },
        Effect::InputExhausted => Config { ip: next, tape: config.tape.write(0u8), ..config },
        Effect::LoopSkipped => Config {
            ip: (closing(code, config.ip as int) + 1) as nat,
            ..config
        },
        Effect::LoopRepeated => Config {
            ip: (opening(code, config.ip as int) + 1) as nat,
            ..config
        },
        Effect::LoopEntered | Effect::LoopLeft | Effect::Ignored => Config { ip: next, ..config },
    }
}

/// The configuration that a run has reached after `steps` steps. Once the run
/// is over, further steps change nothing.
pub open spec fn state_after(code: Seq<Instruction>, input: Seq<u8>, steps: nat) -> Config
    decreases steps,
{
    if steps == 0 {
        initial()
    } else {
        let before = state_after(code, input, (steps - 1) as nat);
        if halted(code, before) {
            before
        } else {
            step(code, input, before)
        }
    }
}

/// A run that may take at most `limit` steps executes exactly `count`: it is
/// not over before its step `count`, and then it is over or out of steps.
pub open spec fn stops_at(code: Seq<Instruction>, input: Seq<u8>, limit: nat, count: nat) -> bool {
    &&& count <= limit
    &&& forall|earlier: nat|
        earlier < count ==> !halted(code, #[trigger] state_after(code, input, earlier))
    &&& count == limit || halted(code, state_after(code, input, count))
}

/// What holds of every configuration that a run reaches.
pub open spec fn sound(input: Seq<u8>, config: Config) -> bool {
    &&& config.tape.wf()
    &&& config.input_position <= input.len()
}

/// A step from a sound configuration leads to a sound one. It drops no cell
/// of the tape, takes back no input and only appends to the output.
pub proof fn step_keeps_sound(code: Seq<Instruction>, input: Seq<u8>, config: Config)
    requires
        sound(input, config),
        !halted(code, config),
    ensures
        sound(input, step(code, input, config)),
        step(code, input, config).tape.cells.len() >= config.tape.cells.len(),
        step(code, input, config).input_position >= config.input_position,
        config.output.is_prefix_of(step(code, input, config).output),
{
}

/// Every configuration that a run reaches is sound.
pub proof fn every_state_is_sound(code: Seq<Instruction>, input: Seq<u8>, steps: nat)
    ensures
        sound(input, state_after(code, input, steps)),
    decreases steps,
{
    if steps > 0 {
        let before = state_after(code, input, (steps - 1) as nat);
        every_state_is_sound(code, input, (steps - 1) as nat);
        if !halted(code, before) {
            step_keeps_sound(code, input, before);
        }
    }
}

/// The tape never shrinks in the course of a run.
pub proof fn memory_never_shrinks(code: Seq<Instruction>, input: Seq<u8>, sooner: nat, later: nat)
    requires
        sooner <= later,
    ensures
        state_after(code, input, sooner).tape.cells.len() <= state_after(
            code,
            input,
            later,
        ).tape.cells.len(),
    decreases later - sooner,
{
    if sooner < later {
        let before = state_after(code, input, (later - 1) as nat);
        memory_never_shrinks(code, input, sooner, (later - 1) as nat);
        every_state_is_sound(code, input, (later - 1) as nat);
        if !halted(code, before) {
            step_keeps_sound(code, input, before);
        }
    }
}

/// Output is only ever appended: what a run has written stays as it is.
pub proof fn output_only_grows(code: Seq<Instruction>, input: Seq<u8>, sooner: nat, later: nat)
    requires
        sooner <= later,
    ensures
        state_after(code, input, sooner).output.is_prefix_of(
            state_after(code, input, later).output,
        ),
    decreases later - sooner,
{
    if sooner < later {
        let before = state_after(code, input, (later - 1) as nat);
        output_only_grows(code, input, sooner, (later - 1) as nat);
        every_state_is_sound(code, input, (later - 1) as nat);
        if !halted(code, before) {
            step_keeps_sound(code, input, before);
        }
    }
}

/// Once a run is over, its configuration stays as it is.
pub proof fn halted_run_stays(code: Seq<Instruction>, input: Seq<u8>, sooner: nat, later: nat)
    requires
        sooner <= later,
        halted(code, state_after(code, input, sooner)),
    ensures
        state_after(code, input, later) == state_after(code, input, sooner),
    decreases later - sooner,
{
    if sooner < later {
        halted_run_stays(code, input, sooner, (later - 1) as nat);
    }
}

/// A run under a step limit executes one definite number of steps.
pub proof fn stop_is_unique(
    code: Seq<Instruction>,
    input: Seq<u8>,
    limit: nat,
    one: nat,
    other: nat,
)
    requires
        stops_at(code, input, limit, one),
        stops_at(code, input, limit, other),
    ensures
        one == other,
{
    if one < other {
        assert(!halted(code, state_after(code, input, one)));
    } else if other < one {
        assert(!halted(code, state_after(code, input, other)));
    }
}

/// The empty program executes nothing and writes nothing, whatever its input
/// and its step limit.
pub proof fn empty_program_does_nothing(input: Seq<u8>, limit: nat, count: nat)
    requires
        stops_at(Seq::<Instruction>::empty(), input, limit, count),
    ensures
        count == 0,
        state_after(Seq::<Instruction>::empty(), input, count).output == Seq::<u8>::empty(),
{
    let code = Seq::<Instruction>::empty();
    assert(halted(code, state_after(code, input, 0)));
    if count > 0 {
        assert(!halted(code, state_after(code, input, 0)));
    }
}

/// A run executes at least one step exactly when it has a step to spare and
/// its program is not empty.
pub proof fn first_step_is_taken(code: Seq<Instruction>, input: Seq<u8>, limit: nat, count: nat)
    requires
        stops_at(code, input, limit, count),
    ensures
        count > 0 <==> limit > 0 && code.len() > 0,
{
    assert(state_after(code, input, 0) == initial());
    if count > 0 {
        assert(!halted(code, state_after(code, input, 0)));
    }
}

} // verus!
