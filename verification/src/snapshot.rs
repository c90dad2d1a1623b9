//! The record that every executed step leaves behind.

use crate::bracket::Instruction;
use crate::machine::{effect, state_after, Config, Effect};
use vstd::prelude::*;

verus! {

/// A snapshot as a value.
pub ghost struct SnapshotView {
    pub instruction_pointer: nat,
    pub memory: Seq<u8>,
    pub memory_pointer: nat,
    pub input_pointer: nat,
    pub output: Seq<u8>,
    pub message: Seq<char>,
    pub is_error: bool,
}

/// The state of a run after one executed step. A snapshot owns its bytes:
/// nothing that the run does later reaches them.
#[derive(Clone, Debug, PartialEq, Eq)]
pub struct Snapshot {
    /// The position of the instruction that this step executed.
    pub instruction_pointer: usize,
    /// The whole tape after the step.
    pub memory: Vec<u8>,
    /// The index of the active cell after the step.
    pub memory_pointer: usize,
    /// The number of input bytes read by the end of the step: the length of
    /// the input once it is exhausted.
    pub input_pointer: usize,
    /// All output produced by the end of the step.
    pub output: Vec<u8>,
    /// What the step did, in words.
    pub message: String,
    /// The step failed, and the run ended with it.
    pub is_error: bool,
}

impl View for Snapshot {
    type V = SnapshotView;

    open spec fn view(&self) -> SnapshotView {
        SnapshotView {
            instruction_pointer: self.instruction_pointer as nat,
            memory: self.memory@,
            memory_pointer: self.memory_pointer as nat,
            input_pointer: self.input_pointer as nat,
            output: self.output@,
            message: self.message@,
            is_error: self.is_error,
        }
    }
}

/// The words for what a step did.
pub open spec fn message_text(effect: Effect) -> Seq<char> {
    match effect {
        Effect::MovedRight => "moved pointer right"@,
        Effect::MovedLeft => "moved pointer left"@,
        Effect::PointerUnderflow => "cannot move pointer left of the first cell"@,
        Effect::Incremented => "incremented cell"@,
        Effect::Decremented => "decremented cell"@,
        Effect::Wrote => "wrote value to output"@,
        Effect::Read => "read value from input"@,
        Effect::InputExhausted => "input exhausted, cell set to zero"@,
        Effect::LoopSkipped => "loop skipped because cell was zero"@,
        Effect::LoopEntered => "loop entered because cell was not zero"@,
        Effect::LoopRepeated => "loop repeated because cell was not zero"@,
        Effect::LoopLeft => "loop left because cell was zero"@,
        Effect::Ignored => "ignored a character that is no instruction"@,
    }
}

impl Effect {
    /// The words for this effect.
    pub fn message(&self) -> (text: String)
        ensures
            text@ == message_text(*self),
    {
        match self {
            Effect::MovedRight => "moved pointer right".to_owned(),
            Effect::MovedLeft => "moved pointer left".to_owned(),
            Effect::PointerUnderflow => "cannot move pointer left of the first cell".to_owned(),
            Effect::Incremented => "incremented cell".to_owned(),
            Effect::Decremented => "decremented cell".to_owned(),
            Effect::Wrote => "wrote value to output".to_owned(),
            Effect::Read => "read value from input".to_owned(),
            Effect::InputExhausted => "input exhausted, cell set to zero".to_owned(),
            Effect::LoopSkipped => "loop skipped because cell was zero".to_owned(),
            Effect::LoopEntered => "loop entered because cell was not zero".to_owned(),
            Effect::LoopRepeated => "loop repeated because cell was not zero".to_owned(),
            Effect::LoopLeft => "loop left because cell was zero".to_owned(),
            Effect::Ignored => "ignored a character that is no instruction".to_owned(),
        }
    }

    /// Whether a step with this effect failed.
    pub open spec fn is_fault(self) -> bool {
        self == Effect::PointerUnderflow
    }
}

/// The snapshot of a step that was executed at `executed`, did `effect` and
/// led to `after`.
pub open spec fn snapshot_of(executed: nat, effect: Effect, after: Config) -> SnapshotView {
    SnapshotView {
        instruction_pointer: executed,
        memory: after.tape.cells,
        memory_pointer: after.tape.cursor,
        input_pointer: after.input_position,
        output: after.output,
        message: message_text(effect),
        is_error: after.faulted,
    }
}

/// The snapshot that step `index` of a run leaves, counting from 0.
pub open spec fn frame(code: Seq<Instruction>, input: Seq<u8>, index: nat) -> SnapshotView {
    let before = state_after(code, input, index);
    snapshot_of(before.ip, effect(code, input, before), state_after(code, input, index + 1))
}

/// Each snapshot of a sequence as a value.
pub open spec fn views(snapshots: Seq<Snapshot>) -> Seq<SnapshotView> {
    Seq::new(snapshots.len(), |i: int| snapshots[i]@)
}

} // verus!
