//! A tracing interpreter for the eight-opcode tape language.
//!
//! A program is loaded from its text, its brackets are paired once, and it is
//! then run one instruction at a time against a growable byte tape and a
//! read-only input. Every executed step leaves a frozen snapshot behind.
//! The `window` module picks the index ranges that a viewer shows of each
//! sequence.

pub mod bracket;
pub mod clock;
pub mod input;
pub mod machine;
pub mod program;
pub mod runtime;
pub mod snapshot;
pub mod tape;
pub mod window;

pub use bracket::Instruction;
pub use input::InputCursor;
pub use machine::Effect;
pub use program::{Program, SyntaxError};
pub use runtime::{Halt, Product, Runtime};
pub use snapshot::Snapshot;
pub use tape::Tape;
pub use window::{center_indexes, preceding_indexes, subsequent_indexes};
