use tapescope::{Effect, Halt, Product, Runtime, Tape};

fn run(text: &str, input: &[u8]) -> Product {
    Runtime::new(text, input.to_vec()).unwrap().run()
}

#[test]
fn empty_program_executes_nothing() {
    for input in [&b""[..], &b"A"[..], &[0u8, 255, 7][..]] {
        let product = run("", input);
        assert_eq!(product.executions, 0);
        assert!(product.output.is_empty());
        assert!(product.snapshots.is_empty());
        assert_eq!(product.halt, Halt::Completed);
    }
}

#[test]
fn three_increments_and_a_write() {
    let product = run("+++.", b"");
    assert_eq!(product.output, vec![3]);
    assert_eq!(product.executions, 4);
    assert_eq!(product.snapshots.len(), 4);
    assert_eq!(product.halt, Halt::Completed);
    for (i, snapshot) in product.snapshots.iter().enumerate() {
        assert_eq!(snapshot.instruction_pointer, i);
        assert_eq!(snapshot.memory_pointer, 0);
        assert_eq!(snapshot.input_pointer, 0);
        assert!(!snapshot.is_error);
    }
    assert_eq!(product.snapshots[0].memory, vec![1]);
    assert_eq!(product.snapshots[1].memory, vec![2]);
    assert_eq!(product.snapshots[2].memory, vec![3]);
    assert_eq!(product.snapshots[3].memory, vec![3]);
    assert!(product.snapshots[2].output.is_empty());
    assert_eq!(product.snapshots[3].output, vec![3]);
    assert_eq!(product.snapshots[0].message, "incremented cell");
    assert_eq!(product.snapshots[3].message, "wrote value to output");
}

#[test]
fn echo_loop_ends_when_input_is_exhausted() {
    let product = run(",[.,]", b"AB");
    assert_eq!(product.output, b"AB".to_vec());
    assert_eq!(product.halt, Halt::Completed);
    assert_eq!(product.executions, 8);
    assert_eq!(product.snapshots.len(), 8);
    let executed: Vec<usize> = product.snapshots.iter().map(|s| s.instruction_pointer).collect();
    assert_eq!(executed, vec![0, 1, 2, 3, 4, 2, 3, 4]);
    let cells: Vec<u8> = product.snapshots.iter().map(|s| s.memory[0]).collect();
    assert_eq!(cells, vec![65, 65, 65, 66, 66, 66, 0, 0]);
    let read: Vec<usize> = product.snapshots.iter().map(|s| s.input_pointer).collect();
    assert_eq!(read, vec![1, 1, 1, 2, 2, 2, 2, 2]);
    let messages: Vec<&str> = product.snapshots.iter().map(|s| s.message.as_str()).collect();
    assert_eq!(
        messages,
        vec![
            "read value from input",
            "loop entered because cell was not zero",
            "wrote value to output",
            "read value from input",
            "loop repeated because cell was not zero",
            "wrote value to output",
            "input exhausted, cell set to zero",
            "loop left because cell was zero",
        ]
    );
    assert!(product.snapshots.iter().all(|s| !s.is_error));
    assert_eq!(product.snapshots[2].output, b"A".to_vec());
    assert_eq!(product.snapshots[5].output, b"AB".to_vec());
}

#[test]
fn echo_loop_on_empty_input_skips_the_loop() {
    let product = run(",[.,]", b"");
    assert!(product.output.is_empty());
    assert_eq!(product.executions, 2);
    assert_eq!(product.snapshots[0].message, "input exhausted, cell set to zero");
    assert_eq!(product.snapshots[1].message, "loop skipped because cell was zero");
    assert_eq!(product.snapshots[1].instruction_pointer, 1);
    assert_eq!(product.halt, Halt::Completed);
}

#[test]
fn exhausted_read_clears_the_cell() {
    let product = run("+++,.", b"");
    assert_eq!(product.output, vec![0]);
    assert_eq!(product.snapshots[3].memory, vec![0]);
    assert_eq!(product.snapshots[3].input_pointer, 0);
}

#[test]
fn decrement_wraps_to_255() {
    let product = run("-.", b"");
    assert_eq!(product.output, vec![255]);
    assert_eq!(product.executions, 2);
    assert_eq!(product.snapshots[0].message, "decremented cell");
}

#[test]
fn increment_wraps_to_zero() {
    let product = run("-+.", b"");
    assert_eq!(product.output, vec![0]);
    let product = run(",+.", &[255]);
    assert_eq!(product.output, vec![0]);
}

#[test]
fn written_cell_survives_moving_away_and_back() {
    let product = run(">+++<>.", b"");
    assert_eq!(product.output, vec![3]);
    let lengths: Vec<usize> = product.snapshots.iter().map(|s| s.memory.len()).collect();
    assert_eq!(lengths, vec![2, 2, 2, 2, 2, 2, 2]);
    assert_eq!(product.snapshots[4].memory, vec![0, 3]);
    assert_eq!(product.snapshots[4].memory_pointer, 0);
    assert_eq!(product.snapshots[5].memory, vec![0, 3]);
    assert_eq!(product.snapshots[5].memory_pointer, 1);
    assert_eq!(product.snapshots[0].message, "moved pointer right");
    assert_eq!(product.snapshots[4].message, "moved pointer left");
}

#[test]
fn tape_grows_one_cell_at_a_time_and_never_shrinks() {
    let product = run(">>><<<>>>>", b"");
    let lengths: Vec<usize> = product.snapshots.iter().map(|s| s.memory.len()).collect();
    assert_eq!(lengths, vec![2, 3, 4, 4, 4, 4, 4, 4, 4, 5]);
    let cursors: Vec<usize> = product.snapshots.iter().map(|s| s.memory_pointer).collect();
    assert_eq!(cursors, vec![1, 2, 3, 2, 1, 0, 1, 2, 3, 4]);
}

#[test]
fn moving_left_of_the_first_cell_is_a_fault() {
    let product = run("+<+.", b"");
    assert_eq!(product.halt, Halt::Faulted);
    assert_eq!(product.executions, 2);
    assert_eq!(product.snapshots.len(), 2);
    assert!(product.output.is_empty());
    assert!(!product.snapshots[0].is_error);
    let last = &product.snapshots[1];
    assert!(last.is_error);
    assert_eq!(last.message, "cannot move pointer left of the first cell");
    assert_eq!(last.instruction_pointer, 1);
    assert_eq!(last.memory, vec![1]);
    assert_eq!(last.memory_pointer, 0);
}

#[test]
fn fault_keeps_the_output_written_before_it() {
    let product = run("+.<.", b"");
    assert_eq!(product.halt, Halt::Faulted);
    assert_eq!(product.output, vec![1]);
    assert_eq!(product.executions, 3);
    assert_eq!(product.snapshots.len(), 3);
}

#[test]
fn nested_loops_multiply() {
    let product = run("+++[>++++[>++<-]<-]>>.", b"");
    assert_eq!(product.output, vec![24]);
    assert_eq!(product.halt, Halt::Completed);
    assert_eq!(product.snapshots.len(), product.executions);
}

#[test]
fn loop_on_zero_cell_is_skipped() {
    let product = run("[+.]-.", b"");
    assert_eq!(product.output, vec![255]);
    assert_eq!(product.executions, 3);
    assert_eq!(product.snapshots[0].instruction_pointer, 0);
    assert_eq!(product.snapshots[1].instruction_pointer, 4);
}

#[test]
fn comments_are_stepped_over() {
    let product = run("+ +\n.", b"");
    assert_eq!(product.output, vec![2]);
    assert_eq!(product.executions, 5);
    assert_eq!(product.snapshots[1].message, "ignored a character that is no instruction");
    assert_eq!(product.snapshots[1].memory, vec![1]);
}

#[test]
fn step_limit_interrupts_an_endless_loop() {
    let product = Runtime::new("+[]", vec![]).unwrap().run_bounded(100);
    assert_eq!(product.halt, Halt::Interrupted);
    assert_eq!(product.executions, 100);
    assert_eq!(product.snapshots.len(), 100);
    assert!(product.output.is_empty());
}

#[test]
fn step_limit_of_zero_executes_nothing() {
    let product = Runtime::new("+.", vec![]).unwrap().run_bounded(0);
    assert_eq!(product.halt, Halt::Interrupted);
    assert_eq!(product.executions, 0);
    assert!(product.snapshots.is_empty());
}

#[test]
fn step_limit_beyond_the_end_changes_nothing() {
    let bounded = Runtime::new("+++.", vec![]).unwrap().run_bounded(4);
    assert_eq!(bounded.halt, Halt::Completed);
    assert_eq!(bounded.executions, 4);
    assert_eq!(bounded.output, vec![3]);
    let short = Runtime::new("+++.", vec![]).unwrap().run_bounded(3);
    assert_eq!(short.halt, Halt::Interrupted);
    assert_eq!(short.executions, 3);
    assert!(short.output.is_empty());
}

#[test]
fn snapshots_are_as_many_as_executions() {
    let cases: [(&str, &[u8]); 6] = [
        ("", b""),
        ("+++.", b""),
        (",[.,]", b"hello"),
        ("<", b""),
        ("+>+<<", b""),
        ("++[>+<-]>.", b""),
    ];
    for (text, input) in cases {
        let product = run(text, input);
        assert_eq!(product.snapshots.len(), product.executions, "{:?}", text);
    }
    let product = Runtime::new("+[+]", vec![]).unwrap().run_bounded(37);
    assert_eq!(product.snapshots.len(), product.executions);
}

#[test]
fn stepping_leaves_earlier_snapshots_alone() {
    let whole = run("+>++.<-.", b"");
    for cut in 0..=whole.executions {
        let part = Runtime::new("+>++.<-.", vec![]).unwrap().run_bounded(cut);
        assert_eq!(part.executions, cut);
        assert_eq!(part.snapshots[..], whole.snapshots[..cut]);
    }
}

#[test]
fn stepping_by_hand_agrees_with_run() {
    let mut runtime = Runtime::new(",+.", vec![9]).unwrap();
    assert!(!runtime.is_halted());
    assert_eq!(runtime.step(), Effect::Read);
    assert_eq!(runtime.step(), Effect::Incremented);
    assert_eq!(runtime.executions(), 2);
    assert_eq!(runtime.step(), Effect::Wrote);
    assert!(runtime.is_halted());
    let product = runtime.into_product(17);
    assert_eq!(product.time, 17);
    assert_eq!(product.output, vec![10]);
    assert_eq!(product.executions, 3);
    assert_eq!(product.halt, Halt::Completed);
    let again = run(",+.", &[9]);
    assert_eq!(again.snapshots, product.snapshots);
}

#[test]
fn effects_have_distinct_messages() {
    let all = [
        Effect::MovedRight,
        Effect::MovedLeft,
        Effect::PointerUnderflow,
        Effect::Incremented,
        Effect::Decremented,
        Effect::Wrote,
        Effect::Read,
        Effect::InputExhausted,
        Effect::LoopSkipped,
        Effect::LoopEntered,
        Effect::LoopRepeated,
        Effect::LoopLeft,
        Effect::Ignored,
    ];
    for (i, one) in all.iter().enumerate() {
        assert!(!one.message().is_empty());
        for other in &all[i + 1..] {
            assert_ne!(one.message(), other.message());
        }
    }
}

#[test]
fn tape_moves_grows_and_wraps() {
    let mut tape = Tape::new();
    assert_eq!(tape.len(), 1);
    assert_eq!(tape.cursor(), 0);
    assert_eq!(tape.get(), 0);
    assert!(!tape.move_left());
    assert_eq!(tape.cursor(), 0);
    tape.decrement();
    assert_eq!(tape.get(), 255);
    tape.increment();
    assert_eq!(tape.get(), 0);
    tape.move_right();
    assert_eq!(tape.len(), 2);
    tape.set(42);
    assert!(tape.move_left());
    assert_eq!(tape.get(), 0);
    tape.move_right();
    assert_eq!(tape.len(), 2);
    assert_eq!(tape.get(), 42);
    assert_eq!(tape.contents(), vec![0, 42]);
}

#[test]
fn input_cursor_stays_at_the_end() {
    let mut cursor = tapescope::InputCursor::new(vec![7, 8]);
    assert_eq!(cursor.len(), 2);
    assert_eq!(cursor.consumed(), 0);
    assert_eq!(cursor.read(), Some(7));
    assert_eq!(cursor.read(), Some(8));
    assert_eq!(cursor.consumed(), 2);
    assert_eq!(cursor.read(), None);
    assert_eq!(cursor.read(), None);
    assert_eq!(cursor.consumed(), 2);
    assert_eq!(cursor.contents(), vec![7, 8]);
}

#[test]
fn run_is_timed() {
    let first = run("+++.", b"");
    let second = run("+++.", b"");
    assert_eq!(first.snapshots, second.snapshots);
    assert_eq!(first.output, second.output);
    assert!(first.time < 60_000_000_000);
}
