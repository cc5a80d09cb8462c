use tape_machine::error::ExecutionError;
use tape_machine::interpreter::Interpreter;
use tape_machine::runtime::Runtime;

#[test]
fn new_interpreter_starts_at_instruction_zero_and_leaves_the_runtime_alone() {
    let mut runtime = Runtime::new(3);
    runtime.increment_processing_byte();
    {
        let interpreter = Interpreter::new(&mut runtime);
        assert_eq!(interpreter.instruction_pointer, 0);
        assert_eq!(interpreter.runtime.memory(), &vec![1, 0, 0]);
    }
    assert_eq!(runtime.memory(), &vec![1, 0, 0]);
    assert_eq!(runtime.data_pointer(), 0);
}

#[test]
fn left_alone_at_origin_fails_with_cursor_underflow() {
    let mut runtime = Runtime::new(2);
    let mut interpreter = Interpreter::new(&mut runtime);
    assert_eq!(interpreter.interpret("<", None), Err(ExecutionError::CursorUnderflow));
    assert_eq!(interpreter.instruction_pointer, 0);
    assert_eq!(runtime.data_pointer(), 0);
}

#[test]
fn right_then_left_from_origin_succeeds_and_returns_to_origin() {
    let mut runtime = Runtime::new(2);
    let mut interpreter = Interpreter::new(&mut runtime);
    assert_eq!(interpreter.interpret("><", None), Ok(()));
    assert_eq!(interpreter.instruction_pointer, 2);
    assert_eq!(runtime.data_pointer(), 0);
    assert_eq!(runtime.memory(), &vec![0, 0]);
}

#[test]
fn left_then_right_from_origin_fails_on_the_first_opcode() {
    let mut runtime = Runtime::new(2);
    let mut interpreter = Interpreter::new(&mut runtime);
    assert_eq!(interpreter.interpret("<>", None), Err(ExecutionError::CursorUnderflow));
    assert_eq!(interpreter.instruction_pointer, 0);
    assert_eq!(runtime.data_pointer(), 0);
}

#[test]
fn right_on_single_cell_tape_fails_with_cursor_overflow() {
    let mut runtime = Runtime::new(1);
    let mut interpreter = Interpreter::new(&mut runtime);
    assert_eq!(interpreter.interpret("><", None), Err(ExecutionError::CursorOverflow));
    assert_eq!(interpreter.instruction_pointer, 0);
    assert_eq!(runtime.data_pointer(), 0);
}

#[test]
fn running_past_the_last_cell_stops_on_the_last_cell() {
    let mut runtime = Runtime::new(3);
    let mut interpreter = Interpreter::new(&mut runtime);
    assert_eq!(interpreter.interpret("+>+>+>+", None), Err(ExecutionError::CursorOverflow));
    assert_eq!(interpreter.instruction_pointer, 5);
    assert_eq!(runtime.data_pointer(), 2);
    assert_eq!(runtime.memory(), &vec![1, 1, 1]);
}

#[test]
fn read_then_write_echoes_the_input_byte_once() {
    let mut runtime = Runtime::new(1);
    let mut interpreter = Interpreter::new(&mut runtime);
    assert_eq!(interpreter.interpret(",.", Some("A")), Ok(()));
    assert_eq!(runtime.memory(), &vec![65]);
    assert_eq!(runtime.output(), &vec![65]);
    assert_eq!(runtime.data_pointer(), 0);
}

#[test]
fn read_without_any_input_fails_before_any_output() {
    let mut runtime = Runtime::new(1);
    let mut interpreter = Interpreter::new(&mut runtime);
    assert_eq!(interpreter.interpret(",.", None), Err(ExecutionError::InputExhausted));
    assert_eq!(interpreter.instruction_pointer, 0);
    assert!(runtime.output().is_empty());
    assert_eq!(runtime.memory(), &vec![0]);
}

#[test]
fn read_with_empty_input_fails_before_any_output() {
    let mut runtime = Runtime::new(1);
    let mut interpreter = Interpreter::new(&mut runtime);
    assert_eq!(interpreter.interpret(",.", Some("")), Err(ExecutionError::InputExhausted));
    assert!(runtime.output().is_empty());
}

#[test]
fn second_input_fully_replaces_the_first() {
    let mut runtime = Runtime::new(1);
    let mut interpreter = Interpreter::new(&mut runtime);
    assert_eq!(interpreter.interpret(",.", Some("\n")), Ok(()));
    assert_eq!(interpreter.runtime.take_output(), vec![10]);
    assert_eq!(interpreter.interpret(",.", Some("\u{14}")), Ok(()));
    assert_eq!(interpreter.runtime.take_output(), vec![20]);
    assert_eq!(runtime.memory(), &vec![20]);
}

#[test]
fn second_input_replaces_unread_bytes_of_the_first() {
    let mut runtime = Runtime::new(1);
    let mut interpreter = Interpreter::new(&mut runtime);
    assert_eq!(interpreter.interpret(",.", Some("abc")), Ok(()));
    assert_eq!(interpreter.interpret(",.", Some("z")), Ok(()));
    assert_eq!(interpreter.interpret(",", None), Err(ExecutionError::InputExhausted));
    assert_eq!(runtime.output(), &vec![b'a', b'z']);
    assert_eq!(runtime.memory(), &vec![b'z']);
}

#[test]
fn without_new_input_the_run_goes_on_with_what_was_left() {
    let mut runtime = Runtime::new(1);
    let mut interpreter = Interpreter::new(&mut runtime);
    assert_eq!(interpreter.interpret(",.", Some("xy")), Ok(()));
    assert_eq!(interpreter.interpret(",.", None), Ok(()));
    assert_eq!(interpreter.interpret(",.", None), Err(ExecutionError::InputExhausted));
    assert_eq!(runtime.output(), &vec![b'x', b'y']);
}

#[test]
fn three_increments_then_write_emits_3_once() {
    let mut runtime = Runtime::new(1);
    let mut interpreter = Interpreter::new(&mut runtime);
    assert_eq!(interpreter.interpret("+++.", None), Ok(()));
    assert_eq!(interpreter.instruction_pointer, 4);
    assert_eq!(runtime.output(), &vec![3]);
    assert_eq!(runtime.data_pointer(), 0);
    assert_eq!(runtime.memory(), &vec![3]);
}

#[test]
fn empty_program_does_nothing_and_does_not_fail() {
    let mut runtime = Runtime::new(2);
    runtime.increment_processing_byte();
    runtime.replace_input(&[7]);
    let mut interpreter = Interpreter::new(&mut runtime);
    assert_eq!(interpreter.interpret("", None), Ok(()));
    assert_eq!(interpreter.instruction_pointer, 0);
    assert_eq!(runtime.memory(), &vec![1, 0]);
    assert_eq!(runtime.data_pointer(), 0);
    assert!(runtime.output().is_empty());
    assert_eq!(runtime.read_input_and_store(), Ok(()));
    assert_eq!(runtime.memory(), &vec![7, 0]);
}

#[test]
fn empty_program_with_new_input_only_replaces_the_input() {
    let mut runtime = Runtime::new(1);
    runtime.replace_input(&[1, 2]);
    let mut interpreter = Interpreter::new(&mut runtime);
    assert_eq!(interpreter.interpret("", Some("Q")), Ok(()));
    assert_eq!(runtime.memory(), &vec![0]);
    assert_eq!(runtime.read_input_and_store(), Ok(()));
    assert_eq!(runtime.memory(), &vec![b'Q']);
    assert_eq!(runtime.read_input_and_store(), Err(ExecutionError::InputExhausted));
}

#[test]
fn decrement_opcode_wraps_below_zero() {
    let mut runtime = Runtime::new(1);
    let mut interpreter = Interpreter::new(&mut runtime);
    assert_eq!(interpreter.interpret("-.--.", None), Ok(()));
    assert_eq!(runtime.output(), &vec![255, 253]);
}

#[test]
fn increment_opcode_wraps_above_255() {
    let mut runtime = Runtime::new(1);
    let mut interpreter = Interpreter::new(&mut runtime);
    let program = "+".repeat(256);
    assert_eq!(interpreter.interpret(&program, None), Ok(()));
    assert_eq!(interpreter.instruction_pointer, 256);
    assert_eq!(runtime.memory(), &vec![0]);
    let mut interpreter = Interpreter::new(&mut runtime);
    assert_eq!(interpreter.interpret("+", None), Ok(()));
    assert_eq!(runtime.memory(), &vec![1]);
}

#[test]
fn opcodes_run_in_program_order() {
    let mut runtime = Runtime::new(3);
    let mut interpreter = Interpreter::new(&mut runtime);
    assert_eq!(interpreter.interpret("+>,.>-.<<.+.", Some("\t")), Ok(()));
    assert_eq!(interpreter.instruction_pointer, 12);
    assert_eq!(runtime.memory(), &vec![2, 9, 255]);
    assert_eq!(runtime.output(), &vec![9, 255, 1, 2]);
    assert_eq!(runtime.data_pointer(), 0);
}

#[test]
fn byte_that_is_no_opcode_fails_with_invalid_opcode() {
    let mut runtime = Runtime::new(1);
    let mut interpreter = Interpreter::new(&mut runtime);
    assert_eq!(interpreter.interpret("++x+.", None), Err(ExecutionError::InvalidOpcode));
    assert_eq!(interpreter.instruction_pointer, 2);
    assert_eq!(runtime.memory(), &vec![2]);
    assert!(runtime.output().is_empty());
}

#[test]
fn whitespace_and_brackets_are_no_opcodes() {
    for program in [" ", "\n", "[", "]", "+ +", "0"] {
        let mut runtime = Runtime::new(1);
        let mut interpreter = Interpreter::new(&mut runtime);
        assert_eq!(interpreter.interpret(program, None), Err(ExecutionError::InvalidOpcode));
    }
}

#[test]
fn character_outside_ascii_fails_with_invalid_opcode() {
    let mut runtime = Runtime::new(1);
    let mut interpreter = Interpreter::new(&mut runtime);
    assert_eq!(interpreter.interpret("+\u{e9}+", None), Err(ExecutionError::InvalidOpcode));
    assert_eq!(interpreter.instruction_pointer, 1);
    assert_eq!(runtime.memory(), &vec![1]);
}

#[test]
fn failure_keeps_what_the_earlier_opcodes_did() {
    let mut runtime = Runtime::new(2);
    let mut interpreter = Interpreter::new(&mut runtime);
    assert_eq!(interpreter.interpret("+.>,.<-", Some("")), Err(ExecutionError::InputExhausted));
    assert_eq!(interpreter.instruction_pointer, 3);
    assert_eq!(runtime.memory(), &vec![1, 0]);
    assert_eq!(runtime.data_pointer(), 1);
    assert_eq!(runtime.output(), &vec![1]);
}

#[test]
fn instruction_pointer_restarts_at_zero_on_every_run() {
    let mut runtime = Runtime::new(1);
    let mut interpreter = Interpreter::new(&mut runtime);
    assert_eq!(interpreter.interpret("+++", None), Ok(()));
    assert_eq!(interpreter.instruction_pointer, 3);
    assert_eq!(interpreter.interpret("+", None), Ok(()));
    assert_eq!(interpreter.instruction_pointer, 1);
    assert_eq!(interpreter.interpret("<", None), Err(ExecutionError::CursorUnderflow));
    assert_eq!(interpreter.instruction_pointer, 0);
    assert_eq!(runtime.memory(), &vec![4]);
}

#[test]
fn machine_state_persists_across_runs() {
    let mut runtime = Runtime::new(2);
    let mut interpreter = Interpreter::new(&mut runtime);
    assert_eq!(interpreter.interpret("+>", None), Ok(()));
    assert_eq!(interpreter.interpret("++.", None), Ok(()));
    assert_eq!(interpreter.interpret("<.", None), Ok(()));
    assert_eq!(runtime.memory(), &vec![1, 2]);
    assert_eq!(runtime.output(), &vec![2, 1]);
}

#[test]
fn input_text_is_read_as_its_utf8_bytes() {
    let mut runtime = Runtime::new(2);
    let mut interpreter = Interpreter::new(&mut runtime);
    assert_eq!(interpreter.interpret(",>,", Some("\u{e9}")), Ok(()));
    assert_eq!(runtime.memory(), &vec![0xc3, 0xa9]);
}

#[test]
fn errors_compare_and_copy() {
    let error = ExecutionError::InvalidOpcode;
    let copy = error;
    assert_eq!(error, copy);
    assert_ne!(ExecutionError::CursorOverflow, ExecutionError::CursorUnderflow);
    assert_ne!(ExecutionError::InputExhausted, ExecutionError::InvalidOpcode);
    assert_eq!(format!("{:?}", ExecutionError::InputExhausted), "InputExhausted");
}

#[test]
fn output_emitted_before_a_failure_can_still_be_taken() {
    let mut runtime = Runtime::new(1);
    let mut interpreter = Interpreter::new(&mut runtime);
    assert_eq!(interpreter.interpret("+.+.<.", None), Err(ExecutionError::CursorUnderflow));
    assert_eq!(interpreter.instruction_pointer, 4);
    assert_eq!(runtime.take_output(), vec![1, 2]);
    assert!(runtime.output().is_empty());
    assert_eq!(runtime.memory(), &vec![2]);
}

#[test]
fn every_opcode_alone_on_a_fresh_three_cell_tape() {
    let cases: [(&str, Result<(), ExecutionError>, usize, Vec<u8>, Vec<u8>); 6] = [
        (">", Ok(()), 1, vec![0, 0, 0], vec![]),
        ("<", Err(ExecutionError::CursorUnderflow), 0, vec![0, 0, 0], vec![]),
        ("+", Ok(()), 0, vec![1, 0, 0], vec![]),
        ("-", Ok(()), 0, vec![255, 0, 0], vec![]),
        (".", Ok(()), 0, vec![0, 0, 0], vec![0]),
        (",", Ok(()), 0, vec![b'k', 0, 0], vec![]),
    ];
    for (program, expected, cursor, tape, emitted) in cases {
        let mut runtime = Runtime::new(3);
        let mut interpreter = Interpreter::new(&mut runtime);
        assert_eq!(interpreter.interpret(program, Some("k")), expected);
        assert_eq!(runtime.data_pointer(), cursor);
        assert_eq!(runtime.memory(), &tape);
        assert_eq!(runtime.output(), &emitted);
    }
}
