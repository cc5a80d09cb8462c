use crate::error::ExecutionError;
use crate::machine::{MachineState, Outcome, MOVE_LEFT, MOVE_RIGHT, READ, WRITE};
use vstd::prelude::*;
use vstd::utf8::*;

verus! {

/// A fresh machine of at least one cell is valid: its tape has the length
/// asked for, every cell holds 0, and the cursor stands on cell 0.
pub proof fn lemma_fresh_is_zeroed(length: nat)
    requires
        length >= 1,
    ensures
        MachineState::fresh(length).valid(),
        MachineState::fresh(length).tape.len() == length,
        forall|i: int| 0 <= i < length ==> MachineState::fresh(length).tape[i] == 0,
        MachineState::fresh(length).cursor == 0,
        MachineState::fresh(length).input.len() == 0,
        MachineState::fresh(length).output.len() == 0,
{
}

/// Incrementing a cell and then decrementing it, with the cursor left where
/// it is, gives back the machine as it was.
pub proof fn lemma_increment_then_decrement(state: MachineState)
    requires
        state.valid(),
    ensures
        state.increment().decrement() == state,
{
    assert(state.increment().decrement().tape =~= state.tape);
}

/// Decrementing a cell and then incrementing it, with the cursor left where
/// it is, gives back the machine as it was.
pub proof fn lemma_decrement_then_increment(state: MachineState)
    requires
        state.valid(),
    ensures
        state.decrement().increment() == state,
{
    assert(state.decrement().increment().tape =~= state.tape);
}

/// Cell arithmetic wraps: incrementing 255 gives 0 and decrementing 0 gives
/// 255; every other value moves by one. No other cell changes, nor the
/// cursor, the input or the output.
pub proof fn lemma_cell_arithmetic_wraps(state: MachineState)
    requires
        state.valid(),
    ensures
        state.cell() == 255 ==> state.increment().cell() == 0,
        state.cell() < 255 ==> state.increment().cell() == state.cell() + 1,
        state.cell() == 0 ==> state.decrement().cell() == 255,
        state.cell() > 0 ==> state.decrement().cell() == state.cell() - 1,
        state.increment() == state.store(state.increment().cell()),
        state.decrement() == state.store(state.decrement().cell()),
{
}

/// Every opcode that succeeds leaves the cursor on a cell of the tape, and
/// the tape as long as it was.
pub proof fn lemma_step_preserves_valid(state: MachineState, opcode: u8)
    requires
        state.valid(),
    ensures
        state.step(opcode) matches Ok(next) ==> next.valid() && next.tape.len()
            == state.tape.len(),
{
}

/// A run, whether it ends or fails, leaves the cursor on a cell of the tape
/// and the tape as long as it was, and executes no more opcodes than the
/// program has: all of them if and only if it does not fail.
pub proof fn lemma_run_preserves_valid(state: MachineState, program: Seq<u8>)
    requires
        state.valid(),
    ensures
        state.run(program).state.valid(),
        state.run(program).state.tape.len() == state.tape.len(),
        state.run(program).executed <= program.len(),
        state.run(program).result is Ok <==> state.run(program).executed == program.len(),
    decreases program.len(),
{
    if program.len() > 0 {
        lemma_step_preserves_valid(state, program[0]);
        match state.step(program[0]) {
            Ok(next) => lemma_run_preserves_valid(next, program.skip(1)),
            Err(_) => {},
        }
    }
}

/// Running one program after another is running the two joined, as long as
/// the first does not fail; where it fails, the run ends there and nothing
/// of the second is executed.
pub proof fn lemma_run_append(state: MachineState, first: Seq<u8>, second: Seq<u8>)
    ensures
        state.run(first + second) == match state.run(first).result {
            Ok(_) => {
                let rest = state.run(first).state.run(second);
                Outcome { executed: first.len() + rest.executed, ..rest }
            },
            Err(_) => state.run(first),
        },
    decreases first.len(),
{
    if first.len() == 0 {
        assert(first + second =~= second);
    } else {
        assert((first + second).skip(1) =~= first.skip(1) + second);
        match state.step(first[0]) {
            Ok(next) => lemma_run_append(next, first.skip(1), second),
            Err(_) => {},
        }
    }
}

/// The first byte of a character outside ASCII, as UTF-8 writes it, is at
/// least 0xC0, and so none of the six opcodes.
proof fn lemma_leading_byte_is_no_opcode(scalar: u32)
    by (bit_vector)
    requires
        scalar > 0x7f,
    ensures
        leading_byte_width_2(scalar) >= 0xC0,
        leading_byte_width_3(scalar) >= 0xC0,
        leading_byte_width_4(scalar) >= 0xC0,
{
}

/// A character of ASCII is written in UTF-8 as the one byte of its number.
proof fn lemma_ascii_is_one_byte(scalar: u32)
    by (bit_vector)
    requires
        scalar <= 0x7f,
    ensures
        leading_byte_width_1(scalar) == scalar as u8,
{
}

/// The number of a character of ASCII is the same taken as a byte.
proof fn lemma_ascii_char_is_its_byte(symbol: char)
    requires
        symbol as u32 <= 0x7f,
    ensures
        symbol as u8 == (symbol as u32) as u8,
{
}

/// Running the UTF-8 bytes of a text one by one is running its characters
/// one by one: the machine ends in the same state, after as many steps, with
/// the same result. A character outside ASCII stops either run where it
/// stands, with `InvalidOpcode`.
pub proof fn lemma_run_of_utf8_is_run_of_text(state: MachineState, text: Seq<char>)
    ensures
        state.run(encode_utf8(text)) == state.run_text(text),
    decreases text.len(),
{
    if text.len() > 0 {
        let scalar = text[0] as u32;
        let head = encode_scalar(scalar);
        let tail = encode_utf8(text.drop_first());
        let bytes = encode_utf8(text);
        assert(bytes == head + tail);
        assert(bytes.len() > 0 && bytes[0] == head[0]);
        if scalar <= 0x7f {
            lemma_ascii_is_one_byte(scalar);
            lemma_ascii_char_is_its_byte(text[0]);
            assert(bytes.skip(1) =~= tail);
            match state.step(bytes[0]) {
                Ok(next) => lemma_run_of_utf8_is_run_of_text(next, text.drop_first()),
                Err(_) => {},
            }
        } else {
            lemma_leading_byte_is_no_opcode(scalar);
        }
    }
}

/// The empty program performs no operation and does not fail.
pub proof fn lemma_empty_program(state: MachineState)
    ensures
        state.run(Seq::empty()) == (Outcome { state, executed: 0, result: Ok(()) }),
{
}

/// Moving left on cell 0 fails with `CursorUnderflow`: the machine stays as
/// it was and nothing that follows in the program is executed.
pub proof fn lemma_left_at_origin_underflows(state: MachineState, rest: Seq<u8>)
    requires
        state.cursor == 0,
    ensures
        state.run(seq![MOVE_LEFT] + rest) == (Outcome {
            state,
            executed: 0,
            result: Err(ExecutionError::CursorUnderflow),
        }),
{
}

/// Moving right on the last cell fails with `CursorOverflow`: the machine
/// stays as it was and nothing that follows in the program is executed.
pub proof fn lemma_right_at_end_overflows(state: MachineState, rest: Seq<u8>)
    requires
        state.cursor + 1 >= state.tape.len(),
    ensures
        state.run(seq![MOVE_RIGHT] + rest) == (Outcome {
            state,
            executed: 0,
            result: Err(ExecutionError::CursorOverflow),
        }),
{
}

/// Where there is a cell to the right of the cursor, moving right and then
/// left succeeds and gives back the machine as it was.
pub proof fn lemma_right_then_left(state: MachineState)
    requires
        state.cursor + 1 < state.tape.len(),
    ensures
        state.run(seq![MOVE_RIGHT, MOVE_LEFT]) == (Outcome { state, executed: 2, result: Ok(()) }),
{
    let program = seq![MOVE_RIGHT, MOVE_LEFT];
    reveal_with_fuel(MachineState::run, 3);
    assert(program.skip(1) =~= seq![MOVE_LEFT]);
    assert(program.skip(1).skip(1) =~= Seq::<u8>::empty());
}

/// Reading with no input left fails with `InputExhausted` before anything
/// else happens: nothing is stored and nothing is emitted.
pub proof fn lemma_read_without_input_fails(state: MachineState, rest: Seq<u8>)
    requires
        state.input.len() == 0,
    ensures
        state.run(seq![READ] + rest) == (Outcome {
            state,
            executed: 0,
            result: Err(ExecutionError::InputExhausted),
        }),
{
}

/// Reading a byte and then writing stores the first input byte under the
/// cursor, consumes it, and emits it exactly once.
pub proof fn lemma_read_then_write_echoes(state: MachineState)
    requires
        state.valid(),
        state.input.len() > 0,
    ensures
        state.run(seq![READ, WRITE]) == (Outcome {
            state: MachineState {
                input: state.input.skip(1),
                output: state.output.push(state.input[0]),
                ..state.store(state.input[0])
            },
            executed: 2,
            result: Ok(()),
        }),
{
    let program = seq![READ, WRITE];
    reveal_with_fuel(MachineState::run, 3);
    assert(program.skip(1) =~= seq![WRITE]);
    assert(program.skip(1).skip(1) =~= Seq::<u8>::empty());
}

/// Two runs of read-then-write, each with an input of its own: the second
/// run reads the first byte of the second input, whatever the first input
/// still held, and each run emits the byte that it read.
pub proof fn lemma_second_input_replaces_first(
    state: MachineState,
    first: Seq<u8>,
    second: Seq<u8>,
)
    requires
        state.valid(),
        first.len() > 0,
        second.len() > 0,
    ensures
        ({
            let one = state.replace_input(first).run(seq![READ, WRITE]);
            let two = one.state.replace_input(second).run(seq![READ, WRITE]);
            &&& one.result is Ok
            &&& one.state.cell() == first[0]
            &&& one.state.output == state.output.push(first[0])
            &&& two.result is Ok
            &&& two.state.cell() == second[0]
            &&& two.state.output == state.output.push(first[0]).push(second[0])
            &&& two.state.input == second.skip(1)
        }),
{
    lemma_read_then_write_echoes(state.replace_input(first));
    let one = state.replace_input(first).run(seq![READ, WRITE]);
    lemma_read_then_write_echoes(one.state.replace_input(second));
}

/// A new input replaces the old one whole: nothing of the old input is left
/// over, and the next read takes the first byte of the new one.
pub proof fn lemma_input_is_replaced(state: MachineState, first: Seq<u8>, second: Seq<u8>)
    ensures
        state.replace_input(first).replace_input(second) == state.replace_input(second),
        state.replace_input(second).input == second,
        second.len() > 0 ==> state.replace_input(first).replace_input(second).read() == Ok::<
            MachineState,
            ExecutionError,
        >(MachineState { input: second.skip(1), ..state.store(second[0]) }),
{
}

} // verus!
