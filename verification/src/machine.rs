use crate::error::ExecutionError;
use vstd::prelude::*;

verus! {

/// Opcode `>`: move the cursor one cell to the right.
pub const MOVE_RIGHT: u8 = 62;

/// Opcode `<`: move the cursor one cell to the left.
pub const MOVE_LEFT: u8 = 60;

/// Opcode `+`: add one to the cell under the cursor, modulo 256.
pub const INCREMENT: u8 = 43;

/// Opcode `-`: subtract one from the cell under the cursor, modulo 256.
pub const DECREMENT: u8 = 45;

/// Opcode `.`: emit the cell under the cursor.
pub const WRITE: u8 = 46;

/// Opcode `,`: store the next input byte in the cell under the cursor.
pub const READ: u8 = 44;

/// The machine as a mathematical value.
pub struct MachineState {
    /// The cells, in order.
    pub tape: Seq<u8>,
    /// The index of the cell that the primitives act on.
    pub cursor: nat,
    /// The input bytes that have not been consumed yet, next one first.
    pub input: Seq<u8>,
    /// Every byte emitted so far and not yet collected, oldest first.
    pub output: Seq<u8>,
}

impl MachineState {
    /// The cursor denotes a cell of the tape.
    pub open spec fn valid(self) -> bool {
        self.cursor < self.tape.len()
    }

    /// A machine of `length` zeroed cells, cursor on cell 0, with no input
    /// and nothing emitted.
    pub open spec fn fresh(length: nat) -> MachineState {
        MachineState {
            tape: Seq::new(length, |i: int| 0u8),
            cursor: 0,
            input: Seq::empty(),
            output: Seq::empty(),
        }
    }

    /// The cell under the cursor.
    pub open spec fn cell(self) -> u8 {
        self.tape[self.cursor as int]
    }

    /// The same machine with `value` in the cell under the cursor.
    pub open spec fn store(self, value: u8) -> MachineState {
        MachineState { tape: self.tape.update(self.cursor as int, value), ..self }
    }

    /// The same machine with `input` in place of whatever input it had.
    pub open spec fn replace_input(self, input: Seq<u8>) -> MachineState {
        MachineState { input, ..self }
    }

    /// The same machine with an empty output record.
    pub open spec fn clear_output(self) -> MachineState {
        MachineState { output: Seq::empty(), ..self }
    }

    /// The cursor one cell further right, or `CursorOverflow` where it
    /// stands on the last cell.
    pub open spec fn move_right(self) -> Result<MachineState, ExecutionError> {
        if self.cursor + 1 < self.tape.len() {
            Ok(MachineState { cursor: self.cursor + 1, ..self })
        } else {
            Err(ExecutionError::CursorOverflow)
        }
    }

    /// The cursor one cell further left, or `CursorUnderflow` where it
    /// stands on cell 0.
    pub open spec fn move_left(self) -> Result<MachineState, ExecutionError> {
        if self.cursor > 0 {
            Ok(MachineState { cursor: (self.cursor - 1) as nat, ..self })
        } else {
            Err(ExecutionError::CursorUnderflow)
        }
    }

    /// One more in the cell under the cursor, modulo 256.
    pub open spec fn increment(self) -> MachineState {
        self.store(((self.cell() + 1) % 256) as u8)
    }

    /// One less in the cell under the cursor, modulo 256.
    pub open spec fn decrement(self) -> MachineState {
        self.store(((self.cell() + 255) % 256) as u8)
    }

    /// The next input byte consumed and stored in the cell under the
    /// cursor, or `InputExhausted` where no byte is left.
    pub open spec fn read(self) -> Result<MachineState, ExecutionError> {
        if self.input.len() > 0 {
            Ok(MachineState { input: self.input.skip(1), ..self.store(self.input[0]) })
        } else {
            Err(ExecutionError::InputExhausted)
        }
    }

    /// The cell under the cursor appended to the output record.
    pub open spec fn write(self) -> MachineState {
        MachineState { output: self.output.push(self.cell()), ..self }
    }

    /// What one opcode does. A byte that is no opcode is refused: it is not
    /// skipped as a comment.
    pub open spec fn step(self, opcode: u8) -> Result<MachineState, ExecutionError> {
        if opcode == MOVE_RIGHT {
            self.move_right()
        } else if opcode == MOVE_LEFT {
            self.move_left()
        } else if opcode == INCREMENT {
            Ok(self.increment())
        } else if opcode == DECREMENT {
            Ok(self.decrement())
        } else if opcode == WRITE {
            Ok(self.write())
        } else if opcode == READ {
            self.read()
        } else {
            Err(ExecutionError::InvalidOpcode)
        }
    }

    /// What one character of program text does: what its byte does where it
    /// is a character of ASCII, and a refusal where it is not.
    pub open spec fn step_char(self, symbol: char) -> Result<MachineState, ExecutionError> {
        if symbol as u32 <= 0x7f {
            self.step(symbol as u8)
        } else {
            Err(ExecutionError::InvalidOpcode)
        }
    }

    /// What a whole program does: its opcodes in order, up to the end or to
    /// the first one that fails.
    pub open spec fn run(self, program: Seq<u8>) -> Outcome
        decreases program.len(),
    {
        if program.len() == 0 {
            Outcome { state: self, executed: 0, result: Ok(()) }
        } else {
            match self.step(program[0]) {
                Ok(next) => {
                    let rest = next.run(program.skip(1));
                    Outcome { executed: rest.executed + 1, ..rest }
                },
                Err(error) => Outcome { state: self, executed: 0, result: Err(error) },
            }
        }
    }

    /// What a program given as text does: its characters in order, up to the
    /// end or to the first one that fails.
    pub open spec fn run_text(self, text: Seq<char>) -> Outcome
        decreases text.len(),
    {
        if text.len() == 0 {
            Outcome { state: self, executed: 0, result: Ok(()) }
        } else {
            match self.step_char(text[0]) {
                Ok(next) => {
                    let rest = next.run_text(text.drop_first());
                    Outcome { executed: rest.executed + 1, ..rest }
                },
                Err(error) => Outcome { state: self, executed: 0, result: Err(error) },
            }
        }
    }
}

/// How a run ended.
pub struct Outcome {
    /// The machine after the last opcode that succeeded.
    pub state: MachineState,
    /// How many opcodes succeeded; after a failure, the index of the opcode
    /// that failed.
    pub executed: nat,
    /// `Ok` at the end of the program, else the first failure.
    pub result: Result<(), ExecutionError>,
}

} // verus!
