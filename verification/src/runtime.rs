use crate::error::ExecutionError;
use crate::machine::MachineState;
use vstd::prelude::*;

verus! {

/// The executable machine state: the tape, the cursor, the input that is
/// being consumed and the bytes emitted so far.
///
/// The cursor always denotes a cell of the tape, and the input position never
/// passes the end of the input; no caller can break either.
pub struct Runtime {
    memory: Vec<u8>,
    data_pointer: usize,
    input: Vec<u8>,
    input_position: usize,
    output: Vec<u8>,
}

impl View for Runtime {
    type V = MachineState;

    closed spec fn view(&self) -> MachineState {
        MachineState {
            tape: self.memory@,
            cursor: self.data_pointer as nat,
            input: self.input@.skip(self.input_position as int),
            output: self.output@,
        }
    }
}

impl Runtime {
    /// Holds of every runtime that executable code can reach.
    #[verifier::type_invariant]
    pub closed spec fn well_formed(self) -> bool {
        &&& self.data_pointer < self.memory.len()
        &&& self.input_position <= self.input.len()
    }

    /// The cursor of a well-formed runtime denotes a cell of its tape.
    pub proof fn lemma_well_formed_is_valid(self)
        requires
            self.well_formed(),
        ensures
            self@.valid(),
    {
    }

    /// A machine with a tape of `memory_size` zeroed cells, the cursor on
    /// cell 0, no input and nothing emitted.
    pub fn new(memory_size: usize) -> (runtime: Runtime)
        requires
            memory_size >= 1,
        ensures
            runtime@ == MachineState::fresh(memory_size as nat),
            runtime@.valid(),
            runtime@.tape.len() == memory_size,
            forall|i: int| 0 <= i < memory_size ==> runtime@.tape[i] == 0,
            runtime@.cursor == 0,
    {
        let runtime = Runtime {
            memory: vec![0u8; memory_size],
            data_pointer: 0,
            input: Vec::new(),
            input_position: 0,
            output: Vec::new(),
        };
        assert(runtime@.tape =~= MachineState::fresh(memory_size as nat).tape);
        assert(runtime@.input =~= MachineState::fresh(memory_size as nat).input);
        runtime
    }

    /// Moves the cursor one cell to the right. On the last cell it fails with
    /// `CursorOverflow` and changes nothing.
    pub fn increment_data_pointer(&mut self) -> (result: Result<(), ExecutionError>)
        ensures
            final(self)@.valid(),
            match result {
                Ok(_) => old(self)@.move_right() == Ok::<MachineState, ExecutionError>(final(self)@),
                Err(error) => old(self)@.move_right() == Err::<MachineState, ExecutionError>(error)
                    && final(self)@ == old(self)@,
            },
    {
        proof {
            use_type_invariant(&*self);
        }
        if self.data_pointer + 1 < self.memory.len() {
            self.data_pointer += 1;
            Ok(())
        } else {
            Err(ExecutionError::CursorOverflow)
        }
    }

    /// Moves the cursor one cell to the left. On cell 0 it fails with
    /// `CursorUnderflow` and changes nothing.
    pub fn decrement_data_pointer(&mut self) -> (result: Result<(), ExecutionError>)
        ensures
            final(self)@.valid(),
            match result {
                Ok(_) => old(self)@.move_left() == Ok::<MachineState, ExecutionError>(final(self)@),
                Err(error) => old(self)@.move_left() == Err::<MachineState, ExecutionError>(error)
                    && final(self)@ == old(self)@,
            },
    {
        proof {
            use_type_invariant(&*self);
        }
        if self.data_pointer > 0 {
            self.data_pointer -= 1;
            Ok(())
        } else {
            Err(ExecutionError::CursorUnderflow)
        }
    }

    /// Adds one to the cell under the cursor; 255 becomes 0.
    pub fn increment_processing_byte(&mut self)
        ensures
            final(self)@.valid(),
            final(self)@ == old(self)@.increment(),
    {
        proof {
            use_type_invariant(&*self);
        }
        let value: u8 = self.memory[self.data_pointer];
        self.memory[self.data_pointer] = value.wrapping_add(1);
    }

    /// Subtracts one from the cell under the cursor; 0 becomes 255.
    pub fn decrement_processing_byte(&mut self)
        ensures
            final(self)@.valid(),
            final(self)@ == old(self)@.decrement(),
    {
        proof {
            use_type_invariant(&*self);
        }
        let value: u8 = self.memory[self.data_pointer];
        self.memory[self.data_pointer] = value.wrapping_sub(1);
    }

    /// Takes the next byte of the input and stores it in the cell under the
    /// cursor. With no byte left it fails with `InputExhausted` and changes
    /// nothing.
    pub fn read_input_and_store(&mut self) -> (result: Result<(), ExecutionError>)
        ensures
            final(self)@.valid(),
            match result {
                Ok(_) => old(self)@.read() == Ok::<MachineState, ExecutionError>(final(self)@),
                Err(error) => old(self)@.read() == Err::<MachineState, ExecutionError>(error)
                    && final(self)@ == old(self)@,
            },
    {
        proof {
            use_type_invariant(&*self);
        }
        if self.input_position < self.input.len() {
            let byte: u8 = self.input[self.input_position];
            self.memory[self.data_pointer] = byte;
            self.input_position += 1;
            assert(self@.input =~= old(self)@.input.skip(1));
            Ok(())
        } else {
            Err(ExecutionError::InputExhausted)
        }
    }

    /// Emits the cell under the cursor: appends it to the output record.
    /// Tape, cursor and input stay as they are.
    pub fn output_processing_byte(&mut self)
        ensures
            final(self)@.valid(),
            final(self)@ == old(self)@.write(),
    {
        proof {
            use_type_invariant(&*self);
        }
        let data: u8 = self.memory[self.data_pointer];
        let mut emitted: Vec<u8> = Vec::new();
        std::mem::swap(&mut emitted, &mut self.output);
        emitted.push(data);
        self.output = emitted;
    }

    /// Makes `input` the whole input: what was left of the earlier input is
    /// dropped, and the next read takes the first byte of `input`.
    pub fn replace_input(&mut self, input: &[u8])
        ensures
            final(self)@.valid(),
            final(self)@ == old(self)@.replace_input(input@),
    {
        proof {
            use_type_invariant(&*self);
        }
        self.input_position = 0;
        self.input = vstd::slice::slice_to_vec(input);
        assert(self@.input =~= input@);
    }

    /// Hands over the bytes emitted since the last call, oldest first, and
    /// empties the output record.
    pub fn take_output(&mut self) -> (emitted: Vec<u8>)
        ensures
            final(self)@.valid(),
            emitted@ == old(self)@.output,
            final(self)@ == old(self)@.clear_output(),
    {
        proof {
            use_type_invariant(&*self);
        }
        let mut emitted: Vec<u8> = Vec::new();
        std::mem::swap(&mut emitted, &mut self.output);
        emitted
    }

    /// The tape.
    pub fn memory(&self) -> (tape: &Vec<u8>)
        ensures
            tape@ == self@.tape,
    {
        &self.memory
    }

    /// The index of the cell under the cursor, always a cell of the tape.
    pub fn data_pointer(&self) -> (cursor: usize)
        ensures
            cursor == self@.cursor,
            self@.valid(),
    {
        proof {
            use_type_invariant(self);
        }
        self.data_pointer
    }

    /// The bytes emitted and not yet taken, oldest first.
    pub fn output(&self) -> (emitted: &Vec<u8>)
        ensures
            emitted@ == self@.output,
    {
        &self.output
    }
}

} // verus!
