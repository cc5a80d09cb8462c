use crate::error::ExecutionError;
use crate::machine::{DECREMENT, INCREMENT, MOVE_LEFT, MOVE_RIGHT, READ, WRITE};
use crate::runtime::Runtime;
use vstd::prelude::*;
use vstd::string::StringSliceAdditionalSpecFns;

verus! {

/// The dispatcher: it borrows a runtime for a session and runs programs
/// against it, one opcode at a time.
pub struct Interpreter<'a> {
    /// The machine that the programs act on.
    pub runtime: &'a mut Runtime,
    /// The index of the next opcode of the program being run; after a run,
    /// how many opcodes of it succeeded.
    pub instruction_pointer: usize,
}

impl<'a> Interpreter<'a> {
    /// A dispatcher on `runtime`, which it leaves as it found it.
    pub fn new(runtime: &'a mut Runtime) -> (interpreter: Interpreter<'a>)
        ensures
            *interpreter.runtime == *old(runtime),
            *final(interpreter.runtime) == *final(runtime),
            interpreter.instruction_pointer == 0,
    {
        Interpreter { runtime, instruction_pointer: 0 }
    }

    /// Runs `code`, byte by byte, from its first opcode to its end or to the
    /// first opcode that fails.
    ///
    /// Where `input` is given, its bytes first replace whatever input the
    /// machine had; where it is not, the machine goes on with what was left.
    /// A failure stops the run at once: the machine stays as the opcodes
    /// before the failing one left it, and the instruction pointer stays on
    /// the failing opcode. A byte that is none of the six opcodes fails with
    /// `InvalidOpcode`, and so does every character outside ASCII, on its
    /// first byte: by `lemma_run_of_utf8_is_run_of_text` the run of the bytes
    /// is the run of the characters.
    ///
    /// The interpreter goes on borrowing the runtime that it was made with.
    pub fn interpret(&mut self, code: &str, input: Option<&str>) -> (result: Result<
        (),
        ExecutionError,
    >)
        ensures
            final(self).runtime@.valid(),
            ({
                let start = match input {
                    Some(text) => old(self).runtime@.replace_input(text.spec_bytes()),
                    None => old(self).runtime@,
                };
                let outcome = start.run(code.spec_bytes());
                &&& final(self).runtime@ == outcome.state
                &&& final(self).instruction_pointer == outcome.executed
                &&& result == outcome.result
            }),
            *final(final(self).runtime) == *final(old(self).runtime),
    {
        let code_bytes = code.as_bytes();
        if let Some(text) = input {
            self.runtime.replace_input(text.as_bytes());
        }
        self.instruction_pointer = 0;
        let ghost start = self.runtime@;
        let ghost program = code_bytes@;
        proof {
            use_type_invariant(&*self.runtime);
            self.runtime.lemma_well_formed_is_valid();
            assert(program.skip(0) =~= program);
        }

        while self.instruction_pointer < code_bytes.len()
            invariant
                program == code_bytes@,
                program == code.spec_bytes(),
                start == match input {
                    Some(text) => old(self).runtime@.replace_input(text.spec_bytes()),
                    None => old(self).runtime@,
                },
                self.instruction_pointer <= program.len(),
                self.runtime@.valid(),
                ({
                    let rest = self.runtime@.run(program.skip(self.instruction_pointer as int));
                    let whole = start.run(program);
                    &&& whole.state == rest.state
                    &&& whole.executed == self.instruction_pointer + rest.executed
                    &&& whole.result == rest.result
                }),
                *final(self.runtime) == *final(old(self).runtime),
            decreases program.len() - self.instruction_pointer,
        {
            let opcode: u8 = code_bytes[self.instruction_pointer];
            let ghost remaining = program.skip(self.instruction_pointer as int);
            assert(remaining.len() > 0 && remaining[0] == opcode);
            assert(remaining.skip(1) =~= program.skip(self.instruction_pointer + 1));
            let step = if opcode == MOVE_RIGHT {
                self.runtime.increment_data_pointer()
            } else if opcode == MOVE_LEFT {
                self.runtime.decrement_data_pointer()
            } else if opcode == INCREMENT {
                self.runtime.increment_processing_byte();
                Ok(())
            } else if opcode == DECREMENT {
                self.runtime.decrement_processing_byte();
                Ok(())
            } else if opcode == WRITE {
                self.runtime.output_processing_byte();
                Ok(())
            } else if opcode == READ {
                self.runtime.read_input_and_store()
            } else {
                Err(ExecutionError::InvalidOpcode)
            };
            if let Err(error) = step {
                return Err(error);
            }
            self.instruction_pointer += 1;
        }
        Ok(())
    }
}

} // verus!
