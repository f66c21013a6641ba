//! The plain form of the command `add`: a language and a program, with no
//! editor to write for.
use crate::error::ConfigError;
use vstd::prelude::*;

verus! {

/// The command `add` without a target: it only checks what it was given.
#[derive(Debug)]
pub struct FnAdd {
    /// The language, by which the debugger would be chosen.
    pub language: String,
    /// The program, then its arguments.
    pub program_args: Vec<String>,
}

impl FnAdd {
    /// Accepts the command exactly when it names a program.
    pub fn run(&self) -> (r: Result<(), ConfigError>)
        ensures
            match r {
                Ok(_) => self.program_args@.len() > 0,
                Err(e) => self.program_args@.len() == 0 && e is NoProgram,
            },
    {
        if self.program_args.is_empty() {
            return Err(ConfigError::NoProgram);
        }
        Ok(())
    }
}

} // verus!
