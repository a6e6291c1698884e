//! Commands as the dispatch table sees them: an identifier and a short
//! payload, held without allocation.

use vstd::prelude::*;

verus! {

/// Longest payload that one frame can carry.
pub const MAX_LEN: usize = 255;

/// Mathematical value of a [`Command`]: its identifier and its payload.
pub struct CommandView {
    pub code: u8,
    pub value: Seq<u8>,
}

/// Why a command could not be built.
#[derive(Clone, Copy, Debug, PartialEq, Eq)]
pub enum NewCommandError {
    /// The payload is longer than [`MAX_LEN`].
    TooLong,
}

/// One command of a validated frame: a one-byte identifier and a payload of
/// at most [`MAX_LEN`] bytes.
#[derive(Clone, Copy, Debug, PartialEq, Eq)]
pub struct Command {
    code: u8,
    length: u8,
    value: [u8; MAX_LEN],
}

impl View for Command {
    type V = CommandView;

    closed spec fn view(&self) -> CommandView {
        CommandView { code: self.code, value: self.value@.subrange(0, self.length as int) }
    }
}

impl Command {
    /// Storage behind the payload is zero, so that two commands with the
    /// same identifier and payload are the same value.
    #[verifier::type_invariant]
    spec fn rest_is_zero(self) -> bool {
        forall|at: int| self.length <= at < MAX_LEN ==> self.value@[at] == 0
    }

    /// Builds a command from an identifier and a copy of `value`, refusing a
    /// payload that no frame can carry.
    pub fn new(code: u8, value: &[u8]) -> (built: Result<Command, NewCommandError>)
        ensures
            value@.len() <= MAX_LEN ==> built.is_ok() && built.unwrap()@ == (CommandView {
                code,
                value: value@,
            }),
            value@.len() > MAX_LEN ==> built == Err::<Command, NewCommandError>(
                NewCommandError::TooLong,
            ),
    {
        if value.len() > MAX_LEN {
            return Err(NewCommandError::TooLong);
        }
        let mut buffer = [0u8;MAX_LEN];
        let mut copied: usize = 0;
        while copied < value.len()
            invariant
                copied <= value@.len() <= MAX_LEN,
                forall|at: int| 0 <= at < copied ==> buffer@[at] == value@[at],
                forall|at: int| copied <= at < MAX_LEN ==> buffer@[at] == 0,
            decreases value@.len() - copied,
        {
            buffer[copied] = value[copied];
            copied += 1;
        }
        let command = Command { code, length: value.len() as u8, value: buffer };
        assert(command@.value =~= value@);
        Ok(command)
    }

    /// The identifier.
    pub fn code(&self) -> (code: u8)
        ensures
            code == self@.code,
    {
        self.code
    }

    /// The number of payload bytes.
    pub fn length(&self) -> (length: u8)
        ensures
            length == self@.value.len(),
    {
        self.length
    }

    /// The payload.
    pub fn value(&self) -> (value: &[u8])
        ensures
            value@ == self@.value,
            value@.len() <= MAX_LEN,
    {
        &self.value[0..self.length as usize]
    }
}

} // verus!
