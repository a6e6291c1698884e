//! What a handler answers: an acknowledgement, a queried value, or a refusal
//! with its reason.

use crate::command::{Command, CommandView};
use vstd::prelude::*;

verus! {

/// Reason byte that this device sends when the counter would leave its range.
pub const OUT_OF_BOUNDS: u8 = 0xFF;

/// Why a command was refused. The two kinds are numbered in different
/// tables and are kept apart here.
#[derive(Clone, Copy, Debug, PartialEq, Eq, Structural)]
pub enum NackReason {
    /// The payload has the wrong shape. The protocol engine numbers this
    /// reason in the table that all its devices share.
    InvalidArguments,
    /// The counter is at the end of its range. This device numbers the
    /// reason itself, as [`OUT_OF_BOUNDS`].
    OutOfBounds,
}

impl NackReason {
    /// The reason byte, for a reason that this device numbers itself.
    pub fn device_code(&self) -> (code: Option<u8>)
        ensures
            *self == NackReason::OutOfBounds ==> code == Some(OUT_OF_BOUNDS),
            *self == NackReason::InvalidArguments ==> code.is_none(),
    {
        match self {
            NackReason::OutOfBounds => Some(OUT_OF_BOUNDS),
            NackReason::InvalidArguments => None,
        }
    }
}

/// Mathematical value of a [`Reply`].
pub enum ReplyView {
    Ack,
    Data(CommandView),
    Nack(NackReason),
}

/// The answer to one command.
#[derive(Clone, Copy, Debug, PartialEq, Eq)]
pub enum Reply {
    /// The command was carried out; nothing more to say.
    Ack,
    /// The command was carried out and asked for a value: the frame that
    /// carries it.
    Data(Command),
    /// The command was refused and nothing was changed.
    Nack(NackReason),
}

impl View for Reply {
    type V = ReplyView;

    open spec fn view(&self) -> ReplyView {
        match self {
            Reply::Ack => ReplyView::Ack,
            Reply::Data(command) => ReplyView::Data(command@),
            Reply::Nack(reason) => ReplyView::Nack(*reason),
        }
    }
}

} // verus!
