//! The dispatch table as a function on mathematical values: which handler
//! an identifier selects, what the handler answers, and what it leaves
//! behind in the driveable resources.

use crate::command::CommandView;
use crate::line::LineState;
use crate::reply::{NackReason, ReplyView};
use vstd::prelude::*;

verus! {

/// Asserts the output line.
pub const LED_ON: u8 = 0x20;

/// Deasserts the output line.
pub const LED_OFF: u8 = 0x21;

/// Asks for the counter.
pub const COUNTER_GET: u8 = 0x30;

/// Carries the counter back.
pub const COUNTER_GET_REPLY: u8 = 0x31;

/// Sets the counter to the one payload byte.
pub const COUNTER_SET: u8 = 0x32;

/// Adds one to the counter.
pub const COUNTER_INC: u8 = 0x33;

/// Takes one from the counter.
pub const COUNTER_DEC: u8 = 0x34;

/// Largest value of the counter.
pub const COUNTER_MAX: u8 = 255;

/// The handler that an identifier selects.
#[derive(Clone, Copy, Debug, PartialEq, Eq, Structural)]
pub enum Route {
    LedOn,
    LedOff,
    CounterGet,
    CounterSet,
    CounterInc,
    CounterDec,
    /// No handler of this device: the protocol engine's built-in commands
    /// decide.
    Default,
}

/// The table itself: device identifiers first, everything else falls through.
pub open spec fn route_of(code: u8) -> Route {
    if code == LED_ON {
        Route::LedOn
    } else if code == LED_OFF {
        Route::LedOff
    } else if code == COUNTER_GET {
        Route::CounterGet
    } else if code == COUNTER_SET {
        Route::CounterSet
    } else if code == COUNTER_INC {
        Route::CounterInc
    } else if code == COUNTER_DEC {
        Route::CounterDec
    } else {
        Route::Default
    }
}

/// Whether the handler behind `code` is one of this device's that takes no
/// argument.
pub open spec fn takes_no_payload(code: u8) -> bool {
    route_of(code) != Route::CounterSet && route_of(code) != Route::Default
}

/// Mathematical value of the driveable resources.
pub struct ResourcesView {
    pub led: LineState,
    pub counter: int,
}

/// Mathematical value of what dispatch hands back.
pub enum RoutedView {
    /// A handler of this device ran; its reply, if it gave one.
    Handled(Option<ReplyView>),
    /// No handler of this device ran.
    Default,
}

/// Result of one dispatch: what goes back, and the resources afterwards.
pub struct Outcome {
    pub routed: RoutedView,
    pub resources: ResourcesView,
}

/// Whether a handler ran and gave a reply.
pub open spec fn answered(routed: RoutedView) -> bool {
    routed matches RoutedView::Handled(Some(_))
}

/// Whether a handler ran and refused the command.
pub open spec fn refused(routed: RoutedView) -> bool {
    routed matches RoutedView::Handled(Some(ReplyView::Nack(_)))
}

/// A handler that answers `reply` and leaves `resources` behind.
pub open spec fn handled(reply: ReplyView, resources: ResourcesView) -> Outcome {
    Outcome { routed: RoutedView::Handled(Some(reply)), resources }
}

/// The resources as they are when the device starts, with the line at `led`.
pub open spec fn at_start(led: LineState) -> ResourcesView {
    ResourcesView { led, counter: 0 }
}

/// Whether the counter is one that eight bits can hold.
pub open spec fn counter_in_range(resources: ResourcesView) -> bool {
    0 <= resources.counter <= COUNTER_MAX
}

/// The frame that carries `counter` back.
pub open spec fn counter_reply(counter: int) -> ReplyView {
    ReplyView::Data(CommandView { code: COUNTER_GET_REPLY, value: seq![counter as u8] })
}

/// What one command does.
pub open spec fn dispatch(command: CommandView, before: ResourcesView) -> Outcome {
    match route_of(command.code) {
        Route::LedOn => handled(
            ReplyView::Ack,
            ResourcesView { led: LineState::Asserted, counter: before.counter },
        ),
        Route::LedOff => handled(
            ReplyView::Ack,
            ResourcesView { led: LineState::Deasserted, counter: before.counter },
        ),
        Route::CounterGet => handled(counter_reply(before.counter), before),
        Route::CounterSet => if command.value.len() == 1 {
            handled(
                ReplyView::Ack,
                ResourcesView { led: before.led, counter: command.value[0] as int },
            )
        } else {
            handled(ReplyView::Nack(NackReason::InvalidArguments), before)
        },
        Route::CounterInc => if before.counter < COUNTER_MAX {
            handled(
                ReplyView::Ack,
                ResourcesView { led: before.led, counter: before.counter + 1 },
            )
        } else {
            handled(ReplyView::Nack(NackReason::OutOfBounds), before)
        },
        Route::CounterDec => if before.counter > 0 {
            handled(
                ReplyView::Ack,
                ResourcesView { led: before.led, counter: before.counter - 1 },
            )
        } else {
            handled(ReplyView::Nack(NackReason::OutOfBounds), before)
        },
        Route::Default => Outcome { routed: RoutedView::Default, resources: before },
    }
}

/// The resources after a whole sequence of commands, first to last.
pub open spec fn run(start: ResourcesView, commands: Seq<CommandView>) -> ResourcesView
    decreases commands.len(),
{
    if commands.len() == 0 {
        start
    } else {
        dispatch(commands.last(), run(start, commands.drop_last())).resources
    }
}

} // verus!
