//! What holds of dispatch for every command and every state of the
//! resources.

use crate::command::CommandView;
use crate::line::LineState;
use crate::model::{
    answered, at_start, counter_in_range, dispatch, handled, refused, route_of, run,
    takes_no_payload, Outcome, ResourcesView, Route, RoutedView, COUNTER_DEC, COUNTER_INC,
    COUNTER_MAX, COUNTER_SET, LED_OFF, LED_ON,
};
use crate::reply::{NackReason, ReplyView};
use vstd::prelude::*;

verus! {

/// A handler that takes no argument does not read the payload: whatever
/// bytes come with the command, the reply and the resources afterwards are
/// the same.
pub proof fn lemma_payload_is_not_read(
    code: u8,
    first: Seq<u8>,
    second: Seq<u8>,
    before: ResourcesView,
)
    requires
        takes_no_payload(code),
    ensures
        dispatch(CommandView { code, value: first }, before) == dispatch(
            CommandView { code, value: second },
            before,
        ),
{
}

/// No command takes the counter out of the range of eight bits.
pub proof fn lemma_counter_stays_in_range(command: CommandView, before: ResourcesView)
    requires
        counter_in_range(before),
    ensures
        counter_in_range(dispatch(command, before).resources),
{
}

/// Whatever commands the device has seen since it started, its counter is
/// between 0 and 255.
pub proof fn lemma_counter_in_range_since_start(led: LineState, commands: Seq<CommandView>)
    ensures
        counter_in_range(run(at_start(led), commands)),
    decreases commands.len(),
{
    if commands.len() > 0 {
        lemma_counter_in_range_since_start(led, commands.drop_last());
        lemma_counter_stays_in_range(commands.last(), run(at_start(led), commands.drop_last()));
    }
}

/// At 255 an increment is refused as out of bounds and changes nothing.
pub proof fn lemma_increment_is_refused_at_the_top(value: Seq<u8>, before: ResourcesView)
    requires
        before.counter == COUNTER_MAX,
    ensures
        dispatch(CommandView { code: COUNTER_INC, value }, before) == handled(
            ReplyView::Nack(NackReason::OutOfBounds),
            before,
        ),
{
}

/// At 0 a decrement is refused as out of bounds and changes nothing.
pub proof fn lemma_decrement_is_refused_at_zero(value: Seq<u8>, before: ResourcesView)
    requires
        before.counter == 0,
    ensures
        dispatch(CommandView { code: COUNTER_DEC, value }, before) == handled(
            ReplyView::Nack(NackReason::OutOfBounds),
            before,
        ),
{
}

/// Setting the counter takes exactly one byte, which becomes the counter;
/// with any other payload it is refused for its arguments and changes
/// nothing.
pub proof fn lemma_counter_set_takes_one_byte(value: Seq<u8>, before: ResourcesView)
    ensures
        value.len() == 1 ==> dispatch(CommandView { code: COUNTER_SET, value }, before) == handled(
            ReplyView::Ack,
            ResourcesView { led: before.led, counter: value[0] as int },
        ),
        value.len() != 1 ==> dispatch(CommandView { code: COUNTER_SET, value }, before) == handled(
            ReplyView::Nack(NackReason::InvalidArguments),
            before,
        ),
{
}

/// Asserting the line twice, or deasserting it twice, is acknowledged both
/// times, and the second time leaves the resources as the first did.
pub proof fn lemma_line_command_is_idempotent(
    code: u8,
    first: Seq<u8>,
    second: Seq<u8>,
    before: ResourcesView,
)
    requires
        code == LED_ON || code == LED_OFF,
    ensures
        ({
            let once = dispatch(CommandView { code, value: first }, before);
            let twice = dispatch(CommandView { code, value: second }, once.resources);
            &&& once.routed == RoutedView::Handled(Some(ReplyView::Ack))
            &&& twice.routed == RoutedView::Handled(Some(ReplyView::Ack))
            &&& twice.resources == once.resources
        }),
{
}

/// A command that is refused leaves the resources exactly as they were.
pub proof fn lemma_refusal_changes_nothing(command: CommandView, before: ResourcesView)
    requires
        refused(dispatch(command, before).routed),
    ensures
        dispatch(command, before).resources == before,
{
}

/// An identifier that is none of this device's is handed on, and the
/// resources stay exactly as they were.
pub proof fn lemma_foreign_identifier_falls_through(command: CommandView, before: ResourcesView)
    requires
        route_of(command.code) == Route::Default,
    ensures
        dispatch(command, before) == (Outcome { routed: RoutedView::Default, resources: before }),
{
}

/// A handler of this device always answers: with an acknowledgement, a
/// value, or a refusal.
pub proof fn lemma_handler_always_answers(command: CommandView, before: ResourcesView)
    requires
        route_of(command.code) != Route::Default,
    ensures
        answered(dispatch(command, before).routed),
{
}

} // verus!
