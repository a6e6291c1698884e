//! The command router: the resources it drives, its handlers, and dispatch.

use crate::command::Command;
use crate::line::{Led, LineState};
use crate::model::{
    at_start, counter_reply, dispatch, route_of, ResourcesView, Route, RoutedView, COUNTER_DEC,
    COUNTER_GET, COUNTER_GET_REPLY, COUNTER_INC, COUNTER_MAX, COUNTER_SET, LED_OFF, LED_ON,
};
use crate::reply::{NackReason, Reply, ReplyView};
use vstd::prelude::*;

verus! {

/// Longest payload of a received frame.
pub const RX_MAX_LEN: usize = 255;

/// Longest payload of a frame to send, and the size of the router's scratch
/// buffer.
pub const TX_MAX_LEN: usize = 255;

/// Resources that commands can drive: the output line and the counter.
#[derive(Debug, PartialEq, Eq)]
pub struct DriveableResources {
    led: Led,
    counter: u8,
}

impl View for DriveableResources {
    type V = ResourcesView;

    closed spec fn view(&self) -> ResourcesView {
        ResourcesView { led: self.led@, counter: self.counter as int }
    }
}

impl DriveableResources {
    /// The resources at start: the line as `led` has it, the counter at 0.
    pub fn new(led: Led) -> (resources: Self)
        ensures
            resources@ == at_start(led@),
    {
        Self { led, counter: 0 }
    }

    /// The output line.
    pub fn led(&self) -> (led: &Led)
        ensures
            led@ == self@.led,
    {
        &self.led
    }

    /// The counter.
    pub fn counter(&self) -> (counter: u8)
        ensures
            counter == self@.counter,
    {
        self.counter
    }
}

/// What dispatch hands back.
#[derive(Clone, Copy, Debug, PartialEq, Eq)]
pub enum Routed {
    /// A handler of this device ran; its reply, if it gave one.
    Handled(Option<Reply>),
    /// The identifier is none of this device's: the protocol engine's
    /// built-in commands decide, and nothing was touched.
    Default,
}

impl View for Routed {
    type V = RoutedView;

    open spec fn view(&self) -> RoutedView {
        match self {
            Routed::Handled(Some(reply)) => RoutedView::Handled(Some(reply@)),
            Routed::Handled(None) => RoutedView::Handled(None),
            Routed::Default => RoutedView::Default,
        }
    }
}

/// Whether a handler answered, and with `expected`.
pub open spec fn answers(reply: Option<Reply>, expected: ReplyView) -> bool {
    reply matches Some(given) && given@ == expected
}

/// The handler that `code` selects.
pub fn classify(code: u8) -> (route: Route)
    ensures
        route == route_of(code),
{
    if code == LED_ON {
        Route::LedOn
    } else if code == LED_OFF {
        Route::LedOff
    } else if code == COUNTER_GET {
        Route::CounterGet
    } else if code == COUNTER_SET {
        Route::CounterSet
    } else if code == COUNTER_INC {
        Route::CounterInc
    } else if code == COUNTER_DEC {
        Route::CounterDec
    } else {
        Route::Default
    }
}

/// The router of this device. All it keeps between two commands is a scratch
/// buffer for the reply under construction.
#[derive(Debug)]
pub struct CustomRouter {
    buffer: [u8; TX_MAX_LEN],
}

impl View for CustomRouter {
    type V = Seq<u8>;

    /// The scratch buffer.
    closed spec fn view(&self) -> Seq<u8> {
        self.buffer@
    }
}

/// The scratch buffer after a command that selected `route`, when the counter
/// was `counter` before it.
pub open spec fn scratch_after(scratch: Seq<u8>, route: Route, counter: int) -> Seq<u8> {
    if route == Route::CounterGet {
        scratch.update(0, counter as u8)
    } else {
        scratch
    }
}

impl Default for CustomRouter {
    fn default() -> (router: Self)
        ensures
            router@ == Seq::new(TX_MAX_LEN as nat, |i: int| 0u8),
    {
        Self { buffer: [0;TX_MAX_LEN] }
    }
}

impl CustomRouter {
    /// A router with a cleared scratch buffer.
    pub fn new() -> (router: Self)
        ensures
            router@ == Seq::new(TX_MAX_LEN as nat, |i: int| 0u8),
    {
        Self::default()
    }

    /// Dispatches one command to the handler that its identifier selects.
    /// An identifier that selects none is handed on, with nothing touched.
    pub fn route(&mut self, command: Command, cx: &mut DriveableResources) -> (routed: Routed)
        ensures
            routed@ == dispatch(command@, old(cx)@).routed,
            final(cx)@ == dispatch(command@, old(cx)@).resources,
            final(self)@ == scratch_after(
                old(self)@,
                route_of(command@.code),
                old(cx)@.counter,
            ),
    {
        match classify(command.code()) {
            Route::LedOn => Routed::Handled(self.led_on(&mut cx.led)),
            Route::LedOff => Routed::Handled(self.led_off(&mut cx.led)),
            Route::CounterGet => Routed::Handled(self.counter_get(cx.counter)),
            Route::CounterSet => Routed::Handled(self.counter_set(command, &mut cx.counter)),
            Route::CounterInc => Routed::Handled(self.counter_inc(&mut cx.counter)),
            Route::CounterDec => Routed::Handled(self.counter_dec(&mut cx.counter)),
            Route::Default => Routed::Default,
        }
    }

    /// Asserts the output line.
    pub fn led_on(&mut self, led: &mut Led) -> (reply: Option<Reply>)
        ensures
            final(led)@ == LineState::Asserted,
            answers(reply, ReplyView::Ack),
            final(self)@ == old(self)@,
    {
        led.set_high();
        Some(Reply::Ack)
    }

    /// Deasserts the output line.
    pub fn led_off(&mut self, led: &mut Led) -> (reply: Option<Reply>)
        ensures
            final(led)@ == LineState::Deasserted,
            answers(reply, ReplyView::Ack),
            final(self)@ == old(self)@,
    {
        led.set_low();
        Some(Reply::Ack)
    }

    /// Answers with the counter, in a frame of one payload byte.
    pub fn counter_get(&mut self, counter: u8) -> (reply: Option<Reply>)
        ensures
            answers(reply, counter_reply(counter as int)),
            final(self)@ == old(self)@.update(0, counter),
    {
        self.buffer[0] = counter;
        let reply = Command::new(COUNTER_GET_REPLY, &self.buffer[0..1]).unwrap();
        assert(reply@.value =~= seq![counter]);
        Some(Reply::Data(reply))
    }

    /// Sets the counter to the one byte of the payload; refuses any other
    /// payload and then leaves the counter as it is.
    pub fn counter_set(&mut self, command: Command, counter: &mut u8) -> (reply: Option<Reply>)
        ensures
            command@.value.len() == 1 ==> *final(counter) == command@.value[0] && answers(
                reply,
                ReplyView::Ack,
            ),
            command@.value.len() != 1 ==> *final(counter) == *old(counter) && answers(
                reply,
                ReplyView::Nack(NackReason::InvalidArguments),
            ),
            final(self)@ == old(self)@,
    {
        if command.length() == 1 {
            *counter = command.value()[0];
            Some(Reply::Ack)
        } else {
            Some(Reply::Nack(NackReason::InvalidArguments))
        }
    }

    /// Adds one to the counter; refuses at the top of its range and then
    /// leaves it there.
    pub fn counter_inc(&mut self, counter: &mut u8) -> (reply: Option<Reply>)
        ensures
            *old(counter) < COUNTER_MAX ==> *final(counter) == *old(counter) + 1 && answers(
                reply,
                ReplyView::Ack,
            ),
            *old(counter) == COUNTER_MAX ==> *final(counter) == COUNTER_MAX && answers(
                reply,
                ReplyView::Nack(NackReason::OutOfBounds),
            ),
            final(self)@ == old(self)@,
    {
        match counter.checked_add(1) {
            Some(value) => {
                *counter = value;
                Some(Reply::Ack)
            },
            None => Some(Reply::Nack(NackReason::OutOfBounds)),
        }
    }

    /// Takes one from the counter; refuses at 0 and then leaves it there.
    pub fn counter_dec(&mut self, counter: &mut u8) -> (reply: Option<Reply>)
        ensures
            *old(counter) > 0 ==> *final(counter) == *old(counter) - 1 && answers(
                reply,
                ReplyView::Ack,
            ),
            *old(counter) == 0 ==> *final(counter) == 0 && answers(
                reply,
                ReplyView::Nack(NackReason::OutOfBounds),
            ),
            final(self)@ == old(self)@,
    {
        match counter.checked_sub(1) {
            Some(value) => {
                *counter = value;
                Some(Reply::Ack)
            },
            None => Some(Reply::Nack(NackReason::OutOfBounds)),
        }
    }
}

} // verus!
