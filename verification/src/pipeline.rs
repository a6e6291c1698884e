//! The receive pipeline. An interrupt hands each incoming byte to the
//! protocol engine and asks whether a frame is now complete; if so it queues
//! a deferred task, which processes the frame and discards it. Both work on
//! the engine under one lock, so their steps never interleave: each is one
//! event here.

use vstd::prelude::*;

verus! {

/// Where the pipeline is in the cycle of one frame.
#[derive(Clone, Copy, Debug, PartialEq, Eq, Structural)]
pub enum Stage {
    /// No byte of a frame has come yet.
    Idle,
    /// Bytes have come, the frame is not complete.
    Receiving,
    /// The engine holds a complete, valid frame.
    FrameReady,
    /// The deferred task is queued or running.
    Processing,
}

/// One step of the interrupt handler or of the deferred task.
pub enum Event {
    /// The interrupt handed a byte to the engine.
    ByteFed,
    /// The interrupt asked the engine whether a frame is complete, and this
    /// is the answer.
    FramePolled(bool),
    /// The interrupt queued the deferred task.
    TaskQueued,
    /// The deferred task went through the frame and discarded it.
    FrameProcessed,
}

/// What the interrupt handler does before it returns.
#[derive(Clone, Copy, Debug, PartialEq, Eq, Structural)]
pub enum Action {
    /// Nothing: the frame is not complete yet.
    Return,
    /// Queue the deferred task.
    Spawn,
}

/// The stage after one event.
pub open spec fn next(stage: Stage, event: Event) -> Stage {
    match event {
        Event::ByteFed => Stage::Receiving,
        Event::FramePolled(complete) => if stage == Stage::Receiving && complete {
            Stage::FrameReady
        } else {
            stage
        },
        Event::TaskQueued => if stage == Stage::FrameReady {
            Stage::Processing
        } else {
            stage
        },
        Event::FrameProcessed => Stage::Idle,
    }
}

/// The stage after a sequence of events, first to last.
pub open spec fn stage_after(start: Stage, events: Seq<Event>) -> Stage
    decreases events.len(),
{
    if events.len() == 0 {
        start
    } else {
        next(stage_after(start, events.drop_last()), events.last())
    }
}

/// Whether a complete frame waits for the deferred task in this stage.
pub open spec fn holds_frame(stage: Stage) -> bool {
    stage == Stage::FrameReady || stage == Stage::Processing
}

/// The two steps with which the interrupt handler takes a byte: it feeds
/// the byte to the engine and asks whether a frame is now complete.
pub open spec fn arrival(complete: bool) -> Seq<Event> {
    seq![Event::ByteFed, Event::FramePolled(complete)]
}

/// Whether the engine has reported a complete frame and nothing has touched
/// that frame since.
pub open spec fn frame_is_whole(events: Seq<Event>) -> bool {
    exists|at: int|
        0 <= at < events.len() && #[trigger] events[at] == Event::FramePolled(true)
            && untouched_from(events, at)
}

/// Whether, at `from` and later, no byte was fed and no frame was discarded.
pub open spec fn untouched_from(events: Seq<Event>, from: int) -> bool {
    forall|later: int|
        from <= later < events.len() ==> #[trigger] events[later] != Event::ByteFed
            && events[later] != Event::FrameProcessed
}

/// The pipeline of one device.
#[derive(Debug, PartialEq, Eq)]
pub struct Pipeline {
    stage: Stage,
}

impl View for Pipeline {
    type V = Stage;

    closed spec fn view(&self) -> Stage {
        self.stage
    }
}

impl Pipeline {
    /// A pipeline that has seen nothing yet.
    pub fn new() -> (pipeline: Self)
        ensures
            pipeline@ == Stage::Idle,
    {
        Pipeline { stage: Stage::Idle }
    }

    /// The current stage.
    pub fn stage(&self) -> (stage: Stage)
        ensures
            stage == self@,
    {
        self.stage
    }

    /// The interrupt handler's decision. It has handed a byte to the engine,
    /// which accepted it or not (`_fed`), and has then asked whether a frame
    /// is complete (`complete`). A byte that the engine refused changes
    /// nothing in what follows: the task is to be queued exactly when a frame
    /// is complete.
    pub fn byte_received(&mut self, _fed: bool, complete: bool) -> (action: Action)
        ensures
            final(self)@ == stage_after(old(self)@, arrival(complete)),
            final(self)@ == (if complete {
                Stage::FrameReady
            } else {
                Stage::Receiving
            }),
            action == (if complete {
                Action::Spawn
            } else {
                Action::Return
            }),
    {
        proof {
            lemma_arrival(self.stage, complete);
        }
        if complete {
            self.stage = Stage::FrameReady;
            Action::Spawn
        } else {
            self.stage = Stage::Receiving;
            Action::Return
        }
    }

    /// The interrupt handler has asked for the deferred task. Whether the
    /// request was taken or the task was queued already (`_queued`), a task
    /// is now due for the frame that is ready.
    pub fn task_queued(&mut self, _queued: bool)
        ensures
            final(self)@ == next(old(self)@, Event::TaskQueued),
    {
        match self.stage {
            Stage::FrameReady => {
                self.stage = Stage::Processing;
            },
            _ => {},
        }
    }

    /// The deferred task has run: whether or not the engine could process
    /// the frame (`_processed`), the frame is gone and the cycle starts over.
    pub fn frame_processed(&mut self, _processed: bool)
        ensures
            final(self)@ == next(old(self)@, Event::FrameProcessed),
            final(self)@ == Stage::Idle,
    {
        self.stage = Stage::Idle;
    }
}

/// Taking a byte ends in `FrameReady` if the frame is complete and in
/// `Receiving` if not, wherever it started.
pub proof fn lemma_arrival(start: Stage, complete: bool)
    ensures
        stage_after(start, arrival(complete)) == (if complete {
            Stage::FrameReady
        } else {
            Stage::Receiving
        }),
{
    let first = arrival(complete).drop_last();
    assert(first.drop_last().len() == 0);
    assert(stage_after(start, first) == Stage::Receiving);
}

/// From the start of the device on, the pipeline holds a frame for the
/// deferred task only while that frame is whole: the engine has reported it
/// complete, and since then no byte has been fed and nothing was discarded.
pub proof fn lemma_processing_sees_a_whole_frame(events: Seq<Event>)
    ensures
        holds_frame(stage_after(Stage::Idle, events)) ==> frame_is_whole(events),
    decreases events.len(),
{
    if events.len() > 0 && holds_frame(stage_after(Stage::Idle, events)) {
        let earlier = events.drop_last();
        if stage_after(Stage::Idle, earlier) == Stage::Receiving {
            // The poll that has just found the frame complete.
            let at: int = events.len() - 1;
            assert(events[at] == Event::FramePolled(true));
            assert(untouched_from(events, at));
        } else {
            // The frame was whole before, and the last event left it alone.
            lemma_processing_sees_a_whole_frame(earlier);
            let at: int = choose|at: int|
                0 <= at < earlier.len() && #[trigger] earlier[at] == Event::FramePolled(true)
                    && untouched_from(earlier, at);
            assert(events[at] == earlier[at]);
            assert forall|later: int| at <= later < events.len() implies #[trigger] events[later]
                != Event::ByteFed && events[later] != Event::FrameProcessed by {
                if later < earlier.len() {
                    assert(events[later] == earlier[later]);
                }
            }
        }
    }
}

} // verus!
