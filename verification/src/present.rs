//! The presentation driver: what the loop that owns the display does next.
//!
//! The loop polls the pending events, receives a filled buffer, submits it
//! to the device, sends it back for reuse, presents and cleans up, and
//! begins again. This module decides; the caller performs each command and
//! reports how it went.

use crate::event::{requests_exit, EventHandler, PolledEvent};
use vstd::prelude::*;

verus! {

/// Where the loop stands within a frame.
#[derive(Debug, Clone, Copy, PartialEq, Eq, Structural)]
pub enum Phase {
    /// About to poll the pending events.
    Polling,
    /// About to receive the next ready buffer.
    Receiving,
    /// Holding a buffer that is about to be submitted.
    Submitting,
    /// Holding a submitted buffer that is about to be sent back.
    Returning,
    /// About to present the frame and clean up.
    Presenting,
    /// The loop has ended.
    Terminated,
}

/// What the caller is to do next.
#[derive(Debug, Clone, Copy, PartialEq, Eq, Structural)]
pub enum Command {
    /// Poll the pending events and hand them over.
    PollEvents,
    /// Receive a buffer from the ready conduit, waiting for one if need be.
    RecvReady,
    /// Submit the commands of the buffer in hand to the device.
    Submit,
    /// Send the buffer in hand back into the free conduit.
    SendFree,
    /// Present the frame and let the device clean up.
    PresentAndCleanup,
    /// Leave the loop.
    Stop,
}

/// What the caller reports back.
#[derive(Debug, Clone, Copy, PartialEq, Eq, Structural)]
pub enum Signal {
    /// Every polled event was handled and none asked to stop.
    EventsAccepted,
    /// The handler asked to stop.
    EventRefused,
    /// A ready buffer was received.
    BufferReceived,
    /// The ready conduit is closed: the simulation is gone.
    ReadyClosed,
    /// The device took the buffer's commands.
    Submitted,
    /// The device failed to take the buffer's commands.
    SubmissionFailed,
    /// The buffer is back in the free conduit.
    Returned,
    /// The free conduit is closed: the simulation is gone.
    ReturnFailed,
    /// The frame was presented and the device cleaned up.
    Presented,
}

/// The stages of a loop's life.
#[derive(Debug, Clone, Copy, PartialEq, Eq, Structural)]
pub enum Lifecycle {
    /// Frames come and go.
    Running,
    /// The other side is known to be gone; what is in flight is finished.
    Draining,
    /// The loop has ended.
    Terminated,
}

/// The state of the presentation loop, as a mathematical value.
pub struct LoopState {
    /// Where the loop stands within a frame.
    pub phase: Phase,
    /// Whether a buffer could not be sent back, the simulation being gone.
    pub draining: bool,
}

impl Phase {
    /// The command that belongs to the phase.
    pub open spec fn command(self) -> Command {
        match self {
            Phase::Polling => Command::PollEvents,
            Phase::Receiving => Command::RecvReady,
            Phase::Submitting => Command::Submit,
            Phase::Returning => Command::SendFree,
            Phase::Presenting => Command::PresentAndCleanup,
            Phase::Terminated => Command::Stop,
        }
    }
}

impl LoopState {
    /// The state before the first frame.
    pub open spec fn initial() -> LoopState {
        LoopState { phase: Phase::Polling, draining: false }
    }

    /// The state after `signal`. A refused event, a closed ready conduit
    /// and a failed submission end the loop. A buffer that cannot be sent
    /// back does not: the frame is finished, and the loop ends when the
    /// ready conduit runs dry. A signal that does not answer the command of
    /// the phase changes nothing.
    pub open spec fn after(self, signal: Signal) -> LoopState {
        match (self.phase, signal) {
            (Phase::Polling, Signal::EventsAccepted) => LoopState {
                phase: Phase::Receiving,
                ..self
            },
            (Phase::Polling, Signal::EventRefused) => LoopState {
                phase: Phase::Terminated,
                ..self
            },
            (Phase::Receiving, Signal::BufferReceived) => LoopState {
                phase: Phase::Submitting,
                ..self
            },
            (Phase::Receiving, Signal::ReadyClosed) => LoopState {
                phase: Phase::Terminated,
                ..self
            },
            (Phase::Submitting, Signal::Submitted) => LoopState { phase: Phase::Returning, ..self },
            (Phase::Submitting, Signal::SubmissionFailed) => LoopState {
                phase: Phase::Terminated,
                ..self
            },
            (Phase::Returning, Signal::Returned) => LoopState { phase: Phase::Presenting, ..self },
            (Phase::Returning, Signal::ReturnFailed) => LoopState {
                phase: Phase::Presenting,
                draining: true,
            },
            (Phase::Presenting, Signal::Presented) => LoopState { phase: Phase::Polling, ..self },
            _ => self,
        }
    }

    /// The stage of its life that the loop is in.
    pub open spec fn lifecycle(self) -> Lifecycle {
        if self.phase == Phase::Terminated {
            Lifecycle::Terminated
        } else if self.draining {
            Lifecycle::Draining
        } else {
            Lifecycle::Running
        }
    }

    /// The state after a run of signals, taken in order.
    pub open spec fn after_all(self, signals: Seq<Signal>) -> LoopState
        decreases signals.len(),
    {
        if signals.len() == 0 {
            self
        } else {
            self.after_all(signals.drop_last()).after(signals.last())
        }
    }
}

/// A loop that has ended stays ended: whatever is reported afterwards, the
/// command is to stop, so no buffer is received or submitted any more.
pub proof fn lemma_terminated_is_final(state: LoopState, signals: Seq<Signal>)
    requires
        state.phase == Phase::Terminated,
    ensures
        state.after_all(signals) == state,
        state.after_all(signals).phase.command() == Command::Stop,
    decreases signals.len(),
{
    if signals.len() > 0 {
        lemma_terminated_is_final(state, signals.drop_last());
    }
}

/// A loop never goes back from draining to running, nor from terminated to
/// anything else.
pub proof fn lemma_lifecycle_moves_forward(state: LoopState, signal: Signal)
    ensures
        state.lifecycle() == Lifecycle::Terminated ==> state.after(signal).lifecycle()
            == Lifecycle::Terminated,
        state.lifecycle() == Lifecycle::Draining ==> state.after(signal).lifecycle()
            != Lifecycle::Running,
{
}

/// Whether `handlers` tells the states of a handler from `before` to
/// `after` as it is handed the first `handled` of the events, one by one
/// and in order: it accepted every one of them but the last, and the last
/// as well unless `refused`.
pub open spec fn handed_through<Ev, E: EventHandler<Ev>>(
    handlers: Seq<E>,
    before: E,
    events: Seq<Ev>,
    handled: int,
    after: E,
    refused: bool,
) -> bool {
    &&& handlers.len() == handled + 1
    &&& handlers[0] == before
    &&& handlers[handled] == after
    &&& forall|i: int|
        0 <= i < handled - 1 ==> #[trigger] E::handled(
            handlers[i],
            events[i],
            handlers[i + 1],
            true,
        )
    &&& handled > 0 ==> E::handled(
        handlers[handled - 1],
        events[handled - 1],
        handlers[handled],
        !refused,
    )
}

/// Whether a handler that was `before` is `after` once it has been handed
/// the first `handled` of the events, one by one and in order: it accepted
/// every one of them but the last, and the last as well unless `refused`.
pub open spec fn handed_in_order<Ev, E: EventHandler<Ev>>(
    before: E,
    events: Seq<Ev>,
    handled: int,
    after: E,
    refused: bool,
) -> bool {
    &&& 0 <= handled <= events.len()
    &&& refused ==> handled > 0
    &&& exists|handlers: Seq<E>| handed_through(handlers, before, events, handled, after, refused)
}

/// Whether the default policy is handed exactly the first `handled` of the
/// events: none before the last of them requests the exit, and the last one
/// does unless all were handed over.
pub open spec fn handed_by_default(events: Seq<PolledEvent>, handled: int) -> bool {
    &&& 0 <= handled <= events.len()
    &&& forall|i: int| 0 <= i < handled - 1 ==> !requests_exit(#[trigger] events[i])
    &&& handled < events.len() ==> handled > 0 && requests_exit(events[handled - 1])
}

/// Under the default policy the first event that requests the exit is the
/// last one handed over, and the loop ends there and nowhere else.
pub proof fn lemma_default_policy_stops_at_first_exit(
    events: Seq<PolledEvent>,
    handled: int,
    refused: bool,
)
    requires
        handed_in_order((), events, handled, (), refused),
        !refused ==> handled == events.len(),
    ensures
        handed_by_default(events, handled),
        refused <==> handled > 0 && requests_exit(events[handled - 1]),
{
    let handlers = choose|handlers: Seq<()>|
        handed_through(handlers, (), events, handled, (), refused);
    assert forall|i: int| 0 <= i < handled - 1 implies !requests_exit(#[trigger] events[i]) by {
        assert(<() as EventHandler<PolledEvent>>::handled(
            handlers[i],
            events[i],
            handlers[i + 1],
            true,
        ));
    }
}

/// The presentation driver: an event handler and the state of the loop.
pub struct Presenter<E> {
    handler: E,
    phase: Phase,
    draining: bool,
}

impl<E> View for Presenter<E> {
    type V = LoopState;

    closed spec fn view(&self) -> LoopState {
        LoopState { phase: self.phase, draining: self.draining }
    }
}

impl<E> Presenter<E> {
    /// The event handler of the driver.
    pub closed spec fn spec_handler(&self) -> E {
        self.handler
    }

    /// A driver before its first frame.
    pub fn new(handler: E) -> (driver: Self)
        ensures
            driver@ == LoopState::initial(),
            driver.spec_handler() == handler,
    {
        Presenter { handler, phase: Phase::Polling, draining: false }
    }

    /// What the caller is to do next.
    pub fn command(&self) -> (next: Command)
        ensures
            next == self@.phase.command(),
    {
        match self.phase {
            Phase::Polling => Command::PollEvents,
            Phase::Receiving => Command::RecvReady,
            Phase::Submitting => Command::Submit,
            Phase::Returning => Command::SendFree,
            Phase::Presenting => Command::PresentAndCleanup,
            Phase::Terminated => Command::Stop,
        }
    }

    /// Takes the report on the command performed and says what to do next.
    pub fn advance(&mut self, signal: Signal) -> (next: Command)
        ensures
            final(self)@ == old(self)@.after(signal),
            final(self).spec_handler() == old(self).spec_handler(),
            next == final(self)@.phase.command(),
    {
        match (self.phase, signal) {
            (Phase::Polling, Signal::EventsAccepted) => {
                self.phase = Phase::Receiving;
            },
            (Phase::Polling, Signal::EventRefused) => {
                self.phase = Phase::Terminated;
            },
            (Phase::Receiving, Signal::BufferReceived) => {
                self.phase = Phase::Submitting;
            },
            (Phase::Receiving, Signal::ReadyClosed) => {
                self.phase = Phase::Terminated;
            },
            (Phase::Submitting, Signal::Submitted) => {
                self.phase = Phase::Returning;
            },
            (Phase::Submitting, Signal::SubmissionFailed) => {
                self.phase = Phase::Terminated;
            },
            (Phase::Returning, Signal::Returned) => {
                self.phase = Phase::Presenting;
            },
            (Phase::Returning, Signal::ReturnFailed) => {
                self.phase = Phase::Presenting;
                self.draining = true;
            },
            (Phase::Presenting, Signal::Presented) => {
                self.phase = Phase::Polling;
            },
            _ => {},
        }
        self.command()
    }

    /// Hands the polled events to the handler, one by one and in order,
    /// until one is refused, and says how many were handed over. A refusal
    /// ends the loop, and the events behind the refused one are not looked
    /// at. Outside the polling phase nothing is handled.
    pub fn poll<Ev>(&mut self, events: &Vec<Ev>) -> (handled: usize) where E: EventHandler<Ev>
        ensures
            handled <= events@.len(),
            old(self)@.phase != Phase::Polling ==> handled == 0 && final(self)@ == old(self)@
                && final(self).spec_handler() == old(self).spec_handler(),
            old(self)@.phase == Phase::Polling ==> {
                ||| handled == events@.len() && final(self)@ == old(self)@.after(
                    Signal::EventsAccepted,
                )
                ||| 0 < handled && final(self)@ == old(self)@.after(Signal::EventRefused)
            },
            old(self)@.phase == Phase::Polling ==> handed_in_order(
                old(self).spec_handler(),
                events@,
                handled as int,
                final(self).spec_handler(),
                final(self)@.phase == Phase::Terminated,
            ),
    {
        if self.phase != Phase::Polling {
            return 0;
        }
        let ghost mut handlers: Seq<E> = seq![self.handler];
        let mut handled: usize = 0;
        while handled < events.len()
            invariant
                handled <= events@.len(),
                self@ == old(self)@,
                self@.phase == Phase::Polling,
                handlers.len() == handled + 1,
                handlers[0] == old(self).spec_handler(),
                handlers[handled as int] == self.spec_handler(),
                forall|i: int|
                    0 <= i < handled ==> #[trigger] E::handled(
                        handlers[i],
                        events@[i],
                        handlers[i + 1],
                        true,
                    ),
            decreases events@.len() - handled,
        {
            let proceed = self.handler.handle(&events[handled]);
            proof {
                handlers = handlers.push(self.handler);
            }
            handled += 1;
            if !proceed {
                self.phase = Phase::Terminated;
                proof {
                    assert(handed_through(
                        handlers,
                        old(self).spec_handler(),
                        events@,
                        handled as int,
                        self.spec_handler(),
                        true,
                    ));
                }
                return handled;
            }
        }
        self.phase = Phase::Receiving;
        proof {
            if handled > 0 {
                let last = handled as int - 1;
                assert(E::handled(handlers[last], events@[last], handlers[last + 1], true));
            }
            assert(handed_through(
                handlers,
                old(self).spec_handler(),
                events@,
                handled as int,
                self.spec_handler(),
                false,
            ));
        }
        handled
    }

    /// Where the loop stands within a frame.
    pub fn phase(&self) -> (phase: Phase)
        ensures
            phase == self@.phase,
    {
        self.phase
    }

    /// The stage of its life that the loop is in.
    pub fn lifecycle(&self) -> (stage: Lifecycle)
        ensures
            stage == self@.lifecycle(),
    {
        if self.phase == Phase::Terminated {
            Lifecycle::Terminated
        } else if self.draining {
            Lifecycle::Draining
        } else {
            Lifecycle::Running
        }
    }

    /// The event handler.
    pub fn handler(&self) -> (handler: &E)
        ensures
            *handler == self.spec_handler(),
    {
        &self.handler
    }
}

} // verus!
