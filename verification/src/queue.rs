//! The event dispatch queue: what it accepts, in which order it hands events
//! to their handlers, and when its supervisor stops.
use std::collections::VecDeque;
use vstd::prelude::*;

verus! {

/// How the bridge's client stands to a room.
#[derive(Clone, Copy, Debug, PartialEq, Eq, Structural)]
pub enum RoomKind {
    Joined,
    Invited,
    Left,
}

/// A membership event of a room that the client is not joined to yet.
#[derive(Debug, PartialEq, Eq)]
pub struct MemberNotice {
    pub room: String,
    pub room_kind: RoomKind,
    /// The user whose membership the event states.
    pub state_key: String,
}

/// A message in a room.
#[derive(Debug, PartialEq, Eq)]
pub struct MessageNotice {
    pub room: String,
    pub room_kind: RoomKind,
    /// The text of the message, where it is an unredacted one.
    pub body: Option<String>,
}

/// What the protocol callbacks put on the queue.
#[derive(Debug, PartialEq, Eq)]
pub enum QueueEvent {
    /// The request to stop: nothing is accepted after it.
    Close,
    RoomMemberEvent(MemberNotice),
    RoomMessageEvent(MessageNotice),
}

/// The two states of the queue. There is no way back from `Draining`.
#[derive(Clone, Copy, Debug, PartialEq, Eq, Structural)]
pub enum QueueState {
    /// Events are accepted.
    Open,
    /// Nothing is accepted; what was accepted before is still handed out.
    Draining,
}

/// Why an event was not accepted.
#[derive(Clone, Copy, Debug, PartialEq, Eq, Structural)]
pub enum QueueError {
    /// The queue is draining: the application is shutting down.
    ShuttingDown,
}

/// What the supervisor does next.
#[derive(Debug, PartialEq, Eq)]
pub enum Step {
    /// Hand the event to its handler, in a unit of its own.
    Run(QueueEvent),
    /// Nothing is pending: wait for an event.
    Wait,
    /// Nothing is pending and nothing will come: leave the loop.
    Exit,
}

/// The queue as contracts see it.
pub struct QueueModel {
    pub state: QueueState,
    /// The accepted events that no handler has been given yet, oldest first.
    pub pending: Seq<QueueEvent>,
}

impl QueueModel {
    /// The request to stop is never pending: it changes the state of the queue
    /// and is gone.
    pub open spec fn well_formed(self) -> bool {
        forall|i: int| 0 <= i < self.pending.len() ==> !((#[trigger] self.pending[i]) is Close)
    }

    /// Whether the queue takes the event.
    pub open spec fn accepts(self, event: QueueEvent) -> bool {
        self.state is Open
    }

    /// The queue after the event was offered to it. An open queue appends the
    /// event, and the request to stop makes it drain; a draining queue stays
    /// as it is.
    pub open spec fn offer(self, event: QueueEvent) -> QueueModel {
        if self.state is Draining {
            self
        } else if event is Close {
            QueueModel { state: QueueState::Draining, pending: self.pending }
        } else {
            QueueModel { state: QueueState::Open, pending: self.pending.push(event) }
        }
    }

    /// What the supervisor does next: the oldest pending event is run; with
    /// none pending it waits while the queue is open and leaves once it
    /// drains.
    pub open spec fn next_step(self) -> Step {
        if self.pending.len() > 0 {
            Step::Run(self.pending[0])
        } else if self.state is Open {
            Step::Wait
        } else {
            Step::Exit
        }
    }

    /// The queue after the supervisor took its next step.
    pub open spec fn take(self) -> QueueModel {
        if self.pending.len() > 0 {
            QueueModel { state: self.state, pending: self.pending.drop_first() }
        } else {
            self
        }
    }
}

/// The queue of events that await their handlers.
#[derive(Debug)]
pub struct EventQueue {
    draining: bool,
    pending: VecDeque<QueueEvent>,
}

impl View for EventQueue {
    type V = QueueModel;

    closed spec fn view(&self) -> QueueModel {
        QueueModel {
            state: if self.draining {
                QueueState::Draining
            } else {
                QueueState::Open
            },
            pending: self.pending@,
        }
    }
}

impl EventQueue {
    #[verifier::type_invariant]
    spec fn well_formed(self) -> bool {
        self@.well_formed()
    }

    /// An open queue with nothing pending.
    pub fn new() -> (queue: EventQueue)
        ensures
            queue@.state is Open,
            queue@.pending == Seq::<QueueEvent>::empty(),
    {
        EventQueue { draining: false, pending: VecDeque::new() }
    }

    /// The state of the queue.
    pub fn state(&self) -> (state: QueueState)
        ensures
            state == self@.state,
    {
        if self.draining {
            QueueState::Draining
        } else {
            QueueState::Open
        }
    }

    /// How many events are pending.
    pub fn len(&self) -> (n: usize)
        ensures
            n == self@.pending.len(),
    {
        self.pending.len()
    }

    /// Offers an event to the queue. An open queue accepts it; a draining
    /// queue refuses it and stays as it is.
    pub fn dispatch(&mut self, event: QueueEvent) -> (r: Result<(), QueueError>)
        ensures
            r is Ok <==> old(self)@.accepts(event),
            final(self)@ == old(self)@.offer(event),
            final(self)@.well_formed(),
    {
        proof {
            use_type_invariant(&*self);
        }
        if self.draining {
            return Err(QueueError::ShuttingDown);
        }
        match event {
            QueueEvent::Close => {
                self.draining = true;
            },
            other => {
                let mut pending: VecDeque<QueueEvent> = VecDeque::new();
                core::mem::swap(&mut self.pending, &mut pending);
                pending.push_back(other);
                self.pending = pending;
            },
        }
        Ok(())
    }

    /// Takes the next step of the supervisor.
    pub fn next(&mut self) -> (step: Step)
        ensures
            step == old(self)@.next_step(),
            final(self)@ == old(self)@.take(),
            final(self)@.well_formed(),
            step matches Step::Run(event) ==> !(event is Close),
    {
        proof {
            use_type_invariant(&*self);
        }
        let mut pending: VecDeque<QueueEvent> = VecDeque::new();
        core::mem::swap(&mut self.pending, &mut pending);
        let front = pending.pop_front();
        proof {
            if front is Some {
                assert(pending@ =~= old(self).pending@.drop_first());
                assert forall|i: int| 0 <= i < pending@.len() implies !((#[trigger] pending@[i]) is Close) by {
                    assert(pending@[i] == old(self).pending@[i + 1]);
                }
            }
        }
        self.pending = pending;
        match front {
            Some(event) => Step::Run(event),
            None => {
                if self.draining {
                    Step::Exit
                } else {
                    Step::Wait
                }
            },
        }
    }
}

/// One move on the queue: a callback offers an event, or the supervisor takes
/// its next step.
pub enum QueueMove {
    Offer(QueueEvent),
    Take,
}

/// What a sequence of moves comes to.
pub struct Play {
    /// The queue after the moves.
    pub queue: QueueModel,
    /// The events that were handed to handlers, in the order of the handing.
    pub run: Seq<QueueEvent>,
    /// The events that the queue accepted for a handler, in the order of the
    /// offers.
    pub accepted: Seq<QueueEvent>,
}

/// Plays the moves on the queue, in order.
pub open spec fn play(queue: QueueModel, moves: Seq<QueueMove>) -> Play
    decreases moves.len(),
{
    if moves.len() == 0 {
        Play { queue, run: Seq::empty(), accepted: Seq::empty() }
    } else {
        let before = play(queue, moves.drop_last());
        match moves.last() {
            QueueMove::Offer(event) => Play {
                queue: before.queue.offer(event),
                run: before.run,
                accepted: if before.queue.accepts(event) && !(event is Close) {
                    before.accepted.push(event)
                } else {
                    before.accepted
                },
            },
            QueueMove::Take => Play {
                queue: before.queue.take(),
                run: match before.queue.next_step() {
                    Step::Run(event) => before.run.push(event),
                    _ => before.run,
                },
                accepted: before.accepted,
            },
        }
    }
}

/// The request to stop is never handed to a handler: a queue in which it is
/// not pending stays so, and runs only events that ask for work.
pub proof fn lemma_close_is_never_run(queue: QueueModel, moves: Seq<QueueMove>)
    requires
        queue.well_formed(),
    ensures
        play(queue, moves).queue.well_formed(),
        forall|i: int|
            0 <= i < play(queue, moves).run.len() ==> !((#[trigger] play(queue, moves).run[i]) is Close),
    decreases moves.len(),
{
    if moves.len() > 0 {
        let before = play(queue, moves.drop_last());
        let after = play(queue, moves);
        lemma_close_is_never_run(queue, moves.drop_last());
        match moves.last() {
            QueueMove::Offer(event) => {},
            QueueMove::Take => {
                if before.queue.pending.len() > 0 {
                    assert(!(before.queue.pending[0] is Close));
                    assert forall|i: int| 0 <= i < after.queue.pending.len() implies !((
                    #[trigger] after.queue.pending[i]) is Close) by {
                        assert(after.queue.pending[i] == before.queue.pending[i + 1]);
                    }
                }
            },
        }
    }
}

/// Events reach their handlers in the order in which the queue accepted
/// them, each once: what was run, followed by what is still pending, is what
/// was pending at first followed by what was accepted since.
pub proof fn lemma_events_run_in_order(queue: QueueModel, moves: Seq<QueueMove>)
    ensures
        play(queue, moves).run + play(queue, moves).queue.pending == queue.pending + play(
            queue,
            moves,
        ).accepted,
    decreases moves.len(),
{
    let after = play(queue, moves);
    if moves.len() == 0 {
        assert(after.run + after.queue.pending =~= queue.pending + after.accepted);
    } else {
        let before = play(queue, moves.drop_last());
        lemma_events_run_in_order(queue, moves.drop_last());
        match moves.last() {
            QueueMove::Offer(event) => {
                if before.queue.accepts(event) && !(event is Close) {
                    assert(after.run + after.queue.pending =~= (before.run + before.queue.pending).push(
                        event,
                    ));
                    assert(queue.pending + after.accepted =~= (queue.pending + before.accepted).push(
                        event,
                    ));
                }
            },
            QueueMove::Take => {
                if before.queue.pending.len() > 0 {
                    assert(after.run + after.queue.pending =~= before.run + before.queue.pending);
                }
            },
        }
    }
}

/// A draining queue never opens again, and nothing is accepted while it
/// drains: only what was pending when it began to drain can still be run.
pub proof fn lemma_draining_is_terminal(queue: QueueModel, moves: Seq<QueueMove>)
    requires
        queue.state is Draining,
    ensures
        play(queue, moves).queue.state is Draining,
        play(queue, moves).accepted == Seq::<QueueEvent>::empty(),
        play(queue, moves).run + play(queue, moves).queue.pending == queue.pending,
    decreases moves.len(),
{
    if moves.len() > 0 {
        lemma_draining_is_terminal(queue, moves.drop_last());
    }
    lemma_events_run_in_order(queue, moves);
    assert(queue.pending + Seq::<QueueEvent>::empty() =~= queue.pending);
}

/// After the request to stop, the events accepted before it are the only ones
/// that are run: every event offered later is refused, and the supervisor
/// leaves only once all of the earlier ones were handed to their handlers.
pub proof fn lemma_close_drains(
    queue: QueueModel,
    earlier: Seq<QueueMove>,
    later: Seq<QueueMove>,
)
    ensures
        ({
            let closed = play(queue, earlier.push(QueueMove::Offer(QueueEvent::Close)));
            let end = play(queue, earlier.push(QueueMove::Offer(QueueEvent::Close)) + later);
            &&& closed.queue.state is Draining
            &&& end.queue.state is Draining
            &&& end.accepted == closed.accepted
            &&& end.run + end.queue.pending == closed.run + closed.queue.pending
            &&& end.queue.next_step() is Exit ==> end.run == queue.pending + closed.accepted
        }),
{
    let stop = earlier.push(QueueMove::Offer(QueueEvent::Close));
    let closed = play(queue, stop);
    let end = play(queue, stop + later);
    assert(stop.drop_last() =~= earlier);
    lemma_play_concat(queue, stop, later);
    lemma_draining_is_terminal(closed.queue, later);
    lemma_events_run_in_order(queue, stop);
    let rest = play(closed.queue, later);
    assert(end.accepted =~= closed.accepted);
    assert(end.run + end.queue.pending =~= closed.run + (rest.run + rest.queue.pending));
    if end.queue.next_step() is Exit {
        assert(end.run + end.queue.pending =~= end.run);
    }
}

/// Playing two sequences of moves one after the other is playing their
/// concatenation.
pub proof fn lemma_play_concat(queue: QueueModel, first: Seq<QueueMove>, second: Seq<QueueMove>)
    ensures
        ({
            let a = play(queue, first);
            let b = play(a.queue, second);
            let all = play(queue, first + second);
            &&& all.queue == b.queue
            &&& all.run == a.run + b.run
            &&& all.accepted == a.accepted + b.accepted
        }),
    decreases second.len(),
{
    let a = play(queue, first);
    let b = play(a.queue, second);
    let all = play(queue, first + second);
    if second.len() == 0 {
        assert(first + second =~= first);
        assert(all.run =~= a.run + b.run);
        assert(all.accepted =~= a.accepted + b.accepted);
    } else {
        lemma_play_concat(queue, first, second.drop_last());
        assert((first + second).drop_last() =~= first + second.drop_last());
        assert((first + second).last() == second.last());
        let b0 = play(a.queue, second.drop_last());
        assert(all.run =~= a.run + b.run);
        assert(all.accepted =~= a.accepted + b.accepted);
    }
}

} // verus!
