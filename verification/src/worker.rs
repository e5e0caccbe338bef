//! The worker: which action it is waiting on, and where each reply takes it.

use vstd::prelude::*;
use crate::clip::{Clip, ClipboardData, ClipboardEvent};
use crate::protocol::{
    event_view, Action, ActionView, Incident, Message, RecvError, Reply, ReplyView,
};

verus! {

/// The worker's life in the large. It starts out running, drains from the
/// moment a wait ends with a reason to stop, and has stopped once the flush
/// of the history has been tried.
#[derive(Clone, Copy, Debug, PartialEq, Eq, Structural)]
pub enum State {
    Running,
    Draining,
    Stopped,
}

/// Where the worker stands, as the contracts speak of it. Each stage but the
/// last is named after the action that the worker is waiting on.
pub enum StageView {
    /// Waiting for the next clipboard event or control message.
    Waiting,
    /// The clip is being inserted into the clip store.
    Inserting(Clip),
    /// The record with this id is being marked as the primary selection.
    MarkingPrimary(u64, Clip),
    /// The record with this id is being marked as the clipboard selection.
    MarkingClipboard(u64, Clip),
    /// The clip is being put into the history store.
    Recording(Clip),
    /// The rest of the daemon is being told to shut down.
    Signalling,
    /// The clip store's records and capacity are being read.
    Snapshotting,
    /// The history store is saving these records, shrinking to this capacity.
    Saving(Seq<Clip>, nat),
    /// The flush has been tried; nothing more will be asked for.
    Stopped,
}

/// The stage that a worker at its wait moves on to when the wait ends with
/// this word from the event source: an event is inserted, a lag is passed
/// over, and a closed source makes the worker signal the shutdown.
pub open spec fn after_event(event: Result<Clip, RecvError>) -> StageView {
    match event {
        Ok(clip) => StageView::Inserting(clip),
        Err(RecvError::Lagged(_)) => StageView::Waiting,
        Err(RecvError::Closed) => StageView::Signalling,
    }
}

impl StageView {
    /// The state that this stage belongs to.
    pub open spec fn state(self) -> State {
        match self {
            StageView::Waiting => State::Running,
            StageView::Inserting(_) => State::Running,
            StageView::MarkingPrimary(_, _) => State::Running,
            StageView::MarkingClipboard(_, _) => State::Running,
            StageView::Recording(_) => State::Running,
            StageView::Signalling => State::Draining,
            StageView::Snapshotting => State::Draining,
            StageView::Saving(_, _) => State::Draining,
            StageView::Stopped => State::Stopped,
        }
    }

    /// The action that a worker at this stage is waiting on.
    pub open spec fn pending(self) -> ActionView {
        match self {
            StageView::Waiting => ActionView::Wait,
            StageView::Inserting(clip) => ActionView::Insert(clip),
            StageView::MarkingPrimary(id, _) => ActionView::MarkAsPrimary(id),
            StageView::MarkingClipboard(id, _) => ActionView::MarkAsClipboard(id),
            StageView::Recording(clip) => ActionView::Put(clip),
            StageView::Signalling => ActionView::SendShutdown,
            StageView::Snapshotting => ActionView::Snapshot,
            StageView::Saving(records, capacity) => ActionView::SaveAndShrink(records, capacity),
            StageView::Stopped => ActionView::Finish,
        }
    }

    /// How many replies a worker at this stage has yet to take in before it
    /// waits again or, once it drains, before it has stopped; a worker at its
    /// wait counts as one that is yet to be told to stop.
    pub open spec fn distance(self) -> nat {
        match self {
            StageView::Stopped => 0,
            StageView::Saving(_, _) => 1,
            StageView::Snapshotting => 2,
            StageView::Signalling => 3,
            StageView::Waiting => 4,
            StageView::Recording(_) => 5,
            StageView::MarkingClipboard(_, _) => 6,
            StageView::MarkingPrimary(_, _) => 7,
            StageView::Inserting(_) => 8,
        }
    }

    /// Whether `reply` answers the action that a worker at this stage is
    /// waiting on. A wait is answered by either source; a stopped worker
    /// expects nothing.
    pub open spec fn expects(self, reply: ReplyView) -> bool {
        match self {
            StageView::Waiting => reply is Event || reply is Message,
            StageView::Inserting(_) => reply is Inserted,
            StageView::MarkingPrimary(_, _) => reply is MarkedAsPrimary,
            StageView::MarkingClipboard(_, _) => reply is MarkedAsClipboard,
            StageView::Recording(_) => reply is Put,
            StageView::Signalling => reply is ShutdownSent,
            StageView::Snapshotting => reply is Snapshot,
            StageView::Saving(_, _) => reply is Saved,
            StageView::Stopped => false,
        }
    }

    /// The stage that follows this one on `reply`. A reply that is not
    /// expected changes nothing. Whether a mark, a put, the shutdown signal or
    /// the save went well does not matter to what comes next.
    pub open spec fn after(self, reply: ReplyView) -> StageView {
        match (self, reply) {
            (StageView::Waiting, ReplyView::Event(event)) => after_event(event),
            (StageView::Waiting, ReplyView::Message(_)) => StageView::Snapshotting,
            (StageView::Inserting(clip), ReplyView::Inserted(id)) => StageView::MarkingPrimary(
                id,
                clip,
            ),
            (
                StageView::MarkingPrimary(id, clip),
                ReplyView::MarkedAsPrimary(_),
            ) => StageView::MarkingClipboard(id, clip),
            (StageView::MarkingClipboard(_, clip), ReplyView::MarkedAsClipboard(_)) => {
                StageView::Recording(clip)
            },
            (StageView::Recording(_), ReplyView::Put(_)) => StageView::Waiting,
            (StageView::Signalling, ReplyView::ShutdownSent(_)) => StageView::Snapshotting,
            (StageView::Snapshotting, ReplyView::Snapshot(records, capacity)) => StageView::Saving(
                records,
                capacity,
            ),
            (StageView::Saving(_, _), ReplyView::Saved(_)) => StageView::Stopped,
            _ => self,
        }
    }
}

#[derive(Debug)]
enum Stage {
    Waiting,
    Inserting(ClipboardData),
    MarkingPrimary(u64, ClipboardData),
    MarkingClipboard(u64, ClipboardData),
    Recording(ClipboardData),
    Signalling,
    Snapshotting,
    Saving(Vec<ClipboardData>, usize),
    Stopped,
}

impl View for Stage {
    type V = StageView;

    closed spec fn view(&self) -> StageView {
        match *self {
            Stage::Waiting => StageView::Waiting,
            Stage::Inserting(clip) => StageView::Inserting(clip@),
            Stage::MarkingPrimary(id, clip) => StageView::MarkingPrimary(id, clip@),
            Stage::MarkingClipboard(id, clip) => StageView::MarkingClipboard(id, clip@),
            Stage::Recording(clip) => StageView::Recording(clip@),
            Stage::Signalling => StageView::Signalling,
            Stage::Snapshotting => StageView::Snapshotting,
            Stage::Saving(records, capacity) => StageView::Saving(
                records.deep_view(),
                capacity as nat,
            ),
            Stage::Stopped => StageView::Stopped,
        }
    }
}

/// The coordinator between the event source, the clip store and the history
/// store. It touches none of them: it names the next [`Action`], and moves on
/// when it is told how that action went.
#[derive(Debug)]
pub struct ClipboardWorker {
    stage: Stage,
}

impl View for ClipboardWorker {
    type V = StageView;

    closed spec fn view(&self) -> StageView {
        self.stage@
    }
}

/// A worker at its first wait.
pub fn start() -> (worker: ClipboardWorker)
    ensures
        worker@ == StageView::Waiting,
{
    ClipboardWorker { stage: Stage::Waiting }
}

impl ClipboardWorker {
    /// The state of the stage that the worker stands at.
    pub open spec fn spec_state(&self) -> State {
        self@.state()
    }

    /// Whether the worker is running, draining or stopped.
    #[verifier::when_used_as_spec(spec_state)]
    pub fn state(&self) -> (state: State)
        ensures
            state == self@.state(),
    {
        match &self.stage {
            Stage::Waiting => State::Running,
            Stage::Inserting(_) => State::Running,
            Stage::MarkingPrimary(_, _) => State::Running,
            Stage::MarkingClipboard(_, _) => State::Running,
            Stage::Recording(_) => State::Running,
            Stage::Signalling => State::Draining,
            Stage::Snapshotting => State::Draining,
            Stage::Saving(_, _) => State::Draining,
            Stage::Stopped => State::Stopped,
        }
    }

    /// The action that the worker is waiting on.
    pub fn pending(&self) -> (action: Action<'_>)
        ensures
            action@ == self@.pending(),
    {
        match &self.stage {
            Stage::Waiting => Action::Wait,
            Stage::Inserting(clip) => Action::Insert(clip),
            Stage::MarkingPrimary(id, _) => Action::MarkAsPrimary(*id),
            Stage::MarkingClipboard(id, _) => Action::MarkAsClipboard(*id),
            Stage::Recording(clip) => Action::Put(clip),
            Stage::Signalling => Action::SendShutdown,
            Stage::Snapshotting => Action::Snapshot,
            Stage::Saving(records, capacity) => Action::SaveAndShrink(records, *capacity),
            Stage::Stopped => Action::Finish,
        }
    }

    /// Takes in what the event source said at the end of a wait, and says
    /// whether the worker is to quit waiting. An event starts its round through
    /// the stores: the clip made from it is to be inserted. A lag changes
    /// nothing, so the worker waits again. Only a closed source ends the
    /// waiting: the worker drains, beginning with the shutdown signal.
    ///
    /// This is for a worker at its wait; [`ClipboardWorker::step`] takes a
    /// reply at any stage.
    pub fn handle_event(&mut self, event: Result<ClipboardEvent, RecvError>) -> (quit: bool)
        requires
            old(self)@ is Waiting,
        ensures
            quit <==> event == Err::<ClipboardEvent, RecvError>(RecvError::Closed),
            quit <==> final(self)@.state() == State::Draining,
            final(self)@ == after_event(event_view(event)),
            event is Ok ==> final(self)@ == StageView::Inserting(event->Ok_0@),
            event matches Err(RecvError::Lagged(_)) ==> final(self)@ == old(self)@,
            event matches Err(RecvError::Closed) ==> final(self)@ == StageView::Signalling,
    {
        match event {
            Err(RecvError::Closed) => {
                self.stage = Stage::Signalling;
                true
            },
            Err(RecvError::Lagged(_)) => false,
            Ok(event) => {
                self.stage = Stage::Inserting(ClipboardData::from(event));
                false
            },
        }
    }

    /// Takes in what the control inbox said at the end of a wait, and says
    /// whether the worker is to quit waiting, which it always is: a shutdown
    /// message and an inbox that no one can send to any more both end the
    /// waiting at once. The worker drains, beginning with the snapshot.
    ///
    /// This is for a worker at its wait; [`ClipboardWorker::step`] takes a
    /// reply at any stage.
    pub fn handle_message(&mut self, msg: Option<Message>) -> (quit: bool)
        requires
            old(self)@ is Waiting,
        ensures
            quit,
            final(self)@ == StageView::Snapshotting,
            final(self)@.state() == State::Draining,
    {
        match msg {
            None => {
                self.stage = Stage::Snapshotting;
                true
            },
            Some(Message::Shutdown) => {
                self.stage = Stage::Snapshotting;
                true
            },
        }
    }

    /// Moves the worker on by one reply. A reply that answers the pending
    /// action is taken in: the worker stands at the next stage, and the result
    /// is the incident that the reply told of, if it told of one. Any other
    /// reply is handed back, and the worker stays as it was.
    pub fn step(&mut self, reply: Reply) -> (result: Result<Option<Incident>, Reply>)
        ensures
            old(self)@.expects(reply@) ==> result == Ok::<Option<Incident>, Reply>(
                reply@.incident(),
            ) && final(self)@ == old(self)@.after(reply@),
            !old(self)@.expects(reply@) ==> result == Err::<Option<Incident>, Reply>(reply)
                && *final(self) == *old(self),
    {
        let incident = reply.incident();
        let mut stage = Stage::Waiting;
        std::mem::swap(&mut self.stage, &mut stage);
        match (stage, reply) {
            (Stage::Waiting, Reply::Event(event)) => {
                self.handle_event(event);
                Ok(incident)
            },
            (Stage::Waiting, Reply::Message(msg)) => {
                self.handle_message(msg);
                Ok(incident)
            },
            (Stage::Inserting(clip), Reply::Inserted(id)) => {
                self.stage = Stage::MarkingPrimary(id, clip);
                Ok(incident)
            },
            (Stage::MarkingPrimary(id, clip), Reply::MarkedAsPrimary(_)) => {
                self.stage = Stage::MarkingClipboard(id, clip);
                Ok(incident)
            },
            (Stage::MarkingClipboard(_, clip), Reply::MarkedAsClipboard(_)) => {
                self.stage = Stage::Recording(clip);
                Ok(incident)
            },
            (Stage::Recording(_), Reply::Put(_)) => {
                self.stage = Stage::Waiting;
                Ok(incident)
            },
            (Stage::Signalling, Reply::ShutdownSent(_)) => {
                self.stage = Stage::Snapshotting;
                Ok(incident)
            },
            (Stage::Snapshotting, Reply::Snapshot(records, capacity)) => {
                self.stage = Stage::Saving(records, capacity);
                Ok(incident)
            },
            (Stage::Saving(_, _), Reply::Saved(_)) => {
                self.stage = Stage::Stopped;
                Ok(incident)
            },
            (stage, reply) => {
                self.stage = stage;
                Err(reply)
            },
        }
    }
}

} // verus!
