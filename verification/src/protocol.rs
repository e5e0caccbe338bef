//! What passes between the worker and its caller: the actions that the worker
//! asks for, and the replies that tell it how each one went.

use vstd::prelude::*;
use crate::clip::{Clip, ClipboardData, ClipboardEvent};

verus! {

/// An instruction to the worker, sent over its control inbox.
#[derive(Clone, Copy, Debug, PartialEq, Eq, Structural)]
pub enum Message {
    Shutdown,
}

/// Why the event source handed over no event.
#[derive(Clone, Copy, Debug, PartialEq, Eq, Structural)]
pub enum RecvError {
    /// The source is gone: no event will ever follow.
    Closed,
    /// The worker fell behind and this many events were dropped; the source
    /// goes on.
    Lagged(u64),
}

/// How much an incident weighs. Nothing that the worker meets is fatal to it.
#[derive(Clone, Copy, Debug, PartialEq, Eq, Structural)]
pub enum IncidentClass {
    /// Passed over: the worker goes on as if it had gone well.
    Ignorable,
    /// The end of the worker's run, reached in good order.
    Graceful,
    /// Tried once on the way out, and not again.
    BestEffort,
}

/// Something that went other than well. The worker takes note of it and
/// goes on as it would have otherwise.
#[derive(Clone, Copy, Debug, PartialEq, Eq, Structural)]
pub enum Incident {
    /// The worker fell behind the event source, which dropped this many events.
    Lagged(u64),
    /// The event source is closed.
    SourceClosed,
    /// The clip store did not mark the primary selection.
    MarkAsPrimaryFailed,
    /// The clip store did not mark the clipboard selection.
    MarkAsClipboardFailed,
    /// The history store did not take the clip.
    PutFailed,
    /// Nobody was there to get the shutdown signal.
    ShutdownUnheard,
    /// The history store did not save.
    SaveFailed,
}

impl Incident {
    /// The class of this incident: a closed event source ends the run in
    /// good order, a failed save was the one try on the way out, and all else
    /// is passed over.
    pub open spec fn spec_class(self) -> IncidentClass {
        match self {
            Incident::SourceClosed => IncidentClass::Graceful,
            Incident::SaveFailed => IncidentClass::BestEffort,
            _ => IncidentClass::Ignorable,
        }
    }

    /// The class of this incident.
    #[verifier::when_used_as_spec(spec_class)]
    pub fn class(self) -> (class: IncidentClass)
        ensures
            class == self.spec_class(),
    {
        match self {
            Incident::SourceClosed => IncidentClass::Graceful,
            Incident::SaveFailed => IncidentClass::BestEffort,
            Incident::Lagged(_) => IncidentClass::Ignorable,
            Incident::MarkAsPrimaryFailed => IncidentClass::Ignorable,
            Incident::MarkAsClipboardFailed => IncidentClass::Ignorable,
            Incident::PutFailed => IncidentClass::Ignorable,
            Incident::ShutdownUnheard => IncidentClass::Ignorable,
        }
    }
}

/// What the worker asks its caller to do next.
#[derive(Clone, Copy, Debug, PartialEq, Eq)]
pub enum Action<'a> {
    /// Wait for whichever comes first, the next clipboard event or the next
    /// control message.
    Wait,
    /// Insert a copy of the clip into the clip store.
    Insert(&'a ClipboardData),
    /// Make the record with this id the clip store's current primary selection.
    MarkAsPrimary(u64),
    /// Make the record with this id the clip store's current clipboard selection.
    MarkAsClipboard(u64),
    /// Put the clip into the history store.
    Put(&'a ClipboardData),
    /// Tell the rest of the daemon to shut down.
    SendShutdown,
    /// Read the clip store's records and its capacity, both under one lock.
    Snapshot,
    /// Have the history store save these records and shrink to this capacity.
    SaveAndShrink(&'a Vec<ClipboardData>, usize),
    /// Nothing is left to do: report success.
    Finish,
}

/// An [`Action`] as the contracts speak of it.
pub enum ActionView {
    Wait,
    Insert(Clip),
    MarkAsPrimary(u64),
    MarkAsClipboard(u64),
    Put(Clip),
    SendShutdown,
    Snapshot,
    SaveAndShrink(Seq<Clip>, nat),
    Finish,
}

impl<'a> View for Action<'a> {
    type V = ActionView;

    open spec fn view(&self) -> ActionView {
        match *self {
            Action::Wait => ActionView::Wait,
            Action::Insert(clip) => ActionView::Insert(clip@),
            Action::MarkAsPrimary(id) => ActionView::MarkAsPrimary(id),
            Action::MarkAsClipboard(id) => ActionView::MarkAsClipboard(id),
            Action::Put(clip) => ActionView::Put(clip@),
            Action::SendShutdown => ActionView::SendShutdown,
            Action::Snapshot => ActionView::Snapshot,
            Action::SaveAndShrink(records, capacity) => ActionView::SaveAndShrink(
                records.deep_view(),
                capacity as nat,
            ),
            Action::Finish => ActionView::Finish,
        }
    }
}

/// How an action went, as the caller reports it to the worker.
#[derive(Debug, PartialEq, Eq)]
pub enum Reply {
    /// The wait ended with a word from the event source.
    Event(Result<ClipboardEvent, RecvError>),
    /// The wait ended with a word from the control inbox; `None` when every
    /// sender is gone.
    Message(Option<Message>),
    /// The clip store took the clip and gave it this id.
    Inserted(u64),
    /// The clip store was asked to mark the primary selection, and whether it did.
    MarkedAsPrimary(bool),
    /// The clip store was asked to mark the clipboard selection, and whether it did.
    MarkedAsClipboard(bool),
    /// The history store was asked to take the clip, and whether it did.
    Put(bool),
    /// The shutdown signal was sent, and whether anyone was there to get it.
    ShutdownSent(bool),
    /// The clip store's records, oldest first, and its capacity.
    Snapshot(Vec<ClipboardData>, usize),
    /// The history store was asked to save and shrink, and whether it did.
    Saved(bool),
}

/// A [`Reply`] as the contracts speak of it.
pub enum ReplyView {
    Event(Result<Clip, RecvError>),
    Message(Option<Message>),
    Inserted(u64),
    MarkedAsPrimary(bool),
    MarkedAsClipboard(bool),
    Put(bool),
    ShutdownSent(bool),
    Snapshot(Seq<Clip>, nat),
    Saved(bool),
}

impl ReplyView {
    /// The incident that this reply tells of, if it tells of one: a lag, a
    /// closed event source, or an action that did not go well.
    pub open spec fn incident(self) -> Option<Incident> {
        match self {
            ReplyView::Event(Err(RecvError::Lagged(dropped))) => Some(Incident::Lagged(dropped)),
            ReplyView::Event(Err(RecvError::Closed)) => Some(Incident::SourceClosed),
            ReplyView::MarkedAsPrimary(false) => Some(Incident::MarkAsPrimaryFailed),
            ReplyView::MarkedAsClipboard(false) => Some(Incident::MarkAsClipboardFailed),
            ReplyView::Put(false) => Some(Incident::PutFailed),
            ReplyView::ShutdownSent(false) => Some(Incident::ShutdownUnheard),
            ReplyView::Saved(false) => Some(Incident::SaveFailed),
            _ => None,
        }
    }
}

/// What the event source said, with the event taken by its view.
pub open spec fn event_view(event: Result<ClipboardEvent, RecvError>) -> Result<Clip, RecvError> {
    match event {
        Ok(event) => Ok(event@),
        Err(error) => Err(error),
    }
}

impl View for Reply {
    type V = ReplyView;

    open spec fn view(&self) -> ReplyView {
        match *self {
            Reply::Event(event) => ReplyView::Event(event_view(event)),
            Reply::Message(message) => ReplyView::Message(message),
            Reply::Inserted(id) => ReplyView::Inserted(id),
            Reply::MarkedAsPrimary(done) => ReplyView::MarkedAsPrimary(done),
            Reply::MarkedAsClipboard(done) => ReplyView::MarkedAsClipboard(done),
            Reply::Put(done) => ReplyView::Put(done),
            Reply::ShutdownSent(done) => ReplyView::ShutdownSent(done),
            Reply::Snapshot(records, capacity) => ReplyView::Snapshot(
                records.deep_view(),
                capacity as nat,
            ),
            Reply::Saved(done) => ReplyView::Saved(done),
        }
    }
}

impl Reply {
    /// The incident that this reply tells of, if it tells of one.
    pub fn incident(&self) -> (incident: Option<Incident>)
        ensures
            incident == self@.incident(),
    {
        match self {
            Reply::Event(Err(RecvError::Lagged(dropped))) => Some(Incident::Lagged(*dropped)),
            Reply::Event(Err(RecvError::Closed)) => Some(Incident::SourceClosed),
            Reply::MarkedAsPrimary(false) => Some(Incident::MarkAsPrimaryFailed),
            Reply::MarkedAsClipboard(false) => Some(Incident::MarkAsClipboardFailed),
            Reply::Put(false) => Some(Incident::PutFailed),
            Reply::ShutdownSent(false) => Some(Incident::ShutdownUnheard),
            Reply::Saved(false) => Some(Incident::SaveFailed),
            _ => None,
        }
    }
}

} // verus!
