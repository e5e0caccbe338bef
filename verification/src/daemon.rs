//! The daemon around the worker, as far as the worker's laws speak of it: the
//! two sources that end a wait, the clip store, the history store, and the
//! shutdown signals sent so far.

use vstd::prelude::*;
use crate::clip::Clip;
use crate::protocol::{ActionView, Message, RecvError, ReplyView};
use crate::worker::StageView;

verus! {

/// The last `capacity` of `records`, in their order; all of them where there
/// are no more than that.
pub open spec fn latest<A>(records: Seq<A>, capacity: nat) -> Seq<A> {
    if records.len() <= capacity {
        records
    } else {
        records.subrange(records.len() - capacity, records.len() as int)
    }
}

/// What ends a wait of the worker.
pub enum Wakeup {
    /// A word from the event source.
    Event(Result<Clip, RecvError>),
    /// A word from the control inbox; `None` when every sender is gone.
    Message(Option<Message>),
}

impl Wakeup {
    /// The reply that tells the worker of this wakeup.
    pub open spec fn reply(self) -> ReplyView {
        match self {
            Wakeup::Event(event) => ReplyView::Event(event),
            Wakeup::Message(message) => ReplyView::Message(message),
        }
    }

    /// Whether this wakeup is a reason to stop: any word from the control
    /// inbox, or the event source being closed.
    pub open spec fn stops(self) -> bool {
        self is Message || self == Wakeup::Event(Err(RecvError::Closed))
    }
}

/// The clips of the events among `wakeups`, in their order.
pub open spec fn clips_of(wakeups: Seq<Wakeup>) -> Seq<Clip>
    decreases wakeups.len(),
{
    if wakeups.len() == 0 {
        Seq::empty()
    } else {
        match wakeups.first() {
            Wakeup::Event(Ok(clip)) => seq![clip] + clips_of(wakeups.drop_first()),
            _ => clips_of(wakeups.drop_first()),
        }
    }
}

/// The daemon as the worker's actions find it and leave it.
pub struct Daemon {
    /// What the worker's waits will end with, the next one first.
    pub wakeups: Seq<Wakeup>,
    /// The records of the clip store, oldest first.
    pub clips: Seq<Clip>,
    /// The most records that the clip store holds, and that the history store
    /// keeps when it is told to shrink.
    pub capacity: nat,
    /// How many clips the clip store has been given so far.
    pub inserted: nat,
    /// The id that the clip store gives to the clip it is given after so many
    /// others.
    pub ids: spec_fn(nat) -> u64,
    /// The record marked as the current primary selection.
    pub primary: Option<u64>,
    /// The record marked as the current clipboard selection.
    pub clipboard: Option<u64>,
    /// The records of the history store, oldest first.
    pub history: Seq<Clip>,
    /// How many times the history store has been told to save and shrink.
    pub saves: nat,
    /// How many shutdown signals the worker has sent to the rest of the daemon.
    pub shutdown_signals: nat,
    /// How many actions of the worker have been done so far.
    pub done: nat,
    /// Whether the action done after so many others fails, where it is one
    /// that can: a mark, a put, the shutdown signal or the save.
    pub fails: spec_fn(nat) -> bool,
}

impl Daemon {
    /// The clip store holds no more than its capacity.
    pub open spec fn wf(self) -> bool {
        self.clips.len() <= self.capacity
    }

    /// No action ever fails.
    pub open spec fn all_goes_well(self) -> bool {
        forall|n: nat| !#[trigger] (self.fails)(n)
    }

    /// How this daemon answers `action`. It has no answer to a wait when
    /// neither source has anything left to say, and none to the worker's
    /// having finished. The clip store never fails to take a clip or to be
    /// read.
    pub open spec fn reply_to(self, action: ActionView) -> Option<ReplyView> {
        let well = !(self.fails)(self.done);
        match action {
            ActionView::Wait => if self.wakeups.len() > 0 {
                Some(self.wakeups.first().reply())
            } else {
                None
            },
            ActionView::Insert(_) => Some(ReplyView::Inserted((self.ids)(self.inserted))),
            ActionView::MarkAsPrimary(_) => Some(ReplyView::MarkedAsPrimary(well)),
            ActionView::MarkAsClipboard(_) => Some(ReplyView::MarkedAsClipboard(well)),
            ActionView::Put(_) => Some(ReplyView::Put(well)),
            ActionView::SendShutdown => Some(ReplyView::ShutdownSent(well)),
            ActionView::Snapshot => Some(ReplyView::Snapshot(self.clips, self.capacity)),
            ActionView::SaveAndShrink(_, _) => Some(ReplyView::Saved(well)),
            ActionView::Finish => None,
        }
    }

    /// What `action` does to the stores and the sources. A wait takes up the
    /// next wakeup. The clip store takes a clip as its newest record and drops
    /// its oldest ones beyond the capacity. A mark moves the marker of its
    /// selection. The history store takes a clip as its newest record; told to
    /// save and shrink, it holds the latest of the records it is handed. A
    /// mark, a put or a save that fails leaves its store as it was; a shutdown
    /// signal counts as sent whether or not anyone was there to get it.
    pub open spec fn effect(self, action: ActionView) -> Daemon {
        let well = !(self.fails)(self.done);
        match action {
            ActionView::Wait => Daemon { wakeups: self.wakeups.drop_first(), ..self },
            ActionView::Insert(clip) => Daemon {
                clips: latest(self.clips.push(clip), self.capacity),
                inserted: self.inserted + 1,
                ..self
            },
            ActionView::MarkAsPrimary(id) => if well {
                Daemon { primary: Some(id), ..self }
            } else {
                self
            },
            ActionView::MarkAsClipboard(id) => if well {
                Daemon { clipboard: Some(id), ..self }
            } else {
                self
            },
            ActionView::Put(clip) => if well {
                Daemon { history: self.history.push(clip), ..self }
            } else {
                self
            },
            ActionView::SendShutdown => Daemon {
                shutdown_signals: self.shutdown_signals + 1,
                ..self
            },
            ActionView::Snapshot => self,
            ActionView::SaveAndShrink(records, capacity) => Daemon {
                history: if well {
                    latest(records, capacity)
                } else {
                    self.history
                },
                saves: self.saves + 1,
                ..self
            },
            ActionView::Finish => self,
        }
    }

    /// This daemon once `action` is done: its effect has taken place and one
    /// more action has been done. An action that the daemon has no answer to
    /// is not done.
    pub open spec fn apply(self, action: ActionView) -> Daemon {
        if self.reply_to(action) is Some {
            Daemon { done: self.done + 1, ..self.effect(action) }
        } else {
            self
        }
    }

    /// This daemon once the worker has taken the clip of an event through the
    /// stores, from the wait that ended with the event to the next wait.
    pub open spec fn after_round(self, clip: Clip) -> Daemon {
        let id = (self.ids)(self.inserted);
        self.apply(ActionView::Wait).apply(ActionView::Insert(clip)).apply(
            ActionView::MarkAsPrimary(id),
        ).apply(ActionView::MarkAsClipboard(id)).apply(ActionView::Put(clip))
    }

    /// This daemon once the worker has flushed: the clip store's records have
    /// been read and handed to the history store.
    pub open spec fn after_flush(self) -> Daemon {
        self.apply(ActionView::Snapshot).apply(
            ActionView::SaveAndShrink(self.clips, self.capacity),
        )
    }
}

/// The worker run against the daemon: the daemon does what the worker is
/// waiting on and the worker takes the reply in, over and over, until the
/// daemon has no answer. The result is the stage the worker is left at and
/// the daemon as it then is.
pub open spec fn run(stage: StageView, daemon: Daemon) -> (StageView, Daemon)
    decreases daemon.wakeups.len(), stage.distance(),
{
    match daemon.reply_to(stage.pending()) {
        Some(reply) => if stage.expects(reply) {
            run(stage.after(reply), daemon.apply(stage.pending()))
        } else {
            (stage, daemon)
        },
        None => (stage, daemon),
    }
}

} // verus!
