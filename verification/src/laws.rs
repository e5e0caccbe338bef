//! What holds of the worker: of every stage and reply, and of every run
//! against the daemon.

use vstd::prelude::*;
use crate::clip::Clip;
use crate::daemon::{clips_of, latest, run, Daemon, Wakeup};
use crate::protocol::{ActionView, Incident, Message, RecvError, ReplyView};
use crate::worker::{StageView, State};

verus! {

/// One action of a run: where the daemon answers what the worker is waiting
/// on with a reply that the worker expects, the run goes on from the next
/// stage and the daemon as the action leaves it.
proof fn lemma_run_unfolds(stage: StageView, daemon: Daemon)
    requires
        daemon.reply_to(stage.pending()) is Some,
        stage.expects(daemon.reply_to(stage.pending())->0),
    ensures
        run(stage, daemon) == run(
            stage.after(daemon.reply_to(stage.pending())->0),
            daemon.apply(stage.pending()),
        ),
{
}

/// Keeping the latest of a sequence, appending to it and keeping the latest
/// again, keeps what appending first and keeping the latest once would.
proof fn lemma_latest_absorbs<A>(older: Seq<A>, newer: Seq<A>, capacity: nat)
    ensures
        latest(latest(older, capacity) + newer, capacity) == latest(older + newer, capacity),
{
    assert(latest(latest(older, capacity) + newer, capacity) =~= latest(older + newer, capacity));
}

/// The flush: from the snapshot on, the run ends with the worker stopped.
proof fn lemma_run_flush(daemon: Daemon)
    ensures
        run(StageView::Snapshotting, daemon) == (StageView::Stopped, daemon.after_flush()),
{
    let saving = StageView::Saving(daemon.clips, daemon.capacity);
    let read = daemon.apply(ActionView::Snapshot);
    lemma_run_unfolds(StageView::Snapshotting, daemon);
    lemma_run_unfolds(saving, read);
    assert(run(StageView::Stopped, daemon.after_flush()) == (
        StageView::Stopped,
        daemon.after_flush(),
    ));
}

/// The round of one event: from the wait that ends with it to the next wait.
proof fn lemma_run_round(daemon: Daemon, clip: Clip)
    requires
        daemon.wakeups.len() > 0,
        daemon.wakeups.first() == Wakeup::Event(Ok(clip)),
    ensures
        run(StageView::Waiting, daemon) == run(StageView::Waiting, daemon.after_round(clip)),
{
    let id = (daemon.ids)(daemon.inserted);
    let woken = daemon.apply(ActionView::Wait);
    let inserted = woken.apply(ActionView::Insert(clip));
    let marked_primary = inserted.apply(ActionView::MarkAsPrimary(id));
    let marked_clipboard = marked_primary.apply(ActionView::MarkAsClipboard(id));
    lemma_run_unfolds(StageView::Waiting, daemon);
    lemma_run_unfolds(StageView::Inserting(clip), woken);
    lemma_run_unfolds(StageView::MarkingPrimary(id, clip), inserted);
    lemma_run_unfolds(StageView::MarkingClipboard(id, clip), marked_primary);
    lemma_run_unfolds(StageView::Recording(clip), marked_clipboard);
}

/// The clips of waits that each end with an event are the clips of those
/// events.
proof fn lemma_clips_of_events(events: Seq<Clip>)
    ensures
        clips_of(events.map_values(|clip: Clip| Wakeup::Event(Ok(clip)))) == events,
    decreases events.len(),
{
    let wakeups = events.map_values(|clip: Clip| Wakeup::Event(Ok(clip)));
    if events.len() == 0 {
        assert(clips_of(wakeups) =~= events);
    } else {
        lemma_clips_of_events(events.drop_first());
        assert(wakeups.drop_first() =~= events.drop_first().map_values(
            |clip: Clip| Wakeup::Event(Ok(clip)),
        ));
        assert(seq![events.first()] + events.drop_first() =~= events);
    }
}

/// The daemon answers each action of the worker with a reply that the worker
/// expects. Where no action fails, none of its replies tells of an incident
/// but that of a lag or of a closed event source.
pub proof fn the_daemon_answers_in_turn(stage: StageView, daemon: Daemon)
    ensures
        daemon.reply_to(stage.pending()) matches Some(reply) ==> stage.expects(reply),
        daemon.reply_to(stage.pending()) matches Some(reply) ==> (daemon.all_goes_well()
            && reply.incident() is Some ==> stage is Waiting),
{
    if daemon.all_goes_well() {
        assert(!(daemon.fails)(daemon.done));
    }
}

/// A run ends with the worker stopped, or else at a wait that nothing is
/// left to end.
pub proof fn a_run_ends_at_rest(stage: StageView, daemon: Daemon)
    ensures
        ({
            let (last, end) = run(stage, daemon);
            last is Stopped || (last is Waiting && end.wakeups.len() == 0)
        }),
    decreases daemon.wakeups.len(), stage.distance(),
{
    match daemon.reply_to(stage.pending()) {
        Some(reply) => {
            a_run_ends_at_rest(stage.after(reply), daemon.apply(stage.pending()));
        },
        None => {},
    }
}

/// An event makes its round through the stores in one fixed order: the clip
/// is inserted, the record that the clip store made of it is marked as the
/// primary selection and then as the clipboard selection, the clip is put into
/// the history store, and the worker waits again. This is so whichever
/// selection the event came from, and whether or not the marks and the put
/// went well.
pub proof fn an_event_makes_its_round(
    clip: Clip,
    id: u64,
    marked_primary: bool,
    marked_clipboard: bool,
    put: bool,
)
    ensures
        ({
            let inserting = StageView::Waiting.after(ReplyView::Event(Ok(clip)));
            let marking_primary = inserting.after(ReplyView::Inserted(id));
            let marking_clipboard = marking_primary.after(
                ReplyView::MarkedAsPrimary(marked_primary),
            );
            let recording = marking_clipboard.after(ReplyView::MarkedAsClipboard(marked_clipboard));
            let waiting = recording.after(ReplyView::Put(put));
            &&& inserting.pending() == ActionView::Insert(clip)
            &&& marking_primary.pending() == ActionView::MarkAsPrimary(id)
            &&& marking_clipboard.pending() == ActionView::MarkAsClipboard(id)
            &&& recording.pending() == ActionView::Put(clip)
            &&& waiting == StageView::Waiting
        }),
{
}

/// Once the worker drains it asks for the snapshot, hands exactly what the
/// snapshot gave to the history store, and stops, whether or not the save
/// went well. A closed event source makes it send the shutdown signal first,
/// and it goes on whether or not the signal was heard; a word from the
/// control inbox makes it send none.
pub proof fn a_drain_flushes_the_snapshot(
    reason: Wakeup,
    heard: bool,
    records: Seq<Clip>,
    capacity: nat,
    saved: bool,
)
    requires
        reason.stops(),
    ensures
        ({
            let draining = StageView::Waiting.after(reason.reply());
            let snapshotting = if reason is Event {
                draining.after(ReplyView::ShutdownSent(heard))
            } else {
                draining
            };
            let saving = snapshotting.after(ReplyView::Snapshot(records, capacity));
            let stopped = saving.after(ReplyView::Saved(saved));
            &&& draining.state() == State::Draining
            &&& reason is Event ==> draining.pending() == ActionView::SendShutdown
            &&& snapshotting.pending() == ActionView::Snapshot
            &&& saving.pending() == ActionView::SaveAndShrink(records, capacity)
            &&& stopped == StageView::Stopped
            &&& stopped.pending() == ActionView::Finish
        }),
{
}

/// A worker that no longer runs never runs again: whatever it is told, it
/// asks for no further wait, insert, mark or put, and each reply that it
/// takes in brings it closer to the end.
pub proof fn a_draining_worker_never_resumes(stage: StageView, reply: ReplyView)
    requires
        stage.state() != State::Running,
    ensures
        stage.after(reply).state() != State::Running,
        stage.after(reply).pending() is SendShutdown || stage.after(reply).pending() is Snapshot
            || stage.after(reply).pending() is SaveAndShrink || stage.after(reply).pending() is Finish,
        stage.expects(reply) ==> stage.after(reply).distance() < stage.distance(),
{
}

/// A stopped worker expects nothing and stays stopped.
pub proof fn a_stopped_worker_stays_stopped(reply: ReplyView)
    ensures
        !StageView::Stopped.expects(reply),
        StageView::Stopped.after(reply) == StageView::Stopped,
{
}

/// Nothing that goes wrong changes the worker's course: of two replies that
/// differ only in the incident they tell of, each takes the worker where the
/// other would. The one incident that does is the closed event source, which
/// is the worker's reason to drain.
pub proof fn an_incident_changes_no_course(stage: StageView, reply: ReplyView)
    requires
        reply.incident() is Some,
        reply.incident() != Some(Incident::SourceClosed),
    ensures
        reply matches ReplyView::Event(_) ==> stage.after(reply) == stage,
        reply is MarkedAsPrimary ==> stage.after(reply) == stage.after(
            ReplyView::MarkedAsPrimary(true),
        ),
        reply is MarkedAsClipboard ==> stage.after(reply) == stage.after(
            ReplyView::MarkedAsClipboard(true),
        ),
        reply is Put ==> stage.after(reply) == stage.after(ReplyView::Put(true)),
        reply is ShutdownSent ==> stage.after(reply) == stage.after(ReplyView::ShutdownSent(true)),
        reply is Saved ==> stage.after(reply) == stage.after(ReplyView::Saved(true)),
        stage.after(reply).state() == stage.state() || stage.after(reply).state()
            == State::Stopped,
{
}

/// A whole run: waits that end with events and lags, then one that ends with
/// a reason to stop, whatever may be waiting behind it and whichever actions
/// fail. The worker stops. What was waiting behind the reason to stop is left
/// where it was. The clip store has been given the clip of each event, in
/// order, and of nothing else. One shutdown signal has been sent if the reason
/// was the closed event source, and none otherwise. The history store has been
/// told to save once. Where no action failed, the history store holds what the
/// clip store holds, and both markers point at the record made of the last
/// event, if there was one.
pub proof fn a_whole_run(daemon: Daemon, quiet: Seq<Wakeup>, last: Wakeup, rest: Seq<Wakeup>)
    requires
        daemon.wf(),
        daemon.wakeups =~= quiet.push(last) + rest,
        forall|i: int| 0 <= i < quiet.len() ==> !(#[trigger] quiet[i]).stops(),
        last.stops(),
    ensures
        ({
            let (stage, end) = run(StageView::Waiting, daemon);
            &&& stage == StageView::Stopped
            &&& end.wakeups == rest
            &&& end.capacity == daemon.capacity
            &&& end.ids == daemon.ids
            &&& end.fails == daemon.fails
            &&& end.wf()
            &&& end.clips == latest(daemon.clips + clips_of(quiet), daemon.capacity)
            &&& end.inserted == daemon.inserted + clips_of(quiet).len()
            &&& end.shutdown_signals == daemon.shutdown_signals + if last is Event {
                1nat
            } else {
                0nat
            }
            &&& end.saves == daemon.saves + 1
            &&& daemon.all_goes_well() ==> {
                &&& end.history == end.clips
                &&& clips_of(quiet).len() == 0 ==> end.primary == daemon.primary && end.clipboard
                    == daemon.clipboard
                &&& clips_of(quiet).len() > 0 ==> end.primary == Some(
                    (daemon.ids)((end.inserted - 1) as nat),
                ) && end.clipboard == end.primary
            }
        }),
    decreases quiet.len(),
{
    if quiet.len() == 0 {
        assert(daemon.wakeups.first() == last);
        assert(daemon.wakeups.drop_first() =~= rest);
        assert(daemon.clips + clips_of(quiet) =~= daemon.clips);
        let woken = daemon.apply(ActionView::Wait);
        lemma_run_unfolds(StageView::Waiting, daemon);
        if last is Event {
            lemma_run_unfolds(StageView::Signalling, woken);
            lemma_run_flush(woken.apply(ActionView::SendShutdown));
        } else {
            lemma_run_flush(woken);
        }
        if daemon.all_goes_well() {
            assert(forall|n: nat| !#[trigger] (daemon.fails)(n));
        }
    } else {
        let later = quiet.drop_first();
        assert(daemon.wakeups.first() == quiet.first());
        assert(daemon.wakeups.drop_first() =~= later.push(last) + rest);
        assert(!quiet[0].stops());
        assert forall|i: int| 0 <= i < later.len() implies !(#[trigger] later[i]).stops() by {
            assert(later[i] == quiet[i + 1]);
        }
        match quiet.first() {
            Wakeup::Event(Ok(clip)) => {
                let next = daemon.after_round(clip);
                lemma_run_round(daemon, clip);
                a_whole_run(next, later, last, rest);
                lemma_latest_absorbs(daemon.clips.push(clip), clips_of(later), daemon.capacity);
                assert(daemon.clips.push(clip) + clips_of(later) =~= daemon.clips + clips_of(
                    quiet,
                ));
                if daemon.all_goes_well() {
                    assert(forall|n: nat| !#[trigger] (daemon.fails)(n));
                    assert(next.all_goes_well());
                }
            },
            _ => {
                let next = daemon.apply(ActionView::Wait);
                lemma_run_unfolds(StageView::Waiting, daemon);
                a_whole_run(next, later, last, rest);
            },
        }
    }
}

/// A word from the control inbox ends the waiting at once, a shutdown message
/// and the loss of every sender alike: the worker drains from that reply on,
/// and the run ends with the worker stopped. Whatever was waiting behind that
/// word, events or further messages, is left where it was; nothing is
/// inserted, marked or signalled any more, and the history store is told to
/// save once.
pub proof fn a_shutdown_message_stops_the_worker(
    daemon: Daemon,
    message: Option<Message>,
    rest: Seq<Wakeup>,
)
    requires
        daemon.wakeups =~= seq![Wakeup::Message(message)] + rest,
    ensures
        StageView::Waiting.after(ReplyView::Message(message)).state() == State::Draining,
        ({
            let (stage, end) = run(StageView::Waiting, daemon);
            &&& stage == StageView::Stopped
            &&& end.wakeups == rest
            &&& end.clips == daemon.clips
            &&& end.inserted == daemon.inserted
            &&& end.primary == daemon.primary
            &&& end.clipboard == daemon.clipboard
            &&& end.shutdown_signals == daemon.shutdown_signals
            &&& end.saves == daemon.saves + 1
        }),
{
    let woken = daemon.apply(ActionView::Wait);
    assert(daemon.wakeups.drop_first() =~= rest);
    lemma_run_unfolds(StageView::Waiting, daemon);
    lemma_run_flush(woken);
}

/// A closed event source makes the worker send exactly one shutdown signal to
/// the rest of the daemon and stop, with no word from the control inbox and
/// whichever actions fail. A worker that stops on a word from the control
/// inbox sends none.
pub proof fn a_closed_source_signals_shutdown_once(
    daemon: Daemon,
    quiet: Seq<Wakeup>,
    last: Wakeup,
    rest: Seq<Wakeup>,
)
    requires
        daemon.wf(),
        daemon.wakeups =~= quiet.push(last) + rest,
        forall|i: int| 0 <= i < quiet.len() ==> !(#[trigger] quiet[i]).stops(),
        last.stops(),
    ensures
        run(StageView::Waiting, daemon).0 == StageView::Stopped,
        last == Wakeup::Event(Err(RecvError::Closed)) ==> run(
            StageView::Waiting,
            daemon,
        ).1.shutdown_signals == daemon.shutdown_signals + 1,
        last is Message ==> run(StageView::Waiting, daemon).1.shutdown_signals
            == daemon.shutdown_signals,
{
    a_whole_run(daemon, quiet, last, rest);
}

/// A lag changes nothing. At whatever stage the worker is told of one, it
/// stays at that stage, so it asks for no insert, mark or put on that account
/// and does not leave the state it is in; and in a run, the wait that ends
/// with a lag is followed by another wait, with the stores, the markers and
/// the signals as they were.
pub proof fn a_lag_changes_nothing(stage: StageView, dropped: u64, daemon: Daemon)
    ensures
        stage.after(ReplyView::Event(Err(RecvError::Lagged(dropped)))) == stage,
        StageView::Waiting.after(ReplyView::Event(Err(RecvError::Lagged(dropped)))).pending()
            == ActionView::Wait,
        daemon.wakeups.len() > 0 && daemon.wakeups.first() == Wakeup::Event(
            Err(RecvError::Lagged(dropped)),
        ) ==> run(StageView::Waiting, daemon) == run(
            StageView::Waiting,
            daemon.apply(ActionView::Wait),
        ),
        daemon.wakeups.len() > 0 ==> daemon.apply(ActionView::Wait) == (Daemon {
            wakeups: daemon.wakeups.drop_first(),
            done: daemon.done + 1,
            ..daemon
        }),
{
    if daemon.wakeups.len() > 0 && daemon.wakeups.first() == Wakeup::Event(
        Err(RecvError::Lagged(dropped)),
    ) {
        lemma_run_unfolds(StageView::Waiting, daemon);
    }
}

/// After any number of clipboard events and then a reason to stop, with no
/// action failing, the history store holds the latest `capacity` of the clips
/// that the clip store held or was given, in the order in which they came:
/// never more than `capacity` records, and none but the last `capacity` of
/// them.
pub proof fn the_history_holds_the_latest_clips(
    daemon: Daemon,
    events: Seq<Clip>,
    last: Wakeup,
    rest: Seq<Wakeup>,
)
    requires
        daemon.wf(),
        daemon.all_goes_well(),
        daemon.wakeups =~= events.map_values(|clip: Clip| Wakeup::Event(Ok(clip))).push(last)
            + rest,
        last.stops(),
    ensures
        ({
            let (stage, end) = run(StageView::Waiting, daemon);
            let given = daemon.clips + events;
            &&& stage == StageView::Stopped
            &&& end.history == latest(given, daemon.capacity)
            &&& end.history.len() <= daemon.capacity
            &&& end.history.len() <= given.len()
            &&& forall|i: int|
                0 <= i < end.history.len() ==> end.history[i] == given[given.len()
                    - end.history.len() + i]
        }),
{
    let quiet = events.map_values(|clip: Clip| Wakeup::Event(Ok(clip)));
    lemma_clips_of_events(events);
    a_whole_run(daemon, quiet, last, rest);
}

/// After the round of an event, with no action failing, both markers of the
/// clip store point at the record that was made of it, and both stores hold
/// its clip as their newest record.
pub proof fn the_markers_follow_the_latest_clip(daemon: Daemon, clip: Clip)
    requires
        daemon.all_goes_well(),
        daemon.wakeups =~= seq![Wakeup::Event(Ok(clip))],
    ensures
        ({
            let (stage, end) = run(StageView::Waiting, daemon);
            let id = (daemon.ids)(daemon.inserted);
            &&& stage == StageView::Waiting
            &&& end.primary == Some(id)
            &&& end.clipboard == Some(id)
            &&& end.clips == latest(daemon.clips.push(clip), daemon.capacity)
            &&& end.history == daemon.history.push(clip)
            &&& end.shutdown_signals == daemon.shutdown_signals
            &&& end.saves == daemon.saves
        }),
{
    assert(forall|n: nat| !#[trigger] (daemon.fails)(n));
    lemma_run_round(daemon, clip);
    assert(daemon.after_round(clip).wakeups =~= Seq::<Wakeup>::empty());
}

} // verus!
