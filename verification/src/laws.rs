//! What holds of the queue and of the protocol whatever is done to them,
//! stated over their mathematical values and proved from the definitions of
//! their operations.

use crate::mpd::batch::{ack_text, lines_text, ExecutionView, ProgressView};
use crate::mpd::mpd_commands::{settings_lines, shifted, status_lines, StepView};
use crate::mpd::registry::RegistryView;
use crate::mpd::ClientView;
use crate::player::{Intent, PlayerEvent};
use crate::queue::QueueView;
use crate::text::decimal;
use crate::track::TrackView;
use vstd::prelude::*;

verus! {

/// One change to the list of tracks.
pub enum Edit {
    Append(TrackView),
    Remove(nat),
}

/// The queue after the edits, made in order.
pub open spec fn edited(q: QueueView, edits: Seq<Edit>) -> QueueView
    decreases edits.len(),
{
    if edits.len() == 0 {
        q
    } else {
        let before = edited(q, edits.drop_last());
        match edits.last() {
            Edit::Append(t) => before.append(t),
            Edit::Remove(i) => before.remove(i),
        }
    }
}

/// How many of the edits append a track.
pub open spec fn appended(edits: Seq<Edit>) -> nat
    decreases edits.len(),
{
    if edits.len() == 0 {
        0
    } else {
        appended(edits.drop_last()) + match edits.last() {
            Edit::Append(_) => 1nat,
            Edit::Remove(_) => 0nat,
        }
    }
}

/// How many of the edits take a track away: a removal counts where a track
/// is at its place when its turn comes.
pub open spec fn removed(q: QueueView, edits: Seq<Edit>) -> nat
    decreases edits.len(),
{
    if edits.len() == 0 {
        0
    } else {
        removed(q, edits.drop_last()) + match edits.last() {
            Edit::Append(_) => 0nat,
            Edit::Remove(i) => if i < edited(q, edits.drop_last()).tracks.len() {
                1nat
            } else {
                0nat
            },
        }
    }
}

/// Every operation on a queue leaves it a queue.
pub proof fn operations_keep_queue(q: QueueView, t: TrackView, i: nat, v: u16, e: PlayerEvent, now: nat)
    requires
        q.wf(),
    ensures
        q.append(t).wf(),
        q.remove(i).wf(),
        q.clear().wf(),
        q.play_id(i).wf(),
        q.play().wf(),
        q.toggle_playback().wf(),
        q.stop().wf(),
        q.next().wf(),
        q.previous().wf(),
        q.set_volume(v).wf(),
        q.on_event(e, now).wf(),
        q.delivered().wf(),
{
}

/// After any run of appends and removals the queue is as long as it was,
/// plus the tracks appended, minus the tracks removed.
pub proof fn length_counts_edits(q: QueueView, edits: Seq<Edit>)
    requires
        q.wf(),
    ensures
        edited(q, edits).wf(),
        edited(q, edits).tracks.len() == q.tracks.len() + appended(edits) - removed(q, edits),
    decreases edits.len(),
{
    if edits.len() > 0 {
        length_counts_edits(q, edits.drop_last());
        let before = edited(q, edits.drop_last());
        match edits.last() {
            Edit::Append(t) => {
                operations_keep_queue(before, t, 0, 0, PlayerEvent::Stopped, 0);
            },
            Edit::Remove(i) => {
                operations_keep_queue(before, before.tracks[0], i, 0, PlayerEvent::Stopped, 0);
            },
        }
    }
}

/// After any run of appends and removals the status report tells, in its
/// eighth line, the length that the queue had, plus the tracks appended,
/// minus the tracks removed.
pub proof fn status_reports_length(q: QueueView, edits: Seq<Edit>, now: nat)
    requires
        q.wf(),
    ensures
        status_lines(edited(q, edits), now)[7] == "playlistlength: "@ + decimal(
            (q.tracks.len() + appended(edits) - removed(q, edits)) as nat,
        ),
{
    length_counts_edits(q, edits);
    assert(settings_lines(edited(q, edits)).len() == 9);
}

/// Taking away the current track when it is the last one leaves no current
/// track and tells the player to stop, once; and when the player confirms
/// the stop, the status is Stopped.
pub proof fn removing_current_last_stops(q: QueueView, now: nat)
    requires
        q.wf(),
        q.cursor is Some,
        q.cursor->0 + 1 == q.tracks.len(),
    ensures
        q.remove(q.cursor->0).cursor is None,
        q.remove(q.cursor->0).intents == q.intents.push(Intent::Stop),
        q.remove(q.cursor->0).tracks == q.tracks.drop_last(),
        q.remove(q.cursor->0).on_event(PlayerEvent::Stopped, now).status == PlayerEvent::Stopped,
        q.remove(q.cursor->0).on_event(PlayerEvent::Stopped, now).cursor is None,
{
    assert(q.tracks.remove(q.cursor->0 as int) =~= q.tracks.drop_last());
}

/// Taking away a track in front of the current one moves the cursor down by
/// exactly one, so that it stays on the same track, and changes neither the
/// status nor what the player has been told.
pub proof fn removing_before_cursor_shifts(q: QueueView, index: nat)
    requires
        q.wf(),
        q.cursor is Some,
        index < q.cursor->0,
    ensures
        q.remove(index).cursor == Some((q.cursor->0 - 1) as nat),
        q.remove(index).current() == q.current(),
        q.remove(index).status == q.status,
        q.remove(index).intents == q.intents,
        q.remove(index).elapsed == q.elapsed,
        q.remove(index).since == q.since,
{
}

/// Going on from the last track stops: no current track is left, and the
/// player is told to stop.
pub proof fn next_at_last_stops(q: QueueView)
    requires
        q.wf(),
        q.cursor is Some,
        q.cursor->0 + 1 == q.tracks.len(),
    ensures
        q.next() == q.stop(),
        q.next().cursor is None,
        q.next().intents == q.intents.push(Intent::Stop),
{
}

/// Going back from the first track tells the player to stop and changes
/// nothing else: the cursor stays on the first track.
pub proof fn previous_at_first_keeps_cursor(q: QueueView)
    requires
        q.wf(),
        q.cursor == Some(0nat),
    ensures
        q.previous() == q.send(Intent::Stop),
        q.previous().cursor == Some(0nat),
        q.previous().intents == q.intents.push(Intent::Stop),
{
}

/// As long as no event arrives, the time played never goes down as the clock
/// goes on.
pub proof fn elapsed_never_decreases(q: QueueView, earlier: nat, later: nat)
    requires
        earlier <= later,
    ensures
        q.elapsed_at(earlier) <= q.elapsed_at(later),
{
}

/// A pause freezes the time played: whatever the clock shows afterwards, the
/// time played is what it was at the moment of the pause.
pub proof fn pause_freezes_elapsed(q: QueueView, now: nat, later: nat)
    requires
        q.wf(),
    ensures
        q.on_event(PlayerEvent::Paused, now).elapsed == Some(q.elapsed_at(now)),
        q.on_event(PlayerEvent::Paused, now).elapsed_at(later) == q.elapsed_at(now),
{
}

/// While the player does not play, the time played stands still; and when
/// it resumes, the time played goes on from there.
pub proof fn resuming_continues_elapsed(q: QueueView, now: nat, later: nat)
    requires
        q.wf(),
        q.status != PlayerEvent::Playing,
    ensures
        q.elapsed_at(later) == q.elapsed_at(now),
        q.on_event(PlayerEvent::Playing, now).elapsed_at(now) == q.elapsed_at(now),
{
}

/// A track appended to a fresh queue and started, played from `started` to
/// `paused` on the clock, has been played for exactly the time between.
pub proof fn played_time_is_measured(t: TrackView, started: nat, paused: nat, later: nat)
    requires
        started <= paused <= u64::MAX,
    ensures
        ({
            let q = QueueView::empty().append(t).play_id(0).on_event(
                PlayerEvent::Playing,
                started,
            ).on_event(PlayerEvent::Paused, paused);
            &&& q.wf()
            &&& q.status == PlayerEvent::Paused
            &&& q.cursor == Some(0nat)
            &&& q.elapsed_at(later) == paused - started
        }),
{
}

/// A change of volume never leaves the range from 0 to 65535: what goes
/// beyond one end comes back in at the other, a whole number of rounds away
/// from the plain sum.
pub proof fn volume_goes_round(volume: u16, change: int)
    ensures
        0 <= shifted(volume, change) <= 65535,
        0 <= volume + change <= 65535 ==> shifted(volume, change) == volume + change,
        (volume + change - shifted(volume, change)) % 65536 == 0,
{
    let sum = volume + change;
    assert(0 <= sum % 65536 < 65536);
    assert(sum == 65536 * (sum / 65536) + sum % 65536) by (nonlinear_arith);
    assert((65536 * (sum / 65536)) % 65536 == 0) by (nonlinear_arith);
}

/// A command on a line of its own is answered with its lines and `OK`, or
/// with the line of its failure, unless it first needs the catalog.
pub proof fn one_command_is_answered_or_refused(
    table: RegistryView,
    client: ClientView,
    line: Seq<char>,
    now: nat,
)
    ensures
        ({
            let end = table.executed(client, ExecutionView::fresh(seq![line]), None, now);
            &&& end.client == table.ran_effect(client, line, now)
            &&& end.progress == match table.ran_answer(client, line, now) {
                StepView::Done(Ok(lines)) => ProgressView::Finished(
                    lines_text(lines) + "OK"@ + "\n"@,
                ),
                StepView::Done(Err(e)) => ProgressView::Finished(
                    ack_text(e, 0, table.verb_of(line)) + "\n"@,
                ),
                StepView::Ask(request, _) => ProgressView::Ask(request),
            }
        }),
{
    let run = ExecutionView::fresh(seq![line]);
    let step = table.ran_answer(client, line, now);
    let after = table.ran_effect(client, line, now);
    assert(table.executed(client, run, None, now) == table.proceed(after, run, step, now));
    match step {
        StepView::Done(result) => {
            let done = run.settled(result, table.verb_of(line));
            assert(table.proceed(after, run, step, now) == table.advance(after, done, now));
            assert(done.position == 1);
            match result {
                Ok(lines) => {
                    assert(done.output =~= lines);
                    assert(Seq::<char>::empty() + "OK"@ =~= "OK"@);
                },
                Err(e) => {
                    assert(lines_text(done.output) =~= Seq::<char>::empty());
                    assert(Seq::<char>::empty() + ack_text(e, 0, table.verb_of(line))
                        =~= ack_text(e, 0, table.verb_of(line)));
                },
            }
        },
        StepView::Ask(request, pending) => {},
    }
}

/// A failure stops no command: however a batch stands, what it goes on to
/// do to the shared state, which lines it gathers, and where it next asks
/// the catalog are the same whether or not a command before has failed.
pub proof fn failure_stops_no_command(
    table: RegistryView,
    client: ClientView,
    run: ExecutionView,
    failure: Option<Seq<char>>,
    now: nat,
)
    requires
        run.position <= run.commands.len(),
    ensures
        ({
            let a = table.advance(client, run, now);
            let b = table.advance(client, ExecutionView { failure, ..run }, now);
            &&& a.client == b.client
            &&& a.run.position == b.run.position
            &&& a.run.output == b.run.output
            &&& a.run.waiting == b.run.waiting
            &&& a.progress is Ask ==> a.progress == b.progress
            &&& a.progress is Finished <==> b.progress is Finished
        }),
    decreases run.commands.len() - run.position,
{
    let other = ExecutionView { failure, ..run };
    if run.position < run.commands.len() {
        let line = run.commands[run.position as int];
        let step = table.ran_answer(client, line, now);
        let after = table.ran_effect(client, line, now);
        assert(table.advance(client, run, now) == table.proceed(after, run, step, now));
        assert(table.advance(client, other, now) == table.proceed(after, other, step, now));
        match step {
            StepView::Done(result) => {
                let verb = table.verb_of(line);
                let next = run.settled(result, verb);
                let next_other = other.settled(result, verb);
                assert(next_other == (ExecutionView { failure: next_other.failure, ..next }));
                failure_stops_no_command(table, after, next, next_other.failure, now);
            },
            StepView::Ask(request, pending) => {},
        }
    }
}

} // verus!
