//! The playback queue: an ordered list of tracks with a cursor on the one
//! that plays, the status last confirmed by the player, and the clock
//! readings from which the position within the track is derived.
//!
//! The queue decides; it does not talk to the player. Every instruction it
//! has for the player is put, in order, on a list that the caller takes and
//! delivers. Times are milliseconds on a clock of the caller's choosing.

use crate::player::{Intent, PlayerCommand, PlayerEvent};
use crate::track::{Track, TrackView};
use vstd::prelude::*;

verus! {

/// The queue as a mathematical value.
pub struct QueueView {
    /// The tracks in playing order.
    pub tracks: Seq<TrackView>,
    /// The place of the current track, if there is one.
    pub cursor: Option<nat>,
    /// The instructions for the player that nobody has taken yet, oldest first.
    pub intents: Seq<Intent>,
    /// What the player last said it is doing.
    pub status: PlayerEvent,
    /// Time played before the last resumption.
    pub elapsed: Option<nat>,
    /// When playing was last resumed.
    pub since: Option<nat>,
    pub volume: u16,
}

impl QueueView {
    /// What holds of every queue: the cursor points at a track, a time of
    /// resumption is kept only while the player plays, and the end of a track
    /// is never the status.
    pub open spec fn wf(self) -> bool {
        &&& self.cursor matches Some(c) ==> c < self.tracks.len()
        &&& self.since is Some ==> self.status == PlayerEvent::Playing
        &&& self.status != PlayerEvent::EndOfTrack
    }

    /// A queue without tracks, stopped, at volume 100.
    pub open spec fn empty() -> QueueView {
        QueueView {
            tracks: Seq::empty(),
            cursor: None,
            intents: Seq::empty(),
            status: PlayerEvent::Stopped,
            elapsed: None,
            since: None,
            volume: 100,
        }
    }

    /// The current track: the one that the cursor points at.
    pub open spec fn current(self) -> Option<TrackView> {
        match self.cursor {
            Some(c) => if c < self.tracks.len() {
                Some(self.tracks[c as int])
            } else {
                None
            },
            None => None,
        }
    }

    /// The place after the cursor, if a track is there.
    pub open spec fn next_index(self) -> Option<nat> {
        match self.cursor {
            Some(c) => if c + 1 < self.tracks.len() {
                Some(c + 1)
            } else {
                None
            },
            None => None,
        }
    }

    /// The place before the cursor, if there is one.
    pub open spec fn previous_index(self) -> Option<nat> {
        match self.cursor {
            Some(c) => if c > 0 {
                Some((c - 1) as nat)
            } else {
                None
            },
            None => None,
        }
    }

    /// Length of the current track in whole seconds, 0 without one.
    pub open spec fn duration(self) -> nat {
        match self.current() {
            Some(t) => t.seconds(),
            None => 0,
        }
    }

    /// Time played within the current track when the clock shows `now`: what
    /// was played before the last resumption, and the time since then while
    /// one is recorded. A clock that shows less than at the resumption adds
    /// nothing, and the sum stops at the largest `u64`.
    pub open spec fn elapsed_at(self, now: nat) -> nat {
        let before = match self.elapsed {
            Some(e) => e,
            None => 0,
        };
        let running = match self.since {
            Some(s) => if now >= s {
                (now - s) as nat
            } else {
                0
            },
            None => 0,
        };
        if before + running > u64::MAX {
            u64::MAX as nat
        } else {
            before + running
        }
    }

    /// With one more instruction for the player.
    pub open spec fn send(self, intent: Intent) -> QueueView {
        QueueView { intents: self.intents.push(intent), ..self }
    }

    /// With the pending instructions taken away.
    pub open spec fn delivered(self) -> QueueView {
        QueueView { intents: Seq::empty(), ..self }
    }

    /// With one more track at the end.
    pub open spec fn append(self, track: TrackView) -> QueueView {
        QueueView { tracks: self.tracks.push(track), ..self }
    }

    /// No current track, and the player told to stop.
    pub open spec fn stop(self) -> QueueView {
        QueueView { cursor: None, ..self }.send(Intent::Stop)
    }

    /// The track at `index` loaded, made current and started; nothing where
    /// no track is at `index`.
    pub open spec fn play_id(self, index: nat) -> QueueView {
        if index < self.tracks.len() {
            QueueView { cursor: Some(index), ..self }.send(
                Intent::Load(self.tracks[index as int].id),
            ).send(Intent::Play)
        } else {
            self
        }
    }

    /// With the player told to play.
    pub open spec fn play(self) -> QueueView {
        self.send(Intent::Play)
    }

    /// Pause while the player plays, play otherwise.
    pub open spec fn toggle_playback(self) -> QueueView {
        if self.status == PlayerEvent::Playing {
            self.send(Intent::Pause)
        } else {
            self.send(Intent::Play)
        }
    }

    /// On to the next track, or a stop after the last.
    pub open spec fn next(self) -> QueueView {
        match self.next_index() {
            Some(i) => self.play_id(i),
            None => self.stop(),
        }
    }

    /// Back to the track before; at the first track, or without a current
    /// one, the player is told to stop and the cursor stays.
    pub open spec fn previous(self) -> QueueView {
        match self.previous_index() {
            Some(i) => self.play_id(i),
            None => self.send(Intent::Stop),
        }
    }

    /// Without the track at `index`. The queue stops when it becomes empty or
    /// when the track taken was current and last; the track that slides into
    /// the place of a current track is started; a cursor behind the place
    /// moves one down. Nothing where no track is at `index`.
    pub open spec fn remove(self, index: nat) -> QueueView {
        if index >= self.tracks.len() {
            self
        } else {
            let q = QueueView { tracks: self.tracks.remove(index as int), ..self };
            if q.tracks.len() == 0 {
                q.stop()
            } else {
                match self.cursor {
                    Some(c) => if c == index {
                        if c == q.tracks.len() {
                            q.stop()
                        } else {
                            q.play_id(index)
                        }
                    } else if c > index {
                        QueueView { cursor: Some((c - 1) as nat), ..q }
                    } else {
                        q
                    },
                    None => q,
                }
            }
        }
    }

    /// Stopped and without tracks.
    pub open spec fn clear(self) -> QueueView {
        QueueView { tracks: Seq::empty(), ..self.stop() }
    }

    /// At this volume, and the player told of it.
    pub open spec fn set_volume(self, volume: u16) -> QueueView {
        QueueView { volume, ..self }.send(Intent::SetVolume(volume))
    }

    /// The queue after the player reported `event` while the clock showed
    /// `now`.
    pub open spec fn on_event(self, event: PlayerEvent, now: nat) -> QueueView {
        match event {
            PlayerEvent::Paused => QueueView {
                elapsed: Some(self.elapsed_at(now)),
                since: None,
                status: PlayerEvent::Paused,
                ..self
            },
            PlayerEvent::Playing => QueueView {
                since: Some(now),
                status: PlayerEvent::Playing,
                ..self
            },
            PlayerEvent::EndOfTrack => QueueView {
                elapsed: None,
                since: None,
                status: PlayerEvent::Stopped,
                ..self
            }.next(),
            PlayerEvent::Stopped => QueueView {
                elapsed: None,
                since: None,
                status: PlayerEvent::Stopped,
                ..self
            },
        }
    }
}

/// A place in the list of tracks, as a mathematical value.
pub open spec fn place(p: Option<usize>) -> Option<nat> {
    match p {
        Some(i) => Some(i as nat),
        None => None,
    }
}

/// The playback queue.
pub struct Queue {
    queue: Vec<Track>,
    current_track: Option<usize>,
    intents: Vec<PlayerCommand>,
    status: PlayerEvent,
    elapsed: Option<u64>,
    since: Option<u64>,
    volume: u16,
}

impl View for Queue {
    type V = QueueView;

    closed spec fn view(&self) -> QueueView {
        QueueView {
            tracks: self.queue.deep_view(),
            cursor: match self.current_track {
                Some(c) => Some(c as nat),
                None => None,
            },
            intents: self.intents.deep_view(),
            status: self.status,
            elapsed: match self.elapsed {
                Some(e) => Some(e as nat),
                None => None,
            },
            since: match self.since {
                Some(s) => Some(s as nat),
                None => None,
            },
            volume: self.volume,
        }
    }
}

impl Queue {
    /// What every queue that this library hands out satisfies.
    pub open spec fn wf(&self) -> bool {
        self@.wf()
    }

    /// A queue without tracks, stopped, at volume 100, with nothing for the
    /// player.
    pub fn new() -> (q: Queue)
        ensures
            q.wf(),
            q@ == QueueView::empty(),
    {
        let q = Queue {
            queue: Vec::new(),
            current_track: None,
            intents: Vec::new(),
            status: PlayerEvent::Stopped,
            elapsed: None,
            since: None,
            volume: 100,
        };
        assert(q.queue.deep_view() =~= Seq::<TrackView>::empty());
        assert(q.intents.deep_view() =~= Seq::<Intent>::empty());
        q
    }

    /// Puts one instruction for the player on the list of pending ones.
    fn dispatch(&mut self, command: PlayerCommand)
        ensures
            final(self)@ == old(self)@.send(command@),
    {
        self.intents.push(command);
        assert(self.intents.deep_view() =~= old(self).intents.deep_view().push(command@));
    }

    /// Hands over the instructions for the player that are pending, oldest
    /// first, and forgets them.
    pub fn take_intents(&mut self) -> (r: Vec<PlayerCommand>)
        ensures
            r.deep_view() == old(self)@.intents,
            final(self)@ == old(self)@.delivered(),
    {
        let mut r: Vec<PlayerCommand> = Vec::new();
        std::mem::swap(&mut self.intents, &mut r);
        assert(self.intents.deep_view() =~= Seq::<Intent>::empty());
        r
    }

    /// The tracks in playing order.
    pub fn tracks(&self) -> (r: &Vec<Track>)
        ensures
            r.deep_view() == self@.tracks,
    {
        &self.queue
    }

    /// The place after the cursor, if a track is there.
    pub fn next_index(&self) -> (r: Option<usize>)
        ensures
            place(r) == self@.next_index(),
    {
        match self.current_track {
            Some(index) => {
                if index < self.queue.len() && index + 1 < self.queue.len() {
                    Some(index + 1)
                } else {
                    None
                }
            },
            None => None,
        }
    }

    /// The place before the cursor, if there is one.
    pub fn previous_index(&self) -> (r: Option<usize>)
        ensures
            place(r) == self@.previous_index(),
    {
        match self.current_track {
            Some(index) => {
                if index > 0 {
                    Some(index - 1)
                } else {
                    None
                }
            },
            None => None,
        }
    }

    /// The place of the current track.
    pub fn get_current_index(&self) -> (r: Option<usize>)
        ensures
            place(r) == self@.cursor,
    {
        self.current_track
    }

    /// A copy of the current track.
    pub fn get_current(&self) -> (r: Option<Track>)
        ensures
            r.deep_view() == self@.current(),
    {
        match self.current_track {
            Some(index) => if index < self.queue.len() {
                Some(self.queue[index].clone())
            } else {
                None
            },
            None => None,
        }
    }

    /// Puts a copy of the track at the end and tells its place.
    pub fn append(&mut self, track: &Track) -> (index: usize)
        ensures
            old(self).wf() ==> final(self).wf(),
            final(self)@ == old(self)@.append(track@),
            index == old(self)@.tracks.len(),
    {
        let copy = track.clone();
        self.queue.push(copy);
        assert(self.queue.deep_view() =~= old(self).queue.deep_view().push(track@));
        self.queue.len() - 1
    }

    /// Takes the track at `index` away and keeps the cursor on a track; see
    /// [`QueueView::remove`].
    pub fn remove(&mut self, index: usize)
        ensures
            old(self).wf() ==> final(self).wf(),
            final(self)@ == old(self)@.remove(index as nat),
    {
        if index >= self.queue.len() {
            return ;
        }
        self.queue.remove(index);
        assert(self.queue.deep_view() =~= old(self).queue.deep_view().remove(index as int));
        if self.queue_is_empty() {
            self.stop();
            return ;
        }
        if let Some(current_track) = self.current_track {
            if current_track == index {
                if current_track == self.queue.len() {
                    self.stop();
                } else {
                    self.play_id(index);
                }
            } else if current_track > index {
                self.current_track = Some(current_track - 1);
            }
        }
    }

    /// Whether no track is in the queue.
    fn queue_is_empty(&self) -> (r: bool)
        ensures
            r == (self@.tracks.len() == 0),
    {
        self.queue.len() == 0
    }

    /// Stops and empties the queue.
    pub fn clear(&mut self)
        ensures
            old(self).wf() ==> final(self).wf(),
            final(self)@ == old(self)@.clear(),
    {
        self.stop();
        self.queue.clear();
        assert(self.queue.deep_view() =~= Seq::<TrackView>::empty());
    }

    /// How many tracks are in the queue.
    pub fn len(&self) -> (r: usize)
        ensures
            r == self@.tracks.len(),
    {
        self.queue.len()
    }

    /// Starts the track at `index`: the player is told to load it, the
    /// cursor goes to it, and the player is told to play. Nothing where no
    /// track is at `index`.
    pub fn play_id(&mut self, index: usize)
        ensures
            final(self)@ == old(self)@.play_id(index as nat),
            old(self).wf() ==> final(self).wf(),
    {
        if index < self.queue.len() {
            let id = self.queue[index].id.clone();
            self.dispatch(PlayerCommand::Load(id));
            self.current_track = Some(index);
            self.dispatch(PlayerCommand::Play);
        }
    }

    /// Tells the player to play, which resumes what it has loaded.
    pub fn play(&mut self)
        ensures
            final(self)@ == old(self)@.play(),
            old(self).wf() ==> final(self).wf(),
    {
        self.dispatch(PlayerCommand::Play);
    }

    /// Tells the player to pause while it plays, and to play otherwise.
    pub fn toggle_playback(&mut self)
        ensures
            final(self)@ == old(self)@.toggle_playback(),
            old(self).wf() ==> final(self).wf(),
    {
        if self.get_status() == PlayerEvent::Playing {
            self.dispatch(PlayerCommand::Pause);
        } else {
            self.dispatch(PlayerCommand::Play);
        }
    }

    /// Forgets the current track and tells the player to stop.
    pub fn stop(&mut self)
        ensures
            final(self)@ == old(self)@.stop(),
            old(self).wf() ==> final(self).wf(),
    {
        self.current_track = None;
        self.dispatch(PlayerCommand::Stop);
    }

    /// Goes on to the next track, or stops after the last.
    pub fn next(&mut self)
        ensures
            old(self).wf() ==> final(self).wf(),
            final(self)@ == old(self)@.next(),
    {
        if let Some(index) = self.next_index() {
            self.play_id(index);
        } else {
            self.stop();
        }
    }

    /// Goes back to the track before. At the first track, or without a
    /// current one, the player is told to stop and the cursor stays where
    /// it is.
    pub fn previous(&mut self)
        ensures
            old(self).wf() ==> final(self).wf(),
            final(self)@ == old(self)@.previous(),
    {
        if let Some(index) = self.previous_index() {
            self.play_id(index);
        } else {
            self.dispatch(PlayerCommand::Stop);
        }
    }

    /// What the player last said it is doing.
    pub fn get_status(&self) -> (r: PlayerEvent)
        ensures
            r == self@.status,
    {
        self.status
    }

    /// Length of the current track in whole seconds, 0 without one.
    pub fn get_duration(&self) -> (r: u32)
        ensures
            r == self@.duration(),
    {
        match self.current_track {
            Some(index) => if index < self.queue.len() {
                self.queue[index].seconds()
            } else {
                0
            },
            None => 0,
        }
    }

    /// Milliseconds played within the current track when the clock shows `now`.
    pub fn get_current_elapsed_time(&self, now: u64) -> (r: u64)
        ensures
            r == self@.elapsed_at(now as nat),
    {
        let before: u64 = match self.elapsed {
            Some(e) => e,
            None => 0,
        };
        let running: u64 = match self.since {
            Some(s) => if now >= s {
                now - s
            } else {
                0
            },
            None => 0,
        };
        before.saturating_add(running)
    }

    /// The volume last set.
    pub fn get_volume(&self) -> (r: u16)
        ensures
            r == self@.volume,
    {
        self.volume
    }

    /// Keeps the volume and tells the player of it.
    pub fn set_volume(&mut self, vol: u16)
        ensures
            final(self)@ == old(self)@.set_volume(vol),
            old(self).wf() ==> final(self).wf(),
    {
        self.volume = vol;
        self.dispatch(PlayerCommand::SetVolume(vol));
    }

    /// Brings the queue up to date with what the player reported while the
    /// clock showed `now`.
    pub fn handle_event(&mut self, event: PlayerEvent, now: u64)
        ensures
            old(self).wf() ==> final(self).wf(),
            final(self)@ == old(self)@.on_event(event, now as nat),
    {
        match event {
            PlayerEvent::Paused => {
                self.elapsed = Some(self.get_current_elapsed_time(now));
                self.since = None;
            },
            PlayerEvent::Playing => {
                self.since = Some(now);
            },
            PlayerEvent::EndOfTrack => {
                self.elapsed = None;
                self.since = None;
                self.status = PlayerEvent::Stopped;
                self.next();
            },
            PlayerEvent::Stopped => {
                self.elapsed = None;
                self.since = None;
            },
        }
        if event != PlayerEvent::EndOfTrack {
            self.status = event;
        }
    }
}

} // verus!
