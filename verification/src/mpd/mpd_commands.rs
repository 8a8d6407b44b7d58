//! The commands of the protocol.

use crate::catalog::{
    CatalogError, CatalogReply, CatalogReplyView, CatalogRequest, CatalogRequestView, Playlist,
    PlaylistEntry, PlaylistEntryView, PlaylistView,
};
use crate::mpd::{Client, ClientView, SubsystemEvent};
use crate::player::PlayerEvent;
use crate::queue::QueueView;
use crate::text::{
    decimal, decimal_string, extend_lines, labelled, labelled_number, lines_of, parse_i16,
    parse_u16, parse_usize, push_line, seconds_string, seconds_text, signed_value, str_eq, texts,
    unsigned_value,
};
use crate::track::{Track, TrackView};
use vstd::prelude::*;
use vstd::string::*;

verus! {

/// Why a command failed.
#[derive(Clone, Copy, Debug, PartialEq, Eq, Structural)]
pub enum CommandError {
    /// The command needs an argument and the line has none in quotes.
    MissingArgument,
    /// The argument is not the number that the command needs.
    BadArgument,
    /// No track is at the place that the argument names.
    NoSuchSong,
    /// The user has no playlist of the name that the argument gives.
    NoSuchPlaylist,
    /// The catalog could not answer.
    Catalog,
}

/// What a command that has asked the catalog does with the answer.
#[derive(Debug, PartialEq, Eq)]
pub enum Pending {
    /// Append the track to the queue.
    AddTrack,
    /// List the playlists.
    ListPlaylists,
    /// Find the playlist of this name among the user's.
    FindPlaylist(String),
    /// Ask for the entries of the playlist with this identifier, now that
    /// its owner is known.
    PlaylistOwner(String),
    /// List the entries.
    PlaylistTracks,
}

/// A `Pending` as a mathematical value.
pub enum PendingView {
    AddTrack,
    ListPlaylists,
    FindPlaylist(Seq<char>),
    PlaylistOwner(Seq<char>),
    PlaylistTracks,
}

impl View for Pending {
    type V = PendingView;

    open spec fn view(&self) -> PendingView {
        match self {
            Pending::AddTrack => PendingView::AddTrack,
            Pending::ListPlaylists => PendingView::ListPlaylists,
            Pending::FindPlaylist(name) => PendingView::FindPlaylist(name@),
            Pending::PlaylistOwner(id) => PendingView::PlaylistOwner(id@),
            Pending::PlaylistTracks => PendingView::PlaylistTracks,
        }
    }
}

/// How far a command has come.
#[derive(Debug, PartialEq, Eq)]
pub enum Step {
    /// It is done: with these lines to answer, or with a failure.
    Done(Result<Vec<String>, CommandError>),
    /// It needs this answer from the catalog to go on.
    Ask(CatalogRequest, Pending),
}

/// A `Step` as a mathematical value.
pub enum StepView {
    Done(Result<Seq<Seq<char>>, CommandError>),
    Ask(CatalogRequestView, PendingView),
}

impl View for Step {
    type V = StepView;

    open spec fn view(&self) -> StepView {
        match self {
            Step::Done(Ok(lines)) => StepView::Done(Ok(lines.deep_view())),
            Step::Done(Err(e)) => StepView::Done(Err(*e)),
            Step::Ask(request, pending) => StepView::Ask(request@, pending@),
        }
    }
}

/// The argument of a command as a mathematical value.
pub open spec fn arg_view(args: Option<&str>) -> Option<Seq<char>> {
    match args {
        Some(s) => Some(s@),
        None => None,
    }
}

/// A command of the protocol: the verbs it answers to, and what it does
/// when a line with one of them arrives.
pub trait MpdCommand {
    /// The verbs that the command answers to.
    spec fn verbs(&self) -> Seq<Seq<char>>;

    /// What the shared state is after the command ran with the text in
    /// quotes `arg`, while the clock showed `now`.
    spec fn effect(&self, client: ClientView, arg: Option<Seq<char>>, now: nat) -> ClientView;

    /// How far the command came.
    spec fn answer(&self, client: ClientView, arg: Option<Seq<char>>, now: nat) -> StepView;

    fn get_type(&self) -> (r: Vec<&'static str>)
        ensures
            texts(r@) == self.verbs(),
    ;

    fn handle(&self, client: &mut Client, args: Option<&str>, now: u64) -> (r: Step)
        ensures
            final(client)@ == self.effect(old(client)@, arg_view(args), now as nat),
            r@ == self.answer(old(client)@, arg_view(args), now as nat),
            old(client).wf() ==> final(client).wf(),
    ;
}

/// The lines of a status report that name the current track.
pub open spec fn song_lines(q: QueueView) -> Seq<Seq<char>> {
    match q.cursor {
        Some(c) => seq!["song: "@ + decimal(c), "songid: "@ + decimal(c)],
        None => Seq::empty(),
    }
}

/// The lines of a status report that tell how far the current track has
/// been played.
pub open spec fn progress_lines(q: QueueView, now: nat) -> Seq<Seq<char>> {
    seq![
        "time: "@ + decimal(q.elapsed_at(now) / 1000) + ":"@ + decimal(q.duration()),
        "elapsed: "@ + seconds_text(q.elapsed_at(now)),
        "duration: "@ + decimal(q.duration()),
        "audio: 44100:24:2"@,
        "bitrate: 320"@,
    ]
}

/// The lines of a status report that every report has.
pub open spec fn settings_lines(q: QueueView) -> Seq<Seq<char>> {
    seq![
        "repeat: 0"@,
        "random: 0"@,
        "single: 0"@,
        "consume: 0"@,
        "playlist: 1"@,
        "mixrampdb: 0.00000"@,
        "volume: "@ + decimal(q.volume as nat),
        "playlistlength: "@ + decimal(q.tracks.len()),
        "state: "@ + q.status.label(),
    ]
}

/// The status report of a queue when the clock shows `now`.
pub open spec fn status_lines(q: QueueView, now: nat) -> Seq<Seq<char>> {
    settings_lines(q) + if q.status == PlayerEvent::Playing || q.status == PlayerEvent::Paused {
        song_lines(q) + progress_lines(q, now)
    } else {
        Seq::empty()
    }
}

/// `status`: the state of the queue and, while a track plays or is paused,
/// how far it has been played.
pub struct StatusCommand;

impl MpdCommand for StatusCommand {
    open spec fn verbs(&self) -> Seq<Seq<char>> {
        seq!["status"@]
    }

    open spec fn effect(&self, client: ClientView, arg: Option<Seq<char>>, now: nat) -> ClientView {
        client
    }

    open spec fn answer(&self, client: ClientView, arg: Option<Seq<char>>, now: nat) -> StepView {
        StepView::Done(Ok(status_lines(client.queue, now)))
    }

    fn get_type(&self) -> (r: Vec<&'static str>) {
        let r = vec!["status"];
        assert(texts(r@) =~= seq!["status"@]);
        r
    }

    fn handle(&self, client: &mut Client, args: Option<&str>, now: u64) -> (r: Step) {
        let mut output = lines_of(
            vec!["repeat: 0", "random: 0", "single: 0", "consume: 0", "playlist: 1", "mixrampdb: 0.00000"],
        );
        push_line(&mut output, labelled_number("volume: ", client.queue.get_volume() as u64));
        let status = client.queue.get_status();
        push_line(&mut output, labelled_number("playlistlength: ", client.queue.len() as u64));
        let label = status.to_string();
        push_line(&mut output, labelled("state: ", label.as_str()));
        assert(output.deep_view() =~= settings_lines(client@.queue));
        if status == PlayerEvent::Playing || status == PlayerEvent::Paused {
            if let Some(songid) = client.queue.get_current_index() {
                push_line(&mut output, labelled_number("song: ", songid as u64));
                push_line(&mut output, labelled_number("songid: ", songid as u64));
            }
            assert(output.deep_view() =~= settings_lines(client@.queue) + song_lines(client@.queue));
            let elapsed = client.queue.get_current_elapsed_time(now);
            let duration = client.queue.get_duration();
            let mut time = labelled_number("time: ", elapsed / 1000);
            time.append(":");
            let duration_text = decimal_string(duration as u64);
            time.append(duration_text.as_str());
            push_line(&mut output, time);
            let elapsed_text = seconds_string(elapsed);
            push_line(&mut output, labelled("elapsed: ", elapsed_text.as_str()));
            push_line(&mut output, labelled_number("duration: ", duration as u64));
            push_line(&mut output, String::from_str("audio: 44100:24:2"));
            push_line(&mut output, String::from_str("bitrate: 320"));
        }
        assert(output.deep_view() =~= status_lines(client@.queue, now as nat));
        Step::Done(Ok(output))
    }
}

impl CommandError {
    /// The number that the protocol gives to this kind of failure.
    pub open spec fn ack_code(self) -> nat {
        match self {
            CommandError::MissingArgument => 2,
            CommandError::BadArgument => 2,
            CommandError::NoSuchSong => 50,
            CommandError::NoSuchPlaylist => 50,
            CommandError::Catalog => 52,
        }
    }

    /// The words that tell a client of this failure.
    pub open spec fn ack_message(self) -> Seq<char> {
        match self {
            CommandError::MissingArgument => "missing argument"@,
            CommandError::BadArgument => "bad argument"@,
            CommandError::NoSuchSong => "No such song"@,
            CommandError::NoSuchPlaylist => "No such playlist"@,
            CommandError::Catalog => "catalog request failed"@,
        }
    }

    /// The number that the protocol gives to this kind of failure.
    pub fn code(&self) -> (r: u64)
        ensures
            r == self.ack_code(),
    {
        match self {
            CommandError::MissingArgument => 2,
            CommandError::BadArgument => 2,
            CommandError::NoSuchSong => 50,
            CommandError::NoSuchPlaylist => 50,
            CommandError::Catalog => 52,
        }
    }

    /// The words that tell a client of this failure.
    pub fn to_string(&self) -> (r: String)
        ensures
            r@ == self.ack_message(),
    {
        match self {
            CommandError::MissingArgument => String::from_str("missing argument"),
            CommandError::BadArgument => String::from_str("bad argument"),
            CommandError::NoSuchSong => String::from_str("No such song"),
            CommandError::NoSuchPlaylist => String::from_str("No such playlist"),
            CommandError::Catalog => String::from_str("catalog request failed"),
        }
    }
}

/// An answer without lines.
fn no_lines() -> (r: Vec<String>)
    ensures
        r.deep_view() == Seq::<Seq<char>>::empty(),
{
    let r: Vec<String> = Vec::new();
    assert(r.deep_view() =~= Seq::<Seq<char>>::empty());
    r
}

/// The number that a required argument writes, at most `max`.
pub open spec fn number_in(arg: Option<Seq<char>>, max: nat) -> Result<nat, CommandError> {
    match arg {
        None => Err(CommandError::MissingArgument),
        Some(s) => match unsigned_value(s) {
            Some(v) => if v <= max {
                Ok(v)
            } else {
                Err(CommandError::BadArgument)
            },
            None => Err(CommandError::BadArgument),
        },
    }
}

/// The place in a queue of `len` tracks that a required argument names.
pub open spec fn place_in(arg: Option<Seq<char>>, len: nat) -> Result<nat, CommandError> {
    match number_in(arg, usize::MAX as nat) {
        Ok(i) => if i < len {
            Ok(i)
        } else {
            Err(CommandError::NoSuchSong)
        },
        Err(e) => Err(e),
    }
}

/// The change of volume that a required argument writes.
pub open spec fn change_in(arg: Option<Seq<char>>) -> Result<int, CommandError> {
    match arg {
        None => Err(CommandError::MissingArgument),
        Some(s) => match signed_value(s) {
            Some(v) => if i16::MIN <= v <= i16::MAX {
                Ok(v)
            } else {
                Err(CommandError::BadArgument)
            },
            None => Err(CommandError::BadArgument),
        },
    }
}

/// The volume `change` away from `volume`, going round at either end of the
/// range from 0 to 65535.
pub open spec fn shifted(volume: u16, change: int) -> u16 {
    ((volume + change) % 65536) as u16
}

/// Reads the place in a queue of `len` tracks that a required argument names.
fn required_place(args: Option<&str>, len: usize) -> (r: Result<usize, CommandError>)
    ensures
        r is Ok == place_in(arg_view(args), len as nat) is Ok,
        r matches Ok(i) ==> place_in(arg_view(args), len as nat) == Ok::<nat, CommandError>(
            i as nat,
        ),
        r matches Err(e) ==> place_in(arg_view(args), len as nat) == Err::<nat, CommandError>(e),
{
    match args {
        None => Err(CommandError::MissingArgument),
        Some(s) => match parse_usize(s) {
            Some(i) => if i < len {
                Ok(i)
            } else {
                Err(CommandError::NoSuchSong)
            },
            None => Err(CommandError::BadArgument),
        },
    }
}

/// `stats`: figures about the server, all of them fixed.
pub struct StatsCommand;

impl MpdCommand for StatsCommand {
    open spec fn verbs(&self) -> Seq<Seq<char>> {
        seq!["stats"@]
    }

    open spec fn effect(&self, client: ClientView, arg: Option<Seq<char>>, now: nat) -> ClientView {
        client
    }

    open spec fn answer(&self, client: ClientView, arg: Option<Seq<char>>, now: nat) -> StepView {
        StepView::Done(Ok(seq![
            "uptime: 0"@,
            "playtime: 0"@,
        ]))
    }

    fn get_type(&self) -> (r: Vec<&'static str>) {
        let r = vec!["stats"];
        assert(texts(r@) =~= self.verbs());
        r
    }

    fn handle(&self, client: &mut Client, args: Option<&str>, now: u64) -> (r: Step) {
        let output = lines_of(
            vec![
                "uptime: 0",
                "playtime: 0",
            ],
        );
        assert(output.deep_view() =~= seq![
            "uptime: 0"@,
            "playtime: 0"@,
        ]);
        Step::Done(Ok(output))
    }
}

/// The lines that list the playlists.
pub open spec fn playlists_lines(playlists: Seq<PlaylistView>) -> Seq<Seq<char>>
    decreases playlists.len(),
{
    if playlists.len() == 0 {
        Seq::empty()
    } else {
        playlists_lines(playlists.drop_last()) + seq![
            "playlist: "@ + playlists.last().name,
            "Last-Modified: 1970-01-01T00:00:00Z"@,
        ]
    }
}

/// `listplaylists`: the names of the user's playlists.
pub struct ListPlaylistsCommand;

impl MpdCommand for ListPlaylistsCommand {
    open spec fn verbs(&self) -> Seq<Seq<char>> {
        seq!["listplaylists"@]
    }

    open spec fn effect(&self, client: ClientView, arg: Option<Seq<char>>, now: nat) -> ClientView {
        client
    }

    open spec fn answer(&self, client: ClientView, arg: Option<Seq<char>>, now: nat) -> StepView {
        StepView::Ask(CatalogRequestView::Playlists, PendingView::ListPlaylists)
    }

    fn get_type(&self) -> (r: Vec<&'static str>) {
        let r = vec!["listplaylists"];
        assert(texts(r@) =~= self.verbs());
        r
    }

    fn handle(&self, client: &mut Client, args: Option<&str>, now: u64) -> (r: Step) {
        Step::Ask(CatalogRequest::Playlists, Pending::ListPlaylists)
    }
}

impl ListPlaylistsCommand {
    /// What the command answers once the catalog has: two lines for each
    /// playlist, or a failure where the catalog had none to give.
    pub open spec fn completed(reply: Result<Seq<PlaylistView>, CatalogError>) -> StepView {
        match reply {
            Ok(playlists) => StepView::Done(Ok(playlists_lines(playlists))),
            Err(_) => StepView::Done(Err(CommandError::Catalog)),
        }
    }

    /// Answers with the playlists that the catalog gave.
    pub fn complete(reply: Result<Vec<Playlist>, CatalogError>) -> (r: Step)
        ensures
            r@ == Self::completed(
                match reply {
                    Ok(p) => Ok(p.deep_view()),
                    Err(e) => Err(e),
                },
            ),
    {
        match reply {
            Ok(playlists) => {
                let mut output: Vec<String> = no_lines();
                let mut i: usize = 0;
                while i < playlists.len()
                    invariant
                        i <= playlists.len(),
                        output.deep_view() == playlists_lines(playlists.deep_view().take(i as int)),
                    decreases playlists.len() - i,
                {
                    proof {
                        let next = playlists.deep_view().take(i + 1);
                        assert(next.drop_last() =~= playlists.deep_view().take(i as int));
                        assert(next.last() == playlists@[i as int]@);
                    }
                    push_line(&mut output, labelled("playlist: ", playlists[i].name.as_str()));
                    push_line(&mut output, String::from_str("Last-Modified: 1970-01-01T00:00:00Z"));
                    assert(output.deep_view() =~= playlists_lines(
                        playlists.deep_view().take(i + 1),
                    ));
                    i += 1;
                }
                assert(playlists.deep_view().take(playlists.len() as int) =~= playlists.deep_view());
                Step::Done(Ok(output))
            },
            Err(_) => Step::Done(Err(CommandError::Catalog)),
        }
    }
}

/// The first playlist of the name, if there is one.
pub open spec fn find_playlist(playlists: Seq<PlaylistView>, name: Seq<char>) -> Option<
    PlaylistView,
>
    decreases playlists.len(),
{
    if playlists.len() == 0 {
        None
    } else if playlists[0].name == name {
        Some(playlists[0])
    } else {
        find_playlist(playlists.drop_first(), name)
    }
}

/// The lines that list the entries of a playlist: those of each track of
/// the catalog, in order, up to the first file of the user's own.
pub open spec fn entries_lines(entries: Seq<PlaylistEntryView>) -> Seq<Seq<char>>
    decreases entries.len(),
{
    if entries.len() == 0 {
        Seq::empty()
    } else {
        match entries[0] {
            PlaylistEntryView::Local => Seq::empty(),
            PlaylistEntryView::Unavailable => entries_lines(entries.drop_first()),
            PlaylistEntryView::Track(t) => t.lines() + entries_lines(entries.drop_first()),
        }
    }
}

/// `listplaylistinfo "name"`: the tracks of one of the user's playlists.
pub struct ListPlaylistInfoCommand;

impl MpdCommand for ListPlaylistInfoCommand {
    open spec fn verbs(&self) -> Seq<Seq<char>> {
        seq!["listplaylistinfo"@]
    }

    open spec fn effect(&self, client: ClientView, arg: Option<Seq<char>>, now: nat) -> ClientView {
        client
    }

    open spec fn answer(&self, client: ClientView, arg: Option<Seq<char>>, now: nat) -> StepView {
        match arg {
            Some(name) => StepView::Ask(
                CatalogRequestView::Playlists,
                PendingView::FindPlaylist(name),
            ),
            None => StepView::Done(Err(CommandError::MissingArgument)),
        }
    }

    fn get_type(&self) -> (r: Vec<&'static str>) {
        let r = vec!["listplaylistinfo"];
        assert(texts(r@) =~= self.verbs());
        r
    }

    fn handle(&self, client: &mut Client, args: Option<&str>, now: u64) -> (r: Step) {
        match args {
            Some(name) => Step::Ask(
                CatalogRequest::Playlists,
                Pending::FindPlaylist(String::from_str(name)),
            ),
            None => Step::Done(Err(CommandError::MissingArgument)),
        }
    }
}

impl ListPlaylistInfoCommand {
    /// The first of the playlists that has the name.
    pub fn get_playlist_by_name(playlists: &Vec<Playlist>, name: &str) -> (r: Option<Playlist>)
        ensures
            r.deep_view() == find_playlist(playlists.deep_view(), name@),
    {
        let mut i: usize = 0;
        assert(playlists.deep_view().skip(0) =~= playlists.deep_view());
        while i < playlists.len()
            invariant
                i <= playlists.len(),
                find_playlist(playlists.deep_view(), name@) == find_playlist(
                    playlists.deep_view().skip(i as int),
                    name@,
                ),
            decreases playlists.len() - i,
        {
            proof {
                let rest = playlists.deep_view().skip(i as int);
                assert(rest[0] == playlists@[i as int]@);
                assert(rest.drop_first() =~= playlists.deep_view().skip(i + 1));
            }
            if str_eq(playlists[i].name.as_str(), name) {
                return Some(
                    Playlist { id: playlists[i].id.clone(), name: playlists[i].name.clone() },
                );
            }
            i += 1;
        }
        None
    }

    /// What the command does once it has the user's playlists: it asks who
    /// the user is, where one of the playlists has the name; it fails
    /// otherwise.
    pub open spec fn found(
        name: Seq<char>,
        reply: Result<Seq<PlaylistView>, CatalogError>,
    ) -> StepView {
        match reply {
            Ok(playlists) => match find_playlist(playlists, name) {
                Some(p) => StepView::Ask(
                    CatalogRequestView::CurrentUser,
                    PendingView::PlaylistOwner(p.id),
                ),
                None => StepView::Done(Err(CommandError::NoSuchPlaylist)),
            },
            Err(_) => StepView::Done(Err(CommandError::Catalog)),
        }
    }

    /// Goes on with the user's playlists.
    pub fn find(name: &str, reply: Result<Vec<Playlist>, CatalogError>) -> (r: Step)
        ensures
            r@ == Self::found(
                name@,
                match reply {
                    Ok(p) => Ok(p.deep_view()),
                    Err(e) => Err(e),
                },
            ),
    {
        match reply {
            Ok(playlists) => match Self::get_playlist_by_name(&playlists, name) {
                Some(playlist) => Step::Ask(
                    CatalogRequest::CurrentUser,
                    Pending::PlaylistOwner(playlist.id),
                ),
                None => Step::Done(Err(CommandError::NoSuchPlaylist)),
            },
            Err(_) => Step::Done(Err(CommandError::Catalog)),
        }
    }

    /// The identifier of the user, where the catalog gave it.
    pub fn get_current_user_id(reply: Result<String, CatalogError>) -> (r: Result<
        String,
        CommandError,
    >)
        ensures
            r is Ok == reply is Ok,
            r matches Ok(id) ==> reply matches Ok(given) && id@ == given@,
            r matches Err(e) ==> e == CommandError::Catalog,
    {
        match reply {
            Ok(id) => Ok(id),
            Err(_) => Err(CommandError::Catalog),
        }
    }

    /// What the command does once it knows who the user is: it asks for
    /// the entries of the playlist.
    pub open spec fn owned(
        playlist_id: Seq<char>,
        reply: Result<Seq<char>, CatalogError>,
    ) -> StepView {
        match reply {
            Ok(user_id) => StepView::Ask(
                CatalogRequestView::PlaylistTracks { user_id, playlist_id },
                PendingView::PlaylistTracks,
            ),
            Err(_) => StepView::Done(Err(CommandError::Catalog)),
        }
    }

    /// Goes on with the identifier of the user.
    pub fn own(playlist_id: String, reply: Result<String, CatalogError>) -> (r: Step)
        ensures
            r@ == Self::owned(
                playlist_id@,
                match reply {
                    Ok(u) => Ok(u@),
                    Err(e) => Err(e),
                },
            ),
    {
        match Self::get_current_user_id(reply) {
            Ok(user_id) => Step::Ask(
                CatalogRequest::PlaylistTracks { user_id, playlist_id },
                Pending::PlaylistTracks,
            ),
            Err(e) => Step::Done(Err(e)),
        }
    }

    /// What the command answers once it has the entries.
    pub open spec fn completed(reply: Result<Seq<PlaylistEntryView>, CatalogError>) -> StepView {
        match reply {
            Ok(entries) => StepView::Done(Ok(entries_lines(entries))),
            Err(_) => StepView::Done(Err(CommandError::Catalog)),
        }
    }

    /// Answers with the entries that the catalog gave.
    pub fn complete(reply: Result<Vec<PlaylistEntry>, CatalogError>) -> (r: Step)
        ensures
            r@ == Self::completed(
                match reply {
                    Ok(t) => Ok(t.deep_view()),
                    Err(e) => Err(e),
                },
            ),
    {
        match reply {
            Ok(entries) => {
                let mut output: Vec<String> = no_lines();
                let mut i: usize = 0;
                let mut listing = true;
                assert(entries.deep_view().skip(0) =~= entries.deep_view());
                assert(output.deep_view() + entries_lines(entries.deep_view())
                    =~= entries_lines(entries.deep_view()));
                while listing && i < entries.len()
                    invariant
                        i <= entries.len(),
                        entries_lines(entries.deep_view()) == output.deep_view() + if listing {
                            entries_lines(entries.deep_view().skip(i as int))
                        } else {
                            Seq::empty()
                        },
                    decreases entries.len() - i,
                {
                    let ghost rest = entries.deep_view().skip(i as int);
                    proof {
                        assert(rest[0] == entries@[i as int]@);
                        assert(rest.drop_first() =~= entries.deep_view().skip(i + 1));
                    }
                    let ghost before = output.deep_view();
                    match &entries[i] {
                        PlaylistEntry::Local => {
                            listing = false;
                        },
                        PlaylistEntry::Unavailable => {},
                        PlaylistEntry::Track(track) => {
                            extend_lines(&mut output, track.describe());
                            assert(before + (track@.lines() + entries_lines(rest.drop_first()))
                                =~= (before + track@.lines()) + entries_lines(rest.drop_first()));
                        },
                    }
                    i += 1;
                }
                assert(output.deep_view() + Seq::<Seq<char>>::empty() =~= output.deep_view());
                Step::Done(Ok(output))
            },
            Err(_) => Step::Done(Err(CommandError::Catalog)),
        }
    }
}

/// `add "id"`, `addid "id"`: the track of the catalog with this identifier
/// goes to the end of the queue.
pub struct AddCommand;

impl MpdCommand for AddCommand {
    open spec fn verbs(&self) -> Seq<Seq<char>> {
        seq!["add"@, "addid"@]
    }

    open spec fn effect(&self, client: ClientView, arg: Option<Seq<char>>, now: nat) -> ClientView {
        client
    }

    open spec fn answer(&self, client: ClientView, arg: Option<Seq<char>>, now: nat) -> StepView {
        match arg {
            Some(id) => StepView::Ask(CatalogRequestView::Track(id), PendingView::AddTrack),
            None => StepView::Done(Err(CommandError::MissingArgument)),
        }
    }

    fn get_type(&self) -> (r: Vec<&'static str>) {
        let r = vec!["add", "addid"];
        assert(texts(r@) =~= self.verbs());
        r
    }

    fn handle(&self, client: &mut Client, args: Option<&str>, now: u64) -> (r: Step) {
        match args {
            Some(id) => Step::Ask(CatalogRequest::Track(String::from_str(id)), Pending::AddTrack),
            None => Step::Done(Err(CommandError::MissingArgument)),
        }
    }
}

impl AddCommand {
    /// The shared state once the catalog has answered: with the track at
    /// the end of the queue, where the catalog gave one.
    pub open spec fn completed_effect(
        client: ClientView,
        reply: Result<TrackView, CatalogError>,
    ) -> ClientView {
        match reply {
            Ok(track) => client.with_queue(client.queue.append(track)),
            Err(_) => client,
        }
    }

    /// What the command answers once the catalog has: the place that the
    /// track got, or a failure.
    pub open spec fn completed(
        client: ClientView,
        reply: Result<TrackView, CatalogError>,
    ) -> StepView {
        match reply {
            Ok(_) => StepView::Done(Ok(seq!["Id: "@ + decimal(client.queue.tracks.len())])),
            Err(_) => StepView::Done(Err(CommandError::Catalog)),
        }
    }

    /// Appends the track that the catalog gave.
    pub fn complete(client: &mut Client, reply: Result<Track, CatalogError>) -> (r: Step)
        ensures
            old(client).wf() ==> final(client).wf(),
            final(client)@ == Self::completed_effect(
                old(client)@,
                match reply {
                    Ok(t) => Ok(t@),
                    Err(e) => Err(e),
                },
            ),
            r@ == Self::completed(
                old(client)@,
                match reply {
                    Ok(t) => Ok(t@),
                    Err(e) => Err(e),
                },
            ),
    {
        match reply {
            Ok(track) => {
                let song_id = client.queue.append(&track);
                let mut output: Vec<String> = no_lines();
                push_line(&mut output, labelled_number("Id: ", song_id as u64));
                assert(output.deep_view() =~= seq!["Id: "@ + decimal(song_id as nat)]);
                Step::Done(Ok(output))
            },
            Err(_) => Step::Done(Err(CommandError::Catalog)),
        }
    }
}

/// `play`, `playid "place"`: without an argument playing resumes; with one
/// the track at that place is started.
pub struct PlayCommand;

impl MpdCommand for PlayCommand {
    open spec fn verbs(&self) -> Seq<Seq<char>> {
        seq!["play"@, "playid"@]
    }

    open spec fn effect(&self, client: ClientView, arg: Option<Seq<char>>, now: nat) -> ClientView {
        match arg {
            None => client.with_queue(client.queue.play()),
            Some(_) => match place_in(arg, client.queue.tracks.len()) {
                Ok(i) => client.with_queue(client.queue.play_id(i)),
                Err(_) => client,
            },
        }
    }

    open spec fn answer(&self, client: ClientView, arg: Option<Seq<char>>, now: nat) -> StepView {
        match arg {
            None => StepView::Done(Ok(Seq::empty())),
            Some(_) => match place_in(arg, client.queue.tracks.len()) {
                Ok(_) => StepView::Done(Ok(Seq::empty())),
                Err(e) => StepView::Done(Err(e)),
            },
        }
    }

    fn get_type(&self) -> (r: Vec<&'static str>) {
        let r = vec!["play", "playid"];
        assert(texts(r@) =~= self.verbs());
        r
    }

    fn handle(&self, client: &mut Client, args: Option<&str>, now: u64) -> (r: Step) {
        match args {
            None => {
                client.queue.play();
                Step::Done(Ok(no_lines()))
            },
            Some(_) => match required_place(args, client.queue.len()) {
                Ok(index) => {
                    client.queue.play_id(index);
                    Step::Done(Ok(no_lines()))
                },
                Err(e) => Step::Done(Err(e)),
            },
        }
    }
}

/// `pause`: pauses while the player plays, and plays otherwise.
pub struct PauseCommand;

impl MpdCommand for PauseCommand {
    open spec fn verbs(&self) -> Seq<Seq<char>> {
        seq!["pause"@]
    }

    open spec fn effect(&self, client: ClientView, arg: Option<Seq<char>>, now: nat) -> ClientView {
        client.with_queue(client.queue.toggle_playback())
    }

    open spec fn answer(&self, client: ClientView, arg: Option<Seq<char>>, now: nat) -> StepView {
        StepView::Done(Ok(Seq::empty()))
    }

    fn get_type(&self) -> (r: Vec<&'static str>) {
        let r = vec!["pause"];
        assert(texts(r@) =~= self.verbs());
        r
    }

    fn handle(&self, client: &mut Client, args: Option<&str>, now: u64) -> (r: Step) {
        client.queue.toggle_playback();
        Step::Done(Ok(no_lines()))
    }
}

/// `next`: on to the next track.
pub struct NextCommand;

impl MpdCommand for NextCommand {
    open spec fn verbs(&self) -> Seq<Seq<char>> {
        seq!["next"@]
    }

    open spec fn effect(&self, client: ClientView, arg: Option<Seq<char>>, now: nat) -> ClientView {
        client.with_queue(client.queue.next())
    }

    open spec fn answer(&self, client: ClientView, arg: Option<Seq<char>>, now: nat) -> StepView {
        StepView::Done(Ok(Seq::empty()))
    }

    fn get_type(&self) -> (r: Vec<&'static str>) {
        let r = vec!["next"];
        assert(texts(r@) =~= self.verbs());
        r
    }

    fn handle(&self, client: &mut Client, args: Option<&str>, now: u64) -> (r: Step) {
        client.queue.next();
        Step::Done(Ok(no_lines()))
    }
}

/// `prev`: back to the track before.
pub struct PrevCommand;

impl MpdCommand for PrevCommand {
    open spec fn verbs(&self) -> Seq<Seq<char>> {
        seq!["prev"@]
    }

    open spec fn effect(&self, client: ClientView, arg: Option<Seq<char>>, now: nat) -> ClientView {
        client.with_queue(client.queue.previous())
    }

    open spec fn answer(&self, client: ClientView, arg: Option<Seq<char>>, now: nat) -> StepView {
        StepView::Done(Ok(Seq::empty()))
    }

    fn get_type(&self) -> (r: Vec<&'static str>) {
        let r = vec!["prev"];
        assert(texts(r@) =~= self.verbs());
        r
    }

    fn handle(&self, client: &mut Client, args: Option<&str>, now: u64) -> (r: Step) {
        client.queue.previous();
        Step::Done(Ok(no_lines()))
    }
}

/// `clear`: stops and empties the queue.
pub struct ClearCommand;

impl MpdCommand for ClearCommand {
    open spec fn verbs(&self) -> Seq<Seq<char>> {
        seq!["clear"@]
    }

    open spec fn effect(&self, client: ClientView, arg: Option<Seq<char>>, now: nat) -> ClientView {
        client.with_queue(client.queue.clear())
    }

    open spec fn answer(&self, client: ClientView, arg: Option<Seq<char>>, now: nat) -> StepView {
        StepView::Done(Ok(Seq::empty()))
    }

    fn get_type(&self) -> (r: Vec<&'static str>) {
        let r = vec!["clear"];
        assert(texts(r@) =~= self.verbs());
        r
    }

    fn handle(&self, client: &mut Client, args: Option<&str>, now: u64) -> (r: Step) {
        client.queue.clear();
        Step::Done(Ok(no_lines()))
    }
}

/// The lines that list a queue: those of each track with its place.
pub open spec fn queue_lines(tracks: Seq<TrackView>) -> Seq<Seq<char>>
    decreases tracks.len(),
{
    if tracks.len() == 0 {
        Seq::empty()
    } else {
        queue_lines(tracks.drop_last()) + tracks.last().mpd_format((tracks.len() - 1) as nat)
    }
}

/// `playlistinfo`, `plchanges`: every track of the queue.
pub struct PlaylistInfoCommand;

impl MpdCommand for PlaylistInfoCommand {
    open spec fn verbs(&self) -> Seq<Seq<char>> {
        seq!["playlistinfo"@, "plchanges"@]
    }

    open spec fn effect(&self, client: ClientView, arg: Option<Seq<char>>, now: nat) -> ClientView {
        client
    }

    open spec fn answer(&self, client: ClientView, arg: Option<Seq<char>>, now: nat) -> StepView {
        StepView::Done(Ok(queue_lines(client.queue.tracks)))
    }

    fn get_type(&self) -> (r: Vec<&'static str>) {
        let r = vec!["playlistinfo", "plchanges"];
        assert(texts(r@) =~= self.verbs());
        r
    }

    fn handle(&self, client: &mut Client, args: Option<&str>, now: u64) -> (r: Step) {
        let mut output: Vec<String> = no_lines();
        let queue = client.queue.tracks();
        let mut pos: usize = 0;
        while pos < queue.len()
            invariant
                pos <= queue.len(),
                output.deep_view() == queue_lines(queue.deep_view().take(pos as int)),
            decreases queue.len() - pos,
        {
            proof {
                let next = queue.deep_view().take(pos + 1);
                assert(next.drop_last() =~= queue.deep_view().take(pos as int));
                assert(next.last() == queue@[pos as int]@);
            }
            extend_lines(&mut output, queue[pos].to_mpd_format(pos));
            pos += 1;
        }
        assert(queue.deep_view().take(queue.len() as int) =~= queue.deep_view());
        Step::Done(Ok(output))
    }
}

/// `currentsong`: the current track, numbered 0 whatever its place.
pub struct CurrentSongCommand;

impl MpdCommand for CurrentSongCommand {
    open spec fn verbs(&self) -> Seq<Seq<char>> {
        seq!["currentsong"@]
    }

    open spec fn effect(&self, client: ClientView, arg: Option<Seq<char>>, now: nat) -> ClientView {
        client
    }

    open spec fn answer(&self, client: ClientView, arg: Option<Seq<char>>, now: nat) -> StepView {
        match client.queue.current() {
            Some(track) => StepView::Done(Ok(track.mpd_format(0))),
            None => StepView::Done(Ok(Seq::empty())),
        }
    }

    fn get_type(&self) -> (r: Vec<&'static str>) {
        let r = vec!["currentsong"];
        assert(texts(r@) =~= self.verbs());
        r
    }

    fn handle(&self, client: &mut Client, args: Option<&str>, now: u64) -> (r: Step) {
        match client.queue.get_current() {
            Some(current_track) => Step::Done(Ok(current_track.to_mpd_format(0))),
            None => Step::Done(Ok(no_lines())),
        }
    }
}

/// `setvol "n"`: the volume becomes `n`.
pub struct SetVolCommand;

impl MpdCommand for SetVolCommand {
    open spec fn verbs(&self) -> Seq<Seq<char>> {
        seq!["setvol"@]
    }

    open spec fn effect(&self, client: ClientView, arg: Option<Seq<char>>, now: nat) -> ClientView {
        match number_in(arg, u16::MAX as nat) {
            Ok(v) => client.with_queue(client.queue.set_volume(v as u16)).notify(
                SubsystemEvent::Mixer,
            ),
            Err(_) => client,
        }
    }

    open spec fn answer(&self, client: ClientView, arg: Option<Seq<char>>, now: nat) -> StepView {
        match number_in(arg, u16::MAX as nat) {
            Ok(_) => StepView::Done(Ok(Seq::empty())),
            Err(e) => StepView::Done(Err(e)),
        }
    }

    fn get_type(&self) -> (r: Vec<&'static str>) {
        let r = vec!["setvol"];
        assert(texts(r@) =~= self.verbs());
        r
    }

    fn handle(&self, client: &mut Client, args: Option<&str>, now: u64) -> (r: Step) {
        match args {
            None => Step::Done(Err(CommandError::MissingArgument)),
            Some(volume_level) => match parse_u16(volume_level) {
                Some(volume) => {
                    client.queue.set_volume(volume);
                    client.broadcast(SubsystemEvent::Mixer);
                    Step::Done(Ok(no_lines()))
                },
                None => Step::Done(Err(CommandError::BadArgument)),
            },
        }
    }
}

/// `volume "n"`: the volume goes up by `n`, or down where `n` is negative,
/// going round at either end of its range.
pub struct VolumeCommand;

impl MpdCommand for VolumeCommand {
    open spec fn verbs(&self) -> Seq<Seq<char>> {
        seq!["volume"@]
    }

    open spec fn effect(&self, client: ClientView, arg: Option<Seq<char>>, now: nat) -> ClientView {
        match change_in(arg) {
            Ok(change) => client.with_queue(
                client.queue.set_volume(shifted(client.queue.volume, change)),
            ).notify(SubsystemEvent::Mixer),
            Err(_) => client,
        }
    }

    open spec fn answer(&self, client: ClientView, arg: Option<Seq<char>>, now: nat) -> StepView {
        match change_in(arg) {
            Ok(_) => StepView::Done(Ok(Seq::empty())),
            Err(e) => StepView::Done(Err(e)),
        }
    }

    fn get_type(&self) -> (r: Vec<&'static str>) {
        let r = vec!["volume"];
        assert(texts(r@) =~= self.verbs());
        r
    }

    fn handle(&self, client: &mut Client, args: Option<&str>, now: u64) -> (r: Step) {
        match args {
            None => Step::Done(Err(CommandError::MissingArgument)),
            Some(volume_level_str) => match parse_i16(volume_level_str) {
                Some(volume_level) => {
                    let volume = client.queue.get_volume().wrapping_add_signed(volume_level);
                    client.queue.set_volume(volume);
                    client.broadcast(SubsystemEvent::Mixer);
                    Step::Done(Ok(no_lines()))
                },
                None => Step::Done(Err(CommandError::BadArgument)),
            },
        }
    }
}

/// `deleteid "place"`: the track at that place leaves the queue.
pub struct DeleteIdCommand;

impl MpdCommand for DeleteIdCommand {
    open spec fn verbs(&self) -> Seq<Seq<char>> {
        seq!["deleteid"@]
    }

    open spec fn effect(&self, client: ClientView, arg: Option<Seq<char>>, now: nat) -> ClientView {
        match place_in(arg, client.queue.tracks.len()) {
            Ok(i) => client.with_queue(client.queue.remove(i)),
            Err(_) => client,
        }
    }

    open spec fn answer(&self, client: ClientView, arg: Option<Seq<char>>, now: nat) -> StepView {
        match place_in(arg, client.queue.tracks.len()) {
            Ok(_) => StepView::Done(Ok(Seq::empty())),
            Err(e) => StepView::Done(Err(e)),
        }
    }

    fn get_type(&self) -> (r: Vec<&'static str>) {
        let r = vec!["deleteid"];
        assert(texts(r@) =~= self.verbs());
        r
    }

    fn handle(&self, client: &mut Client, args: Option<&str>, now: u64) -> (r: Step) {
        match required_place(args, client.queue.len()) {
            Ok(song_id) => {
                client.queue.remove(song_id);
                Step::Done(Ok(no_lines()))
            },
            Err(e) => Step::Done(Err(e)),
        }
    }
}

/// `urlhandlers`: the kinds of address that can be played.
pub struct UrlHandlersCommand;

impl MpdCommand for UrlHandlersCommand {
    open spec fn verbs(&self) -> Seq<Seq<char>> {
        seq!["urlhandlers"@]
    }

    open spec fn effect(&self, client: ClientView, arg: Option<Seq<char>>, now: nat) -> ClientView {
        client
    }

    open spec fn answer(&self, client: ClientView, arg: Option<Seq<char>>, now: nat) -> StepView {
        StepView::Done(Ok(seq![
            "handler: spotify:"@,
        ]))
    }

    fn get_type(&self) -> (r: Vec<&'static str>) {
        let r = vec!["urlhandlers"];
        assert(texts(r@) =~= self.verbs());
        r
    }

    fn handle(&self, client: &mut Client, args: Option<&str>, now: u64) -> (r: Step) {
        let output = lines_of(
            vec![
                "handler: spotify:",
            ],
        );
        assert(output.deep_view() =~= seq![
            "handler: spotify:"@,
        ]);
        Step::Done(Ok(output))
    }
}

/// `outputs`: the one audio output.
pub struct OutputsCommand;

impl MpdCommand for OutputsCommand {
    open spec fn verbs(&self) -> Seq<Seq<char>> {
        seq!["outputs"@]
    }

    open spec fn effect(&self, client: ClientView, arg: Option<Seq<char>>, now: nat) -> ClientView {
        client
    }

    open spec fn answer(&self, client: ClientView, arg: Option<Seq<char>>, now: nat) -> StepView {
        StepView::Done(Ok(seq![
            "outputsoutputid: 0"@,
            "outputname: default detected output"@,
            "plugin: alsa"@,
            "outputenabled: 1"@,
            "attribute: allowed_formats="@,
            "attribute: dop=0"@,
        ]))
    }

    fn get_type(&self) -> (r: Vec<&'static str>) {
        let r = vec!["outputs"];
        assert(texts(r@) =~= self.verbs());
        r
    }

    fn handle(&self, client: &mut Client, args: Option<&str>, now: u64) -> (r: Step) {
        let output = lines_of(
            vec![
                "outputsoutputid: 0",
                "outputname: default detected output",
                "plugin: alsa",
                "outputenabled: 1",
                "attribute: allowed_formats=",
                "attribute: dop=0",
            ],
        );
        assert(output.deep_view() =~= seq![
            "outputsoutputid: 0"@,
            "outputname: default detected output"@,
            "plugin: alsa"@,
            "outputenabled: 1"@,
            "attribute: allowed_formats="@,
            "attribute: dop=0"@,
        ]);
        Step::Done(Ok(output))
    }
}

/// `decoders`: the decoders that clients expect to see.
pub struct DecodersCommand;

impl MpdCommand for DecodersCommand {
    open spec fn verbs(&self) -> Seq<Seq<char>> {
        seq!["decoders"@]
    }

    open spec fn effect(&self, client: ClientView, arg: Option<Seq<char>>, now: nat) -> ClientView {
        client
    }

    open spec fn answer(&self, client: ClientView, arg: Option<Seq<char>>, now: nat) -> StepView {
        StepView::Done(Ok(seq![
            "plugin: mad"@,
            "suffix: mp3"@,
            "suffix: mp2"@,
            "mime_type: audio/mpeg"@,
            "plugin: mpcdec"@,
            "suffix: mpc"@,
        ]))
    }

    fn get_type(&self) -> (r: Vec<&'static str>) {
        let r = vec!["decoders"];
        assert(texts(r@) =~= self.verbs());
        r
    }

    fn handle(&self, client: &mut Client, args: Option<&str>, now: u64) -> (r: Step) {
        let output = lines_of(
            vec![
                "plugin: mad",
                "suffix: mp3",
                "suffix: mp2",
                "mime_type: audio/mpeg",
                "plugin: mpcdec",
                "suffix: mpc",
            ],
        );
        assert(output.deep_view() =~= seq![
            "plugin: mad"@,
            "suffix: mp3"@,
            "suffix: mp2"@,
            "mime_type: audio/mpeg"@,
            "plugin: mpcdec"@,
            "suffix: mpc"@,
        ]);
        Step::Done(Ok(output))
    }
}

/// `tagtypes`: the tags that a track can carry.
pub struct TagTypesCommand;

impl MpdCommand for TagTypesCommand {
    open spec fn verbs(&self) -> Seq<Seq<char>> {
        seq!["tagtypes"@]
    }

    open spec fn effect(&self, client: ClientView, arg: Option<Seq<char>>, now: nat) -> ClientView {
        client
    }

    open spec fn answer(&self, client: ClientView, arg: Option<Seq<char>>, now: nat) -> StepView {
        StepView::Done(Ok(seq![
            "tagtype: Artist"@,
            "tagtype: ArtistSort"@,
            "tagtype: Album"@,
            "tagtype: AlbumSort"@,
            "tagtype: AlbumArtist"@,
            "tagtype: AlbumArtistSort"@,
            "tagtype: Title"@,
            "tagtype: Name"@,
            "tagtype: Genre"@,
            "tagtype: Date"@,
        ]))
    }

    fn get_type(&self) -> (r: Vec<&'static str>) {
        let r = vec!["tagtypes"];
        assert(texts(r@) =~= self.verbs());
        r
    }

    fn handle(&self, client: &mut Client, args: Option<&str>, now: u64) -> (r: Step) {
        let output = lines_of(
            vec![
                "tagtype: Artist",
                "tagtype: ArtistSort",
                "tagtype: Album",
                "tagtype: AlbumSort",
                "tagtype: AlbumArtist",
                "tagtype: AlbumArtistSort",
                "tagtype: Title",
                "tagtype: Name",
                "tagtype: Genre",
                "tagtype: Date",
            ],
        );
        assert(output.deep_view() =~= seq![
            "tagtype: Artist"@,
            "tagtype: ArtistSort"@,
            "tagtype: Album"@,
            "tagtype: AlbumSort"@,
            "tagtype: AlbumArtist"@,
            "tagtype: AlbumArtistSort"@,
            "tagtype: Title"@,
            "tagtype: Name"@,
            "tagtype: Genre"@,
            "tagtype: Date"@,
        ]);
        Step::Done(Ok(output))
    }
}

/// `idle` with more on its line, or inside a list of commands: answered at once, with the volume named as what changed.
pub struct IdleCommand;

impl MpdCommand for IdleCommand {
    open spec fn verbs(&self) -> Seq<Seq<char>> {
        seq!["idle"@]
    }

    open spec fn effect(&self, client: ClientView, arg: Option<Seq<char>>, now: nat) -> ClientView {
        client
    }

    open spec fn answer(&self, client: ClientView, arg: Option<Seq<char>>, now: nat) -> StepView {
        StepView::Done(Ok(seq![
            "changed: mixer"@,
        ]))
    }

    fn get_type(&self) -> (r: Vec<&'static str>) {
        let r = vec!["idle"];
        assert(texts(r@) =~= self.verbs());
        r
    }

    fn handle(&self, client: &mut Client, args: Option<&str>, now: u64) -> (r: Step) {
        let output = lines_of(
            vec![
                "changed: mixer",
            ],
        );
        assert(output.deep_view() =~= seq![
            "changed: mixer"@,
        ]);
        Step::Done(Ok(output))
    }
}

/// `commands`: the commands that clients are told of.
pub struct CommandsCommand;

impl MpdCommand for CommandsCommand {
    open spec fn verbs(&self) -> Seq<Seq<char>> {
        seq!["commands"@]
    }

    open spec fn effect(&self, client: ClientView, arg: Option<Seq<char>>, now: nat) -> ClientView {
        client
    }

    open spec fn answer(&self, client: ClientView, arg: Option<Seq<char>>, now: nat) -> StepView {
        StepView::Done(Ok(seq![
            "command: play"@,
            "command: stop"@,
            "command: pause"@,
            "command: status"@,
            "command: stats"@,
            "command: decoders"@,
        ]))
    }

    fn get_type(&self) -> (r: Vec<&'static str>) {
        let r = vec!["commands"];
        assert(texts(r@) =~= self.verbs());
        r
    }

    fn handle(&self, client: &mut Client, args: Option<&str>, now: u64) -> (r: Step) {
        let output = lines_of(
            vec![
                "command: play",
                "command: stop",
                "command: pause",
                "command: status",
                "command: stats",
                "command: decoders",
            ],
        );
        assert(output.deep_view() =~= seq![
            "command: play"@,
            "command: stop"@,
            "command: pause"@,
            "command: status"@,
            "command: stats"@,
            "command: decoders"@,
        ]);
        Step::Done(Ok(output))
    }
}

/// The shared state after a command that waited for the catalog got its
/// answer.
pub open spec fn resumed_effect(
    client: ClientView,
    pending: PendingView,
    reply: CatalogReplyView,
) -> ClientView {
    match (pending, reply) {
        (PendingView::AddTrack, CatalogReplyView::Track(r)) => AddCommand::completed_effect(
            client,
            r,
        ),
        _ => client,
    }
}

/// How far a command that waited for the catalog comes with the answer. An
/// answer to another question than the one asked counts as none.
pub open spec fn resumed_answer(
    client: ClientView,
    pending: PendingView,
    reply: CatalogReplyView,
) -> StepView {
    match (pending, reply) {
        (PendingView::AddTrack, CatalogReplyView::Track(r)) => AddCommand::completed(client, r),
        (PendingView::ListPlaylists, CatalogReplyView::Playlists(r)) => {
            ListPlaylistsCommand::completed(r)
        },
        (PendingView::FindPlaylist(name), CatalogReplyView::Playlists(r)) => {
            ListPlaylistInfoCommand::found(name, r)
        },
        (PendingView::PlaylistOwner(id), CatalogReplyView::CurrentUser(r)) => {
            ListPlaylistInfoCommand::owned(id, r)
        },
        (PendingView::PlaylistTracks, CatalogReplyView::PlaylistTracks(r)) => {
            ListPlaylistInfoCommand::completed(r)
        },
        _ => StepView::Done(Err(CommandError::Catalog)),
    }
}

/// Goes on with a command that waited for the catalog.
pub fn resume(client: &mut Client, pending: Pending, reply: CatalogReply) -> (r: Step)
    ensures
        old(client).wf() ==> final(client).wf(),
        final(client)@ == resumed_effect(old(client)@, pending@, reply@),
        r@ == resumed_answer(old(client)@, pending@, reply@),
{
    match pending {
        Pending::AddTrack => match reply {
            CatalogReply::Track(r) => AddCommand::complete(client, r),
            _ => Step::Done(Err(CommandError::Catalog)),
        },
        Pending::ListPlaylists => match reply {
            CatalogReply::Playlists(r) => ListPlaylistsCommand::complete(r),
            _ => Step::Done(Err(CommandError::Catalog)),
        },
        Pending::FindPlaylist(name) => match reply {
            CatalogReply::Playlists(r) => ListPlaylistInfoCommand::find(name.as_str(), r),
            _ => Step::Done(Err(CommandError::Catalog)),
        },
        Pending::PlaylistOwner(id) => match reply {
            CatalogReply::CurrentUser(r) => ListPlaylistInfoCommand::own(id, r),
            _ => Step::Done(Err(CommandError::Catalog)),
        },
        Pending::PlaylistTracks => match reply {
            CatalogReply::PlaylistTracks(r) => ListPlaylistInfoCommand::complete(r),
            _ => Step::Done(Err(CommandError::Catalog)),
        },
    }
}

} // verus!
