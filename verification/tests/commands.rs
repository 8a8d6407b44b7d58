use mpd_bridge::catalog::{CatalogError, CatalogReply, CatalogRequest, Playlist, PlaylistEntry};
use mpd_bridge::mpd::mpd_commands::{
    resume, AddCommand, ClearCommand, CommandError, CommandsCommand, CurrentSongCommand,
    DecodersCommand, DeleteIdCommand, IdleCommand, ListPlaylistInfoCommand,
    ListPlaylistsCommand, MpdCommand, NextCommand, OutputsCommand, PauseCommand, Pending,
    PlayCommand, PlaylistInfoCommand, PrevCommand, SetVolCommand, StatsCommand, StatusCommand,
    Step, TagTypesCommand, UrlHandlersCommand, VolumeCommand,
};
use mpd_bridge::mpd::{Client, SubsystemEvent};
use mpd_bridge::player::{PlayerCommand, PlayerEvent};
use mpd_bridge::track::Track;

fn piece(id: &str, millis: u32, date: Option<&str>) -> Track {
    Track {
        id: id.to_owned(),
        title: format!("T-{}", id),
        album: format!("A-{}", id),
        artists: vec!["X".to_owned(), "Y".to_owned()],
        album_artists: vec!["Z".to_owned()],
        duration: millis,
        release_date: date.map(|d| d.to_owned()),
    }
}

fn client_with(n: usize) -> Client {
    let mut client = Client::new();
    for i in 0..n {
        client.queue.append(&piece(&format!("t{}", i), 100_000 + i as u32, None));
    }
    client
}

fn done(text: &[&str]) -> Step {
    Step::Done(Ok(text.iter().map(|s| s.to_string()).collect()))
}

fn failed(e: CommandError) -> Step {
    Step::Done(Err(e))
}

#[test]
fn every_command_names_its_verbs() {
    assert_eq!(StatusCommand.get_type(), vec!["status"]);
    assert_eq!(StatsCommand.get_type(), vec!["stats"]);
    assert_eq!(ListPlaylistsCommand.get_type(), vec!["listplaylists"]);
    assert_eq!(ListPlaylistInfoCommand.get_type(), vec!["listplaylistinfo"]);
    assert_eq!(AddCommand.get_type(), vec!["add", "addid"]);
    assert_eq!(PlayCommand.get_type(), vec!["play", "playid"]);
    assert_eq!(PauseCommand.get_type(), vec!["pause"]);
    assert_eq!(NextCommand.get_type(), vec!["next"]);
    assert_eq!(PrevCommand.get_type(), vec!["prev"]);
    assert_eq!(ClearCommand.get_type(), vec!["clear"]);
    assert_eq!(PlaylistInfoCommand.get_type(), vec!["playlistinfo", "plchanges"]);
    assert_eq!(CurrentSongCommand.get_type(), vec!["currentsong"]);
    assert_eq!(SetVolCommand.get_type(), vec!["setvol"]);
    assert_eq!(VolumeCommand.get_type(), vec!["volume"]);
    assert_eq!(DeleteIdCommand.get_type(), vec!["deleteid"]);
    assert_eq!(UrlHandlersCommand.get_type(), vec!["urlhandlers"]);
    assert_eq!(OutputsCommand.get_type(), vec!["outputs"]);
    assert_eq!(DecodersCommand.get_type(), vec!["decoders"]);
    assert_eq!(TagTypesCommand.get_type(), vec!["tagtypes"]);
    assert_eq!(IdleCommand.get_type(), vec!["idle"]);
    assert_eq!(CommandsCommand.get_type(), vec!["commands"]);
}

#[test]
fn status_while_stopped_has_no_progress() {
    let mut client = client_with(2);
    client.queue.set_volume(31);
    client.queue.take_intents();
    assert_eq!(
        StatusCommand.handle(&mut client, None, 5_000),
        done(&[
            "repeat: 0",
            "random: 0",
            "single: 0",
            "consume: 0",
            "playlist: 1",
            "mixrampdb: 0.00000",
            "volume: 31",
            "playlistlength: 2",
            "state: Stopped",
        ])
    );
    assert!(client.queue.take_intents().is_empty());
}

#[test]
fn status_while_playing_tells_song_and_progress() {
    let mut client = Client::new();
    client.queue.append(&piece("a", 5_000, None));
    client.queue.append(&piece("b", 187_999, None));
    client.queue.play_id(1);
    client.queue.handle_event(PlayerEvent::Playing, 1_000);
    assert_eq!(
        StatusCommand.handle(&mut client, None, 13_345),
        done(&[
            "repeat: 0",
            "random: 0",
            "single: 0",
            "consume: 0",
            "playlist: 1",
            "mixrampdb: 0.00000",
            "volume: 100",
            "playlistlength: 2",
            "state: Playing",
            "song: 1",
            "songid: 1",
            "time: 12:187",
            "elapsed: 12.345",
            "duration: 187",
            "audio: 44100:24:2",
            "bitrate: 320",
        ])
    );
}

#[test]
fn status_while_paused_without_a_current_track() {
    let mut client = client_with(1);
    client.queue.play_id(0);
    client.queue.handle_event(PlayerEvent::Playing, 0);
    client.queue.handle_event(PlayerEvent::Paused, 2_050);
    client.queue.stop();
    assert_eq!(
        StatusCommand.handle(&mut client, None, 9_000),
        done(&[
            "repeat: 0",
            "random: 0",
            "single: 0",
            "consume: 0",
            "playlist: 1",
            "mixrampdb: 0.00000",
            "volume: 100",
            "playlistlength: 1",
            "state: Paused",
            "time: 2:0",
            "elapsed: 2.050",
            "duration: 0",
            "audio: 44100:24:2",
            "bitrate: 320",
        ])
    );
}

#[test]
fn status_reports_the_length_after_appends_and_removals() {
    let mut client = client_with(5);
    client.queue.remove(0);
    client.queue.remove(0);
    match StatusCommand.handle(&mut client, None, 0) {
        Step::Done(Ok(lines)) => assert_eq!(lines[7], "playlistlength: 3"),
        other => panic!("{:?}", other),
    }
}

#[test]
fn fixed_answers() {
    let mut client = Client::new();
    assert_eq!(StatsCommand.handle(&mut client, None, 0), done(&["uptime: 0", "playtime: 0"]));
    assert_eq!(UrlHandlersCommand.handle(&mut client, None, 0), done(&["handler: spotify:"]));
    assert_eq!(
        OutputsCommand.handle(&mut client, None, 0),
        done(&[
            "outputsoutputid: 0",
            "outputname: default detected output",
            "plugin: alsa",
            "outputenabled: 1",
            "attribute: allowed_formats=",
            "attribute: dop=0",
        ])
    );
    assert_eq!(
        DecodersCommand.handle(&mut client, None, 0),
        done(&[
            "plugin: mad",
            "suffix: mp3",
            "suffix: mp2",
            "mime_type: audio/mpeg",
            "plugin: mpcdec",
            "suffix: mpc",
        ])
    );
    assert_eq!(
        TagTypesCommand.handle(&mut client, None, 0),
        done(&[
            "tagtype: Artist",
            "tagtype: ArtistSort",
            "tagtype: Album",
            "tagtype: AlbumSort",
            "tagtype: AlbumArtist",
            "tagtype: AlbumArtistSort",
            "tagtype: Title",
            "tagtype: Name",
            "tagtype: Genre",
            "tagtype: Date",
        ])
    );
    assert_eq!(IdleCommand.handle(&mut client, Some("mixer"), 0), done(&["changed: mixer"]));
    assert_eq!(
        CommandsCommand.handle(&mut client, None, 0),
        done(&[
            "command: play",
            "command: stop",
            "command: pause",
            "command: status",
            "command: stats",
            "command: decoders",
        ])
    );
    assert!(client.queue.take_intents().is_empty());
    assert!(client.take_events().is_empty());
}

#[test]
fn setvol_150_then_volume_minus_1000_goes_round() {
    let mut client = Client::new();
    assert_eq!(SetVolCommand.handle(&mut client, Some("150"), 0), done(&[]));
    assert_eq!(client.queue.get_volume(), 150);
    assert_eq!(VolumeCommand.handle(&mut client, Some("-1000"), 0), done(&[]));
    assert_eq!(client.queue.get_volume(), 64686);
    assert_eq!(
        client.queue.take_intents(),
        vec![PlayerCommand::SetVolume(150), PlayerCommand::SetVolume(64686)]
    );
    assert_eq!(client.take_events(), vec![SubsystemEvent::Mixer, SubsystemEvent::Mixer]);
    assert!(client.take_events().is_empty());
}

#[test]
fn volume_goes_round_at_the_top_too() {
    let mut client = Client::new();
    SetVolCommand.handle(&mut client, Some("65535"), 0);
    assert_eq!(VolumeCommand.handle(&mut client, Some("+2"), 0), done(&[]));
    assert_eq!(client.queue.get_volume(), 1);
    assert_eq!(VolumeCommand.handle(&mut client, Some("-32768"), 0), done(&[]));
    assert_eq!(client.queue.get_volume(), 32769);
    assert_eq!(VolumeCommand.handle(&mut client, Some("0"), 0), done(&[]));
    assert_eq!(client.queue.get_volume(), 32769);
}

#[test]
fn volume_commands_reject_what_is_no_number() {
    let mut client = Client::new();
    assert_eq!(SetVolCommand.handle(&mut client, None, 0), failed(CommandError::MissingArgument));
    assert_eq!(SetVolCommand.handle(&mut client, Some(""), 0), failed(CommandError::BadArgument));
    assert_eq!(SetVolCommand.handle(&mut client, Some("-1"), 0), failed(CommandError::BadArgument));
    assert_eq!(
        SetVolCommand.handle(&mut client, Some("65536"), 0),
        failed(CommandError::BadArgument)
    );
    assert_eq!(VolumeCommand.handle(&mut client, None, 0), failed(CommandError::MissingArgument));
    assert_eq!(
        VolumeCommand.handle(&mut client, Some("32768"), 0),
        failed(CommandError::BadArgument)
    );
    assert_eq!(VolumeCommand.handle(&mut client, Some("up"), 0), failed(CommandError::BadArgument));
    assert_eq!(client.queue.get_volume(), 100);
    assert!(client.queue.take_intents().is_empty());
    assert!(client.take_events().is_empty());
}

#[test]
fn play_with_and_without_a_place() {
    let mut client = client_with(3);
    assert_eq!(PlayCommand.handle(&mut client, None, 0), done(&[]));
    assert_eq!(client.queue.take_intents(), vec![PlayerCommand::Play]);
    assert_eq!(PlayCommand.handle(&mut client, Some("2"), 0), done(&[]));
    assert_eq!(client.queue.get_current_index(), Some(2));
    assert_eq!(
        client.queue.take_intents(),
        vec![PlayerCommand::Load("t2".to_owned()), PlayerCommand::Play]
    );
    assert_eq!(PlayCommand.handle(&mut client, Some("3"), 0), failed(CommandError::NoSuchSong));
    assert_eq!(PlayCommand.handle(&mut client, Some("two"), 0), failed(CommandError::BadArgument));
    assert_eq!(client.queue.get_current_index(), Some(2));
    assert!(client.queue.take_intents().is_empty());
}

#[test]
fn pause_next_prev_and_clear_drive_the_queue() {
    let mut client = client_with(3);
    client.queue.play_id(1);
    client.queue.take_intents();
    assert_eq!(PauseCommand.handle(&mut client, None, 0), done(&[]));
    assert_eq!(client.queue.take_intents(), vec![PlayerCommand::Play]);
    assert_eq!(NextCommand.handle(&mut client, None, 0), done(&[]));
    assert_eq!(client.queue.get_current_index(), Some(2));
    assert_eq!(PrevCommand.handle(&mut client, None, 0), done(&[]));
    assert_eq!(PrevCommand.handle(&mut client, None, 0), done(&[]));
    assert_eq!(PrevCommand.handle(&mut client, None, 0), done(&[]));
    assert_eq!(client.queue.get_current_index(), Some(0));
    client.queue.take_intents();
    assert_eq!(ClearCommand.handle(&mut client, None, 0), done(&[]));
    assert_eq!(client.queue.len(), 0);
    assert_eq!(client.queue.take_intents(), vec![PlayerCommand::Stop]);
}

#[test]
fn deleteid_removes_by_place() {
    let mut client = client_with(3);
    assert_eq!(DeleteIdCommand.handle(&mut client, Some("1"), 0), done(&[]));
    assert_eq!(client.queue.len(), 2);
    assert_eq!(client.queue.tracks()[1].id, "t2");
    assert_eq!(DeleteIdCommand.handle(&mut client, Some("2"), 0), failed(CommandError::NoSuchSong));
    assert_eq!(DeleteIdCommand.handle(&mut client, Some("x"), 0), failed(CommandError::BadArgument));
    assert_eq!(DeleteIdCommand.handle(&mut client, None, 0), failed(CommandError::MissingArgument));
    assert_eq!(client.queue.len(), 2);
}

#[test]
fn a_track_is_described_line_by_line() {
    let t = piece("abc", 61_999, Some("1999-12-31"));
    assert_eq!(
        t.describe(),
        vec![
            "file: abc",
            "Last-Modified: 1999-12-31",
            "Artist: X;Y",
            "AlbumArtist: Z",
            "Title: T-abc",
            "Album: A-abc",
            "Time: 61",
            "duration: 61",
        ]
    );
    assert_eq!(
        piece("abc", 999, None).to_mpd_format(4),
        vec![
            "file: abc",
            "Artist: X;Y",
            "AlbumArtist: Z",
            "Title: T-abc",
            "Album: A-abc",
            "Time: 0",
            "duration: 0",
            "Pos: 4",
            "Id: 4",
        ]
    );
    assert_eq!(t.seconds(), 61);
    assert_eq!(t.clone(), t);
}

#[test]
fn playlistinfo_lists_the_queue_with_places() {
    let mut client = Client::new();
    assert_eq!(PlaylistInfoCommand.handle(&mut client, None, 0), done(&[]));
    client.queue.append(&piece("a", 1_000, None));
    client.queue.append(&piece("b", 2_000, Some("2020")));
    assert_eq!(
        PlaylistInfoCommand.handle(&mut client, None, 0),
        done(&[
            "file: a",
            "Artist: X;Y",
            "AlbumArtist: Z",
            "Title: T-a",
            "Album: A-a",
            "Time: 1",
            "duration: 1",
            "Pos: 0",
            "Id: 0",
            "file: b",
            "Last-Modified: 2020",
            "Artist: X;Y",
            "AlbumArtist: Z",
            "Title: T-b",
            "Album: A-b",
            "Time: 2",
            "duration: 2",
            "Pos: 1",
            "Id: 1",
        ])
    );
}

#[test]
fn currentsong_shows_the_current_track() {
    let mut client = Client::new();
    client.queue.append(&piece("a", 1_000, None));
    client.queue.append(&piece("b", 2_000, None));
    assert_eq!(CurrentSongCommand.handle(&mut client, None, 0), done(&[]));
    client.queue.play_id(1);
    assert_eq!(
        CurrentSongCommand.handle(&mut client, None, 0),
        done(&[
            "file: b",
            "Artist: X;Y",
            "AlbumArtist: Z",
            "Title: T-b",
            "Album: A-b",
            "Time: 2",
            "duration: 2",
            "Pos: 0",
            "Id: 0",
        ])
    );
}

#[test]
fn add_asks_for_the_track_and_appends_it() {
    let mut client = client_with(2);
    assert_eq!(
        AddCommand.handle(&mut client, Some("xyz"), 0),
        Step::Ask(CatalogRequest::Track("xyz".to_owned()), Pending::AddTrack)
    );
    assert_eq!(client.queue.len(), 2);
    assert_eq!(
        resume(
            &mut client,
            Pending::AddTrack,
            CatalogReply::Track(Ok(piece("xyz", 1, None)))
        ),
        done(&["Id: 2"])
    );
    assert_eq!(client.queue.len(), 3);
    assert_eq!(client.queue.tracks()[2].id, "xyz");
    assert_eq!(
        AddCommand::complete(&mut client, Err(CatalogError)),
        failed(CommandError::Catalog)
    );
    assert_eq!(AddCommand.handle(&mut client, None, 0), failed(CommandError::MissingArgument));
    assert_eq!(client.queue.len(), 3);
    assert!(client.queue.take_intents().is_empty());
}

#[test]
fn listplaylists_lists_names() {
    let mut client = Client::new();
    assert_eq!(
        ListPlaylistsCommand.handle(&mut client, None, 0),
        Step::Ask(CatalogRequest::Playlists, Pending::ListPlaylists)
    );
    let lists = vec![
        Playlist { id: "1".to_owned(), name: "Morning".to_owned() },
        Playlist { id: "2".to_owned(), name: "Night".to_owned() },
    ];
    assert_eq!(
        resume(&mut client, Pending::ListPlaylists, CatalogReply::Playlists(Ok(lists))),
        done(&[
            "playlist: Morning",
            "Last-Modified: 1970-01-01T00:00:00Z",
            "playlist: Night",
            "Last-Modified: 1970-01-01T00:00:00Z",
        ])
    );
    assert_eq!(ListPlaylistsCommand::complete(Ok(vec![])), done(&[]));
    assert_eq!(ListPlaylistsCommand::complete(Err(CatalogError)), failed(CommandError::Catalog));
}

#[test]
fn listplaylistinfo_asks_three_times() {
    let mut client = Client::new();
    let first = ListPlaylistInfoCommand.handle(&mut client, Some("Night"), 0);
    assert_eq!(
        first,
        Step::Ask(CatalogRequest::Playlists, Pending::FindPlaylist("Night".to_owned()))
    );
    let lists = vec![
        Playlist { id: "p1".to_owned(), name: "Morning".to_owned() },
        Playlist { id: "p2".to_owned(), name: "Night".to_owned() },
        Playlist { id: "p3".to_owned(), name: "Night".to_owned() },
    ];
    let second = resume(
        &mut client,
        Pending::FindPlaylist("Night".to_owned()),
        CatalogReply::Playlists(Ok(lists)),
    );
    assert_eq!(
        second,
        Step::Ask(CatalogRequest::CurrentUser, Pending::PlaylistOwner("p2".to_owned()))
    );
    let third = resume(
        &mut client,
        Pending::PlaylistOwner("p2".to_owned()),
        CatalogReply::CurrentUser(Ok("me".to_owned())),
    );
    assert_eq!(
        third,
        Step::Ask(
            CatalogRequest::PlaylistTracks {
                user_id: "me".to_owned(),
                playlist_id: "p2".to_owned()
            },
            Pending::PlaylistTracks
        )
    );
    let entries = vec![
        PlaylistEntry::Unavailable,
        PlaylistEntry::Track(piece("a", 3_000, Some("2001"))),
        PlaylistEntry::Local,
        PlaylistEntry::Track(piece("b", 4_000, None)),
    ];
    assert_eq!(
        resume(&mut client, Pending::PlaylistTracks, CatalogReply::PlaylistTracks(Ok(entries))),
        done(&[
            "file: a",
            "Last-Modified: 2001",
            "Artist: X;Y",
            "AlbumArtist: Z",
            "Title: T-a",
            "Album: A-a",
            "Time: 3",
            "duration: 3",
        ])
    );
    assert_eq!(client.queue.len(), 0);
}

#[test]
fn listplaylistinfo_fails_where_it_cannot_go_on() {
    let mut client = Client::new();
    assert_eq!(
        ListPlaylistInfoCommand.handle(&mut client, None, 0),
        failed(CommandError::MissingArgument)
    );
    let lists = vec![Playlist { id: "p1".to_owned(), name: "Morning".to_owned() }];
    assert_eq!(ListPlaylistInfoCommand::get_playlist_by_name(&lists, "Night"), None);
    assert_eq!(
        ListPlaylistInfoCommand::get_playlist_by_name(&lists, "Morning"),
        Some(Playlist { id: "p1".to_owned(), name: "Morning".to_owned() })
    );
    assert_eq!(
        ListPlaylistInfoCommand::find("Night", Ok(lists)),
        failed(CommandError::NoSuchPlaylist)
    );
    assert_eq!(
        ListPlaylistInfoCommand::find("Night", Err(CatalogError)),
        failed(CommandError::Catalog)
    );
    assert_eq!(
        ListPlaylistInfoCommand::get_current_user_id(Ok("me".to_owned())),
        Ok("me".to_owned())
    );
    assert_eq!(
        ListPlaylistInfoCommand::get_current_user_id(Err(CatalogError)),
        Err(CommandError::Catalog)
    );
    assert_eq!(
        ListPlaylistInfoCommand::own("p".to_owned(), Err(CatalogError)),
        failed(CommandError::Catalog)
    );
    assert_eq!(
        ListPlaylistInfoCommand::complete(Err(CatalogError)),
        failed(CommandError::Catalog)
    );
}

#[test]
fn an_answer_to_another_question_fails_the_command() {
    let mut client = Client::new();
    assert_eq!(
        resume(&mut client, Pending::AddTrack, CatalogReply::Playlists(Ok(vec![]))),
        failed(CommandError::Catalog)
    );
    assert_eq!(
        resume(
            &mut client,
            Pending::PlaylistTracks,
            CatalogReply::CurrentUser(Ok("me".to_owned()))
        ),
        failed(CommandError::Catalog)
    );
    assert_eq!(client.queue.len(), 0);
}
