use mpd_bridge::player::{PlayerCommand, PlayerEvent};
use mpd_bridge::queue::Queue;
use mpd_bridge::track::Track;

fn track(id: &str, millis: u32) -> Track {
    Track {
        id: id.to_owned(),
        title: format!("title of {}", id),
        album: format!("album of {}", id),
        artists: vec!["first".to_owned(), "second".to_owned()],
        album_artists: vec!["various".to_owned()],
        duration: millis,
        release_date: Some("2001-02-03".to_owned()),
    }
}

fn queue_of(n: usize) -> Queue {
    let mut q = Queue::new();
    for i in 0..n {
        q.append(&track(&format!("t{}", i), 1000 * (i as u32 + 1)));
    }
    q
}

fn load(id: &str) -> PlayerCommand {
    PlayerCommand::Load(id.to_owned())
}

#[test]
fn new_queue_is_empty_stopped_and_at_volume_100() {
    let mut q = Queue::new();
    assert_eq!(q.len(), 0);
    assert_eq!(q.get_current_index(), None);
    assert_eq!(q.get_current(), None);
    assert_eq!(q.get_status(), PlayerEvent::Stopped);
    assert_eq!(q.get_volume(), 100);
    assert_eq!(q.get_duration(), 0);
    assert_eq!(q.get_current_elapsed_time(123_456), 0);
    assert!(q.take_intents().is_empty());
}

#[test]
fn append_tells_the_new_last_index() {
    let mut q = Queue::new();
    assert_eq!(q.append(&track("a", 1)), 0);
    assert_eq!(q.append(&track("b", 1)), 1);
    assert_eq!(q.append(&track("c", 1)), 2);
    assert_eq!(q.len(), 3);
    assert_eq!(q.tracks()[1].id, "b");
    assert!(q.take_intents().is_empty());
}

#[test]
fn length_is_appends_minus_removals() {
    let mut q = Queue::new();
    for i in 0..5 {
        q.append(&track(&format!("t{}", i), 1));
    }
    q.remove(1);
    q.remove(3);
    q.remove(17);
    q.append(&track("late", 1));
    assert_eq!(q.len(), 4);
    let ids: Vec<String> = q.tracks().iter().map(|t| t.id.clone()).collect();
    assert_eq!(ids, vec!["t0", "t2", "t3", "late"]);
}

#[test]
fn play_id_sends_load_then_play() {
    let mut q = queue_of(3);
    q.play_id(1);
    assert_eq!(q.get_current_index(), Some(1));
    assert_eq!(q.get_current().unwrap().id, "t1");
    assert_eq!(q.take_intents(), vec![load("t1"), PlayerCommand::Play]);
}

#[test]
fn play_id_beyond_the_end_does_nothing() {
    let mut q = queue_of(3);
    q.play_id(3);
    assert_eq!(q.get_current_index(), None);
    assert!(q.take_intents().is_empty());
}

#[test]
fn play_without_index_only_resumes() {
    let mut q = queue_of(2);
    q.play();
    assert_eq!(q.get_current_index(), None);
    assert_eq!(q.take_intents(), vec![PlayerCommand::Play]);
}

#[test]
fn toggle_pauses_only_while_playing() {
    let mut q = queue_of(1);
    q.toggle_playback();
    q.handle_event(PlayerEvent::Playing, 10);
    q.toggle_playback();
    q.handle_event(PlayerEvent::Paused, 20);
    q.toggle_playback();
    assert_eq!(
        q.take_intents(),
        vec![PlayerCommand::Play, PlayerCommand::Pause, PlayerCommand::Play]
    );
}

#[test]
fn stop_clears_the_cursor_and_tells_the_player() {
    let mut q = queue_of(2);
    q.play_id(0);
    q.take_intents();
    q.stop();
    assert_eq!(q.get_current_index(), None);
    assert_eq!(q.len(), 2);
    assert_eq!(q.take_intents(), vec![PlayerCommand::Stop]);
}

#[test]
fn next_moves_on_to_the_following_track() {
    let mut q = queue_of(3);
    q.play_id(0);
    q.take_intents();
    assert_eq!(q.next_index(), Some(1));
    q.next();
    assert_eq!(q.get_current_index(), Some(1));
    assert_eq!(q.take_intents(), vec![load("t1"), PlayerCommand::Play]);
}

#[test]
fn next_at_the_last_index_stops() {
    let mut q = queue_of(3);
    q.play_id(2);
    q.take_intents();
    assert_eq!(q.next_index(), None);
    q.next();
    assert_eq!(q.get_current_index(), None);
    assert_eq!(q.take_intents(), vec![PlayerCommand::Stop]);
}

#[test]
fn next_without_a_current_track_stops() {
    let mut q = queue_of(3);
    q.next();
    assert_eq!(q.get_current_index(), None);
    assert_eq!(q.take_intents(), vec![PlayerCommand::Stop]);
}

#[test]
fn previous_moves_back() {
    let mut q = queue_of(3);
    q.play_id(2);
    q.take_intents();
    assert_eq!(q.previous_index(), Some(1));
    q.previous();
    assert_eq!(q.get_current_index(), Some(1));
    assert_eq!(q.take_intents(), vec![load("t1"), PlayerCommand::Play]);
}

#[test]
fn previous_at_index_0_sends_stop_and_keeps_the_cursor() {
    let mut q = queue_of(3);
    q.play_id(0);
    q.take_intents();
    assert_eq!(q.previous_index(), None);
    q.previous();
    assert_eq!(q.get_current_index(), Some(0));
    assert_eq!(q.get_current().unwrap().id, "t0");
    assert_eq!(q.take_intents(), vec![PlayerCommand::Stop]);
}

#[test]
fn removing_the_current_track_that_is_last_stops() {
    let mut q = queue_of(3);
    q.play_id(2);
    q.handle_event(PlayerEvent::Playing, 5);
    q.take_intents();
    q.remove(2);
    assert_eq!(q.len(), 2);
    assert_eq!(q.get_current_index(), None);
    assert_eq!(q.take_intents(), vec![PlayerCommand::Stop]);
    assert_eq!(q.get_status(), PlayerEvent::Playing);
    q.handle_event(PlayerEvent::Stopped, 6);
    assert_eq!(q.get_status(), PlayerEvent::Stopped);
    assert_eq!(q.get_current_index(), None);
}

#[test]
fn removing_a_track_before_the_cursor_moves_the_cursor_down_by_one() {
    let mut q = queue_of(4);
    q.play_id(2);
    q.handle_event(PlayerEvent::Playing, 5);
    q.take_intents();
    q.remove(0);
    assert_eq!(q.get_current_index(), Some(1));
    assert_eq!(q.get_current().unwrap().id, "t2");
    assert_eq!(q.get_status(), PlayerEvent::Playing);
    assert!(q.take_intents().is_empty());
    assert_eq!(q.get_current_elapsed_time(15), 10);
}

#[test]
fn removing_a_track_after_the_cursor_changes_no_cursor() {
    let mut q = queue_of(4);
    q.play_id(1);
    q.take_intents();
    q.remove(3);
    assert_eq!(q.get_current_index(), Some(1));
    assert_eq!(q.len(), 3);
    assert!(q.take_intents().is_empty());
}

#[test]
fn removing_the_current_track_starts_the_one_that_slides_in() {
    let mut q = queue_of(3);
    q.play_id(1);
    q.take_intents();
    q.remove(1);
    assert_eq!(q.get_current_index(), Some(1));
    assert_eq!(q.get_current().unwrap().id, "t2");
    assert_eq!(q.take_intents(), vec![load("t2"), PlayerCommand::Play]);
}

#[test]
fn removing_the_only_track_stops() {
    let mut q = queue_of(1);
    q.remove(0);
    assert_eq!(q.len(), 0);
    assert_eq!(q.get_current_index(), None);
    assert_eq!(q.take_intents(), vec![PlayerCommand::Stop]);
}

#[test]
fn removing_beyond_the_end_is_ignored() {
    let mut q = queue_of(2);
    q.play_id(1);
    q.take_intents();
    q.remove(2);
    assert_eq!(q.len(), 2);
    assert_eq!(q.get_current_index(), Some(1));
    assert!(q.take_intents().is_empty());
}

#[test]
fn clear_stops_and_empties() {
    let mut q = queue_of(3);
    q.play_id(1);
    q.take_intents();
    q.clear();
    assert_eq!(q.len(), 0);
    assert_eq!(q.get_current_index(), None);
    assert_eq!(q.take_intents(), vec![PlayerCommand::Stop]);
}

#[test]
fn set_volume_stores_and_tells_the_player() {
    let mut q = Queue::new();
    q.set_volume(0);
    q.set_volume(65535);
    assert_eq!(q.get_volume(), 65535);
    assert_eq!(
        q.take_intents(),
        vec![PlayerCommand::SetVolume(0), PlayerCommand::SetVolume(65535)]
    );
}

#[test]
fn intents_are_handed_over_once_and_in_order() {
    let mut q = queue_of(2);
    q.play_id(0);
    q.set_volume(7);
    q.stop();
    assert_eq!(
        q.take_intents(),
        vec![
            load("t0"),
            PlayerCommand::Play,
            PlayerCommand::SetVolume(7),
            PlayerCommand::Stop
        ]
    );
    assert!(q.take_intents().is_empty());
    assert_eq!(q.len(), 2);
    assert_eq!(q.get_volume(), 7);
}

#[test]
fn duration_is_whole_seconds_of_the_current_track() {
    let mut q = Queue::new();
    q.append(&track("a", 1999));
    q.append(&track("b", 187_500));
    assert_eq!(q.get_duration(), 0);
    q.play_id(0);
    assert_eq!(q.get_duration(), 1);
    q.play_id(1);
    assert_eq!(q.get_duration(), 187);
}

#[test]
fn elapsed_time_does_not_go_down_while_playing() {
    let mut q = queue_of(1);
    q.play_id(0);
    q.handle_event(PlayerEvent::Playing, 1_000);
    let mut last = 0;
    for now in [1_000u64, 1_001, 1_500, 1_500, 9_000, 1_000_000] {
        let e = q.get_current_elapsed_time(now);
        assert!(e >= last);
        last = e;
    }
    assert_eq!(q.get_current_elapsed_time(1_000), 0);
    assert_eq!(q.get_current_elapsed_time(1_500), 500);
    assert_eq!(last, 999_000);
}

#[test]
fn a_pause_freezes_the_elapsed_time() {
    let mut q = queue_of(1);
    q.play_id(0);
    q.handle_event(PlayerEvent::Playing, 1_000);
    let at_pause = q.get_current_elapsed_time(4_000);
    q.handle_event(PlayerEvent::Paused, 4_000);
    assert_eq!(q.get_status(), PlayerEvent::Paused);
    assert_eq!(at_pause, 3_000);
    assert_eq!(q.get_current_elapsed_time(4_000), 3_000);
    assert_eq!(q.get_current_elapsed_time(99_000), 3_000);
    assert_eq!(q.get_current_elapsed_time(0), 3_000);
}

#[test]
fn playing_for_a_while_and_pausing_measures_the_while() {
    let mut q = Queue::new();
    q.append(&track("T", 200_000));
    q.play_id(0);
    q.handle_event(PlayerEvent::Playing, 50_000);
    q.handle_event(PlayerEvent::Paused, 50_000 + 12_345);
    assert_eq!(q.get_current_elapsed_time(80_000), 12_345);
    assert_eq!(q.get_status(), PlayerEvent::Paused);
    assert_eq!(q.get_current_index(), Some(0));
}

#[test]
fn resuming_goes_on_from_the_frozen_time() {
    let mut q = queue_of(1);
    q.play_id(0);
    q.handle_event(PlayerEvent::Playing, 100);
    q.handle_event(PlayerEvent::Paused, 400);
    q.handle_event(PlayerEvent::Playing, 1_000);
    assert_eq!(q.get_current_elapsed_time(1_000), 300);
    assert_eq!(q.get_current_elapsed_time(1_250), 550);
}

#[test]
fn a_stop_event_clears_the_elapsed_time() {
    let mut q = queue_of(1);
    q.play_id(0);
    q.handle_event(PlayerEvent::Playing, 100);
    q.handle_event(PlayerEvent::Stopped, 900);
    assert_eq!(q.get_status(), PlayerEvent::Stopped);
    assert_eq!(q.get_current_elapsed_time(5_000), 0);
    assert_eq!(q.get_current_index(), Some(0));
}

#[test]
fn the_end_of_a_track_starts_the_next_one() {
    let mut q = queue_of(2);
    q.play_id(0);
    q.handle_event(PlayerEvent::Playing, 100);
    q.take_intents();
    q.handle_event(PlayerEvent::EndOfTrack, 1_100);
    assert_eq!(q.get_current_index(), Some(1));
    assert_eq!(q.take_intents(), vec![load("t1"), PlayerCommand::Play]);
    assert_eq!(q.get_status(), PlayerEvent::Stopped);
    assert_eq!(q.get_current_elapsed_time(2_000), 0);
    q.handle_event(PlayerEvent::Playing, 1_200);
    assert_eq!(q.get_status(), PlayerEvent::Playing);
    assert_eq!(q.get_current_elapsed_time(2_000), 800);
}

#[test]
fn the_end_of_the_last_track_stops() {
    let mut q = queue_of(2);
    q.play_id(1);
    q.handle_event(PlayerEvent::Playing, 100);
    q.take_intents();
    q.handle_event(PlayerEvent::EndOfTrack, 2_100);
    assert_eq!(q.get_current_index(), None);
    assert_eq!(q.take_intents(), vec![PlayerCommand::Stop]);
    assert_eq!(q.get_status(), PlayerEvent::Stopped);
    assert_eq!(q.get_current_elapsed_time(9_999), 0);
}

#[test]
fn a_clock_that_went_back_adds_nothing() {
    let mut q = queue_of(1);
    q.play_id(0);
    q.handle_event(PlayerEvent::Playing, 100);
    q.handle_event(PlayerEvent::Paused, 300);
    q.handle_event(PlayerEvent::Playing, 1_000);
    assert_eq!(q.get_current_elapsed_time(500), 200);
}

#[test]
fn elapsed_time_stops_at_the_largest_number() {
    let mut q = queue_of(1);
    q.play_id(0);
    q.handle_event(PlayerEvent::Playing, 0);
    q.handle_event(PlayerEvent::Paused, u64::MAX - 5);
    q.handle_event(PlayerEvent::Playing, 10);
    assert_eq!(q.get_current_elapsed_time(14), u64::MAX - 1);
    assert_eq!(q.get_current_elapsed_time(15), u64::MAX);
    assert_eq!(q.get_current_elapsed_time(1_000), u64::MAX);
}

#[test]
fn status_words() {
    assert_eq!(PlayerEvent::Playing.to_string(), "Playing");
    assert_eq!(PlayerEvent::Paused.to_string(), "Paused");
    assert_eq!(PlayerEvent::Stopped.to_string(), "Stopped");
    assert_eq!(PlayerEvent::EndOfTrack.to_string(), "EndOfTrack");
}
