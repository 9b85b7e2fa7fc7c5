use music_player::playlist::{
    index_after_removal, minutes_seconds, next_index, next_track, pick_shuffled, previous_index,
    random_index, selection_after_removal, track_after_end, RepeatMode,
};

#[test]
fn repeat_mode_cycles() {
    assert_eq!(RepeatMode::Off.next(), RepeatMode::Playlist);
    assert_eq!(RepeatMode::Playlist.next(), RepeatMode::Track);
    assert_eq!(RepeatMode::Track.next(), RepeatMode::Off);
}

#[test]
fn repeat_mode_icons() {
    assert_eq!(RepeatMode::Off.icon(), "🔁 Off");
    assert_eq!(RepeatMode::Playlist.icon(), "🔁 All");
    assert_eq!(RepeatMode::Track.icon(), "🔁¹ One");
}

#[test]
fn sequential_next_and_wrap() {
    assert_eq!(next_index(3, Some(0), RepeatMode::Off), Some(1));
    assert_eq!(next_index(3, Some(2), RepeatMode::Off), None);
    assert_eq!(next_index(3, Some(2), RepeatMode::Playlist), Some(0));
    assert_eq!(next_index(3, None, RepeatMode::Off), None);
    assert_eq!(next_index(3, None, RepeatMode::Playlist), Some(0));
    assert_eq!(next_index(0, None, RepeatMode::Playlist), None);
}

#[test]
fn previous_wraps_to_last() {
    assert_eq!(previous_index(4, Some(2)), Some(1));
    assert_eq!(previous_index(4, Some(0)), Some(3));
    assert_eq!(previous_index(4, None), Some(3));
    assert_eq!(previous_index(0, None), None);
}

#[test]
fn shuffle_pick_avoids_current() {
    assert_eq!(pick_shuffled(5, Some(3), 1, 4), 1);
    assert_eq!(pick_shuffled(5, Some(3), 3, 4), 2);
    assert_eq!(pick_shuffled(5, Some(3), 3, 1), 4);
    assert_eq!(pick_shuffled(1, Some(0), 0, 0), 0);
}

#[test]
fn random_index_stays_in_range_and_moves() {
    assert_eq!(random_index(0, None), None);
    assert_eq!(random_index(1, Some(0)), Some(0));
    for _ in 0..200 {
        let i = random_index(4, Some(2)).unwrap();
        assert!(i < 4 && i != 2);
    }
}

#[test]
fn next_track_shuffled_or_not() {
    assert_eq!(next_track(3, Some(1), false, RepeatMode::Off), Some(2));
    assert_eq!(next_track(0, None, true, RepeatMode::Off), None);
    for _ in 0..50 {
        let i = next_track(2, Some(0), true, RepeatMode::Off).unwrap();
        assert_eq!(i, 1);
    }
}

#[test]
fn after_end_follows_repeat_mode() {
    assert_eq!(track_after_end(3, Some(1), false, RepeatMode::Track), Some(1));
    assert_eq!(track_after_end(3, Some(2), false, RepeatMode::Playlist), Some(0));
    assert_eq!(track_after_end(3, Some(1), false, RepeatMode::Off), Some(2));
    assert_eq!(track_after_end(3, Some(2), false, RepeatMode::Off), None);
    assert_eq!(track_after_end(3, None, false, RepeatMode::Playlist), None);
    assert_eq!(track_after_end(2, Some(5), true, RepeatMode::Track), None);
    let i = track_after_end(2, Some(1), true, RepeatMode::Off).unwrap();
    assert_eq!(i, 0);
}

#[test]
fn removal_shifts_indices() {
    assert_eq!(index_after_removal(Some(3), 3), None);
    assert_eq!(index_after_removal(Some(4), 1), Some(3));
    assert_eq!(index_after_removal(Some(0), 1), Some(0));
    assert_eq!(index_after_removal(None, 0), None);
    assert_eq!(selection_after_removal(0, 0), None);
    assert_eq!(selection_after_removal(3, 1), Some(1));
    assert_eq!(selection_after_removal(3, 3), Some(2));
}

#[test]
fn clock_parts() {
    assert_eq!(minutes_seconds(0), (0, 0));
    assert_eq!(minutes_seconds(59), (0, 59));
    assert_eq!(minutes_seconds(61), (1, 1));
    assert_eq!(minutes_seconds(3725), (62, 5));
}
