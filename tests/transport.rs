use music_player::transport::{AudioResponse, PlayState, SinkOp, SinkStatus, Transport};
use std::path::PathBuf;
use std::time::Duration;

const PLAYING: SinkStatus = SinkStatus { empty: false, paused: false };
const PAUSED: SinkStatus = SinkStatus { empty: false, paused: true };
const DRAINED: SinkStatus = SinkStatus { empty: true, paused: false };

fn playing(index: usize) -> Transport {
    let mut t = Transport::new();
    t.before_reload(DRAINED);
    t.track_loaded(PathBuf::from("song.flac"), index, Ok(Some(Duration::from_secs(200))));
    t
}

#[test]
fn play_track_valid_file_reports_started_then_currently_playing() {
    let mut t = Transport::new();
    assert!(t.before_reload(DRAINED).is_empty());
    let r = t.track_loaded(PathBuf::from("valid.wav"), 0, Ok(Some(Duration::from_secs(42))));
    assert_eq!(r.ops, vec![SinkOp::Append, SinkOp::Play]);
    assert_eq!(r.events.len(), 2);
    assert!(matches!(r.events[0], AudioResponse::PlaybackStarted));
    match &r.events[1] {
        AudioResponse::CurrentlyPlaying(Some(0), Some(d)) => assert_eq!(*d, Duration::from_secs(42)),
        other => panic!("unexpected event {:?}", other),
    }
    assert_eq!(t.state(), PlayState::Playing);
    assert_eq!(t.current_index(), Some(0));
    assert_eq!(t.seek_path(), Some(&PathBuf::from("valid.wav")));
}

#[test]
fn play_track_corrupt_file_reports_load_error_and_goes_idle() {
    let mut t = playing(3);
    assert_eq!(t.before_reload(PLAYING), vec![SinkOp::Stop]);
    let r = t.track_loaded(PathBuf::from("corrupt.mp3"), 1, Err("Failed to probe format: bad".to_string()));
    assert!(r.ops.is_empty());
    assert_eq!(r.events.len(), 2);
    match &r.events[0] {
        AudioResponse::LoadError(p, msg) => {
            assert_eq!(p, &PathBuf::from("corrupt.mp3"));
            assert_eq!(msg, "Failed to probe format: bad");
        }
        other => panic!("unexpected event {:?}", other),
    }
    assert!(matches!(r.events[1], AudioResponse::CurrentlyPlaying(None, None)));
    assert_eq!(t.state(), PlayState::Idle);
    assert_eq!(t.current_index(), None);
    assert!(t.seek_path().is_none());
}

#[test]
fn natural_end_reports_playback_ended_exactly_once() {
    let mut t = playing(2);
    assert!(t.end_of_track(PLAYING).is_none());
    assert_eq!(t.state(), PlayState::Playing);
    let first = t.end_of_track(DRAINED);
    assert!(matches!(first, Some(AudioResponse::PlaybackEnded)));
    assert_eq!(t.state(), PlayState::Idle);
    assert_eq!(t.current_index(), None);
    assert!(t.end_of_track(DRAINED).is_none());
    assert!(t.end_of_track(DRAINED).is_none());
}

#[test]
fn pause_while_paused_is_a_no_op() {
    let mut t = playing(0);
    let r = t.pause(PLAYING);
    assert_eq!(r.ops, vec![SinkOp::Pause]);
    assert!(matches!(r.events.as_slice(), [AudioResponse::PlaybackPaused]));
    assert_eq!(t.state(), PlayState::Paused);
    let again = t.pause(PAUSED);
    assert!(again.ops.is_empty());
    assert!(again.events.is_empty());
    assert_eq!(t.state(), PlayState::Paused);
    assert_eq!(t.current_index(), Some(0));
}

#[test]
fn pause_on_empty_sink_does_nothing() {
    let mut t = Transport::new();
    let r = t.pause(DRAINED);
    assert!(r.ops.is_empty() && r.events.is_empty());
    assert_eq!(t.state(), PlayState::Idle);
}

#[test]
fn play_resumes_only_a_paused_sink() {
    let mut t = playing(1);
    let none = t.play(PLAYING);
    assert!(none.ops.is_empty() && none.events.is_empty());
    t.pause(PLAYING);
    let r = t.play(PAUSED);
    assert_eq!(r.ops, vec![SinkOp::Play]);
    assert!(matches!(r.events.as_slice(), [AudioResponse::PlaybackStarted]));
    assert_eq!(t.state(), PlayState::Playing);
    let idle = t.play(SinkStatus { empty: true, paused: true });
    assert!(idle.events.is_empty());
}

#[test]
fn stop_clears_session_and_reports_stopped() {
    let mut t = playing(4);
    let r = t.stop(PLAYING);
    assert_eq!(r.ops, vec![SinkOp::Stop]);
    assert!(matches!(r.events.as_slice(), [AudioResponse::PlaybackStopped]));
    assert_eq!(t.state(), PlayState::Idle);
    let again = t.stop(DRAINED);
    assert!(again.ops.is_empty());
    assert!(matches!(again.events.as_slice(), [AudioResponse::PlaybackStopped]));
}

#[test]
fn seek_success_reports_position_and_keeps_session() {
    let mut t = playing(5);
    t.pause(PLAYING);
    assert!(t.seek_path().is_some());
    let r = t.seek_finished(Ok(Duration::from_millis(1500)));
    assert_eq!(r.ops, vec![SinkOp::Append, SinkOp::Play]);
    match r.events.as_slice() {
        [AudioResponse::SeekCompleted(d)] => assert_eq!(*d, Duration::from_millis(1500)),
        other => panic!("unexpected events {:?}", other),
    }
    assert_eq!(t.state(), PlayState::Playing);
    assert_eq!(t.current_index(), Some(5));
}

#[test]
fn seek_failure_stops_the_session() {
    let mut t = playing(5);
    let r = t.seek_finished(Err("seek error: out of range".to_string()));
    assert!(r.ops.is_empty());
    assert!(matches!(r.events.as_slice(), [AudioResponse::PlaybackStopped]));
    assert_eq!(t.state(), PlayState::Idle);
    assert!(t.seek_path().is_none());
}

#[test]
fn seek_without_session_has_no_path() {
    let t = Transport::new();
    assert!(t.seek_path().is_none());
}
