use sound_daemon::dispatch::{
    apply_simple, apply_with_track, classify, daemon_unreachable, decode_failed, invalid_json,
    open_failed, Actions, Plan, Request,
};
use sound_daemon::player::{Player, SinkEffect, SinkState, TrackInfo};

fn req(action: &str, track: Option<&str>) -> Request {
    Request { action: action.to_string(), track: track.map(|t| t.to_string()) }
}

#[test]
fn from_str_knows_the_whole_action_set() {
    assert!(matches!(Actions::from_str("play"), Some(Actions::Play)));
    assert!(matches!(Actions::from_str("pause"), Some(Actions::Pause)));
    assert!(matches!(Actions::from_str("resume"), Some(Actions::Resume)));
    assert!(matches!(Actions::from_str("clear"), Some(Actions::Clear)));
    assert!(matches!(Actions::from_str("queue"), Some(Actions::Queue)));
    assert!(matches!(Actions::from_str("skip"), Some(Actions::Skip)));
    assert!(matches!(Actions::from_str("current"), Some(Actions::Current)));
    assert!(Actions::from_str("stop").is_none());
    assert!(Actions::from_str("Play").is_none());
    assert!(Actions::from_str("").is_none());
}

#[test]
fn classify_rejects_unknown_actions() {
    match classify(req("shuffle", None)) {
        Plan::Reject(r) => {
            assert_eq!(r.status, false);
            assert_eq!(r.message, "Invalid action: shuffle");
        }
        _ => panic!("expected a rejection"),
    }
}

#[test]
fn classify_demands_a_track_for_play_and_queue() {
    for action in ["play", "queue"] {
        match classify(req(action, None)) {
            Plan::Reject(r) => {
                assert_eq!(r.status, false);
                assert_eq!(r.message, "No track specified");
            }
            _ => panic!("expected a rejection"),
        }
    }
    match classify(req("play", Some("a.mp3"))) {
        Plan::WithTrack(Actions::Play, t) => assert_eq!(t, "a.mp3"),
        _ => panic!("expected a track plan"),
    }
    match classify(req("queue", Some("b.mp3"))) {
        Plan::WithTrack(Actions::Queue, t) => assert_eq!(t, "b.mp3"),
        _ => panic!("expected a track plan"),
    }
}

#[test]
fn classify_passes_plain_actions_through() {
    assert!(matches!(classify(req("pause", None)), Plan::Simple(Actions::Pause)));
    assert!(matches!(classify(req("skip", Some("ignored.mp3"))), Plan::Simple(Actions::Skip)));
}

#[test]
fn apply_runs_the_player_operations() {
    let mut p = Player::new();
    let meta = TrackInfo { name: "a.mp3".to_string(), duration: 3 };
    let (r, eff) = apply_with_track(&mut p, Actions::Play, meta, SinkState { len: 0, paused: false });
    assert!(r.status);
    assert_eq!(r.message, "Now playing a.mp3");
    assert_eq!(eff, SinkEffect::Replace);

    let meta = TrackInfo { name: "b.mp3".to_string(), duration: 4 };
    let (r, eff) = apply_with_track(&mut p, Actions::Queue, meta, SinkState { len: 1, paused: false });
    assert!(r.status);
    assert_eq!(r.message, "b.mp3 was successfully added to the queue");
    assert_eq!(eff, SinkEffect::Append);

    let (r, eff) = apply_simple(&mut p, Actions::Current, SinkState { len: 2, paused: false });
    assert!(r.status);
    assert_eq!(r.track.as_deref(), Some("a.mp3"));
    assert_eq!(r.queue_length, Some(2));
    assert_eq!(eff, SinkEffect::Keep);

    let (r, eff) = apply_simple(&mut p, Actions::Skip, SinkState { len: 2, paused: false });
    assert!(r.status);
    assert_eq!(r.message, "Skipped a.mp3");
    assert_eq!(eff, SinkEffect::SkipOne);

    let (r, eff) = apply_simple(&mut p, Actions::Clear, SinkState { len: 1, paused: false });
    assert!(r.status);
    assert_eq!(r.message, "Queue was successfully cleared");
    assert_eq!(eff, SinkEffect::Clear);

    let (r, eff) = apply_simple(&mut p, Actions::Pause, SinkState { len: 0, paused: false });
    assert_eq!(r.status, false);
    assert_eq!(r.message, "Nothing is being played to pause");
    assert_eq!(eff, SinkEffect::Keep);

    let (r, eff) = apply_simple(&mut p, Actions::Resume, SinkState { len: 0, paused: false });
    assert_eq!(r.status, false);
    assert_eq!(r.message, "Nothing to resume");
    assert_eq!(eff, SinkEffect::Keep);
}

#[test]
fn error_responses_carry_the_expected_wording() {
    let r = open_failed("No such file or directory (os error 2)".to_string());
    assert_eq!(r.status, false);
    assert_eq!(r.message, "Failed to open file: No such file or directory (os error 2)");

    let r = decode_failed("Unrecognized format".to_string());
    assert_eq!(r.status, false);
    assert_eq!(r.message, "Failed to decode audio: Unrecognized format");

    let r = invalid_json("malformed request payload".to_string());
    assert_eq!(r.status, false);
    assert_eq!(r.message, "Invalid JSON: malformed request payload");

    let r = daemon_unreachable("Connection refused (os error 111)".to_string());
    assert_eq!(r.status, false);
    assert_eq!(
        r.message,
        "Connection refused (os error 111) \nPlease make sure that daemon is running."
    );
}
