use sound_daemon::player::{Player, SinkEffect, SinkState, TrackInfo};

fn track(name: &str) -> TrackInfo {
    TrackInfo { name: name.to_string(), duration: 0 }
}

fn sink(len: usize, paused: bool) -> SinkState {
    SinkState { len, paused }
}

#[test]
fn pause_on_fresh_daemon_fails() {
    let p = Player::new();
    let (r, eff) = p.pause(sink(0, false));
    assert_eq!(r.status, false);
    assert_eq!(r.message, "Nothing is being played to pause");
    assert_eq!(eff, SinkEffect::Keep);
}

#[test]
fn resume_on_fresh_daemon_fails() {
    let p = Player::new();
    let (r, eff) = p.resume(sink(0, false));
    assert_eq!(r.status, false);
    assert_eq!(r.message, "Nothing to resume");
    assert_eq!(eff, SinkEffect::Keep);
}

#[test]
fn queue_two_then_current_then_skip_then_current() {
    let mut p = Player::new();

    let (r, eff) = p.push_to_queue(track("a.mp3"));
    assert!(r.status);
    assert_eq!(r.message, "a.mp3 was successfully added to the queue");
    assert_eq!(eff, SinkEffect::Append);

    let (r, eff) = p.push_to_queue(track("b.mp3"));
    assert!(r.status);
    assert_eq!(r.message, "b.mp3 was successfully added to the queue");
    assert_eq!(eff, SinkEffect::Append);

    let r = p.current(sink(2, false));
    assert!(r.status);
    assert_eq!(r.message, "Currently playing a.mp3");
    assert_eq!(r.track.as_deref(), Some("a.mp3"));
    assert_eq!(r.queue_length, Some(2));

    let (r, eff) = p.skip(sink(2, false));
    assert!(r.status);
    assert_eq!(r.message, "Skipped a.mp3");
    assert_eq!(eff, SinkEffect::SkipOne);

    let r = p.current(sink(1, false));
    assert!(r.status);
    assert_eq!(r.message, "Currently playing b.mp3");
    assert_eq!(r.track.as_deref(), Some("b.mp3"));
    assert_eq!(r.queue_length, Some(1));
}

#[test]
fn play_while_playing_is_rejected_without_state_change() {
    let mut p = Player::new();
    let (r, _) = p.play(sink(0, false), track("a.mp3"));
    assert!(r.status);
    assert_eq!(r.message, "Now playing a.mp3");

    let (r, eff) = p.play(sink(1, false), track("b.mp3"));
    assert_eq!(r.status, false);
    assert_eq!(r.message, "Already playing");
    assert_eq!(eff, SinkEffect::Keep);
    assert_eq!(p.queue_len(), 1);

    let r = p.current(sink(1, false));
    assert_eq!(r.track.as_deref(), Some("a.mp3"));
}

#[test]
fn play_while_paused_replaces_everything() {
    let mut p = Player::new();
    let (r, _) = p.play(sink(0, false), track("a.mp3"));
    assert!(r.status);
    let (r, _) = p.push_to_queue(track("b.mp3"));
    assert!(r.status);
    assert_eq!(p.queue_len(), 2);

    // the daemon paused the sink; a play call now wins and resets everything
    let (r, eff) = p.play(sink(2, true), track("c.mp3"));
    assert!(r.status);
    assert_eq!(r.message, "Now playing c.mp3");
    assert_eq!(eff, SinkEffect::Replace);
    assert_eq!(p.queue_len(), 1);

    let r = p.current(sink(1, false));
    assert_eq!(r.track.as_deref(), Some("c.mp3"));
    assert_eq!(r.queue_length, Some(1));
}

#[test]
fn pause_twice_is_idempotent() {
    let p = Player::new();
    let (r, eff) = p.pause(sink(1, false));
    assert!(r.status);
    assert_eq!(r.message, "Paused successfully");
    assert_eq!(eff, SinkEffect::Pause);

    let (r, eff) = p.pause(sink(1, true));
    assert!(r.status);
    assert_eq!(r.message, "Already paused");
    assert_eq!(eff, SinkEffect::Keep);
}

#[test]
fn resume_twice_is_idempotent() {
    let p = Player::new();
    let (r, eff) = p.resume(sink(1, true));
    assert!(r.status);
    assert_eq!(r.message, "Resumed successfully");
    assert_eq!(eff, SinkEffect::Resume);

    let (r, eff) = p.resume(sink(1, false));
    assert!(r.status);
    assert_eq!(r.message, "Already playing");
    assert_eq!(eff, SinkEffect::Keep);
}

#[test]
fn skip_on_empty_player_fails() {
    let mut p = Player::new();
    let (r, eff) = p.skip(sink(0, false));
    assert_eq!(r.status, false);
    assert_eq!(r.message, "Nothing to skip");
    assert_eq!(eff, SinkEffect::Keep);
}

#[test]
fn skip_with_desynced_sink_hits_the_guard() {
    let mut p = Player::new();
    // the queue knows nothing, yet the sink claims a pending item
    let (r, eff) = p.skip(sink(1, false));
    assert_eq!(r.status, false);
    assert_eq!(r.message, "Queue is empty");
    assert_eq!(eff, SinkEffect::Keep);
}

#[test]
fn clear_empties_the_queue() {
    let mut p = Player::new();
    let (r, _) = p.push_to_queue(track("a.mp3"));
    assert!(r.status);
    let (r, eff) = p.clear_queue();
    assert!(r.status);
    assert_eq!(r.message, "Queue was successfully cleared");
    assert_eq!(eff, SinkEffect::Clear);
    assert_eq!(p.queue_len(), 0);

    let r = p.current(sink(0, false));
    assert_eq!(r.status, false);
    assert_eq!(r.message, "Nothing is being played");
    assert_eq!(r.track, None);
    assert_eq!(r.queue_length, None);
}
