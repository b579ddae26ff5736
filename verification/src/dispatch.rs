use vstd::prelude::*;
use vstd::string::StringExecFns;
use crate::response::{Response, opt_text, opt_len};
use crate::player::{
    Player, TrackInfo, SinkState, SinkEffect, matches_outcome, play_outcome, queue_outcome,
    clear_outcome, pause_outcome, resume_outcome, skip_outcome, current_outcome, queue_after_play,
    queue_after_skip,
};
use crate::strutil::str_eq;

verus! {

/// The closed set of commands a client may name.
#[derive(Debug, Clone, Copy, PartialEq, Eq)]
pub enum Actions {
    Play,
    Pause,
    Resume,
    Clear,
    Queue,
    Skip,
    Current,
}

/// The action that the wire string `s` names, if any.
pub open spec fn action_of(s: Seq<char>) -> Option<Actions> {
    if s == "play"@ {
        Some(Actions::Play)
    } else if s == "pause"@ {
        Some(Actions::Pause)
    } else if s == "resume"@ {
        Some(Actions::Resume)
    } else if s == "clear"@ {
        Some(Actions::Clear)
    } else if s == "queue"@ {
        Some(Actions::Queue)
    } else if s == "skip"@ {
        Some(Actions::Skip)
    } else if s == "current"@ {
        Some(Actions::Current)
    } else {
        None
    }
}

/// The actions that carry a track path and go through the decode stage.
pub open spec fn needs_track(a: Actions) -> bool {
    a == Actions::Play || a == Actions::Queue
}

impl Actions {
    /// The action named by `s`; `None` for anything outside the fixed set.
    pub fn from_str(s: &str) -> (r: Option<Actions>)
        ensures
            r == action_of(s@),
    {
        if str_eq(s, "play") {
            Some(Actions::Play)
        } else if str_eq(s, "pause") {
            Some(Actions::Pause)
        } else if str_eq(s, "resume") {
            Some(Actions::Resume)
        } else if str_eq(s, "clear") {
            Some(Actions::Clear)
        } else if str_eq(s, "queue") {
            Some(Actions::Queue)
        } else if str_eq(s, "skip") {
            Some(Actions::Skip)
        } else if str_eq(s, "current") {
            Some(Actions::Current)
        } else {
            None
        }
    }

    /// Whether this action carries a track path.
    pub fn takes_track(&self) -> (b: bool)
        ensures
            b == needs_track(*self),
    {
        match self {
            Actions::Play | Actions::Queue => true,
            _ => false,
        }
    }
}

/// One inbound command: the action's wire name and the optional track path.
#[derive(Debug, Clone)]
pub struct Request {
    pub action: String,
    pub track: Option<String>,
}

/// What a request asks for, decided before any state is touched: an early
/// rejection, an operation with no argument, or an operation that first needs
/// the named track decoded.
pub enum Plan {
    Reject(Response),
    Simple(Actions),
    WithTrack(Actions, String),
}

/// Decide what `req` asks for without touching the player: unknown actions
/// and a missing track path are rejected here, so a bad request never
/// disturbs playback.
pub fn classify(req: Request) -> (p: Plan)
    ensures
        ({
            match action_of(req.action@) {
                None => {
                    &&& p matches Plan::Reject(r)
                    &&& !r.status
                    &&& r.message@ == "Invalid action: "@ + req.action@
                    &&& r.track is None
                    &&& r.queue_length is None
                },
                Some(a) => {
                    if needs_track(a) {
                        match req.track {
                            None => {
                                &&& p matches Plan::Reject(r)
                                &&& !r.status
                                &&& r.message@ == "No track specified"@
                                &&& r.track is None
                                &&& r.queue_length is None
                            },
                            Some(t) => {
                                &&& p matches Plan::WithTrack(a2, t2)
                                &&& a2 == a
                                &&& t2@ == t@
                            },
                        }
                    } else {
                        p == Plan::Simple(a)
                    }
                },
            }
        }),
{
    match Actions::from_str(req.action.as_str()) {
        None => {
            let mut m = "Invalid action: ".to_owned();
            m.append(req.action.as_str());
            Plan::Reject(Response::failure(m))
        },
        Some(a) => {
            if a.takes_track() {
                match req.track {
                    None => Plan::Reject(Response::failure("No track specified".to_owned())),
                    Some(t) => Plan::WithTrack(a, t),
                }
            } else {
                Plan::Simple(a)
            }
        },
    }
}

/// Run the operation that `a` names once its track has been decoded:
/// `metadata` is what the decode stage produced for the named path.
pub fn apply_with_track(
    player: &mut Player,
    a: Actions,
    metadata: TrackInfo,
    sink: SinkState,
) -> (r: (Response, SinkEffect))
    requires
        needs_track(a),
    ensures
        a == Actions::Play ==> matches_outcome(r, play_outcome(sink, metadata))
            && final(player).tracks() == queue_after_play(old(player).tracks(), sink, metadata),
        a == Actions::Queue ==> matches_outcome(r, queue_outcome(metadata))
            && final(player).tracks() == old(player).tracks().push(metadata),
{
    match a {
        Actions::Play => player.play(sink, metadata),
        _ => player.push_to_queue(metadata),
    }
}

/// Run the operation that `a` names when it carries no track. For `current`
/// the queue may be empty only when the sink is too, as `Player::current`
/// demands.
pub fn apply_simple(player: &mut Player, a: Actions, sink: SinkState) -> (r: (
    Response,
    SinkEffect,
))
    requires
        !needs_track(a),
        a == Actions::Current && old(player).tracks().len() == 0 ==> sink.len == 0,
    ensures
        a == Actions::Pause ==> matches_outcome(r, pause_outcome(sink)),
        a == Actions::Resume ==> matches_outcome(r, resume_outcome(sink)),
        a == Actions::Clear ==> matches_outcome(r, clear_outcome()) && final(player).tracks()
            == Seq::<TrackInfo>::empty(),
        a == Actions::Skip ==> matches_outcome(r, skip_outcome(old(player).tracks(), sink))
            && final(player).tracks() == queue_after_skip(old(player).tracks(), sink),
        a == Actions::Current ==> ({
            let (st, msg, tr, ql) = current_outcome(old(player).tracks(), sink);
            &&& r.0.status == st
            &&& r.0.message@ == msg
            &&& opt_text(r.0.track) == tr
            &&& opt_len(r.0.queue_length) == ql
            &&& r.1 == SinkEffect::Keep
        }),
        a != Actions::Clear && a != Actions::Skip ==> final(player).tracks()
            == old(player).tracks(),
{
    match a {
        Actions::Pause => player.pause(sink),
        Actions::Resume => player.resume(sink),
        Actions::Clear => player.clear_queue(),
        Actions::Skip => player.skip(sink),
        Actions::Current => (player.current(sink), SinkEffect::Keep),
        Actions::Play | Actions::Queue => {
            // unreachable under the precondition
            proof {
                assert(false);
            }
            (Response::failure("No track specified".to_owned()), SinkEffect::Keep)
        },
    }
}

/// The rejection sent when the named path could not be opened; `err` is the
/// decode stage's own wording.
pub fn open_failed(err: String) -> (r: Response)
    ensures
        !r.status,
        r.message@ == "Failed to open file: "@ + err@,
        r.track is None,
        r.queue_length is None,
{
    let mut m = "Failed to open file: ".to_owned();
    m.append(err.as_str());
    Response::failure(m)
}

/// The rejection sent when the opened file held no decodable audio.
pub fn decode_failed(err: String) -> (r: Response)
    ensures
        !r.status,
        r.message@ == "Failed to decode audio: "@ + err@,
        r.track is None,
        r.queue_length is None,
{
    let mut m = "Failed to decode audio: ".to_owned();
    m.append(err.as_str());
    Response::failure(m)
}

/// The response sent back, without touching the player, when the payload was
/// not a well-formed request.
pub fn invalid_json(err: String) -> (r: Response)
    ensures
        !r.status,
        r.message@ == "Invalid JSON: "@ + err@,
        r.track is None,
        r.queue_length is None,
{
    let mut m = "Invalid JSON: ".to_owned();
    m.append(err.as_str());
    Response::failure(m)
}

/// What the client prints when no daemon answers on the socket.
pub fn daemon_unreachable(err: String) -> (r: Response)
    ensures
        !r.status,
        r.message@ == err@ + " \nPlease make sure that daemon is running."@,
        r.track is None,
        r.queue_length is None,
{
    let mut m = err;
    m.append(" \nPlease make sure that daemon is running.");
    Response::failure(m)
}

} // verus!
