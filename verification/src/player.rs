use vstd::prelude::*;
use vstd::string::StringExecFns;
use crate::response::{Response, opt_text, opt_len};

verus! {

/// One queued track: the display name (the path it was loaded from) and its
/// length in whole seconds, zero when the source exposes no duration.
#[derive(Debug, Clone)]
pub struct TrackInfo {
    pub name: String,
    pub duration: usize,
}

/// The part of the audio sink that the transition rules read: how many items
/// it still holds, and whether it is paused. The daemon observes these on the
/// real sink immediately before each operation.
#[derive(Debug, Clone, Copy)]
pub struct SinkState {
    pub len: usize,
    pub paused: bool,
}

/// What the daemon must do to the real sink to honour an operation's outcome.
#[derive(Debug, Clone, Copy, PartialEq, Eq)]
pub enum SinkEffect {
    /// Leave the sink as it is.
    Keep,
    /// Drop everything it holds, load the new stream, and start playing.
    Replace,
    /// Append the new stream behind whatever is pending.
    Append,
    /// Drop everything it holds.
    Clear,
    /// Stop playback without losing the loaded items.
    Pause,
    /// Continue playback of the loaded items.
    Resume,
    /// Drop exactly the item now at the front.
    SkipOne,
}

/// A play request is turned away only while the sink holds unfinished,
/// unpaused audio; a paused sink does not block it.
pub open spec fn play_blocked(sink: SinkState) -> bool {
    sink.len != 0 && !sink.paused
}

/// Status, message and sink effect of a `play` call.
pub open spec fn play_outcome(sink: SinkState, t: TrackInfo) -> (bool, Seq<char>, SinkEffect) {
    if play_blocked(sink) {
        (false, "Already playing"@, SinkEffect::Keep)
    } else {
        (true, "Now playing "@ + t.name@, SinkEffect::Replace)
    }
}

/// The queue after a `play` call: untouched when blocked, otherwise replaced
/// by the one new track.
pub open spec fn queue_after_play(q: Seq<TrackInfo>, sink: SinkState, t: TrackInfo) -> Seq<
    TrackInfo,
> {
    if play_blocked(sink) {
        q
    } else {
        seq![t]
    }
}

/// Status, message and sink effect of a `queue` call; it always succeeds.
pub open spec fn queue_outcome(t: TrackInfo) -> (bool, Seq<char>, SinkEffect) {
    (true, t.name@ + " was successfully added to the queue"@, SinkEffect::Append)
}

/// Status, message and sink effect of a `clear` call; it always succeeds.
pub open spec fn clear_outcome() -> (bool, Seq<char>, SinkEffect) {
    (true, "Queue was successfully cleared"@, SinkEffect::Clear)
}

/// Status, message and sink effect of a `pause` call: turned away on an empty
/// sink, an idempotent success on a paused one.
pub open spec fn pause_outcome(sink: SinkState) -> (bool, Seq<char>, SinkEffect) {
    if sink.len == 0 {
        (false, "Nothing is being played to pause"@, SinkEffect::Keep)
    } else if sink.paused {
        (true, "Already paused"@, SinkEffect::Keep)
    } else {
        (true, "Paused successfully"@, SinkEffect::Pause)
    }
}

/// Status, message and sink effect of a `resume` call: turned away on an
/// empty sink, an idempotent success on one that is already playing.
pub open spec fn resume_outcome(sink: SinkState) -> (bool, Seq<char>, SinkEffect) {
    if sink.len == 0 {
        (false, "Nothing to resume"@, SinkEffect::Keep)
    } else if sink.paused {
        (true, "Resumed successfully"@, SinkEffect::Resume)
    } else {
        (true, "Already playing"@, SinkEffect::Keep)
    }
}

/// Status, message and sink effect of a `skip` call. The middle branch is the
/// only one that changes anything; the last one guards the state, never seen
/// in correct operation, where the sink holds items the queue does not know.
pub open spec fn skip_outcome(q: Seq<TrackInfo>, sink: SinkState) -> (bool, Seq<char>, SinkEffect) {
    if q.len() == 0 && sink.len == 0 {
        (false, "Nothing to skip"@, SinkEffect::Keep)
    } else if q.len() > 0 {
        (true, "Skipped "@ + q[0].name@, SinkEffect::SkipOne)
    } else {
        (false, "Queue is empty"@, SinkEffect::Keep)
    }
}

/// The queue after a `skip` call: the front track leaves when there is one.
pub open spec fn queue_after_skip(q: Seq<TrackInfo>, sink: SinkState) -> Seq<TrackInfo> {
    if q.len() > 0 {
        q.drop_first()
    } else {
        q
    }
}

/// Status, message, reported track and reported depth of a `current` call.
/// It reads only the queue, never whether the sink is paused.
pub open spec fn current_outcome(q: Seq<TrackInfo>, sink: SinkState) -> (
    bool,
    Seq<char>,
    Option<Seq<char>>,
    Option<int>,
) {
    if q.len() == 0 && sink.len == 0 {
        (false, "Nothing is being played"@, None, None)
    } else {
        (true, "Currently playing "@ + q[0].name@, Some(q[0].name@), Some(q.len() as int))
    }
}

/// A response/effect pair that reports the given status, message and effect,
/// and carries no track or depth field.
pub open spec fn matches_outcome(r: (Response, SinkEffect), o: (bool, Seq<char>, SinkEffect)) -> bool {
    &&& r.0.status == o.0
    &&& r.0.message@ == o.1
    &&& r.1 == o.2
    &&& r.0.track is None
    &&& r.0.queue_length is None
}

/// The daemon's playback state: the ordered tracks that were handed to the
/// sink, front first, the front one being the track now playing or paused.
/// The tracks and the sink's pending items are always changed in the same
/// step, so the queue is the one source of truth for reporting.
pub struct Player {
    queue: Vec<TrackInfo>,
}

impl Player {
    /// The queued tracks, front first.
    pub closed spec fn tracks(&self) -> Seq<TrackInfo> {
        self.queue@
    }

    /// A player with nothing queued.
    pub fn new() -> (p: Player)
        ensures
            p.tracks() == Seq::<TrackInfo>::empty(),
    {
        Player { queue: Vec::new() }
    }

    /// How many tracks are queued.
    pub fn queue_len(&self) -> (n: usize)
        ensures
            n == self.tracks().len(),
    {
        self.queue.len()
    }

    /// Start `metadata` from scratch. Turned away only while the sink holds
    /// unfinished, unpaused audio; otherwise every queued track is dropped —
    /// a paused track as well — and the new one becomes the whole queue.
    pub fn play(&mut self, sink: SinkState, metadata: TrackInfo) -> (r: (Response, SinkEffect))
        ensures
            matches_outcome(r, play_outcome(sink, metadata)),
            final(self).tracks() == queue_after_play(old(self).tracks(), sink, metadata),
    {
        if sink.len != 0 && !sink.paused {
            (Response::failure("Already playing".to_owned()), SinkEffect::Keep)
        } else {
            self.queue.clear();
            let mut m = "Now playing ".to_owned();
            m.append(metadata.name.as_str());
            self.queue.push(metadata);
            proof {
                assert(self.tracks() =~= queue_after_play(old(self).tracks(), sink, metadata));
            }
            (Response::success(m), SinkEffect::Replace)
        }
    }

    /// Append `metadata` behind whatever is queued. Always succeeds and never
    /// looks at the playback state: the one non-destructive mutator.
    pub fn push_to_queue(&mut self, metadata: TrackInfo) -> (r: (Response, SinkEffect))
        ensures
            matches_outcome(r, queue_outcome(metadata)),
            final(self).tracks() == old(self).tracks().push(metadata),
    {
        let mut m = metadata.name.clone();
        m.append(" was successfully added to the queue");
        self.queue.push(metadata);
        (Response::success(m), SinkEffect::Append)
    }

    /// Drop every queued track. Always succeeds.
    pub fn clear_queue(&mut self) -> (r: (Response, SinkEffect))
        ensures
            matches_outcome(r, clear_outcome()),
            final(self).tracks() == Seq::<TrackInfo>::empty(),
    {
        self.queue.clear();
        (Response::success("Queue was successfully cleared".to_owned()), SinkEffect::Clear)
    }

    /// Pause playback. Turned away when the sink holds nothing; reports
    /// idempotent success when the sink is already paused.
    pub fn pause(&self, sink: SinkState) -> (r: (Response, SinkEffect))
        ensures
            matches_outcome(r, pause_outcome(sink)),
    {
        if sink.len == 0 {
            (Response::failure("Nothing is being played to pause".to_owned()), SinkEffect::Keep)
        } else if sink.paused {
            (Response::success("Already paused".to_owned()), SinkEffect::Keep)
        } else {
            (Response::success("Paused successfully".to_owned()), SinkEffect::Pause)
        }
    }

    /// Resume playback. Turned away when the sink holds nothing; reports
    /// idempotent success when the sink is already playing.
    pub fn resume(&self, sink: SinkState) -> (r: (Response, SinkEffect))
        ensures
            matches_outcome(r, resume_outcome(sink)),
    {
        if sink.len == 0 {
            (Response::failure("Nothing to resume".to_owned()), SinkEffect::Keep)
        } else if sink.paused {
            (Response::success("Resumed successfully".to_owned()), SinkEffect::Resume)
        } else {
            (Response::success("Already playing".to_owned()), SinkEffect::Keep)
        }
    }

    /// Drop the front track and let the sink advance. Turned away when queue
    /// and sink are both empty; the queue-empty-but-sink-loaded branch only
    /// guards against a desynchronisation that correct operation never shows.
    pub fn skip(&mut self, sink: SinkState) -> (r: (Response, SinkEffect))
        ensures
            matches_outcome(r, skip_outcome(old(self).tracks(), sink)),
            final(self).tracks() == queue_after_skip(old(self).tracks(), sink),
    {
        if self.queue.is_empty() && sink.len == 0 {
            (Response::failure("Nothing to skip".to_owned()), SinkEffect::Keep)
        } else if !self.queue.is_empty() {
            let skipped = self.queue.remove(0);
            let mut m = "Skipped ".to_owned();
            m.append(skipped.name.as_str());
            proof {
                assert(self.tracks() =~= queue_after_skip(old(self).tracks(), sink));
            }
            (Response::success(m), SinkEffect::SkipOne)
        } else {
            (Response::failure("Queue is empty".to_owned()), SinkEffect::Keep)
        }
    }

    /// Report the front track's name and the queue depth; reads only the
    /// queue, so a paused sink reports just like a playing one. The queue may
    /// be empty only when the sink is too: in the one state outside that rule
    /// there is no front track to report.
    pub fn current(&self, sink: SinkState) -> (r: Response)
        requires
            self.tracks().len() == 0 ==> sink.len == 0,
        ensures
            ({
                let (st, msg, tr, ql) = current_outcome(self.tracks(), sink);
                &&& r.status == st
                &&& r.message@ == msg
                &&& opt_text(r.track) == tr
                &&& opt_len(r.queue_length) == ql
            }),
    {
        if self.queue.is_empty() && sink.len == 0 {
            Response::failure("Nothing is being played".to_owned())
        } else {
            let name = self.queue[0].name.clone();
            let mut m = "Currently playing ".to_owned();
            m.append(name.as_str());
            let n = self.queue.len();
            Response { status: true, message: m, track: Some(name), queue_length: Some(n) }
        }
    }
}

} // verus!
