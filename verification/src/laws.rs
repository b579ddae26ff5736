use vstd::prelude::*;
use crate::player::{
    TrackInfo, SinkState, SinkEffect, play_blocked, play_outcome, pause_outcome, resume_outcome,
    skip_outcome, queue_after_play, queue_after_skip,
};
use crate::json_out::{
    esc_char, esc_text, lemma_esc_front, lemma_esc_plain, plain_char, request_json,
};
use crate::json_in::{member_at, null_at, request_of, string_body, two_fields, ws_end};

verus! {

/// No character of `s` is a control character.
pub open spec fn no_controls(s: Seq<char>) -> bool {
    forall|i: int| 0 <= i < s.len() ==> (s[i] as u32) >= 32
}

/// Decoding inverts escaping: wherever `full` carries the escaped form of `s`
/// followed by a closing quote, the string-literal decoder recovers exactly
/// `s` and stops just past that quote.
pub proof fn lemma_body_of_escaped(full: Seq<char>, i: int, s: Seq<char>)
    requires
        no_controls(s),
        0 <= i,
        i + esc_text(s).len() + 1 <= full.len(),
        full.subrange(i, i + esc_text(s).len() + 1) == esc_text(s) + seq!['"'],
    ensures
        string_body(full, i) == Some((s, i + esc_text(s).len() + 1)),
    decreases s.len(),
{
    let e = esc_text(s);
    let sub = full.subrange(i, i + e.len() + 1);
    if s.len() == 0 {
        assert(e =~= Seq::<char>::empty());
        assert(full[i] == sub[0]);
        assert(full[i] == '"');
        assert(s =~= Seq::<char>::empty());
    } else {
        let c = s[0];
        let rest = s.drop_first();
        lemma_esc_front(s);
        let ec = esc_char(c);
        let er = esc_text(rest);
        assert((c as u32) >= 32);
        assert(no_controls(rest));
        if c == '"' || c == '\\' {
            assert(ec =~= seq!['\\', if c == '"' { '"' } else { '\\' }]);
            assert(full[i] == sub[0]);
            assert(full[i + 1] == sub[1]);
            assert(full[i] == '\\');
            assert(full[i + 1] == (if c == '"' { '"' } else { '\\' }));
            let fsub = full.subrange(i + 2, i + 2 + er.len() + 1);
            assert(fsub =~= er + seq!['"']) by {
                assert forall|k: int| 0 <= k < er.len() + 1 implies fsub[k] == (er + seq!['"'])[k] by {
                    assert(sub[2 + k] == (e + seq!['"'])[2 + k]);
                    assert((e + seq!['"'])[2 + k] == (er + seq!['"'])[k]);
                    assert(sub[2 + k] == full[i + (2 + k)]);
                    assert(fsub[k] == full[i + 2 + k]);
                }
            }
            lemma_body_of_escaped(full, i + 2, rest);
            assert(seq![c] + rest =~= s);
            assert(string_body(full, i) == Some((s, i + e.len() + 1)));
        } else {
            assert(ec =~= seq![c]);
            assert(full[i] == sub[0]);
            assert(full[i] == c);
            let fsub = full.subrange(i + 1, i + 1 + er.len() + 1);
            assert(fsub =~= er + seq!['"']) by {
                assert forall|k: int| 0 <= k < er.len() + 1 implies fsub[k] == (er + seq!['"'])[k] by {
                    assert(sub[1 + k] == (e + seq!['"'])[1 + k]);
                    assert((e + seq!['"'])[1 + k] == (er + seq!['"'])[k]);
                    assert(sub[1 + k] == full[i + (1 + k)]);
                    assert(fsub[k] == full[i + 1 + k]);
                }
            }
            lemma_body_of_escaped(full, i + 1, rest);
            assert(seq![c] + rest =~= s);
            assert(string_body(full, i) == Some((s, i + e.len() + 1)));
        }
    }
}

/// One observed player operation: the sink state seen at the moment of the
/// call and, for play and queue, the track handed in. Operations that never
/// read the sink carry no observation.
pub enum Op {
    Play(SinkState, TrackInfo),
    Queue(TrackInfo),
    Clear,
    Skip(SinkState),
    Pause(SinkState),
    Resume(SinkState),
    Current(SinkState),
}

/// The queue after one operation, exactly as the operations' contracts state
/// it: pause, resume and current never touch it.
pub open spec fn queue_after_op(q: Seq<TrackInfo>, op: Op) -> Seq<TrackInfo> {
    match op {
        Op::Play(sink, t) => queue_after_play(q, sink, t),
        Op::Queue(t) => q.push(t),
        Op::Clear => Seq::empty(),
        Op::Skip(sink) => queue_after_skip(q, sink),
        Op::Pause(_) => q,
        Op::Resume(_) => q,
        Op::Current(_) => q,
    }
}

/// The queue after a whole run of operations, first operation first.
pub open spec fn queue_after_ops(q: Seq<TrackInfo>, ops: Seq<Op>) -> Seq<TrackInfo>
    decreases ops.len(),
{
    if ops.len() == 0 {
        q
    } else {
        queue_after_ops(queue_after_op(q, ops[0]), ops.drop_first())
    }
}

/// The running depth count an observer keeps without looking at the queue: a
/// successful play leaves exactly one track, a queue call adds one, a
/// successful skip removes one, clear resets to zero, and everything else —
/// including every rejected call — leaves the count alone.
pub open spec fn depth_after_op(d: int, op: Op) -> int {
    match op {
        Op::Play(sink, _) => if play_blocked(sink) {
            d
        } else {
            1
        },
        Op::Queue(_) => d + 1,
        Op::Clear => 0,
        Op::Skip(_) => if d > 0 {
            d - 1
        } else {
            d
        },
        Op::Pause(_) => d,
        Op::Resume(_) => d,
        Op::Current(_) => d,
    }
}

/// The count after a whole run of operations.
pub open spec fn depth_after_ops(d: int, ops: Seq<Op>) -> int
    decreases ops.len(),
{
    if ops.len() == 0 {
        d
    } else {
        depth_after_ops(depth_after_op(d, ops[0]), ops.drop_first())
    }
}

/// Queue-depth accounting: over any run of operations the queue's length —
/// which is what `current` reports — equals the running count of successful
/// play, queue, skip and clear calls, and that count never falls below zero.
pub proof fn lemma_queue_depth(q: Seq<TrackInfo>, ops: Seq<Op>)
    ensures
        queue_after_ops(q, ops).len() == depth_after_ops(q.len() as int, ops),
        depth_after_ops(q.len() as int, ops) >= 0,
    decreases ops.len(),
{
    if ops.len() == 0 {
    } else {
        let q1 = queue_after_op(q, ops[0]);
        assert(q1.len() == depth_after_op(q.len() as int, ops[0]));
        lemma_queue_depth(q1, ops.drop_first());
    }
}

/// A play call against a sink holding unfinished, unpaused audio is rejected,
/// asks for no sink change, and leaves the queue as it was.
pub proof fn lemma_play_rejected(q: Seq<TrackInfo>, sink: SinkState, t: TrackInfo)
    requires
        sink.len != 0,
        !sink.paused,
    ensures
        !play_outcome(sink, t).0,
        play_outcome(sink, t).2 == SinkEffect::Keep,
        queue_after_play(q, sink, t) == q,
{
}

/// A play call while the sink is paused always succeeds: the paused contents
/// are discarded and the queue becomes exactly the one new track.
pub proof fn lemma_play_while_paused(q: Seq<TrackInfo>, sink: SinkState, t: TrackInfo)
    requires
        sink.paused,
    ensures
        play_outcome(sink, t).0,
        play_outcome(sink, t).2 == SinkEffect::Replace,
        queue_after_play(q, sink, t) =~= seq![t],
        queue_after_play(q, sink, t).len() == 1,
{
}

/// How the real sink moves when an effect is honoured, at the level the
/// transition rules read it: the pending count and the paused flag. Whether a
/// drained or cleared sink also counts as paused is left to the sink; the
/// transition rules never consult the flag of an empty sink.
pub open spec fn apply_effect(s: SinkState, e: SinkEffect) -> SinkState {
    match e {
        SinkEffect::Keep => s,
        SinkEffect::Replace => SinkState { len: 1, paused: false },
        SinkEffect::Append => SinkState {
            len: if s.len == usize::MAX {
                s.len
            } else {
                (s.len + 1) as usize
            },
            paused: s.paused,
        },
        SinkEffect::Clear => SinkState { len: 0, paused: s.paused },
        SinkEffect::Pause => SinkState { len: s.len, paused: true },
        SinkEffect::Resume => SinkState { len: s.len, paused: false },
        SinkEffect::SkipOne => SinkState {
            len: if s.len > 0 {
                (s.len - 1) as usize
            } else {
                0
            },
            paused: s.paused,
        },
    }
}

/// Pausing twice in a row: the first call pauses the sink and the second,
/// seeing a paused sink, still succeeds — with a distinct message — and asks
/// for no change at all.
pub proof fn lemma_pause_idempotent(sink: SinkState)
    requires
        sink.len != 0,
        !sink.paused,
    ensures
        ({
            let (st1, m1, e1) = pause_outcome(sink);
            let (st2, m2, e2) = pause_outcome(apply_effect(sink, e1));
            &&& st1
            &&& e1 == SinkEffect::Pause
            &&& st2
            &&& e2 == SinkEffect::Keep
            &&& m1 != m2
        }),
{
    reveal_strlit("Paused successfully");
    reveal_strlit("Already paused");
    assert(pause_outcome(sink).1.len() != pause_outcome(
        apply_effect(sink, pause_outcome(sink).2),
    ).1.len());
}

/// Resuming twice in a row: the first call restarts playback and the second,
/// seeing an unpaused sink, still succeeds — with a distinct message — and
/// asks for no change at all.
pub proof fn lemma_resume_idempotent(sink: SinkState)
    requires
        sink.len != 0,
        sink.paused,
    ensures
        ({
            let (st1, m1, e1) = resume_outcome(sink);
            let (st2, m2, e2) = resume_outcome(apply_effect(sink, e1));
            &&& st1
            &&& e1 == SinkEffect::Resume
            &&& st2
            &&& e2 == SinkEffect::Keep
            &&& m1 != m2
        }),
{
    reveal_strlit("Resumed successfully");
    reveal_strlit("Already playing");
    assert(resume_outcome(sink).1.len() != resume_outcome(
        apply_effect(sink, resume_outcome(sink).2),
    ).1.len());
}

/// Skip fails when queue and sink are both empty, and on a non-empty queue it
/// always succeeds, removing exactly the front track and no other.
pub proof fn lemma_skip_front(q: Seq<TrackInfo>, sink: SinkState)
    ensures
        q.len() == 0 && sink.len == 0 ==> !skip_outcome(q, sink).0 && queue_after_skip(q, sink)
            == q,
        q.len() > 0 ==> skip_outcome(q, sink).0 && queue_after_skip(q, sink) == q.drop_first()
            && queue_after_skip(q, sink).len() == q.len() - 1,
{
}

/// Round trip: the request text the client encoder writes, the daemon's
/// parser reads back unchanged — for every action and track free of control
/// characters (the encoder spells a control character in a numeric form that
/// the schema-checked reader does not take).
pub proof fn lemma_request_round_trip(a: Seq<char>, t: Option<Seq<char>>)
    requires
        no_controls(a),
        t matches Some(ts) ==> no_controls(ts),
    ensures
        request_of(request_json(a, t)) == Some((a, t)),
{
    reveal_strlit("{\"action\":\"");
    reveal_strlit("\"");
    reveal_strlit("}");
    reveal_strlit("action");
    reveal_strlit("track");
    reveal_strlit(",\"track\":\"");
    reveal_strlit(",\"track\":null");
    let p1 = "{\"action\":\""@;
    let q = "\""@;
    let rb = "}"@;
    let ea = esc_text(a);
    let na = ea.len() as int;
    let full = request_json(a, t);
    let m = match t {
        Some(ts) => ",\"track\":\""@ + esc_text(ts) + q,
        None => ",\"track\":null"@,
    };
    assert(full == p1 + ea + q + m + rb);
    let w = 12 + na;
    assert(full.len() == w + m.len() + 1);

    // the fixed keys escape to themselves
    assert(forall|i: int| 0 <= i < "action"@.len() ==> plain_char("action"@[i]));
    lemma_esc_plain("action"@);
    assert(no_controls("action"@));
    assert(forall|i: int| 0 <= i < "track"@.len() ==> plain_char("track"@[i]));
    lemma_esc_plain("track"@);
    assert(no_controls("track"@));

    // the object opens at once: '{', then the first key
    assert(full[0] == '{');
    assert(ws_end(full, 0) == 0);
    assert(full[1] == '"');
    assert(ws_end(full, 1) == 1);

    // first member: the key `action`, then ':', then the escaped action
    assert(full.subrange(2, 9) =~= esc_text("action"@) + seq!['"']);
    lemma_body_of_escaped(full, 2, "action"@);
    assert(string_body(full, 2) == Some(("action"@, 9int)));
    assert(full[9] == ':');
    assert(ws_end(full, 9) == 9);
    assert(full[10] == '"');
    assert(ws_end(full, 10) == 10);
    assert(full.subrange(11, 11 + na + 1) =~= ea + seq!['"']);
    lemma_body_of_escaped(full, 11, a);
    assert(string_body(full, 11) == Some((a, w)));
    assert(member_at(full, 1) == Some((("action"@, Some(a)), w)));

    // the comma, then the track member
    match t {
        Some(ts) => {
            let et = esc_text(ts);
            let nt = et.len() as int;
            let mp = ",\"track\":\""@;
            assert(m == mp + et + q);
            assert(full[w] == ',');
            assert(ws_end(full, w) == w);
            assert(full[w + 1] == '"');
            assert(ws_end(full, w + 1) == w + 1);
            assert(full.subrange(w + 2, w + 8) =~= esc_text("track"@) + seq!['"']);
            lemma_body_of_escaped(full, w + 2, "track"@);
            assert(string_body(full, w + 2) == Some(("track"@, w + 8)));
            assert(full[w + 8] == ':');
            assert(ws_end(full, w + 8) == w + 8);
            assert(full[w + 9] == '"');
            assert(ws_end(full, w + 9) == w + 9);
            assert(full.subrange(w + 10, w + 10 + nt + 1) =~= et + seq!['"']);
            lemma_body_of_escaped(full, w + 10, ts);
            assert(string_body(full, w + 10) == Some((ts, w + 11 + nt)));
            assert(member_at(full, w + 1) == Some((("track"@, Some(ts)), w + 11 + nt)));
            let p2 = w + 11 + nt;
            assert(full[p2] == '}');
            assert(ws_end(full, p2) == p2);
            assert(ws_end(full, p2 + 1) == full.len());
            assert(two_fields("action"@, Some(a), "track"@, Some(ts)) == Some((a, Some(ts))));
            assert(request_of(full) == Some((a, t)));
        },
        None => {
            assert(full[w] == ',');
            assert(ws_end(full, w) == w);
            assert(full[w + 1] == '"');
            assert(ws_end(full, w + 1) == w + 1);
            assert(full.subrange(w + 2, w + 8) =~= esc_text("track"@) + seq!['"']);
            lemma_body_of_escaped(full, w + 2, "track"@);
            assert(string_body(full, w + 2) == Some(("track"@, w + 8)));
            assert(full[w + 8] == ':');
            assert(ws_end(full, w + 8) == w + 8);
            assert(full[w + 9] == 'n');
            assert(ws_end(full, w + 9) == w + 9);
            assert(full[w + 10] == 'u');
            assert(full[w + 11] == 'l');
            assert(full[w + 12] == 'l');
            assert(null_at(full, w + 9));
            assert(member_at(full, w + 1) == Some((("track"@, None::<Seq<char>>), w + 13)));
            let p2 = w + 13;
            assert(full[p2] == '}');
            assert(ws_end(full, p2) == p2);
            assert(ws_end(full, p2 + 1) == full.len());
            assert(two_fields("action"@, Some(a), "track"@, None::<Seq<char>>) == Some((a, None::<Seq<char>>)));
            assert(request_of(full) == Some((a, t)));
        },
    }
}

} // verus!
