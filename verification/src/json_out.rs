use vstd::prelude::*;
use vstd::string::StrSliceExecFns;
use vstd::string::StringExecFns;
use crate::response::Response;
use crate::dispatch::Request;
use crate::strutil::{push_char, hex_char, hex_exec, dec_of, usize_to_dec};

verus! {

/// How one character appears inside a JSON string literal: quotes and
/// backslashes escaped, the common control characters by letter, every other
/// control character numerically, everything else as itself.
pub open spec fn esc_char(c: char) -> Seq<char> {
    if c == '"' {
        seq!['\\', '"']
    } else if c == '\\' {
        seq!['\\', '\\']
    } else if c == '\n' {
        seq!['\\', 'n']
    } else if c == '\r' {
        seq!['\\', 'r']
    } else if c == '\t' {
        seq!['\\', 't']
    } else if (c as u32) < 32 {
        seq!['\\', 'u', '0', '0', hex_char((c as u32) as int / 16), hex_char((c as u32) as int % 16)]
    } else {
        seq![c]
    }
}

/// `s` with every character escaped as a JSON string literal demands.
pub open spec fn esc_text(s: Seq<char>) -> Seq<char>
    decreases s.len(),
{
    if s.len() == 0 {
        Seq::empty()
    } else {
        esc_text(s.drop_last()) + esc_char(s.last())
    }
}

/// A character that JSON string literals carry as itself: not a quote, not a
/// backslash, not a control character.
pub open spec fn plain_char(c: char) -> bool {
    c != '"' && c != '\\' && (c as u32) >= 32
}

/// `esc_text` also unrolls from the front.
pub proof fn lemma_esc_front(s: Seq<char>)
    requires
        s.len() > 0,
    ensures
        esc_text(s) == esc_char(s[0]) + esc_text(s.drop_first()),
    decreases s.len(),
{
    if s.len() == 1 {
        assert(s.drop_last() =~= Seq::<char>::empty());
        assert(s.drop_first() =~= Seq::<char>::empty());
        assert(esc_text(s) =~= esc_char(s[0]) + esc_text(s.drop_first()));
    } else {
        let d = s.drop_last();
        lemma_esc_front(d);
        assert(d[0] == s[0]);
        assert(d.drop_first() =~= s.drop_first().drop_last());
        assert(s.drop_first().last() == s.last());
        assert(esc_text(s) =~= esc_char(s[0]) + esc_text(s.drop_first()));
    }
}

/// Escaping leaves text without quotes, backslashes and controls unchanged.
pub proof fn lemma_esc_plain(s: Seq<char>)
    requires
        forall|i: int| 0 <= i < s.len() ==> plain_char(s[i]),
    ensures
        esc_text(s) == s,
    decreases s.len(),
{
    if s.len() == 0 {
        assert(esc_text(s) =~= s);
    } else {
        lemma_esc_plain(s.drop_last());
        assert(plain_char(s.last()));
        assert(esc_char(s.last()) =~= seq![s.last()]);
        assert(esc_text(s) =~= s);
    }
}

/// The JSON spelling of a boolean.
pub open spec fn bool_text(b: bool) -> Seq<char> {
    if b {
        "true"@
    } else {
        "false"@
    }
}

/// The wire text of a response: one JSON object holding `status` and
/// `message` always, `track` and `queue_length` only when the response
/// carries them.
pub open spec fn response_json(r: Response) -> Seq<char> {
    "{\"status\":"@ + bool_text(r.status) + ",\"message\":\""@ + esc_text(r.message@) + "\""@ + (
    match r.track {
        Some(t) => ",\"track\":\""@ + esc_text(t@) + "\""@,
        None => Seq::<char>::empty(),
    }) + (match r.queue_length {
        Some(n) => ",\"queue_length\":"@ + dec_of(n as int),
        None => Seq::<char>::empty(),
    }) + "}"@
}

/// Append one character of a string literal, escaped.
fn append_escaped_char(out: &mut String, c: char)
    ensures
        final(out)@ == old(out)@ + esc_char(c),
{
    if c == '"' {
        out.append("\\\"");
        proof {
            reveal_strlit("\\\"");
            assert(old(out)@ + "\\\""@ =~= old(out)@ + esc_char(c));
        }
    } else if c == '\\' {
        out.append("\\\\");
        proof {
            reveal_strlit("\\\\");
            assert(old(out)@ + "\\\\"@ =~= old(out)@ + esc_char(c));
        }
    } else if c == '\n' {
        out.append("\\n");
        proof {
            reveal_strlit("\\n");
            assert(old(out)@ + "\\n"@ =~= old(out)@ + esc_char(c));
        }
    } else if c == '\r' {
        out.append("\\r");
        proof {
            reveal_strlit("\\r");
            assert(old(out)@ + "\\r"@ =~= old(out)@ + esc_char(c));
        }
    } else if c == '\t' {
        out.append("\\t");
        proof {
            reveal_strlit("\\t");
            assert(old(out)@ + "\\t"@ =~= old(out)@ + esc_char(c));
        }
    } else if (c as u32) < 32 {
        out.append("\\u00");
        let v = c as u32;
        push_char(out, hex_exec((v / 16) as usize));
        push_char(out, hex_exec((v % 16) as usize));
        proof {
            reveal_strlit("\\u00");
            assert(old(out)@ + "\\u00"@.push(hex_char(v as int / 16)).push(
                hex_char(v as int % 16),
            ) =~= old(out)@ + esc_char(c));
        }
    } else {
        push_char(out, c);
        proof {
            assert(old(out)@.push(c) =~= old(out)@ + esc_char(c));
        }
    }
}

/// Append `s`, escaped as a JSON string literal, to `out`.
fn escape_into(out: &mut String, s: &str)
    ensures
        final(out)@ == old(out)@ + esc_text(s@),
{
    let n = s.unicode_len();
    let ghost init = out@;
    proof {
        assert(init + esc_text(s@.take(0)) =~= init);
    }
    let mut i: usize = 0;
    while i < n
        invariant
            i <= n,
            n == s@.len(),
            out@ == init + esc_text(s@.take(i as int)),
        decreases n - i,
    {
        let c = s.get_char(i);
        append_escaped_char(out, c);
        proof {
            assert(s@.take(i + 1 as int).drop_last() =~= s@.take(i as int));
            assert(s@.take(i + 1 as int).last() == c);
            assert(init + esc_text(s@.take(i as int)) + esc_char(c) =~= init + esc_text(
                s@.take(i + 1 as int),
            ));
        }
        i = i + 1;
    }
    proof {
        assert(s@.take(n as int) =~= s@);
    }
}

/// The wire text of a request, as the client sends it: the action first, the
/// track as a string or as `null`.
pub open spec fn request_json(action: Seq<char>, track: Option<Seq<char>>) -> Seq<char> {
    "{\"action\":\""@ + esc_text(action) + "\""@ + (match track {
        Some(t) => ",\"track\":\""@ + esc_text(t) + "\""@,
        None => ",\"track\":null"@,
    }) + "}"@
}

/// Render `req` as the exact JSON text the client writes to the socket.
pub fn encode_request(req: &Request) -> (out: String)
    ensures
        out@ == request_json(req.action@, crate::response::opt_text(req.track)),
{
    let mut out = "{\"action\":\"".to_owned();
    escape_into(&mut out, req.action.as_str());
    out.append("\"");
    match &req.track {
        Some(t) => {
            out.append(",\"track\":\"");
            escape_into(&mut out, t.as_str());
            out.append("\"");
        },
        None => {
            out.append(",\"track\":null");
        },
    }
    out.append("}");
    proof {
        assert(out@ =~= request_json(req.action@, crate::response::opt_text(req.track)));
    }
    out
}

/// Render `r` as the exact JSON text the wire carries.
pub fn encode_response(r: &Response) -> (out: String)
    ensures
        out@ == response_json(*r),
{
    let mut out = "{\"status\":".to_owned();
    if r.status {
        out.append("true");
    } else {
        out.append("false");
    }
    out.append(",\"message\":\"");
    escape_into(&mut out, r.message.as_str());
    out.append("\"");
    match &r.track {
        Some(t) => {
            out.append(",\"track\":\"");
            escape_into(&mut out, t.as_str());
            out.append("\"");
        },
        None => {},
    }
    match &r.queue_length {
        Some(n) => {
            out.append(",\"queue_length\":");
            let d = usize_to_dec(*n);
            out.append(d.as_str());
        },
        None => {},
    }
    out.append("}");
    proof {
        assert(out@ =~= response_json(*r));
    }
    out
}

} // verus!
