use vstd::prelude::*;
use vstd::string::StrSliceExecFns;
use crate::dispatch::Request;
use crate::response::{Response, opt_text};
use crate::dispatch::invalid_json;

verus! {

/// The whitespace JSON allows between tokens.
pub open spec fn is_ws(c: char) -> bool {
    c == ' ' || c == '\n' || c == '\r' || c == '\t'
}

/// The first position at or after `i` that does not hold whitespace.
pub open spec fn ws_end(s: Seq<char>, i: int) -> int
    decreases s.len() - i,
{
    if 0 <= i < s.len() && is_ws(s[i]) {
        ws_end(s, i + 1)
    } else {
        i
    }
}

/// The character an escape letter stands for; the numeric form is not part of
/// this codec.
pub open spec fn esc_code(c: char) -> Option<char> {
    if c == '"' {
        Some('"')
    } else if c == '\\' {
        Some('\\')
    } else if c == '/' {
        Some('/')
    } else if c == 'n' {
        Some('\n')
    } else if c == 'r' {
        Some('\r')
    } else if c == 't' {
        Some('\t')
    } else if c == 'b' {
        Some('\u{0008}')
    } else if c == 'f' {
        Some('\u{000c}')
    } else {
        None
    }
}

/// The body of a JSON string literal starting at `i` (just past the opening
/// quote): its decoded characters and the position after the closing quote.
/// Unescaped control characters and unknown escapes are rejected.
pub open spec fn string_body(s: Seq<char>, i: int) -> Option<(Seq<char>, int)>
    decreases s.len() - i,
{
    if i < 0 || i >= s.len() {
        None
    } else if s[i] == '"' {
        Some((Seq::empty(), i + 1))
    } else if s[i] == '\\' {
        if i + 2 > s.len() {
            None
        } else {
            match esc_code(s[i + 1]) {
                None => None,
                Some(c) => match string_body(s, i + 2) {
                    None => None,
                    Some((rest, j)) => Some((seq![c] + rest, j)),
                },
            }
        }
    } else if (s[i] as u32) < 32 {
        None
    } else {
        match string_body(s, i + 1) {
            None => None,
            Some((rest, j)) => Some((seq![s[i]] + rest, j)),
        }
    }
}

/// The literal `null` stands at `i`.
pub open spec fn null_at(s: Seq<char>, i: int) -> bool {
    &&& i + 4 <= s.len()
    &&& 0 <= i
    &&& s[i] == 'n'
    &&& s[i + 1] == 'u'
    &&& s[i + 2] == 'l'
    &&& s[i + 3] == 'l'
}

/// One object member starting at `i`: its key, its value — a string, or
/// `None` for the literal `null` — and the position after the value.
pub open spec fn member_at(s: Seq<char>, i: int) -> Option<((Seq<char>, Option<Seq<char>>), int)> {
    if 0 <= i < s.len() && s[i] == '"' {
        match string_body(s, i + 1) {
            None => None,
            Some((key, j)) => {
                let k = ws_end(s, j);
                if k < s.len() && s[k] == ':' {
                    let v = ws_end(s, k + 1);
                    if v < s.len() && s[v] == '"' {
                        match string_body(s, v + 1) {
                            None => None,
                            Some((val, w)) => Some(((key, Some(val)), w)),
                        }
                    } else if null_at(s, v) {
                        Some(((key, None), v + 4))
                    } else {
                        None
                    }
                } else {
                    None
                }
            },
        }
    } else {
        None
    }
}

/// The request fields named by a single member: it must be `action` with a
/// string value.
pub open spec fn single_field(k: Seq<char>, v: Option<Seq<char>>) -> Option<(
    Seq<char>,
    Option<Seq<char>>,
)> {
    if k == "action"@ {
        match v {
            Some(a) => Some((a, None)),
            None => None,
        }
    } else {
        None
    }
}

/// The request fields named by two members: exactly one `action` with a
/// string value and one `track`, in either order; anything else — an unknown
/// or repeated key, a null action — is rejected.
pub open spec fn two_fields(
    k1: Seq<char>,
    v1: Option<Seq<char>>,
    k2: Seq<char>,
    v2: Option<Seq<char>>,
) -> Option<(Seq<char>, Option<Seq<char>>)> {
    if k1 == "action"@ && k2 == "track"@ {
        match v1 {
            Some(a) => Some((a, v2)),
            None => None,
        }
    } else if k1 == "track"@ && k2 == "action"@ {
        match v2 {
            Some(a) => Some((a, v1)),
            None => None,
        }
    } else {
        None
    }
}

/// The request denoted by the payload `s`, if it is one JSON object holding
/// an `action` string and at most one `track` member (a string or `null`),
/// and nothing else.
pub open spec fn request_of(s: Seq<char>) -> Option<(Seq<char>, Option<Seq<char>>)> {
    let i = ws_end(s, 0);
    if !(i < s.len() && s[i] == '{') {
        None
    } else {
        match member_at(s, ws_end(s, i + 1)) {
            None => None,
            Some(((k1, v1), p)) => {
                let q = ws_end(s, p);
                if q < s.len() && s[q] == ',' {
                    match member_at(s, ws_end(s, q + 1)) {
                        None => None,
                        Some(((k2, v2), p2)) => {
                            let q2 = ws_end(s, p2);
                            if q2 < s.len() && s[q2] == '}' && ws_end(s, q2 + 1) == s.len() {
                                two_fields(k1, v1, k2, v2)
                            } else {
                                None
                            }
                        },
                    }
                } else if q < s.len() && s[q] == '}' && ws_end(s, q + 1) == s.len() {
                    single_field(k1, v1)
                } else {
                    None
                }
            },
        }
    }
}

/// The view of an optional character vector.
pub open spec fn opt_chars(o: Option<Vec<char>>) -> Option<Seq<char>> {
    match o {
        Some(v) => Some(v@),
        None => None,
    }
}

/// Relies on `String`'s `FromIterator` over characters: the collected string
/// holds exactly the characters of `v`, in order.
#[verifier::external_body]
fn string_from_chars(v: &Vec<char>) -> (r: String)
    ensures
        r@ == v@,
{
    v.iter().collect()
}

fn ws_end_exec(s: &str, i: usize) -> (j: usize)
    requires
        i <= s@.len(),
    ensures
        j as int == ws_end(s@, i as int),
        i <= j <= s@.len(),
    decreases s@.len() - i,
{
    let n = s.unicode_len();
    if i < n {
        let c = s.get_char(i);
        if c == ' ' || c == '\n' || c == '\r' || c == '\t' {
            return ws_end_exec(s, i + 1);
        }
    }
    i
}

fn esc_code_exec(c: char) -> (r: Option<char>)
    ensures
        r == esc_code(c),
{
    if c == '"' {
        Some('"')
    } else if c == '\\' {
        Some('\\')
    } else if c == '/' {
        Some('/')
    } else if c == 'n' {
        Some('\n')
    } else if c == 'r' {
        Some('\r')
    } else if c == 't' {
        Some('\t')
    } else if c == 'b' {
        Some('\u{0008}')
    } else if c == 'f' {
        Some('\u{000c}')
    } else {
        None
    }
}

fn string_body_exec(s: &str, i: usize) -> (r: Option<(Vec<char>, usize)>)
    requires
        i <= s@.len(),
    ensures
        match r {
            None => string_body(s@, i as int) is None,
            Some(p) => {
                &&& string_body(s@, i as int) == Some((p.0@, p.1 as int))
                &&& i < p.1 <= s@.len()
            },
        },
    decreases s@.len() - i,
{
    let n = s.unicode_len();
    if i >= n {
        return None;
    }
    let c = s.get_char(i);
    if c == '"' {
        Some((Vec::new(), i + 1))
    } else if c == '\\' {
        if n - i < 2 {
            None
        } else {
            match esc_code_exec(s.get_char(i + 1)) {
                None => None,
                Some(c2) => match string_body_exec(s, i + 2) {
                    None => None,
                    Some((mut v, j)) => {
                        let ghost rest = v@;
                        v.insert(0, c2);
                        proof {
                            assert(v@ =~= seq![c2] + rest);
                        }
                        Some((v, j))
                    },
                },
            }
        }
    } else if (c as u32) < 32 {
        None
    } else {
        match string_body_exec(s, i + 1) {
            None => None,
            Some((mut v, j)) => {
                let ghost rest = v@;
                v.insert(0, c);
                proof {
                    assert(v@ =~= seq![c] + rest);
                }
                Some((v, j))
            },
        }
    }
}

fn member_exec(s: &str, i: usize) -> (r: Option<((Vec<char>, Option<Vec<char>>), usize)>)
    requires
        i <= s@.len(),
    ensures
        match r {
            None => member_at(s@, i as int) is None,
            Some(p) => {
                &&& member_at(s@, i as int) == Some(((p.0.0@, opt_chars(p.0.1)), p.1 as int))
                &&& i < p.1 <= s@.len()
            },
        },
{
    let n = s.unicode_len();
    if !(i < n && s.get_char(i) == '"') {
        return None;
    }
    match string_body_exec(s, i + 1) {
        None => None,
        Some((key, j)) => {
            let k = ws_end_exec(s, j);
            if k < n && s.get_char(k) == ':' {
                let v = ws_end_exec(s, k + 1);
                if v < n && s.get_char(v) == '"' {
                    match string_body_exec(s, v + 1) {
                        None => None,
                        Some((val, w)) => Some(((key, Some(val)), w)),
                    }
                } else if v < n && n - v >= 4 && s.get_char(v) == 'n' && s.get_char(v + 1) == 'u'
                    && s.get_char(v + 2) == 'l' && s.get_char(v + 3) == 'l' {
                    Some(((key, None), v + 4))
                } else {
                    None
                }
            } else {
                None
            }
        },
    }
}

/// Character-wise equality of a parsed vector and a string slice.
fn chars_eq_str(v: &Vec<char>, t: &str) -> (r: bool)
    ensures
        r == (v@ == t@),
{
    let n = t.unicode_len();
    if v.len() != n {
        return false;
    }
    let mut i: usize = 0;
    while i < n
        invariant
            i <= n,
            n == t@.len(),
            n == v@.len(),
            forall|j: int| 0 <= j < i ==> v@[j] == t@[j],
        decreases n - i,
    {
        if v[i] != t.get_char(i) {
            return false;
        }
        i = i + 1;
    }
    proof {
        assert(v@ =~= t@);
    }
    true
}

fn build_single(k: Vec<char>, v: Option<Vec<char>>) -> (r: Option<Request>)
    ensures
        match r {
            None => single_field(k@, opt_chars(v)) is None,
            Some(req) => {
                &&& single_field(k@, opt_chars(v)) == Some((req.action@, opt_text(req.track)))
                &&& req.track is None
            },
        },
{
    if chars_eq_str(&k, "action") {
        match v {
            Some(av) => Some(Request { action: string_from_chars(&av), track: None }),
            None => None,
        }
    } else {
        None
    }
}

fn build_two(k1: Vec<char>, v1: Option<Vec<char>>, k2: Vec<char>, v2: Option<Vec<char>>) -> (r:
    Option<Request>)
    ensures
        match r {
            None => two_fields(k1@, opt_chars(v1), k2@, opt_chars(v2)) is None,
            Some(req) => two_fields(k1@, opt_chars(v1), k2@, opt_chars(v2)) == Some(
                (req.action@, opt_text(req.track)),
            ),
        },
{
    if chars_eq_str(&k1, "action") && chars_eq_str(&k2, "track") {
        match v1 {
            Some(av) => Some(
                Request {
                    action: string_from_chars(&av),
                    track: match v2 {
                        Some(tv) => Some(string_from_chars(&tv)),
                        None => None,
                    },
                },
            ),
            None => None,
        }
    } else if chars_eq_str(&k1, "track") && chars_eq_str(&k2, "action") {
        match v2 {
            Some(av) => Some(
                Request {
                    action: string_from_chars(&av),
                    track: match v1 {
                        Some(tv) => Some(string_from_chars(&tv)),
                        None => None,
                    },
                },
            ),
            None => None,
        }
    } else {
        None
    }
}

/// Decode one payload into a request, exactly when `request_of` accepts it.
pub fn parse_request(s: &str) -> (r: Option<Request>)
    ensures
        match r {
            None => request_of(s@) is None,
            Some(req) => request_of(s@) == Some((req.action@, opt_text(req.track))),
        },
{
    let n = s.unicode_len();
    let i = ws_end_exec(s, 0);
    if !(i < n && s.get_char(i) == '{') {
        return None;
    }
    let j = ws_end_exec(s, i + 1);
    match member_exec(s, j) {
        None => None,
        Some(((k1, v1), p)) => {
            let q = ws_end_exec(s, p);
            if q < n && s.get_char(q) == ',' {
                let j2 = ws_end_exec(s, q + 1);
                match member_exec(s, j2) {
                    None => None,
                    Some(((k2, v2), p2)) => {
                        let q2 = ws_end_exec(s, p2);
                        if q2 < n && s.get_char(q2) == '}' && ws_end_exec(s, q2 + 1) == n {
                            build_two(k1, v1, k2, v2)
                        } else {
                            None
                        }
                    },
                }
            } else if q < n && s.get_char(q) == '}' && ws_end_exec(s, q + 1) == n {
                build_single(k1, v1)
            } else {
                None
            }
        },
    }
}

/// The fixed rejection for a payload that `request_of` does not accept.
pub fn malformed_request() -> (r: Response)
    ensures
        !r.status,
        r.message@ == "Invalid JSON: malformed request payload"@,
        r.track is None,
        r.queue_length is None,
{
    let r = invalid_json("malformed request payload".to_owned());
    proof {
        reveal_strlit("Invalid JSON: ");
        reveal_strlit("malformed request payload");
        reveal_strlit("Invalid JSON: malformed request payload");
        assert(r.message@ =~= "Invalid JSON: malformed request payload"@);
    }
    r
}

} // verus!
