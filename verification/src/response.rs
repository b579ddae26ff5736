use vstd::prelude::*;

verus! {

/// What the daemon sends back to a client: an outcome flag, a human-readable
/// message, and, for a `current` report, the front track and the queue depth.
#[derive(Debug, Clone)]
pub struct Response {
    pub status: bool,
    pub message: String,
    pub track: Option<String>,
    pub queue_length: Option<usize>,
}

/// The text carried by an optional string field, for contracts.
pub open spec fn opt_text(o: Option<String>) -> Option<Seq<char>> {
    match o {
        Some(s) => Some(s@),
        None => None,
    }
}

/// The number carried by an optional length field, for contracts.
pub open spec fn opt_len(o: Option<usize>) -> Option<int> {
    match o {
        Some(n) => Some(n as int),
        None => None,
    }
}

impl Response {
    /// A failing outcome that carries only a message.
    pub fn failure(message: String) -> (r: Response)
        ensures
            !r.status,
            r.message@ == message@,
            r.track is None,
            r.queue_length is None,
    {
        Response { status: false, message, track: None, queue_length: None }
    }

    /// A successful outcome that carries only a message.
    pub fn success(message: String) -> (r: Response)
        ensures
            r.status,
            r.message@ == message@,
            r.track is None,
            r.queue_length is None,
    {
        Response { status: true, message, track: None, queue_length: None }
    }
}

} // verus!
