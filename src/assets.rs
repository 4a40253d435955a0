use vstd::prelude::*;
use vstd::string::StringSliceAdditionalSpecFns;

verus! {

/// The byte of `/`.
pub const SLASH: u8 = 47;

/// HTTP status of a served file (OK).
pub const STATUS_OK: u16 = 200;

/// HTTP status of a file that does not exist (Not Found).
pub const STATUS_NOT_FOUND: u16 = 404;

/// HTTP status of any other failure to read a file (Internal Server Error).
pub const STATUS_INTERNAL_ERROR: u16 = 500;

/// A requested path with one leading `/` removed, if it has one.
pub open spec fn strip_leading_slash(path: Seq<u8>) -> Seq<u8> {
    if path.len() > 0 && path[0] == SLASH {
        path.drop_first()
    } else {
        path
    }
}

/// The path of a static file relative to the static root: the URL suffix
/// with a single leading `/` removed.
pub fn static_relative_path(path: &str) -> (r: Vec<u8>)
    ensures
        r@ == strip_leading_slash(path.spec_bytes()),
{
    let bytes = path.as_bytes();
    let n = bytes.len();
    let start: usize = if n > 0 && bytes[0] == SLASH { 1 } else { 0 };
    let mut out: Vec<u8> = Vec::new();
    let mut i: usize = start;
    while i < n
        invariant
            bytes@ == path.spec_bytes(),
            n == bytes@.len(),
            start <= i <= n,
            out@ == bytes@.subrange(start as int, i as int),
        decreases n - i,
    {
        out.push(bytes[i]);
        i = i + 1;
    }
    proof {
        assert(out@ =~= strip_leading_slash(path.spec_bytes()));
    }
    out
}

/// What reading a static file gave.
#[derive(Clone, Debug, PartialEq, Eq)]
pub enum ReadOutcome {
    /// The file was read whole.
    Found(Vec<u8>),
    /// No file exists at that path.
    NotFound,
    /// Any other failure (permission denied, I/O error, ...).
    Failed,
}

/// The answer of the static-file route: a status and a body.
#[derive(Clone, Debug, PartialEq, Eq)]
pub struct StaticReply {
    pub status: u16,
    pub body: Vec<u8>,
}

/// The status answered for a read outcome.
pub open spec fn reply_status(outcome: ReadOutcome) -> u16 {
    match outcome {
        ReadOutcome::Found(_) => STATUS_OK,
        ReadOutcome::NotFound => STATUS_NOT_FOUND,
        ReadOutcome::Failed => STATUS_INTERNAL_ERROR,
    }
}

/// The body answered for a read outcome: the file's bytes when it was read,
/// nothing otherwise.
pub open spec fn reply_body(outcome: ReadOutcome) -> Seq<u8> {
    match outcome {
        ReadOutcome::Found(bytes) => bytes@,
        _ => Seq::empty(),
    }
}

/// Turns the outcome of reading a static file into the route's answer:
/// 200 with the file's bytes, 404 with an empty body when the file does not
/// exist, 500 with an empty body on any other failure.
pub fn static_reply(outcome: ReadOutcome) -> (r: StaticReply)
    ensures
        r.status == reply_status(outcome),
        r.body@ == reply_body(outcome),
{
    match outcome {
        ReadOutcome::Found(bytes) => StaticReply { status: STATUS_OK, body: bytes },
        ReadOutcome::NotFound => StaticReply { status: STATUS_NOT_FOUND, body: Vec::new() },
        ReadOutcome::Failed => StaticReply { status: STATUS_INTERNAL_ERROR, body: Vec::new() },
    }
}

} // verus!
