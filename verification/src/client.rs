//! The decisions and values of the HTTP layer that do not touch the wire:
//! error classification, request paths and headers, and the plan for
//! making sure an index exists. The transport itself lives outside the
//! library and hands plain values in and out.

use vstd::prelude::*;
use crate::index::Index;

verus! {

/// Everything a request can fail with.
#[derive(Debug, PartialEq)]
pub enum Error {
    /// The transport failed before a response arrived; carries the
    /// transport's own message.
    Transport(String),
    /// The server answered with a non-success status.
    UnexpectedNok { code: u16, body: Option<String> },
    /// The response body could not be decoded; carries the decoder's
    /// message and the body it choked on.
    Deserialize { err: String, body: String },
    /// A wait for a task notification ran out of time.
    HookTimeout,
}

impl Error {
    /// Whether this is the server saying the resource does not exist.
    pub open spec fn spec_is_not_found(self) -> bool {
        self matches Error::UnexpectedNok { code, .. } && code == 404
    }

    /// Whether this is the server saying the resource does not exist.
    pub fn is_not_found(&self) -> (r: bool)
        ensures
            r == self.spec_is_not_found(),
    {
        match self {
            Error::UnexpectedNok { code, .. } => *code == 404,
            _ => false,
        }
    }
}

/// Whether a status code counts as success.
pub fn is_success_code(code: u16) -> (r: bool)
    ensures
        r == (200 <= code < 300),
{
    200 <= code && code < 300
}

/// The error for a non-success response: the status code, and the body
/// only when there was one.
pub fn nok_error(code: u16, body: String) -> (e: Error)
    ensures
        body@.len() == 0 ==> e == (Error::UnexpectedNok { code, body: None }),
        body@.len() > 0 ==> e == (Error::UnexpectedNok { code, body: Some(body) }),
{
    if body.as_str().is_empty() {
        Error::UnexpectedNok { code, body: None }
    } else {
        Error::UnexpectedNok { code, body: Some(body) }
    }
}

/// Turns a decoding outcome into the library's result: a decoded value is
/// passed through, a decoder message is wrapped together with the body it
/// failed on.
pub fn decode_result<T>(parsed: Result<T, String>, body: String) -> (r: Result<T, Error>)
    ensures
        match parsed {
            Ok(v) => r == Ok::<T, Error>(v),
            Err(msg) => r == Err::<T, Error>(Error::Deserialize { err: msg, body }),
        },
{
    match parsed {
        Ok(v) => Ok(v),
        Err(msg) => Err(Error::Deserialize { err: msg, body }),
    }
}

/// What to do after looking an index up: leave it alone, create it, or
/// give up with the lookup's error.
#[derive(Debug, PartialEq)]
pub enum IndexPlan {
    AlreadyExists,
    CreateNeeded,
    Fail(Error),
}

/// Decides what making sure an index exists requires, from the outcome of
/// looking it up: nothing if it is there, creation if the server does not
/// know it, giving up on any other error.
pub fn ensure_index_step(lookup: Result<Index, Error>) -> (p: IndexPlan)
    ensures
        match lookup {
            Ok(_) => p == IndexPlan::AlreadyExists,
            Err(e) => if e.spec_is_not_found() {
                p == IndexPlan::CreateNeeded
            } else {
                p == IndexPlan::Fail(e)
            },
        },
{
    match lookup {
        Ok(_) => IndexPlan::AlreadyExists,
        Err(e) => if e.is_not_found() {
            IndexPlan::CreateNeeded
        } else {
            IndexPlan::Fail(e)
        },
    }
}

/// `s` without its trailing slashes.
pub open spec fn trim_trailing_slashes(s: Seq<char>) -> Seq<char>
    decreases s.len(),
{
    if s.len() > 0 && s.last() == '/' {
        trim_trailing_slashes(s.drop_last())
    } else {
        s
    }
}

/// `s` without its leading slashes.
pub open spec fn trim_leading_slashes(s: Seq<char>) -> Seq<char>
    decreases s.len(),
{
    if s.len() > 0 && s.first() == '/' {
        trim_leading_slashes(s.drop_first())
    } else {
        s
    }
}

/// The URL for a request: the base with its trailing slashes dropped, one
/// slash, and the path with its leading slashes dropped, so that a sloppy
/// base or path still yields exactly one separator.
pub fn join_url(base: &str, path: &str) -> (r: String)
    ensures
        r@ == trim_trailing_slashes(base@) + seq!['/'] + trim_leading_slashes(path@),
{
    let n = base.unicode_len();
    let mut e = n;
    proof {
        assert(base@.subrange(0, n as int) =~= base@);
    }
    while e > 0 && base.get_char(e - 1) == '/'
        invariant
            e <= n == base@.len(),
            trim_trailing_slashes(base@) == trim_trailing_slashes(
                base@.subrange(0, e as int),
            ),
        decreases e,
    {
        proof {
            assert(base@.subrange(0, e as int).drop_last() =~= base@.subrange(0, e - 1));
            assert(base@.subrange(0, e as int).last() == '/');
        }
        e -= 1;
    }
    proof {
        if e > 0 {
            assert(base@.subrange(0, e as int).last() == base@[e - 1]);
        }
        assert(trim_trailing_slashes(base@) == base@.subrange(0, e as int));
    }
    let stem = base.substring_char(0, e);

    let m = path.unicode_len();
    let mut b: usize = 0;
    proof {
        assert(path@.subrange(0, m as int) =~= path@);
    }
    while b < m && path.get_char(b) == '/'
        invariant
            b <= m == path@.len(),
            trim_leading_slashes(path@) == trim_leading_slashes(
                path@.subrange(b as int, m as int),
            ),
        decreases m - b,
    {
        proof {
            assert(path@.subrange(b as int, m as int).drop_first() =~= path@.subrange(
                b + 1,
                m as int,
            ));
            assert(path@.subrange(b as int, m as int).first() == '/');
        }
        b += 1;
    }
    proof {
        if b < m {
            assert(path@.subrange(b as int, m as int).first() == path@[b as int]);
        }
        assert(trim_leading_slashes(path@) == path@.subrange(b as int, m as int));
    }
    let tail = path.substring_char(b, m);

    let mut s = String::from_str(stem);
    s.append("/");
    s.append(tail);
    proof {
        reveal_strlit("/");
        assert("/"@ =~= seq!['/']);
    }
    s
}

/// The decimal digits of `n`, most significant first.
pub open spec fn dec_str(n: nat) -> Seq<char>
    decreases n,
{
    if n < 10 {
        seq![digit_char(n)]
    } else {
        dec_str(n / 10).push(digit_char(n % 10))
    }
}

/// The character for one decimal digit.
pub open spec fn digit_char(d: nat) -> char {
    if d == 0 {
        '0'
    } else if d == 1 {
        '1'
    } else if d == 2 {
        '2'
    } else if d == 3 {
        '3'
    } else if d == 4 {
        '4'
    } else if d == 5 {
        '5'
    } else if d == 6 {
        '6'
    } else if d == 7 {
        '7'
    } else if d == 8 {
        '8'
    } else {
        '9'
    }
}

fn digit_str(d: u64) -> (r: &'static str)
    requires
        d < 10,
    ensures
        r@ == seq![digit_char(d as nat)],
{
    let r = match d {
        0 => "0",
        1 => "1",
        2 => "2",
        3 => "3",
        4 => "4",
        5 => "5",
        6 => "6",
        7 => "7",
        8 => "8",
        _ => "9",
    };
    proof {
        reveal_strlit("0");
        reveal_strlit("1");
        reveal_strlit("2");
        reveal_strlit("3");
        reveal_strlit("4");
        reveal_strlit("5");
        reveal_strlit("6");
        reveal_strlit("7");
        reveal_strlit("8");
        reveal_strlit("9");
        assert(r@ =~= seq![digit_char(d as nat)]);
    }
    r
}

/// `n` written in decimal.
pub fn u64_to_dec(n: u64) -> (r: String)
    ensures
        r@ == dec_str(n as nat),
    decreases n,
{
    if n < 10 {
        String::from_str(digit_str(n))
    } else {
        let mut s = u64_to_dec(n / 10);
        s.append(digit_str(n % 10));
        proof {
            assert(s@ =~= dec_str((n / 10) as nat).push(digit_char((n % 10) as nat)));
        }
        s
    }
}

/// The path of one task.
pub fn tasks_path(task_uid: u64) -> (r: String)
    ensures
        r@ == "/tasks/"@ + dec_str(task_uid as nat),
{
    let mut s = String::from_str("/tasks/");
    s.append(u64_to_dec(task_uid).as_str());
    s
}

/// The authorization header for a bearer token.
pub fn bearer_header(token: &str) -> (r: String)
    ensures
        r@ == "Bearer "@ + token@,
{
    let mut s = String::from_str("Bearer ");
    s.append(token);
    s
}

/// The path of one index.
pub fn index_path(index_uid: &str) -> (r: String)
    ensures
        r@ == "/indexes/"@ + index_uid@,
{
    let mut s = String::from_str("/indexes/");
    s.append(index_uid);
    s
}

/// The path of an index's documents.
pub fn documents_path(index_uid: &str) -> (r: String)
    ensures
        r@ == "/indexes/"@ + index_uid@ + "/documents"@,
{
    let mut s = index_path(index_uid);
    s.append("/documents");
    s
}

/// The path of one document of an index.
pub fn document_path(index_uid: &str, document_uid: &str) -> (r: String)
    ensures
        r@ == "/indexes/"@ + index_uid@ + "/documents/"@ + document_uid@,
{
    let mut s = index_path(index_uid);
    s.append("/documents/");
    s.append(document_uid);
    s
}

/// The path for deleting a batch of an index's documents.
pub fn delete_batch_path(index_uid: &str) -> (r: String)
    ensures
        r@ == "/indexes/"@ + index_uid@ + "/documents/delete-batch"@,
{
    let mut s = index_path(index_uid);
    s.append("/documents/delete-batch");
    s
}

/// The path for searching an index.
pub fn search_path(index_uid: &str) -> (r: String)
    ensures
        r@ == "/indexes/"@ + index_uid@ + "/search"@,
{
    let mut s = index_path(index_uid);
    s.append("/search");
    s
}

/// The path of an index's settings.
pub fn settings_path(index_uid: &str) -> (r: String)
    ensures
        r@ == "/indexes/"@ + index_uid@ + "/settings"@,
{
    let mut s = index_path(index_uid);
    s.append("/settings");
    s
}

} // verus!
