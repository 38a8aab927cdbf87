//! The request side of the wire codec: status line, headers, and body,
//! parsed from the raw bytes of one connection.
//!
//! The grammar is stated once as spec functions over `Seq<u8>`; the
//! executable parser is proved to compute exactly what they define.
use vstd::prelude::*;

use crate::headers::{Headers, HeaderModel, lookup};
use crate::http::{HttpMethod, spec_parse_method};
use crate::text::{
    find_byte_from, find_crlf_from, lemma_find_byte_from, lemma_find_crlf_from, find_byte,
    find_crlf, copy_range, spec_trim, trim, spec_parse_u64, parse_u64,
};
use crate::tokens::{spec_content_length_key, content_length_key};

verus! {

/// Why a request failed to parse: the stage at which the bytes were
/// malformed. The connection is dropped without a response.
#[derive(Clone, Copy, Debug, PartialEq, Eq, Structural)]
pub enum ParseError {
    /// No CRLF-terminated status line, or no target token after the
    /// method token.
    StatusLine,
    /// The header block is not terminated by an empty line, or a
    /// header line has no colon.
    Headers,
    /// A `Content-Length` header is present but not a plain decimal
    /// number that fits in a `u64`.
    Body,
}

/// A request target split on the first `?` into path and query.
#[derive(Clone, Debug)]
pub struct Path {
    pub path: Vec<u8>,
    pub query: Vec<u8>,
}

/// The mathematical image of a `Path`.
pub ghost struct PathModel {
    pub path: Seq<u8>,
    pub query: Seq<u8>,
}

impl View for Path {
    type V = PathModel;

    open spec fn view(&self) -> PathModel {
        PathModel { path: self.path@, query: self.query@ }
    }
}

/// The target split on the first `?`: everything before it is the
/// path, everything after it the query (empty when there is no `?`).
pub open spec fn spec_path_build(target: Seq<u8>) -> PathModel {
    match find_byte_from(target, 0, '?' as u8) {
        None => PathModel { path: target, query: Seq::empty() },
        Some(i) => PathModel {
            path: target.subrange(0, i),
            query: target.subrange(i + 1, target.len() as int),
        },
    }
}

impl Path {
    /// Split a target on the first `?` into path and query.
    pub fn build(target: Vec<u8>) -> (p: Path)
        ensures
            p@ == spec_path_build(target@),
    {
        proof {
            lemma_find_byte_from(target@, 0, '?' as u8);
        }
        match find_byte(&target, 0, '?' as u8) {
            None => Path { path: target, query: Vec::new() },
            Some(i) => {
                let path = copy_range(&target, 0, i);
                let query = copy_range(&target, i + 1, target.len());
                Path { path, query }
            },
        }
    }
}

/// A parsed request: method, split target, header mapping, raw body.
#[derive(Clone, Debug)]
pub struct Request {
    pub method: HttpMethod,
    pub path: Path,
    pub headers: Headers,
    pub body: Vec<u8>,
}

/// The mathematical image of a `Request`.
pub ghost struct ReqModel {
    pub method: HttpMethod,
    pub path: PathModel,
    pub headers: Seq<HeaderModel>,
    pub body: Seq<u8>,
}

impl View for Request {
    type V = ReqModel;

    open spec fn view(&self) -> ReqModel {
        ReqModel {
            method: self.method,
            path: self.path@,
            headers: self.headers@,
            body: self.body@,
        }
    }
}

/// The status line split on single spaces: the first token is the
/// method, the second the target. `None` when there is no second
/// token.
pub open spec fn spec_parse_status(line: Seq<u8>) -> Option<(HttpMethod, PathModel)> {
    match find_byte_from(line, 0, ' ' as u8) {
        None => None,
        Some(i) => {
            let method = spec_parse_method(line.subrange(0, i));
            let rest = line.subrange(i + 1, line.len() as int);
            let target = match find_byte_from(rest, 0, ' ' as u8) {
                None => rest,
                Some(j) => rest.subrange(0, j),
            };
            Some((method, spec_path_build(target)))
        },
    }
}

/// The header block read line by line from `pos`: each line up to a
/// CRLF must hold a colon; name and value are trimmed and recorded in
/// order. Stops at an empty line and yields the entries together with
/// the index just past it; `None` when a line has no colon or the
/// block never ends.
pub open spec fn spec_parse_headers_at(data: Seq<u8>, pos: int, acc: Seq<HeaderModel>) -> Option<
    (Seq<HeaderModel>, int),
>
    decreases data.len() - pos,
        when 0 <= pos <= data.len()
        via spec_parse_headers_at_dec
{
    match find_crlf_from(data, pos) {
        None => None,
        Some(j) => {
            if j == pos {
                Some((acc, pos + 2))
            } else {
                let line = data.subrange(pos, j);
                match find_byte_from(line, 0, ':' as u8) {
                    None => None,
                    Some(c) => spec_parse_headers_at(
                        data,
                        j + 2,
                        acc.push(
                            HeaderModel {
                                name: spec_trim(line.subrange(0, c)),
                                value: spec_trim(line.subrange(c + 1, line.len() as int)),
                            },
                        ),
                    ),
                }
            }
        },
    }
}

#[via_fn]
proof fn spec_parse_headers_at_dec(data: Seq<u8>, pos: int, acc: Seq<HeaderModel>) {
    if 0 <= pos <= data.len() {
        lemma_find_crlf_from(data, pos);
    }
}

/// The body the codec keeps: `n` bytes from `body_start` when that
/// many were supplied; an empty body on a short read (documented lossy
/// behavior) and when `n` is zero.
pub open spec fn spec_body(data: Seq<u8>, body_start: int, n: u64) -> Seq<u8> {
    if n == 0 {
        Seq::empty()
    } else if body_start + n <= data.len() {
        data.subrange(body_start, body_start + n)
    } else {
        Seq::empty()
    }
}

/// The body step: no `Content-Length` means no body; a present one
/// must be a plain decimal number, else the request is malformed.
pub open spec fn spec_parse_body(data: Seq<u8>, body_start: int, hs: Seq<HeaderModel>) -> Result<
    Seq<u8>,
    ParseError,
> {
    match lookup(hs, spec_content_length_key()) {
        None => Ok(Seq::empty()),
        Some(v) => match spec_parse_u64(v) {
            None => Err(ParseError::Body),
            Some(n) => Ok(spec_body(data, body_start, n)),
        },
    }
}

/// One whole request read from raw bytes: a CRLF-terminated status
/// line, a header block ended by an empty line, then the body that
/// `Content-Length` announces.
pub open spec fn spec_parse_request(data: Seq<u8>) -> Result<ReqModel, ParseError> {
    match find_crlf_from(data, 0) {
        None => Err(ParseError::StatusLine),
        Some(j) => match spec_parse_status(data.subrange(0, j)) {
            None => Err(ParseError::StatusLine),
            Some(mp) => match spec_parse_headers_at(data, j + 2, Seq::empty()) {
                None => Err(ParseError::Headers),
                Some(hb) => match spec_parse_body(data, hb.1, hb.0) {
                    Err(e) => Err(e),
                    Ok(body) => Ok(
                        ReqModel { method: mp.0, path: mp.1, headers: hb.0, body },
                    ),
                },
            },
        },
    }
}

impl Request {
    /// Parse one request from the raw bytes of a connection. Returns
    /// exactly what the spec grammar defines: `Ok` with the structured
    /// request, or the error of the stage where the bytes are
    /// malformed.
    pub fn parse(data: &Vec<u8>) -> (r: Result<Request, ParseError>)
        ensures
            match r {
                Ok(req) => spec_parse_request(data@) == Ok::<ReqModel, ParseError>(req@),
                Err(e) => spec_parse_request(data@) == Err::<ReqModel, ParseError>(e),
            },
    {
        // Binding the length teaches the verifier it fits in usize,
        // which the offset arithmetic below needs.
        let _dlen = data.len();
        let j = match find_crlf(data, 0) {
            None => {
                return Err(ParseError::StatusLine);
            },
            Some(j) => j,
        };
        proof {
            lemma_find_crlf_from(data@, 0);
        }
        let line = copy_range(data, 0, j);
        let (method, path) = match Request::parse_status_line(&line) {
            Err(e) => {
                return Err(e);
            },
            Ok(mp) => mp,
        };
        let (headers, body_start) = match Request::parse_headers(data, j + 2) {
            Err(e) => {
                return Err(e);
            },
            Ok(hp) => hp,
        };
        let body = match Request::parse_body(data, body_start, &headers) {
            Err(e) => {
                return Err(e);
            },
            Ok(b) => b,
        };
        let req = Request { method, path, headers, body };
        Ok(req)
    }

    /// Split the status line into its method and its target; the
    /// target is split further into path and query.
    pub fn parse_status_line(line: &Vec<u8>) -> (r: Result<(HttpMethod, Path), ParseError>)
        ensures
            match r {
                Ok(mp) => spec_parse_status(line@) == Some((mp.0, mp.1@)),
                Err(e) => spec_parse_status(line@) is None && e == ParseError::StatusLine,
            },
    {
        proof {
            lemma_find_byte_from(line@, 0, ' ' as u8);
        }
        match find_byte(line, 0, ' ' as u8) {
            None => Err(ParseError::StatusLine),
            Some(i) => {
                let llen = line.len();
                let method_token = copy_range(line, 0, i);
                let method = HttpMethod::parse(&method_token);
                let rest = copy_range(line, i + 1, llen);
                proof {
                    lemma_find_byte_from(rest@, 0, ' ' as u8);
                }
                let target = match find_byte(&rest, 0, ' ' as u8) {
                    None => rest,
                    Some(k) => copy_range(&rest, 0, k),
                };
                Ok((method, Path::build(target)))
            },
        }
    }

    /// Read header lines until the empty line, recording each trimmed
    /// name/value pair in order. Returns the mapping and the index of
    /// the first body byte.
    pub fn parse_headers(data: &Vec<u8>, start: usize) -> (r: Result<(Headers, usize), ParseError>)
        requires
            start <= data@.len(),
        ensures
            match r {
                Ok(hp) => spec_parse_headers_at(data@, start as int, Seq::empty()) == Some(
                    (hp.0@, hp.1 as int),
                ) && start <= hp.1 <= data@.len(),
                Err(e) => spec_parse_headers_at(data@, start as int, Seq::empty()) is None && e
                    == ParseError::Headers,
            },
    {
        let dlen = data.len();
        let mut pos: usize = start;
        let mut hs = Headers::new();
        loop
            invariant
                start <= pos <= data@.len(),
                dlen == data@.len(),
                spec_parse_headers_at(data@, start as int, Seq::empty())
                    == spec_parse_headers_at(data@, pos as int, hs@),
            decreases data@.len() - pos,
        {
            let j = match find_crlf(data, pos) {
                None => {
                    return Err(ParseError::Headers);
                },
                Some(j) => j,
            };
            proof {
                lemma_find_crlf_from(data@, pos as int);
            }
            if j == pos {
                return Ok((hs, pos + 2));
            }
            let line = copy_range(data, pos, j);
            proof {
                lemma_find_byte_from(line@, 0, ':' as u8);
            }
            let c = match find_byte(&line, 0, ':' as u8) {
                None => {
                    return Err(ParseError::Headers);
                },
                Some(c) => c,
            };
            let name = clean_header_value(&copy_range(&line, 0, c));
            let value = clean_header_value(&copy_range(&line, c + 1, line.len()));
            hs.insert(name, value);
            pos = j + 2;
        }
    }

    /// Keep the body `Content-Length` announces: exactly that many
    /// bytes when supplied, the empty body when the header is absent
    /// or zero or the data ends short of it.
    pub fn parse_body(data: &Vec<u8>, body_start: usize, headers: &Headers) -> (r: Result<
        Vec<u8>,
        ParseError,
    >)
        requires
            body_start <= data@.len(),
        ensures
            match r {
                Ok(b) => spec_parse_body(data@, body_start as int, headers@) == Ok::<
                    Seq<u8>,
                    ParseError,
                >(b@),
                Err(e) => spec_parse_body(data@, body_start as int, headers@) == Err::<
                    Seq<u8>,
                    ParseError,
                >(e),
            },
    {
        let key = content_length_key();
        match headers.get(&key) {
            None => Ok(Vec::new()),
            Some(v) => match parse_u64(v) {
                None => Err(ParseError::Body),
                Some(n) => {
                    if n == 0 {
                        Ok(Vec::new())
                    } else {
                        let remaining = data.len() - body_start;
                        if n <= remaining as u64 {
                            let nn = n as usize;
                            Ok(copy_range(data, body_start, body_start + nn))
                        } else {
                            Ok(Vec::new())
                        }
                    }
                },
            },
        }
    }
}

/// Where the header block ends: the index just past the first empty
/// line at or after `pos`, if the block is terminated at all.
pub open spec fn spec_headers_end(data: Seq<u8>, pos: int) -> Option<int>
    decreases data.len() - pos,
        when 0 <= pos <= data.len()
        via spec_headers_end_dec
{
    match find_crlf_from(data, pos) {
        None => None,
        Some(j) => {
            if j == pos {
                Some(pos + 2)
            } else {
                spec_headers_end(data, j + 2)
            }
        },
    }
}

#[via_fn]
proof fn spec_headers_end_dec(data: Seq<u8>, pos: int) {
    if 0 <= pos <= data.len() {
        lemma_find_crlf_from(data, pos);
    }
}

/// Has a whole request arrived? True once the header block is
/// terminated and the body `Content-Length` announces is there — or
/// once the bytes are malformed, so that parsing can fail now; false
/// while waiting for more bytes could still complete the request.
pub open spec fn spec_request_complete(data: Seq<u8>) -> bool {
    match find_crlf_from(data, 0) {
        None => false,
        Some(j) => match spec_headers_end(data, j + 2) {
            None => false,
            Some(_end) => match spec_parse_headers_at(data, j + 2, Seq::empty()) {
                None => true,
                Some(hb) => match lookup(hb.0, spec_content_length_key()) {
                    None => true,
                    Some(v) => match spec_parse_u64(v) {
                        None => true,
                        Some(n) => hb.1 + n <= data.len(),
                    },
                },
            },
        },
    }
}

/// Find the end of the header block: the index just past the first
/// empty line.
fn headers_end(data: &Vec<u8>, start: usize) -> (r: Option<usize>)
    requires
        start <= data@.len(),
    ensures
        match r {
            Some(e) => spec_headers_end(data@, start as int) == Some(e as int) && e <= data@.len(),
            None => spec_headers_end(data@, start as int) is None,
        },
{
    let dlen = data.len();
    let mut pos: usize = start;
    loop
        invariant
            start <= pos <= data@.len(),
            dlen == data@.len(),
            spec_headers_end(data@, start as int) == spec_headers_end(data@, pos as int),
        decreases data@.len() - pos,
    {
        let j = match find_crlf(data, pos) {
            None => {
                return None;
            },
            Some(j) => j,
        };
        proof {
            lemma_find_crlf_from(data@, pos as int);
        }
        if j == pos {
            return Some(pos + 2);
        }
        pos = j + 2;
    }
}

/// Decide whether a whole request has arrived, so that a caller
/// buffering from a socket knows when to stop reading: a terminated
/// header block with its announced body, or bytes already malformed
/// beyond repair.
pub fn request_complete(data: &Vec<u8>) -> (r: bool)
    ensures
        r == spec_request_complete(data@),
{
    let dlen = data.len();
    let j = match find_crlf(data, 0) {
        None => {
            return false;
        },
        Some(j) => j,
    };
    proof {
        lemma_find_crlf_from(data@, 0);
    }
    match headers_end(data, j + 2) {
        None => false,
        Some(_end) => match Request::parse_headers(data, j + 2) {
            Err(_) => true,
            Ok(hp) => {
                let (hs, bstart) = hp;
                let key = content_length_key();
                match hs.get(&key) {
                    None => true,
                    Some(v) => match parse_u64(v) {
                        None => true,
                        Some(n) => n <= (dlen - bstart) as u64,
                    },
                }
            },
        },
    }
}

/// A well-formed request whose `Content-Length` is absent or zero
/// parses to an empty body.
pub proof fn lemma_empty_body_without_length(data: Seq<u8>, m: ReqModel)
    requires
        spec_parse_request(data) == Ok::<ReqModel, ParseError>(m),
        match lookup(m.headers, spec_content_length_key()) {
            None => true,
            Some(v) => spec_parse_u64(v) == Some(0u64),
        },
    ensures
        m.body == Seq::<u8>::empty(),
{
}

/// When `Content-Length` is `n` and the data supplies exactly `n`
/// body bytes after the header block, the parsed body is those bytes,
/// byte for byte.
pub proof fn lemma_body_round_trip(
    data: Seq<u8>,
    j: int,
    hs: Seq<HeaderModel>,
    body_start: int,
    n: u64,
)
    requires
        find_crlf_from(data, 0) == Some(j),
        spec_parse_status(data.subrange(0, j)) is Some,
        spec_parse_headers_at(data, j + 2, Seq::empty()) == Some((hs, body_start)),
        match lookup(hs, spec_content_length_key()) {
            None => false,
            Some(v) => spec_parse_u64(v) == Some(n),
        },
        data.len() == body_start + n,
        n > 0,
    ensures
        spec_parse_request(data) matches Ok(m) && m.body == data.subrange(
            body_start,
            body_start + n,
        ),
{
}

/// Trim surrounding whitespace from a header name or value.
pub fn clean_header_value(val: &Vec<u8>) -> (r: Vec<u8>)
    ensures
        r@ == spec_trim(val@),
{
    trim(val)
}

} // verus!
