//! The response side of the wire codec: a structured response and its
//! serialization to bytes.
//!
//! The serializer joins status line, headers and body with CRLFs; it
//! does not compute `Content-Length` itself — setting it is the
//! handler's responsibility.
use vstd::prelude::*;

use crate::headers::{Headers, HeaderModel};
use crate::text::{spec_dec_u64, dec_u64, copy_all};
use crate::tokens::{spec_version_prefix, version_prefix};

verus! {

/// A structured response: status code and reason phrase, header
/// mapping, body bytes.
#[derive(Clone, Debug)]
pub struct Response {
    pub status: u16,
    pub reason: Vec<u8>,
    pub headers: Headers,
    pub body: Vec<u8>,
}

/// The mathematical image of a `Response`.
pub ghost struct RespModel {
    pub status: u16,
    pub reason: Seq<u8>,
    pub headers: Seq<HeaderModel>,
    pub body: Seq<u8>,
}

impl View for Response {
    type V = RespModel;

    open spec fn view(&self) -> RespModel {
        RespModel {
            status: self.status,
            reason: self.reason@,
            headers: self.headers@,
            body: self.body@,
        }
    }
}

/// The header block on the wire: each entry as `name: value` followed
/// by CRLF, in insertion order.
pub open spec fn spec_serialize_headers(hs: Seq<HeaderModel>) -> Seq<u8>
    decreases hs.len(),
{
    if hs.len() == 0 {
        Seq::empty()
    } else {
        spec_serialize_headers(hs.drop_last()) + hs.last().name + seq![':' as u8, ' ' as u8]
            + hs.last().value + seq![13u8, 10u8]
    }
}

/// A whole response on the wire: `HTTP/1.1 <status> <reason>` CRLF,
/// the header block, a blank line, then the body.
pub open spec fn spec_serialize(m: RespModel) -> Seq<u8> {
    spec_version_prefix() + spec_dec_u64(m.status as nat) + seq![' ' as u8] + m.reason + seq![
        13u8,
        10u8,
    ] + spec_serialize_headers(m.headers) + seq![13u8, 10u8] + m.body
}

impl Response {
    /// A response with the given status, reason and body and an empty
    /// header mapping.
    pub fn new(status: u16, reason: Vec<u8>, body: Vec<u8>) -> (r: Response)
        ensures
            r@ == (RespModel {
                status,
                reason: reason@,
                headers: Seq::<HeaderModel>::empty(),
                body: body@,
            }),
    {
        let r = Response { status, reason, headers: Headers::new(), body };
        proof {
            assert(r.headers@ =~= Seq::<HeaderModel>::empty());
        }
        r
    }

    /// Serialize to the exact bytes the wire format defines.
    pub fn serialize(&self) -> (r: Vec<u8>)
        ensures
            r@ == spec_serialize(self@),
    {
        let mut out = version_prefix();
        let mut digits = dec_u64(self.status as u64);
        out.append(&mut digits);
        out.push(' ' as u8);
        let mut reason = copy_all(&self.reason);
        out.append(&mut reason);
        out.push(13u8);
        out.push(10u8);
        let ghost before_headers = out@;
        let mut i: usize = 0;
        proof {
            assert(self.headers@.take(0) =~= Seq::<HeaderModel>::empty());
        }
        while i < self.headers.entries.len()
            invariant
                i <= self.headers@.len(),
                self.headers@.len() == self.headers.entries@.len(),
                self.headers@ == self.headers.entries@.map_values(|h: crate::headers::Header| h@),
                out@ == before_headers + spec_serialize_headers(self.headers@.take(i as int)),
            decreases self.headers@.len() - i,
        {
            let mut name = copy_all(&self.headers.entries[i].name);
            out.append(&mut name);
            out.push(':' as u8);
            out.push(' ' as u8);
            let mut value = copy_all(&self.headers.entries[i].value);
            out.append(&mut value);
            out.push(13u8);
            out.push(10u8);
            proof {
                let hs = self.headers@;
                assert(hs.take(i + 1).drop_last() =~= hs.take(i as int));
                assert(hs.take(i + 1).last() == hs[i as int]);
                assert(out@ =~= before_headers + spec_serialize_headers(hs.take(i + 1)));
            }
            i = i + 1;
        }
        proof {
            assert(self.headers@.take(self.headers@.len() as int) =~= self.headers@);
        }
        out.push(13u8);
        out.push(10u8);
        let mut body = copy_all(&self.body);
        out.append(&mut body);
        proof {
            assert(out@ =~= spec_serialize(self@));
        }
        out
    }
}

} // verus!
