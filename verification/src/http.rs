//! The HTTP method enum and its token parser. Unknown tokens map to
//! `Unsupported` instead of failing, so the router can answer 404.
use vstd::prelude::*;

use crate::tokens::{
    spec_get_token, spec_post_token, spec_put_token, spec_delete_token, get_token, post_token,
    put_token, delete_token,
};
use crate::text::bytes_eq;

verus! {

/// An HTTP request method; tokens outside the known set parse to
/// `Unsupported`.
#[derive(Clone, Copy, Debug, PartialEq, Eq, Structural)]
pub enum HttpMethod {
    GET,
    POST,
    PUT,
    DELETE,
    Unsupported,
}

/// The method a token denotes.
pub open spec fn spec_parse_method(token: Seq<u8>) -> HttpMethod {
    if token == spec_get_token() {
        HttpMethod::GET
    } else if token == spec_post_token() {
        HttpMethod::POST
    } else if token == spec_put_token() {
        HttpMethod::PUT
    } else if token == spec_delete_token() {
        HttpMethod::DELETE
    } else {
        HttpMethod::Unsupported
    }
}

impl HttpMethod {
    /// Parse a method token; an unknown token is `Unsupported`, never
    /// an error.
    pub fn parse(token: &Vec<u8>) -> (m: HttpMethod)
        ensures
            m == spec_parse_method(token@),
    {
        if bytes_eq(token, &get_token()) {
            HttpMethod::GET
        } else if bytes_eq(token, &post_token()) {
            HttpMethod::POST
        } else if bytes_eq(token, &put_token()) {
            HttpMethod::PUT
        } else if bytes_eq(token, &delete_token()) {
            HttpMethod::DELETE
        } else {
            HttpMethod::Unsupported
        }
    }
}

} // verus!
