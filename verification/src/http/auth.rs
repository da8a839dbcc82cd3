//! The API key guard of the `/conf` routes.
//!
//! When an API key is configured, every request must present
//! `Authorization: Bearer <api-key>`; otherwise it is rejected with
//! `401 Unauthorized` and a `WWW-Authenticate: Bearer` challenge. When no key
//! is configured the routes stay open.

use vstd::prelude::*;

use subtle::ConstantTimeEq;

use crate::text::{after_prefix, has_prefix, strip_prefix};

verus! {

/// The token that an `Authorization` header value carries: what follows
/// `Bearer ` when that is not empty.
pub open spec fn bearer_of(header: Option<Seq<char>>) -> Option<Seq<char>> {
    match header {
        Some(v) => if has_prefix(v, "Bearer "@) && after_prefix(v, "Bearer "@).len() > 0 {
            Some(after_prefix(v, "Bearer "@))
        } else {
            None
        },
        None => None,
    }
}

/// Whether a request with the given `Authorization` header value may pass
/// when `api_key` is the configured key.
pub open spec fn admits(api_key: Option<Seq<char>>, header: Option<Seq<char>>) -> bool {
    match api_key {
        None => true,
        Some(k) => bearer_of(header) == Some(k),
    }
}

/// The view of an optional string slice.
pub open spec fn opt_str_view(o: Option<&str>) -> Option<Seq<char>> {
    match o {
        Some(s) => Some(s@),
        None => None,
    }
}

/// The view of an optional string.
pub open spec fn opt_string_view(o: Option<String>) -> Option<Seq<char>> {
    match o {
        Some(s) => Some(s@),
        None => None,
    }
}

/// The `Bearer` token of an `Authorization` header value, if present.
///
/// Only `Bearer <token>` with a non-empty token is accepted; anything else
/// yields `None`.
pub fn bearer_token(header: Option<&str>) -> (r: Option<&str>)
    ensures
        opt_str_view(r) == bearer_of(opt_str_view(header)),
{
    match header {
        None => None,
        Some(value) => {
            match strip_prefix(value, "Bearer ") {
                Some(token) => {
                    if token.unicode_len() == 0 {
                        None
                    } else {
                        Some(token)
                    }
                },
                None => None,
            }
        },
    }
}

/// Compares two strings in time that does not depend on their contents
/// (only on their lengths), through `subtle::ConstantTimeEq` on their bytes.
///
/// Claimed of the outside code: the result is whether the strings are
/// equal. `ct_eq` on byte slices returns 1 exactly when the slices have the
/// same length and the same bytes, and two strings have the same UTF-8 bytes
/// exactly when they have the same characters.
#[verifier::external_body]
fn constant_time_eq(a: &str, b: &str) -> (r: bool)
    ensures
        r == (a@ == b@),
{
    a.as_bytes().ct_eq(b.as_bytes()).into()
}

/// Whether a request may pass the guard: always when no key is configured,
/// and otherwise exactly when it presents `Bearer <api-key>`.
pub fn is_authorized(api_key: &Option<String>, auth_header: Option<&str>) -> (r: bool)
    ensures
        r == admits(opt_string_view(*api_key), opt_str_view(auth_header)),
{
    match api_key {
        None => true,
        Some(expected) => match bearer_token(auth_header) {
            Some(provided) => constant_time_eq(provided, expected.as_str()),
            None => false,
        },
    }
}

/// The status of a rejected request: 401.
pub fn unauthorized_status() -> (r: u16)
    ensures
        r == 401,
{
    401
}

/// The `WWW-Authenticate` challenge of a rejected request: `Bearer`.
pub fn unauthorized_challenge() -> (r: &'static str)
    ensures
        r@ == "Bearer"@,
{
    "Bearer"
}

/// The body of a rejected request.
pub fn unauthorized_body() -> (r: &'static str)
    ensures
        r@ == "unauthorized: a valid API key is required"@,
{
    "unauthorized: a valid API key is required"
}

/// With a key configured, the header `Bearer <key>` is admitted, and a
/// header that is absent or carries any other token is not. Without a key
/// every request is admitted.
pub proof fn lemma_api_key_guard(key: Seq<char>, header: Option<Seq<char>>)
    requires
        key.len() > 0,
    ensures
        admits(Some(key), Some("Bearer "@ + key)),
        admits(Some(key), header) ==> header == Some("Bearer "@ + key),
        admits(None, header),
        admits(Some(key), None) == false,
{
    reveal_strlit("Bearer ");
    let h = "Bearer "@ + key;
    assert(h.subrange(0, 7) =~= "Bearer "@);
    assert(after_prefix(h, "Bearer "@) =~= key);
    if admits(Some(key), header) {
        let v = header->0;
        assert(v =~= v.subrange(0, 7) + v.subrange(7, v.len() as int));
    }
}

} // verus!
