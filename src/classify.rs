//! Classification of a failed HTTP exchange into one network-error kind.

use crate::stats::NetErrKind;
use vstd::prelude::*;

verus! {

/// The kind of a failure, from what the failure reports about itself. The
/// tests run in a fixed order, since a failure may report several at once: a
/// timeout while connecting is a timeout.
pub open spec fn kind_from_flags(
    timeout: bool,
    connect: bool,
    request: bool,
    body: bool,
    decode: bool,
) -> NetErrKind {
    if timeout {
        NetErrKind::Timeout
    } else if connect {
        NetErrKind::Connect
    } else if request {
        NetErrKind::Request
    } else if body {
        NetErrKind::Body
    } else if decode {
        NetErrKind::Decode
    } else {
        NetErrKind::Other
    }
}

/// The kind of a failure that reports the given properties.
pub fn classify_error_flags(
    timeout: bool,
    connect: bool,
    request: bool,
    body: bool,
    decode: bool,
) -> (k: NetErrKind)
    ensures
        k == kind_from_flags(timeout, connect, request, body, decode),
{
    if timeout {
        NetErrKind::Timeout
    } else if connect {
        NetErrKind::Connect
    } else if request {
        NetErrKind::Request
    } else if body {
        NetErrKind::Body
    } else if decode {
        NetErrKind::Decode
    } else {
        NetErrKind::Other
    }
}

#[verifier::external_type_specification]
#[verifier::external_body]
pub struct ExReqwestError(reqwest::Error);

/// What reqwest's `Error::is_timeout` reports of an error.
pub uninterp spec fn error_is_timeout(e: reqwest::Error) -> bool;

/// What reqwest's `Error::is_connect` reports of an error.
pub uninterp spec fn error_is_connect(e: reqwest::Error) -> bool;

/// What reqwest's `Error::is_request` reports of an error.
pub uninterp spec fn error_is_request(e: reqwest::Error) -> bool;

/// What reqwest's `Error::is_body` reports of an error.
pub uninterp spec fn error_is_body(e: reqwest::Error) -> bool;

/// What reqwest's `Error::is_decode` reports of an error.
pub uninterp spec fn error_is_decode(e: reqwest::Error) -> bool;

/// Relies on reqwest's `Error::is_timeout`: whether the error is a timeout.
pub assume_specification[ reqwest::Error::is_timeout ](e: &reqwest::Error) -> (r: bool)
    ensures
        r == error_is_timeout(*e),
;

/// Relies on reqwest's `Error::is_connect`: whether connecting failed.
pub assume_specification[ reqwest::Error::is_connect ](e: &reqwest::Error) -> (r: bool)
    ensures
        r == error_is_connect(*e),
;

/// Relies on reqwest's `Error::is_request`: whether sending the request failed.
pub assume_specification[ reqwest::Error::is_request ](e: &reqwest::Error) -> (r: bool)
    ensures
        r == error_is_request(*e),
;

/// Relies on reqwest's `Error::is_body`: whether the body was at fault.
pub assume_specification[ reqwest::Error::is_body ](e: &reqwest::Error) -> (r: bool)
    ensures
        r == error_is_body(*e),
;

/// Relies on reqwest's `Error::is_decode`: whether decoding the response failed.
pub assume_specification[ reqwest::Error::is_decode ](e: &reqwest::Error) -> (r: bool)
    ensures
        r == error_is_decode(*e),
;

/// The kind of a reqwest failure: `classify_error_flags` applied to what the
/// error reports of itself.
pub fn classify_reqwest_error(e: &reqwest::Error) -> (k: NetErrKind)
    ensures
        k == kind_from_flags(
            error_is_timeout(*e),
            error_is_connect(*e),
            error_is_request(*e),
            error_is_body(*e),
            error_is_decode(*e),
        ),
{
    classify_error_flags(e.is_timeout(), e.is_connect(), e.is_request(), e.is_body(), e.is_decode())
}

} // verus!
