//! Interpretation of the remote command-record exchanges.
//!
//! The record is fetched with an authenticated GET and reported back with an
//! authenticated PUT against two fixed endpoints.  The transport itself runs
//! outside the library; what is verified here is everything the exchange
//! decides: the headers each request carries, which statuses count as
//! success, and how a response becomes a command record or a failure.

use vstd::prelude::*;

use crate::codec::decode_command;
use crate::codec::push_udigits;
use crate::codec::spec_parse;
use crate::codec::spec_udigits;
use crate::command::DoorCommand;

verus! {

/// A response as the transport hands it over: a status code and the fully
/// concatenated body text.
#[derive(Clone, Debug)]
pub struct HttpResponse {
    pub status: u16,
    pub body: String,
}

/// Why a fetch produced no command record.
#[derive(Clone, Copy, Debug, PartialEq, Eq, Structural)]
pub enum FetchError {
    /// The transport could not complete the exchange.
    Connection,
    /// The service answered outside the success range.
    NonSuccessStatus(u16),
    /// The body did not decode as a command record.
    Parse,
}

/// Why a report was not acknowledged.
#[derive(Clone, Copy, Debug, PartialEq, Eq, Structural)]
pub enum PushError {
    /// The transport could not complete the exchange.
    Connection,
    /// The service answered outside the success range.
    NonSuccessStatus(u16),
    /// The payload could not be transmitted.
    WriteFailed,
    /// The response body did not decode as a command record.
    ResponseDecode,
}

/// The success range of a status code.
pub open spec fn spec_is_success(status: u16) -> bool {
    200 <= status <= 299
}

/// Turns a GET response into a command record or the exact failure: a status
/// outside the success range is rejected as such, a successful status with
/// an undecodable body is a parse failure, and a successful status with a
/// decodable body yields the decoded record.
pub fn interpret_fetch_response(resp: &HttpResponse) -> (r: Result<DoorCommand, FetchError>)
    ensures
        !spec_is_success(resp.status) ==> r == Err::<DoorCommand, FetchError>(
            FetchError::NonSuccessStatus(resp.status),
        ),
        spec_is_success(resp.status) && spec_parse(resp.body@) is None ==> r == Err::<
            DoorCommand,
            FetchError,
        >(FetchError::Parse),
        spec_is_success(resp.status) && spec_parse(resp.body@) is Some ==> r == Ok::<
            DoorCommand,
            FetchError,
        >(spec_parse(resp.body@).unwrap()),
{
    if resp.status < 200 || resp.status > 299 {
        return Err(FetchError::NonSuccessStatus(resp.status));
    }
    match decode_command(resp.body.as_str()) {
        Some(c) => Ok(c),
        None => Err(FetchError::Parse),
    }
}

/// Turns a PUT response into an acknowledgment or the exact failure.  The
/// report counts as acknowledged only when the status is in the success
/// range and the response body decodes as a command record.
pub fn interpret_push_response(resp: &HttpResponse) -> (r: Result<(), PushError>)
    ensures
        !spec_is_success(resp.status) ==> r == Err::<(), PushError>(
            PushError::NonSuccessStatus(resp.status),
        ),
        spec_is_success(resp.status) && spec_parse(resp.body@) is None ==> r == Err::<
            (),
            PushError,
        >(PushError::ResponseDecode),
        spec_is_success(resp.status) && spec_parse(resp.body@) is Some ==> r == Ok::<
            (),
            PushError,
        >(()),
{
    if resp.status < 200 || resp.status > 299 {
        return Err(PushError::NonSuccessStatus(resp.status));
    }
    match decode_command(resp.body.as_str()) {
        Some(_) => Ok(()),
        None => Err(PushError::ResponseDecode),
    }
}

/// The single header a GET request carries: the pre-provisioned credential.
pub fn get_request_headers(credential: &str) -> (v: Vec<(String, String)>)
    ensures
        v@.len() == 1,
        v@[0].0@ == "X-Access-Key"@,
        v@[0].1@ == credential@,
{
    let mut v: Vec<(String, String)> = Vec::new();
    v.push((String::from_str("X-Access-Key"), String::from_str(credential)));
    v
}

/// The headers a PUT request carries: the credential, the content-type
/// marker, and the explicit decimal length of the serialized body.
pub fn put_request_headers(credential: &str, body_len: usize) -> (v: Vec<(String, String)>)
    ensures
        v@.len() == 3,
        v@[0].0@ == "X-Access-Key"@,
        v@[0].1@ == credential@,
        v@[1].0@ == "Content-Type"@,
        v@[1].1@ == "application/json"@,
        v@[2].0@ == "Content-Length"@,
        v@[2].1@ == spec_udigits(body_len as nat),
{
    let mut len_text = String::new();
    push_udigits(&mut len_text, body_len as u64);
    let mut v: Vec<(String, String)> = Vec::new();
    v.push((String::from_str("X-Access-Key"), String::from_str(credential)));
    v.push((String::from_str("Content-Type"), String::from_str("application/json")));
    v.push((String::from_str("Content-Length"), len_text));
    v
}

} // verus!
