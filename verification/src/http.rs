//! Plain-value model of the HTTP exchanges the adapters perform: requests
//! and responses are data, and the status-code contract every provider
//! shares (200 parse, 404 not-found, anything else a reported error) is
//! stated here once.

use vstd::prelude::*;
use vstd::string::StringExecFns;

use crate::errors::Error;
use crate::text::spec_dec_digits;
use crate::text::append_u64;

verus! {

/// The HTTP method of a request an adapter asks its caller to perform.
#[derive(Clone, Copy, Debug, PartialEq, Eq, Structural)]
pub enum Method {
    Get,
    Post,
    Put,
    Patch,
    Delete,
}

/// One HTTP request, fully described as plain values.
pub struct HttpRequest {
    pub method: Method,
    pub url: String,
    pub headers: Vec<(String, String)>,
    pub body: Option<String>,
}

/// One HTTP response, as plain values: the status code and the raw body.
pub struct HttpResponse {
    pub status: u16,
    pub body: String,
}

/// Whether a status code reports success.
pub open spec fn spec_status_success(status: u16) -> bool {
    200 <= status < 300
}

/// The message carried by the error reported for an unexpected status.
pub open spec fn spec_api_error_msg(status: u16, body: Seq<char>) -> Seq<char> {
    "Api Error: "@ + spec_dec_digits(status as int) + " -> "@ + body
}

/// Build the message text for an unexpected-status error.
fn api_error_msg(status: u16, body: &str) -> (r: String)
    ensures
        r@ == spec_api_error_msg(status, body@),
{
    let mut m = String::new();
    m.append("Api Error: ");
    append_u64(&mut m, status as u64);
    m.append(" -> ");
    m.append(body);
    m
}

/// Classify a lookup response: a 200 hands its body on for decoding, a 404
/// means the record does not exist (not an error), and any other status is
/// a reported error carrying the status and the raw body.
pub fn response_body<'a>(resp: &'a HttpResponse) -> (r: Result<Option<&'a String>, Error>)
    ensures
        resp.status == 200 ==> (r matches Ok(b) && b matches Some(s) && s@ == resp.body@),
        resp.status == 404 ==> (r matches Ok(b) && b is None),
        resp.status != 200 && resp.status != 404 ==> (r matches Err(e) && e matches
            Error::ApiError(m) && m@ == spec_api_error_msg(resp.status, resp.body@)),
{
    if resp.status == 200 {
        Ok(Some(&resp.body))
    } else if resp.status == 404 {
        Ok(None)
    } else {
        Err(Error::ApiError(api_error_msg(resp.status, resp.body.as_str())))
    }
}

/// Check a mutation response: success statuses pass, every other status is
/// a reported error carrying the status and the raw body.
pub fn check_error(resp: &HttpResponse) -> (r: Result<(), Error>)
    ensures
        spec_status_success(resp.status) <==> r is Ok,
        !spec_status_success(resp.status) ==> (r matches Err(e) && e matches Error::ApiError(m)
            && m@ == spec_api_error_msg(resp.status, resp.body@)),
{
    if 200 <= resp.status && resp.status < 300 {
        Ok(())
    } else {
        Err(Error::ApiError(api_error_msg(resp.status, resp.body.as_str())))
    }
}

/// Check a deletion response: success statuses pass, and so does a 404 —
/// deleting what does not exist is a logged no-op, not an error; every
/// other status is a reported error carrying the status and the raw body.
pub fn check_delete(resp: &HttpResponse) -> (r: Result<(), Error>)
    ensures
        (spec_status_success(resp.status) || resp.status == 404) <==> r is Ok,
        !(spec_status_success(resp.status) || resp.status == 404) ==> (r matches Err(e)
            && e matches Error::ApiError(m) && m@ == spec_api_error_msg(
            resp.status,
            resp.body@,
        )),
{
    if (200 <= resp.status && resp.status < 300) || resp.status == 404 {
        Ok(())
    } else {
        Err(Error::ApiError(api_error_msg(resp.status, resp.body.as_str())))
    }
}

/// Append one header to a header list.
pub fn push_header(headers: &mut Vec<(String, String)>, name: &str, value: String)
    ensures
        final(headers)@.len() == old(headers)@.len() + 1,
        final(headers)@.take(old(headers)@.len() as int) == old(headers)@,
        final(headers)@.last().0@ == name@,
        final(headers)@.last().1@ == value@,
{
    let n = name.to_owned();
    headers.push((n, value));
    assert(headers@.take(old(headers)@.len() as int) =~= old(headers)@);
}

/// The two headers every JSON request carries.
pub fn json_headers() -> (r: Vec<(String, String)>)
    ensures
        r@.len() == 2,
        r@[0].0@ == "accept"@ && r@[0].1@ == "application/json"@,
        r@[1].0@ == "content-type"@ && r@[1].1@ == "application/json"@,
{
    let mut headers: Vec<(String, String)> = Vec::new();
    push_header(&mut headers, "accept", "application/json".to_owned());
    push_header(&mut headers, "content-type", "application/json".to_owned());
    headers
}

} // verus!
