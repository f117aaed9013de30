//! Success bodies: open-ended statistics payloads are checked to be
//! well-formed JSON, then shown pretty-printed, without modelling their
//! fields; a body of the wrong shape is reported as a contract mismatch.
use vstd::prelude::*;
use vstd::string::*;

use crate::command::Operation;
use crate::outcome::{Report, Stream};
use crate::EXIT_CODE_API_UNEXPECTED_ERROR;

verus! {

#[verifier::external_type_specification]
#[verifier::external_body]
pub struct ExJsonError(serde_json::Error);

/// Whether serde_json reads the text as one JSON value.
pub uninterp spec fn is_json_text(s: Seq<char>) -> bool;

/// serde_json's pretty layout of the JSON value a text holds.
pub uninterp spec fn pretty_json_of(s: Seq<char>) -> Seq<char>;

/// Relies on `serde_json::from_str::<serde_json::Value>`, which succeeds
/// exactly on the texts that hold one JSON value, then on
/// `serde_json::to_string_pretty`, which cannot fail on a `Value` (its keys
/// are strings). Both results depend on the text alone.
#[verifier::external_body]
fn pretty_json_text(body: &str) -> (r: Result<String, serde_json::Error>)
    ensures
        r is Ok <==> is_json_text(body@),
        r is Ok ==> r->Ok_0@ == pretty_json_of(body@),
{
    match serde_json::from_str::<serde_json::Value>(body) {
        Ok(v) => serde_json::to_string_pretty(&v),
        Err(e) => Err(e),
    }
}

/// Relies on the `Debug` output of `serde_json::Error` for a diagnostic.
#[verifier::external_body]
fn describe_json_error(e: &serde_json::Error) -> (r: String) {
    format!("{:?}", e)
}

/// How each command introduces the reason its success body could not be read.
pub open spec fn decode_failure_prefix(op: Operation) -> Seq<char> {
    match op {
        Operation::JobsList => "Failed to deserialize list-jobs response, e="@,
        Operation::JobsDetail => "Failed to deserialize job-details response, e="@,
        Operation::JobsPrefetch => "Failed to deserialize prefetch response, e="@,
        Operation::JobsPurge => "Failed to deserialize purge response, e="@,
        Operation::JobsPurgeAll => "Failed to deserialize purge-all response, e="@,
        _ => "Failed to deserialize response, e="@,
    }
}

pub open spec fn is_decode_failure(r: Report, op: Operation) -> bool {
    &&& r.exit_code == EXIT_CODE_API_UNEXPECTED_ERROR
    &&& r.stream == Stream::Stderr
    &&& r.message@.len() >= decode_failure_prefix(op).len()
    &&& r.message@.subrange(0, decode_failure_prefix(op).len() as int) == decode_failure_prefix(op)
}

/// The report of a success body that does not have the expected shape: a
/// contract mismatch with the API, never the user's fault.
pub fn decode_failure_report(op: Operation, detail: &str) -> (r: Report)
    ensures
        r.message@ == decode_failure_prefix(op) + detail@,
        r.stream == Stream::Stderr,
        r.exit_code == EXIT_CODE_API_UNEXPECTED_ERROR,
{
    let mut m = match op {
        Operation::JobsList => String::from_str("Failed to deserialize list-jobs response, e="),
        Operation::JobsDetail => String::from_str("Failed to deserialize job-details response, e="),
        Operation::JobsPrefetch => String::from_str("Failed to deserialize prefetch response, e="),
        Operation::JobsPurge => String::from_str("Failed to deserialize purge response, e="),
        Operation::JobsPurgeAll => String::from_str("Failed to deserialize purge-all response, e="),
        _ => String::from_str("Failed to deserialize response, e="),
    };
    m.append(detail);
    Report::unexpected_error(m)
}

/// Shows a success body of `op` that is well-formed JSON in serde_json's
/// pretty layout; a body that is not JSON gives the decode-failure report.
pub fn present_json_payload(op: Operation, body: &str) -> (r: Result<String, Report>)
    ensures
        r is Ok <==> is_json_text(body@),
        r is Ok ==> r->Ok_0@ == pretty_json_of(body@),
        r is Err ==> is_decode_failure(r->Err_0, op),
{
    match pretty_json_text(body) {
        Ok(text) => Ok(text),
        Err(e) => {
            let r = decode_failure_report(op, describe_json_error(&e).as_str());
            assert(r.message@.subrange(0, decode_failure_prefix(op).len() as int) =~= decode_failure_prefix(op));
            Err(r)
        },
    }
}

} // verus!
