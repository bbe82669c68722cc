//! Reading the push service's reply.
use vstd::prelude::*;
use crate::error::{error_exit_code, error_text, PingError};
use crate::text::{decode_lossy, utf8_lossy};

verus! {

/// The integer stored under `key` in the JSON value `body`; none where the
/// body is not JSON, is not an object, lacks the key, or holds there
/// something other than an integer that fits an `i64`.
pub uninterp spec fn json_int_entry(body: Seq<u8>, key: Seq<char>) -> Option<i64>;

/// Relies on `serde_json::from_slice` into a `serde_json::Value`, then
/// `Value::get` and `Value::as_i64`: the integer under `key` in the JSON
/// object, if the body parses and that entry is an integer within `i64`.
#[verifier::external_body]
fn json_int_field(body: &[u8], key: &str) -> (r: Option<i64>)
    ensures
        r == json_int_entry(body@, key@),
{
    serde_json::from_slice::<serde_json::Value>(body).ok().and_then(
        |v| v.get(key).and_then(|s| s.as_i64()),
    )
}

/// The status value by which the service accepts a message.
pub open spec fn accepted_status() -> i64 {
    1
}

/// The lines reported for a reply whose `status` entry is `status`, with
/// `body` the reply's text: a success line when the service accepted, else an
/// error line and the reply itself. A reply without a status is an error.
pub open spec fn report_lines(status: Option<i64>, body: Seq<char>) -> Result<
    Seq<Seq<char>>,
    PingError,
> {
    match status {
        None => Err(PingError::ResponseFormat),
        Some(s) => if s == accepted_status() {
            Ok(seq!["SUCCESS: sent ping"@])
        } else {
            Ok(
                seq![
                    "ERROR: got status value other than 1 from API"@,
                    "response contents: "@ + body,
                ],
            )
        },
    }
}

/// The view of a list of lines, or of the error in its place.
pub open spec fn lines_view(r: Result<Vec<String>, PingError>) -> Result<
    Seq<Seq<char>>,
    PingError,
> {
    match r {
        Ok(v) => Ok(v@.map_values(|l: String| l@)),
        Err(e) => Err(e),
    }
}

/// The lines to print for a reply whose status entry was read as `status`
/// and whose text is `body`.
pub fn report(status: Option<i64>, body: &str) -> (r: Result<Vec<String>, PingError>)
    ensures
        lines_view(r) == report_lines(status, body@),
{
    match status {
        None => Err(PingError::ResponseFormat),
        Some(s) => {
            if s == 1 {
                let v = vec!["SUCCESS: sent ping".to_owned()];
                proof {
                    assert(v@.map_values(|l: String| l@) =~= seq!["SUCCESS: sent ping"@]);
                }
                Ok(v)
            } else {
                let mut contents = "response contents: ".to_owned();
                contents.append(body);
                let v = vec![
                    "ERROR: got status value other than 1 from API".to_owned(),
                    contents,
                ];
                proof {
                    assert(v@.map_values(|l: String| l@) =~= seq![
                        "ERROR: got status value other than 1 from API"@,
                        "response contents: "@ + body@,
                    ]);
                }
                Ok(v)
            }
        },
    }
}

/// The lines to print for the reply `body`. Only a reply that is not JSON
/// with an integer `status` is an error: a status other than the accepted one
/// is reported, not failed on.
pub fn interpret_response(body: &[u8]) -> (r: Result<Vec<String>, PingError>)
    ensures
        lines_view(r) == report_lines(json_int_entry(body@, "status"@), utf8_lossy(body@)),
        json_int_entry(body@, "status"@) is None ==> r == Err::<Vec<String>, PingError>(
            PingError::ResponseFormat,
        ),
{
    let status = json_int_field(body, "status");
    let text = decode_lossy(body);
    report(status, text.as_str())
}

/// A reply that is not JSON, or has no integer `status`, ends the run with a
/// nonzero exit code and the message that the reply could not be
/// deserialized.
pub proof fn unreadable_reply_fails(body: Seq<u8>)
    requires
        json_int_entry(body, "status"@) is None,
    ensures
        report_lines(json_int_entry(body, "status"@), utf8_lossy(body)) == Err::<
            Seq<Seq<char>>,
            PingError,
        >(PingError::ResponseFormat),
        error_exit_code(PingError::ResponseFormat) != 0,
        error_text(PingError::ResponseFormat) == "failed to deserialize response json"@,
{
}

} // verus!
