//! Checks of decoded Subsonic responses: every response carries a status,
//! an optional error and, for most endpoints, a data payload. The endpoints
//! of the API differ in how they treat a failed status without an error.

use vstd::prelude::*;
use crate::error::SubsonicError;
use crate::text::chars_of;

verus! {

/// The error object of a failed response.
pub struct ApiErrorBody {
    pub code: i32,
    pub message: String,
}

/// Whether a response status is the success status `ok`.
pub fn is_ok_status(status: &str) -> (ok: bool)
    ensures
        ok == (status@ == "ok"@),
{
    let chars = chars_of(status);
    proof {
        reveal_strlit("ok");
    }
    let ok = chars.len() == 2 && chars[0] == 'o' && chars[1] == 'k';
    proof {
        if ok {
            assert(status@ =~= "ok"@);
        }
    }
    ok
}

/// The error a failed response maps to: the server's error, or an
/// unknown error with code 0 when the response carries none.
pub open spec fn api_error_of(code: i32, message: Seq<char>, e: SubsonicError) -> bool {
    e matches SubsonicError::Api { code: c, message: m } && c == code && m@ == message
}

fn api_error(body: ApiErrorBody) -> (e: SubsonicError)
    ensures
        api_error_of(body.code, body.message@, e),
{
    SubsonicError::Api { code: body.code, message: body.message }
}

fn unknown_error() -> (e: SubsonicError)
    ensures
        api_error_of(0, "Unknown error"@, e),
{
    SubsonicError::Api { code: 0, message: "Unknown error".to_owned() }
}

/// Whether `e` is a parse error carrying `message`.
pub open spec fn parse_error_of(message: Seq<char>, e: SubsonicError) -> bool {
    e matches SubsonicError::Parse(m) && m@ == message
}

/// Validates a generic API response: a failed status gives the server's
/// error (or an unknown error with code 0); a success without data gives
/// the parse error "Empty response data"; otherwise the data.
pub fn check_response<T>(status: &str, error: Option<ApiErrorBody>, data: Option<T>) -> (r: Result<
    T,
    SubsonicError,
>)
    ensures
        status@ != "ok"@ ==> match error {
            Some(body) => r matches Err(e) && api_error_of(body.code, body.message@, e),
            None => r matches Err(e) && api_error_of(0, "Unknown error"@, e),
        },
        status@ == "ok"@ ==> match data {
            Some(d) => r == Ok::<T, SubsonicError>(d),
            None => r matches Err(e) && parse_error_of("Empty response data"@, e),
        },
{
    if !is_ok_status(status) {
        return match error {
            Some(body) => Err(api_error(body)),
            None => Err(unknown_error()),
        };
    }
    match data {
        Some(d) => Ok(d),
        None => Err(SubsonicError::Parse("Empty response data".to_owned())),
    }
}

/// Validates a ping response: a failed status with an error gives that error;
/// anything else counts as success.
pub fn check_ping(status: &str, error: Option<ApiErrorBody>) -> (r: Result<(), SubsonicError>)
    ensures
        (status@ != "ok"@ && error is Some) ==> (r matches Err(e) && api_error_of(
            error->0.code,
            error->0.message@,
            e,
        )),
        !(status@ != "ok"@ && error is Some) ==> r is Ok,
{
    if !is_ok_status(status) {
        if let Some(body) = error {
            return Err(api_error(body));
        }
    }
    Ok(())
}

/// Validates a detail response (artist, album or playlist): a failed
/// status with an error gives that error; otherwise the data, or the parse
/// error `empty_message` when there is none.
pub fn check_detail<T>(
    status: &str,
    error: Option<ApiErrorBody>,
    data: Option<T>,
    empty_message: &str,
) -> (r: Result<T, SubsonicError>)
    ensures
        (status@ != "ok"@ && error is Some) ==> (r matches Err(e) && api_error_of(
            error->0.code,
            error->0.message@,
            e,
        )),
        !(status@ != "ok"@ && error is Some) ==> match data {
            Some(d) => r == Ok::<T, SubsonicError>(d),
            None => r matches Err(e) && parse_error_of(empty_message@, e),
        },
{
    if !is_ok_status(status) {
        if let Some(body) = error {
            return Err(api_error(body));
        }
    }
    match data {
        Some(d) => Ok(d),
        None => Err(SubsonicError::Parse(empty_message.to_owned())),
    }
}

/// Validates a response without data (setting a rating): a failed status
/// gives the server's error, or an unknown error with code 0.
pub fn check_status(status: &str, error: Option<ApiErrorBody>) -> (r: Result<(), SubsonicError>)
    ensures
        status@ == "ok"@ ==> r is Ok,
        status@ != "ok"@ ==> match error {
            Some(body) => r matches Err(e) && api_error_of(body.code, body.message@, e),
            None => r matches Err(e) && api_error_of(0, "Unknown error"@, e),
        },
{
    if !is_ok_status(status) {
        return match error {
            Some(body) => Err(api_error(body)),
            None => Err(unknown_error()),
        };
    }
    Ok(())
}

} // verus!
