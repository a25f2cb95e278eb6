//! The error value a failed command reports, carrying a human-readable
//! cause and the raw API payload for diagnosis, and the decision of
//! whether an HTTP answer counts as success.

use vstd::prelude::*;

use crate::json::Json;
use crate::json::spec_json_text;

verus! {

/// A failure while talking to the panel or reading its answer: a
/// message naming the cause and the offending payload as JSON text.
#[derive(Debug)]
pub struct ApiError {
    pub message: String,
    pub context: String,
}

/// Decides the outcome of an HTTP exchange with the panel: success
/// exactly when the transport reported a success status, and otherwise
/// an error whose message carries the status line and whose context is
/// the raw response body.
pub fn http_outcome(success: bool, status_line: &str, body_text: &str) -> (r: Result<
    (),
    ApiError,
>)
    ensures
        r is Ok <==> success,
        r is Err ==> r->Err_0.message@ == "API answered "@ + status_line@
            && r->Err_0.context@ == body_text@,
{
    if success {
        Ok(())
    } else {
        let mut message = String::from_str("API answered ");
        message.append(status_line);
        Err(ApiError { message, context: String::from_str(body_text) })
    }
}

/// Turns a missing optional value into an `ApiError` that names the
/// missing piece and carries the whole payload it was missing from.
pub trait ToErrorContext<T>: Sized {
    fn to_error_context(self, error_message: &str, context: &Json) -> (r: Result<T, ApiError>);
}

impl<T> ToErrorContext<T> for Option<T> {
    fn to_error_context(self, error_message: &str, context: &Json) -> (r: Result<T, ApiError>)
        ensures
            self is Some ==> r is Ok && r->Ok_0 == self->0,
            self is None ==> r is Err && r->Err_0.message@ == error_message@
                && r->Err_0.context@ == spec_json_text(*context),
    {
        match self {
            Some(value) => Ok(value),
            None => Err(
                ApiError {
                    message: String::from_str(error_message),
                    context: context.to_text(),
                },
            ),
        }
    }
}

} // verus!
