//! The verdict on a delivery, from the status that the notification sink
//! answered with.

use crate::error::{IndexerError, IndexerErrorView};
use crate::text::{decimal, u64_to_decimal};
use reqwest::StatusCode;
use vstd::prelude::*;
use vstd::string::StringExecFns;

verus! {

/// The text of an HTTP status as `StatusCode` displays it: the code and its
/// canonical reason phrase.
pub uninterp spec fn status_text(code: u16) -> Seq<char>;

/// Makes a `StatusCode` with `StatusCode::from_u16`, which accepts the codes
/// from 100 to 999, and writes it with its `Display` impl.
#[verifier::external_body]
fn status_to_text(code: u16) -> (text: Option<String>)
    ensures
        text is Some <==> 100 <= code < 1000,
        text matches Some(t) ==> t@ == status_text(code),
{
    match StatusCode::from_u16(code) {
        Ok(status) => Some(status.to_string()),
        Err(_) => None,
    }
}

/// A status from 200 to 299 reports success.
pub open spec fn is_success(code: u16) -> bool {
    200 <= code < 300
}

/// The detail of a failed delivery: the status as text, or the bare number
/// where it is no HTTP status code.
pub open spec fn failure_detail(code: u16) -> Seq<char> {
    if 100 <= code < 1000 {
        status_text(code)
    } else {
        decimal(code as nat)
    }
}

/// The error for a delivery that the sink answered with the status
/// `detail`.
pub open spec fn webhook_failure_spec(detail: Seq<char>) -> IndexerErrorView {
    IndexerErrorView::WebhookFailed("Status code: "@ + detail)
}

/// The error for a delivery that the sink answered with the status
/// `detail`.
pub fn webhook_failure(detail: &str) -> (error: IndexerError)
    ensures
        error@ == webhook_failure_spec(detail@),
{
    IndexerError::WebhookFailed(String::from_str("Status code: ").concat(detail))
}

/// The verdict on a delivery that the sink answered with `status_code`:
/// delivered on a status of success, `WebhookFailed` on any other.
pub fn webhook_outcome(status_code: u16) -> (result: Result<(), IndexerError>)
    ensures
        result is Ok <==> is_success(status_code),
        result matches Err(e) ==> e@ == webhook_failure_spec(failure_detail(status_code)),
{
    if 200 <= status_code && status_code < 300 {
        return Ok(());
    }
    let detail = match status_to_text(status_code) {
        Some(text) => text,
        None => u64_to_decimal(status_code as u64),
    };
    Err(webhook_failure(detail.as_str()))
}

} // verus!
