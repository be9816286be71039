//! Replies of the bridge's completion callbacks and the checks made on them.

use vstd::prelude::*;

use crate::error::{
    error_from_status, spec_error_from_status, ErrorView, FrameworkErrorPayload, StoreKitError,
    VerificationErrorPayload,
};
use crate::status;
use crate::text::concat2;
use crate::transaction::TransactionHandle;

verus! {

/// What a completion callback of the bridge delivered.
pub struct BridgeReply {
    /// The status of the call.
    pub status: i32,
    /// The JSON payload, if any.
    pub json: Option<String>,
    /// The live transaction, if any.
    pub transaction: Option<TransactionHandle>,
    /// The error message, if any.
    pub error: Option<String>,
    /// The error message read as the bridge's framework error object, where it is one.
    pub framework_error: Option<FrameworkErrorPayload>,
    /// The error message read as the bridge's verification error object, where it is one.
    pub verification_error: Option<VerificationErrorPayload>,
}

/// Checks a reply: a completion that failed gives `Unknown` with its message, a status other
/// than `OK` gives the error for that status, and `OK` gives the payload and the transaction.
pub fn reply_result(reply: Result<BridgeReply, String>) -> (r: Result<
    (Option<String>, Option<TransactionHandle>),
    StoreKitError,
>)
    ensures
        match reply {
            Err(m) => r matches Err(e) && e@ == ErrorView::Unknown(m@),
            Ok(b) => if b.status == status::OK {
                r == Ok::<(Option<String>, Option<TransactionHandle>), StoreKitError>(
                    (b.json, b.transaction),
                )
            } else {
                r matches Err(e) && e@ == spec_error_from_status(
                    b.status,
                    b.error,
                    b.framework_error,
                    b.verification_error,
                )
            },
        },
{
    match reply {
        Err(m) => Err(StoreKitError::Unknown(m)),
        Ok(b) => {
            if b.status == status::OK {
                Ok((b.json, b.transaction))
            } else {
                Err(error_from_status(b.status, b.error, b.framework_error, b.verification_error))
            }
        },
    }
}

/// Requires the JSON payload of a reply; `context` names it in the error message.
pub fn reply_json(json: Option<String>, context: &str) -> (r: Result<String, StoreKitError>)
    ensures
        match json {
            Some(j) => r == Ok::<String, StoreKitError>(j),
            None => r matches Err(e) && e@ == ErrorView::InvalidArgument(
                "missing JSON payload for "@ + context@,
            ),
        },
{
    match json {
        Some(j) => Ok(j),
        None => Err(StoreKitError::InvalidArgument(concat2("missing JSON payload for ", context))),
    }
}

} // verus!
