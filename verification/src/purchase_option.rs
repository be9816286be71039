//! The result of `StoreKit.Product.purchase(options:)`.

use vstd::prelude::*;

use crate::error::{ErrorView, StoreKitError};
use crate::transaction::{
    is_marked_result, mark_unverified, transaction_outcome, Transaction, TransactionHandle,
    TransactionPayload,
};
use crate::text::{concat3, owned};
use crate::verification_result::{finish, finish_outcome, VerificationResult, VerificationResultPayload};

verus! {

/// The result of `StoreKit.Product.purchase(options:)`.
#[derive(Debug)]
pub enum PurchaseResult {
    /// The purchase succeeded.
    Success(VerificationResult<Transaction>),
    /// The person cancelled.
    UserCancelled,
    /// The purchase awaits further action.
    Pending,
}

/// The purchase result object that the bridge sends as JSON.
pub struct PurchaseResultPayload {
    /// `"success"`, `"userCancelled"` or `"pending"`.
    pub kind: String,
    /// The transaction, for a successful purchase.
    pub verification_result: Option<VerificationResultPayload<TransactionPayload>>,
}

/// `r` is `raw` with the transaction of an unverified result marked with its failure.
pub open spec fn marked_outcome(
    raw: Result<VerificationResult<Transaction>, StoreKitError>,
    r: Result<VerificationResult<Transaction>, StoreKitError>,
) -> bool {
    match raw {
        Err(e) => r == Err::<VerificationResult<Transaction>, StoreKitError>(e),
        Ok(v) => r matches Ok(w) && is_marked_result(w, v),
    }
}

/// The transaction result that the bridge's verification result object yields, with `handle`
/// as the live handle: the converted transaction in the result that `finish` assembles, marked
/// with the result's failure when the result is unverified.
pub open spec fn live_transaction_result_of(
    p: VerificationResultPayload<TransactionPayload>,
    handle: Option<TransactionHandle>,
    r: Result<VerificationResult<Transaction>, StoreKitError>,
) -> bool {
    exists|mapped: Result<Transaction, StoreKitError>, raw: Result<VerificationResult<Transaction>, StoreKitError>|
        #![trigger transaction_outcome(handle, p.payload, mapped), finish_outcome(p.kind@, mapped, p.metadata, p.verification_error, raw)]
        transaction_outcome(handle, p.payload, mapped) && finish_outcome(
            p.kind@,
            mapped,
            p.metadata,
            p.verification_error,
            raw,
        ) && marked_outcome(raw, r)
}

impl VerificationResultPayload<TransactionPayload> {
    /// Converts the bridge's verification result object for a transaction, with `handle` as its
    /// live handle. The transaction of an unverified result is marked with the result's failure,
    /// so that it cannot be finished.
    pub fn into_transaction_result(self, handle: Option<TransactionHandle>) -> (r: Result<
        VerificationResult<Transaction>,
        StoreKitError,
    >)
        ensures
            live_transaction_result_of(self, handle, r),
    {
        let ghost p = self;
        let mapped = Transaction::from_raw_parts(handle, self.payload);
        let raw = finish(self.kind, mapped, self.metadata, self.verification_error);
        let ghost raw_g = raw;
        let r = match raw {
            Ok(v) => Ok(mark_unverified(v)),
            Err(e) => Err(e),
        };
        proof {
            assert(transaction_outcome(handle, p.payload, mapped));
            assert(finish_outcome(p.kind@, mapped, p.metadata, p.verification_error, raw_g));
            assert(marked_outcome(raw_g, r));
        }
        r
    }
}

/// How `into_purchase_result` reads a purchase result object. The handle ends up in the result
/// only for a successful purchase whose transaction converts.
pub open spec fn purchase_outcome(
    p: PurchaseResultPayload,
    handle: Option<TransactionHandle>,
    r: Result<PurchaseResult, StoreKitError>,
) -> bool {
    if p.kind@ == "success"@ {
        match p.verification_result {
            None => r matches Err(e) && e@ == ErrorView::Unknown(
                "StoreKit reported a successful purchase without a verification result"@,
            ),
            Some(vr) => match r {
                Ok(PurchaseResult::Success(t)) => live_transaction_result_of(vr, handle, Ok(t)),
                Ok(_) => false,
                Err(e) => live_transaction_result_of(vr, handle, Err(e)),
            },
        }
    } else if p.kind@ == "userCancelled"@ {
        r matches Ok(PurchaseResult::UserCancelled)
    } else if p.kind@ == "pending"@ {
        r matches Ok(PurchaseResult::Pending)
    } else {
        r matches Err(e) && e@ == ErrorView::Unknown(
            "StoreKit returned an unknown purchase result kind '"@ + p.kind@ + "'"@,
        )
    }
}

impl PurchaseResultPayload {
    /// Reads the bridge's purchase result object; `handle` is the live transaction that came
    /// with it. Only `Ok(PurchaseResult::Success(..))` keeps the handle.
    pub fn into_purchase_result(self, handle: Option<TransactionHandle>) -> (r: Result<
        PurchaseResult,
        StoreKitError,
    >)
        ensures
            purchase_outcome(self, handle, r),
    {
        if crate::text::text_eq(self.kind.as_str(), "success") {
            match self.verification_result {
                None => Err(
                    StoreKitError::Unknown(
                        owned("StoreKit reported a successful purchase without a verification result"),
                    ),
                ),
                Some(vr) => {
                    match vr.into_transaction_result(handle) {
                        Ok(t) => Ok(PurchaseResult::Success(t)),
                        Err(e) => Err(e),
                    }
                },
            }
        } else if crate::text::text_eq(self.kind.as_str(), "userCancelled") {
            Ok(PurchaseResult::UserCancelled)
        } else if crate::text::text_eq(self.kind.as_str(), "pending") {
            Ok(PurchaseResult::Pending)
        } else {
            Err(
                StoreKitError::Unknown(
                    concat3(
                        "StoreKit returned an unknown purchase result kind '",
                        self.kind.as_str(),
                        "'",
                    ),
                ),
            )
        }
    }
}

} // verus!
