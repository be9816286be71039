//! `StoreKit.Message`, which is unavailable on macOS.

use vstd::prelude::*;

use crate::error::{ErrorView, StoreKitError};
use crate::text::owned;

verus! {

/// Wraps `StoreKit.Message.Reason`.
#[derive(Debug, Clone, PartialEq, Eq)]
pub enum MessageReason {
    /// A generic message.
    Generic,
    /// Consent to a price increase.
    PriceIncreaseConsent,
    /// A billing issue.
    BillingIssue,
    /// A win-back offer.
    WinBackOffer,
    /// An unrecognized raw value.
    Unknown(i64),
}

/// Wraps `StoreKit.Message`.
#[derive(Debug, Clone, PartialEq, Eq)]
pub struct Message {
    /// Why the message is shown.
    pub reason: MessageReason,
    /// Localized reason.
    pub localized_reason: Option<String>,
}

/// The `StoreKit` message stream.
#[derive(Debug, Clone, Copy, Default)]
pub struct MessageStream;

/// The error that every message call returns on macOS.
pub open spec fn messages_unavailable() -> ErrorView {
    ErrorView::NotSupported("StoreKit.Message is unavailable on macOS"@)
}

impl Message {
    /// Returns whether `StoreKit.Message` is available on this platform: it never is on macOS.
    pub fn is_supported() -> (r: bool)
        ensures
            !r,
    {
        false
    }

    /// Returns the message stream where the API is available; on macOS it reports
    /// `NotSupported`.
    pub fn messages() -> (r: Result<MessageStream, StoreKitError>)
        ensures
            r matches Err(e) && e@ == messages_unavailable(),
    {
        Err(StoreKitError::NotSupported(owned("StoreKit.Message is unavailable on macOS")))
    }
}

impl MessageStream {
    /// Waits for the next message; on macOS it reports `NotSupported`.
    pub fn next(&mut self) -> (r: Result<Option<Message>, StoreKitError>)
        ensures
            r matches Err(e) && e@ == messages_unavailable(),
    {
        Err(StoreKitError::NotSupported(owned("StoreKit.Message is unavailable on macOS")))
    }
}

} // verus!
