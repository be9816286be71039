//! The state of a `StoreKit` stream, driven by the status of each step the bridge reports.

use vstd::prelude::*;

use crate::error::{
    error_from_status, spec_error_from_status, FrameworkErrorPayload, StoreKitError,
    VerificationErrorPayload,
};
use crate::status;

verus! {

/// What one step of a stream produced, by the bridge's status.
#[derive(Debug, Clone, Copy, PartialEq, Eq, Structural)]
pub enum StreamStep {
    /// A value arrived; the bridge's payload holds it.
    Item,
    /// The sequence ended.
    End,
    /// Nothing arrived in time; the stream stays open.
    Timeout,
    /// The bridge reported an error.
    Failure,
}

/// The step that a status gives.
pub open spec fn spec_step(status: i32) -> StreamStep {
    if status == status::OK {
        StreamStep::Item
    } else if status == status::END_OF_STREAM {
        StreamStep::End
    } else if status == status::TIMED_OUT {
        StreamStep::Timeout
    } else {
        StreamStep::Failure
    }
}

/// Whether a stream has reached the end of its sequence.
#[derive(Debug, Clone, Copy, PartialEq, Eq, Structural)]
pub struct StreamState {
    finished: bool,
}

impl StreamState {
    /// Whether the stream has ended.
    pub closed spec fn spec_finished(&self) -> bool {
        self.finished
    }

    /// A stream that has not ended.
    pub fn new() -> (r: Self)
        ensures
            !r.spec_finished(),
    {
        StreamState { finished: false }
    }

    /// Returns whether the stream has reached the end of its sequence.
    pub fn is_finished(&self) -> (r: bool)
        ensures
            r == self.spec_finished(),
    {
        self.finished
    }

    /// Records the status of one step: the end of the sequence finishes the stream, and
    /// nothing else changes whether it has finished.
    pub fn on_status(&mut self, status: i32) -> (r: StreamStep)
        ensures
            r == spec_step(status),
            final(self).spec_finished() == (old(self).spec_finished() || r == StreamStep::End),
    {
        if status == status::OK {
            StreamStep::Item
        } else if status == status::END_OF_STREAM {
            self.finished = true;
            StreamStep::End
        } else if status == status::TIMED_OUT {
            StreamStep::Timeout
        } else {
            StreamStep::Failure
        }
    }

    /// Takes one step of the stream, given the bridge's status for it: on `OK`, the item that
    /// `read_item` reads from the bridge's payload; at the end of the sequence, `None`, and the
    /// stream is finished; on any other status (a timeout among them, after which the stream
    /// stays open) the error for that status, built from the bridge's error message and that
    /// message read as its framework and verification error objects.
    pub fn next_step<T, F: FnOnce() -> Result<T, StoreKitError>>(
        &mut self,
        status: i32,
        read_item: F,
        message: Option<String>,
        framework: Option<FrameworkErrorPayload>,
        verification: Option<VerificationErrorPayload>,
    ) -> (r: Result<Option<T>, StoreKitError>)
        requires
            status == status::OK ==> call_requires(read_item, ()),
        ensures
            final(self).spec_finished() == (old(self).spec_finished() || status
                == status::END_OF_STREAM),
            status == status::OK ==> match r {
                Ok(Some(item)) => call_ensures(read_item, (), Ok::<T, StoreKitError>(item)),
                Ok(None) => false,
                Err(e) => call_ensures(read_item, (), Err::<T, StoreKitError>(e)),
            },
            status == status::END_OF_STREAM ==> r matches Ok(None),
            status != status::OK && status != status::END_OF_STREAM ==> (r matches Err(e) && e@
                == spec_error_from_status(status, message, framework, verification)),
    {
        match self.on_status(status) {
            StreamStep::Item => match read_item() {
                Ok(item) => Ok(Some(item)),
                Err(e) => Err(e),
            },
            StreamStep::End => Ok(None),
            _ => Err(error_from_status(status, message, framework, verification)),
        }
    }
}


/// A stream step reads as a timeout exactly when its status gives a timeout error, and as a
/// failure exactly when its status is neither a value, the end nor a timeout: the stream and
/// the error for a status agree on what the status means.
pub proof fn stream_steps_agree_with_status_errors(
    status: i32,
    message: Option<String>,
    framework: Option<FrameworkErrorPayload>,
    verification: Option<VerificationErrorPayload>,
)
    ensures
        spec_step(status) == StreamStep::Timeout <==> spec_error_from_status(
            status,
            message,
            framework,
            verification,
        ) is TimedOut,
        spec_step(status) == StreamStep::Item <==> status == status::OK,
        spec_step(status) == StreamStep::End <==> status == status::END_OF_STREAM,
{
}

} // verus!
