//! The statuses of a subscription group, as the group status stream yields them.

use vstd::prelude::*;

use crate::error::StoreKitError;
use crate::subscription_info::{
    into_subscription_statuses, statuses_outcome, SubscriptionStatus, SubscriptionStatusPayload,
};

verus! {

/// The `StoreKit` statuses of a subscription group.
#[derive(Debug)]
pub struct SubscriptionGroupStatuses {
    /// Subscription group identifier.
    pub group_id: String,
    /// The statuses.
    pub statuses: Vec<SubscriptionStatus>,
}

/// The group statuses object that the bridge sends as JSON.
pub struct SubscriptionGroupStatusesPayload {
    pub group_id: String,
    pub statuses: Vec<SubscriptionStatusPayload>,
}

impl SubscriptionGroupStatusesPayload {
    /// Converts the bridge's group statuses object, stopping at the first status that fails.
    pub fn into_group_statuses(self) -> (r: Result<SubscriptionGroupStatuses, StoreKitError>)
        ensures
            match r {
                Ok(g) => g.group_id == self.group_id && statuses_outcome(
                    self.statuses@,
                    Ok::<Vec<SubscriptionStatus>, StoreKitError>(g.statuses),
                ),
                Err(e) => statuses_outcome(
                    self.statuses@,
                    Err::<Vec<SubscriptionStatus>, StoreKitError>(e),
                ),
            },
    {
        let statuses = into_subscription_statuses(self.statuses)?;
        Ok(SubscriptionGroupStatuses { group_id: self.group_id, statuses })
    }
}

} // verus!
