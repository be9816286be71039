//! The bundle, receipt, payment and device context used alongside `StoreKit` calls.

use vstd::prelude::*;

verus! {

/// Bundle, receipt, payment and device-verification context.
#[derive(Debug, Clone, PartialEq, Eq)]
pub struct StoreContext {
    pub bundle_identifier: Option<String>,
    pub bundle_name: Option<String>,
    pub bundle_version: Option<String>,
    pub receipt_url: Option<String>,
    pub can_make_payments: bool,
    pub device_verification_id: Option<String>,
    pub is_bundled: bool,
    pub executable_path: Option<String>,
}

/// The store context object that the bridge sends as JSON.
pub struct StoreContextPayload {
    pub bundle_identifier: Option<String>,
    pub bundle_name: Option<String>,
    pub bundle_version: Option<String>,
    pub receipt_url: Option<String>,
    pub can_make_payments: bool,
    pub device_verification_id: Option<String>,
    pub is_bundled: bool,
    pub executable_path: Option<String>,
}

/// The store context that `into_store_context` builds.
pub open spec fn spec_into_store_context(p: StoreContextPayload) -> StoreContext {
    StoreContext {
        bundle_identifier: p.bundle_identifier,
        bundle_name: p.bundle_name,
        bundle_version: p.bundle_version,
        receipt_url: p.receipt_url,
        can_make_payments: p.can_make_payments,
        device_verification_id: p.device_verification_id,
        is_bundled: p.is_bundled,
        executable_path: p.executable_path,
    }
}

impl StoreContextPayload {
    /// Converts the bridge's store context object.
    pub fn into_store_context(self) -> (r: StoreContext)
        ensures
            r == spec_into_store_context(self),
    {
        StoreContext {
            bundle_identifier: self.bundle_identifier,
            bundle_name: self.bundle_name,
            bundle_version: self.bundle_version,
            receipt_url: self.receipt_url,
            can_make_payments: self.can_make_payments,
            device_verification_id: self.device_verification_id,
            is_bundled: self.is_bundled,
            executable_path: self.executable_path,
        }
    }
}


/// A store context read from its object keeps each of its fields, each in the field of the
/// same name.
pub proof fn store_contexts_carry_every_field(p: StoreContextPayload, r: StoreContext)
    requires
        r == spec_into_store_context(p),
    ensures
        r.bundle_identifier == p.bundle_identifier,
        r.bundle_name == p.bundle_name,
        r.bundle_version == p.bundle_version,
        r.receipt_url == p.receipt_url,
        r.can_make_payments == p.can_make_payments,
        r.device_verification_id == p.device_verification_id,
        r.is_bundled == p.is_bundled,
        r.executable_path == p.executable_path,
{
}

} // verus!
