//! `StoreKit.Storefront`.

use vstd::prelude::*;

verus! {

/// Wraps `StoreKit.Storefront`.
#[derive(Debug, Clone, PartialEq, Eq)]
pub struct Storefront {
    /// Country code.
    pub country_code: String,
    /// Storefront identifier.
    pub id: String,
    /// Currency code.
    pub currency_code: Option<String>,
}

/// The storefront object that the bridge sends as JSON.
pub struct StorefrontPayload {
    pub country_code: String,
    pub id: String,
    pub currency_code: Option<String>,
}

/// The storefront that `into_storefront` builds.
pub open spec fn spec_into_storefront(p: StorefrontPayload) -> Storefront {
    Storefront { country_code: p.country_code, id: p.id, currency_code: p.currency_code }
}

impl StorefrontPayload {
    /// Converts the bridge's storefront object.
    pub fn into_storefront(self) -> (r: Storefront)
        ensures
            r == spec_into_storefront(self),
    {
        Storefront { country_code: self.country_code, id: self.id, currency_code: self.currency_code }
    }
}

/// Converts the bridge's optional storefront object.
pub fn into_optional_storefront(payload: Option<StorefrontPayload>) -> (r: Option<Storefront>)
    ensures
        r == match payload {
            Some(p) => Some(spec_into_storefront(p)),
            None => None::<Storefront>,
        },
{
    match payload {
        Some(p) => Some(p.into_storefront()),
        None => None,
    }
}


/// A storefront read from its object keeps its country code, identifier and currency code,
/// each in the field of the same name.
pub proof fn storefronts_carry_every_field(p: StorefrontPayload, r: Storefront)
    requires
        r == spec_into_storefront(p),
    ensures
        r.country_code == p.country_code,
        r.id == p.id,
        r.currency_code == p.currency_code,
{
}

} // verus!
