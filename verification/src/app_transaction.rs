//! `StoreKit.AppTransaction`.

use vstd::prelude::*;

use crate::app_store::{AppStoreEnvironment, AppStorePlatform};
use crate::error::StoreKitError;
use crate::private::{base64_standard, decode_base64, spec_decode_base64};
use crate::transaction::keeps_optional_text;

verus! {

/// Wraps `StoreKit.AppTransaction`.
#[derive(Debug, Clone, PartialEq, Eq)]
pub struct AppTransaction {
    pub app_id: Option<u64>,
    pub app_transaction_id: String,
    pub app_version: String,
    pub app_version_id: Option<u64>,
    pub bundle_id: String,
    pub environment: AppStoreEnvironment,
    pub original_app_version: String,
    pub original_purchase_date: String,
    pub original_platform: Option<AppStorePlatform>,
    pub preorder_date: Option<String>,
    /// Decoded JSON representation.
    pub json_representation: Vec<u8>,
}

/// The app transaction object that the bridge sends as JSON.
pub struct AppTransactionPayload {
    pub app_id: Option<u64>,
    pub app_transaction_id: String,
    pub app_version: String,
    pub app_version_id: Option<u64>,
    pub bundle_id: String,
    pub environment: String,
    pub original_app_version: String,
    pub original_purchase_date: String,
    pub original_platform: Option<String>,
    pub preorder_date: Option<String>,
    pub json_representation_base64: String,
}

/// How `into_app_transaction` converts an app transaction object: it fails only when the JSON
/// representation is not Base64.
pub open spec fn app_transaction_outcome(p: AppTransactionPayload, r: Result<AppTransaction, StoreKitError>) -> bool {
    match spec_decode_base64(p.json_representation_base64@, "app transaction JSON representation"@) {
        Err(e) => r matches Err(x) && x@ == e,
        Ok(json) => r matches Ok(t) && t.app_id == p.app_id && t.app_transaction_id
            == p.app_transaction_id && t.app_version == p.app_version && t.app_version_id
            == p.app_version_id && t.bundle_id == p.bundle_id && t.environment
            == AppStoreEnvironment::spec_from_raw(p.environment) && t.original_app_version
            == p.original_app_version && t.original_purchase_date == p.original_purchase_date
            && t.original_platform == match p.original_platform {
            Some(x) => Some(AppStorePlatform::spec_from_raw(x)),
            None => None,
        } && t.preorder_date == p.preorder_date && t.json_representation@ == json,
    }
}

impl AppTransactionPayload {
    /// Converts the bridge's app transaction object.
    pub fn into_app_transaction(self) -> (r: Result<AppTransaction, StoreKitError>)
        ensures
            app_transaction_outcome(self, r),
    {
        let json_representation = decode_base64(
            self.json_representation_base64.as_str(),
            "app transaction JSON representation",
        )?;
        let original_platform = match self.original_platform {
            Some(x) => Some(AppStorePlatform::from_raw(x)),
            None => None,
        };
        Ok(
            AppTransaction {
                app_id: self.app_id,
                app_transaction_id: self.app_transaction_id,
                app_version: self.app_version,
                app_version_id: self.app_version_id,
                bundle_id: self.bundle_id,
                environment: AppStoreEnvironment::from_raw(self.environment),
                original_app_version: self.original_app_version,
                original_purchase_date: self.original_purchase_date,
                original_platform,
                preorder_date: self.preorder_date,
                json_representation,
            },
        )
    }
}


/// Converting an app transaction object succeeds exactly when its JSON representation is valid
/// Base64, and the app transaction then carries each field over unchanged: the current version
/// to the current version and the original version to the original version, each enumeration
/// with the raw text it was read from, and the JSON representation as the decoding of its field.
pub proof fn app_transactions_carry_every_field(
    p: AppTransactionPayload,
    r: Result<AppTransaction, StoreKitError>,
)
    requires
        app_transaction_outcome(p, r),
    ensures
        r is Ok <==> base64_standard(p.json_representation_base64@) is Ok,
        r matches Ok(t) ==> {
            &&& t.app_id == p.app_id
            &&& t.app_transaction_id == p.app_transaction_id
            &&& t.app_version == p.app_version
            &&& t.app_version_id == p.app_version_id
            &&& t.bundle_id == p.bundle_id
            &&& t.environment@ == p.environment@
            &&& t.original_app_version == p.original_app_version
            &&& t.original_purchase_date == p.original_purchase_date
            &&& keeps_optional_text(t.original_platform, p.original_platform)
            &&& t.preorder_date == p.preorder_date
            &&& base64_standard(p.json_representation_base64@) == Ok::<Seq<u8>, Seq<char>>(
                t.json_representation@,
            )
        },
{
    AppStoreEnvironment::raw_text_round_trip(p.environment);
    match p.original_platform {
        Some(x) => { AppStorePlatform::raw_text_round_trip(x); },
        None => {},
    }
}

} // verus!
