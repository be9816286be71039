//! `StoreKit.Product` and its product type.

use vstd::prelude::*;

verus! {

/// Wraps `StoreKit.Product.ProductType`.
#[derive(Debug, Clone, PartialEq, Eq)]
pub enum ProductType {
    /// A consumable.
    Consumable,
    /// A non-consumable.
    NonConsumable,
    /// An auto-renewable subscription.
    AutoRenewable,
    /// A non-renewing subscription.
    NonRenewing,
    /// An unrecognized raw value, kept as it was received.
    Unknown(String),
}

impl View for ProductType {
    type V = Seq<char>;

    /// The raw `StoreKit` text of the value.
    open spec fn view(&self) -> Seq<char> {
        match self {
            ProductType::Consumable => "consumable"@,
            ProductType::NonConsumable => "nonConsumable"@,
            ProductType::AutoRenewable => "autoRenewable"@,
            ProductType::NonRenewing => "nonRenewing"@,
            ProductType::Unknown(value) => value@,
        }
    }
}

impl ProductType {
    /// `true` when the raw text names a known case.
    pub open spec fn is_known_text(text: Seq<char>) -> bool {
        text == "consumable"@ || text == "nonConsumable"@ || text == "autoRenewable"@ || text == "nonRenewing"@
    }

    /// A value is canonical when `Unknown` only holds text that names no known case.
    pub open spec fn is_canonical(&self) -> bool {
        match self {
            ProductType::Unknown(value) => !Self::is_known_text(value@),
            _ => true,
        }
    }

    /// The value that `from_raw` builds from `raw`.
    pub open spec fn spec_from_raw(raw: String) -> Self {
        if raw@ == "consumable"@ {
            ProductType::Consumable
        } else if raw@ == "nonConsumable"@ {
            ProductType::NonConsumable
        } else if raw@ == "autoRenewable"@ {
            ProductType::AutoRenewable
        } else if raw@ == "nonRenewing"@ {
            ProductType::NonRenewing
        } else {
            ProductType::Unknown(raw)
        }
    }

    /// Returns the raw `StoreKit` text for this value.
    pub fn as_str(&self) -> (s: &str)
        ensures
            s@ == self@,
    {
        match self {
            ProductType::Consumable => "consumable",
            ProductType::NonConsumable => "nonConsumable",
            ProductType::AutoRenewable => "autoRenewable",
            ProductType::NonRenewing => "nonRenewing",
            ProductType::Unknown(value) => value.as_str(),
        }
    }

    /// Builds a value from the raw `StoreKit` text, keeping unrecognized text in `Unknown`.
    pub fn from_raw(raw: String) -> (r: Self)
        ensures
            r == Self::spec_from_raw(raw),
            r@ == raw@,
            r.is_canonical(),
    {
        if crate::text::text_eq(raw.as_str(), "consumable") {
            ProductType::Consumable
        } else if crate::text::text_eq(raw.as_str(), "nonConsumable") {
            ProductType::NonConsumable
        } else if crate::text::text_eq(raw.as_str(), "autoRenewable") {
            ProductType::AutoRenewable
        } else if crate::text::text_eq(raw.as_str(), "nonRenewing") {
            ProductType::NonRenewing
        } else {
            ProductType::Unknown(raw)
        }
    }

    /// Reading a value back as text gives the text it was built from, and the value is canonical.
    pub proof fn raw_text_round_trip(raw: String)
        ensures
            Self::spec_from_raw(raw)@ == raw@,
            Self::spec_from_raw(raw).is_canonical(),
    {
    }

    /// Two canonical values with the same raw text are the same case; for a known case they are equal.
    pub proof fn canonical_text_determines_value(a: Self, b: Self)
        requires
            a.is_canonical(),
            b.is_canonical(),
            a@ == b@,
        ensures
            (a is Unknown) == (b is Unknown),
            !(a is Unknown) ==> a == b,
    {
        reveal_strlit("consumable");
        reveal_strlit("nonConsumable");
        reveal_strlit("autoRenewable");
        reveal_strlit("nonRenewing");
        assert("consumable"@.len() != "nonConsumable"@.len());
        assert("consumable"@.len() != "autoRenewable"@.len());
        assert("consumable"@.len() != "nonRenewing"@.len());
        assert("nonConsumable"@[0] != "autoRenewable"@[0]);
        assert("nonConsumable"@.len() != "nonRenewing"@.len());
        assert("autoRenewable"@.len() != "nonRenewing"@.len());
    }
}

} // verus!

use crate::private::convert_all;
use crate::subscription_info::{is_subscription_info_of, SubscriptionInfo, SubscriptionInfoPayload};

verus! {

/// Wraps `StoreKit.Product`.
#[derive(Debug, Clone, PartialEq, Eq)]
pub struct Product {
    /// Product identifier.
    pub id: String,
    /// Localized name.
    pub display_name: String,
    /// Localized description.
    pub description: String,
    /// Price.
    pub price: String,
    /// Localized display price.
    pub display_price: String,
    /// Product type.
    pub product_type: ProductType,
    /// Subscription details, for a subscription.
    pub subscription: Option<SubscriptionInfo>,
}

/// The product object that the bridge sends as JSON.
pub struct ProductPayload {
    pub id: String,
    pub display_name: String,
    pub description: String,
    pub price: String,
    pub display_price: String,
    pub product_type: String,
    pub subscription: Option<SubscriptionInfoPayload>,
}

/// `r` is what `into_product` builds from `p`.
pub open spec fn is_product_of(r: Product, p: ProductPayload) -> bool {
    &&& r.id == p.id
    &&& r.display_name == p.display_name
    &&& r.description == p.description
    &&& r.price == p.price
    &&& r.display_price == p.display_price
    &&& r.product_type == ProductType::spec_from_raw(p.product_type)
    &&& match (r.subscription, p.subscription) {
        (Some(i), Some(q)) => is_subscription_info_of(i, q),
        (None, None) => true,
        _ => false,
    }
}

impl ProductPayload {
    /// Converts the bridge's product object.
    pub fn into_product(self) -> (r: Product)
        ensures
            is_product_of(r, self),
    {
        let subscription = match self.subscription {
            Some(s) => Some(s.into_subscription_info()),
            None => None,
        };
        Product {
            id: self.id,
            display_name: self.display_name,
            description: self.description,
            price: self.price,
            display_price: self.display_price,
            product_type: ProductType::from_raw(self.product_type),
            subscription,
        }
    }
}

/// Converts the bridge's list of product objects, keeping their order.
pub fn into_products(payloads: Vec<ProductPayload>) -> (r: Vec<Product>)
    ensures
        r@.len() == payloads@.len(),
        forall|i: int| 0 <= i < payloads@.len() ==> is_product_of(#[trigger] r@[i], payloads@[i]),
{
    convert_all(payloads, ProductPayload::into_product)
}


/// A product read from a product object carries its identifier, names, description, price and
/// display price over unchanged, each to the field of the same name, keeps the raw text of its
/// type, and has subscription info exactly when the object has, for the same group.
pub proof fn products_carry_every_field(p: ProductPayload, r: Product)
    requires
        is_product_of(r, p),
    ensures
        r.id == p.id,
        r.display_name == p.display_name,
        r.description == p.description,
        r.price == p.price,
        r.display_price == p.display_price,
        r.product_type@ == p.product_type@,
        r.subscription is Some <==> p.subscription is Some,
        r.subscription matches Some(i) ==> i.subscription_group_id
            == p.subscription->0.subscription_group_id,
{
    ProductType::raw_text_round_trip(p.product_type);
}

} // verus!
