//! `StoreKit.PurchaseIntent`.

use vstd::prelude::*;

use crate::product::{is_product_of, products_carry_every_field, Product, ProductPayload};
use crate::subscription::{
    keeps_subscription_offer, offers_carry_every_field, spec_into_subscription_offer,
    SubscriptionOffer, SubscriptionOfferPayload,
};

verus! {

/// Wraps `StoreKit.PurchaseIntent`.
#[derive(Debug, Clone, PartialEq, Eq)]
pub struct PurchaseIntent {
    /// The product to purchase.
    pub product: Product,
    /// The offer to apply.
    pub offer: Option<SubscriptionOffer>,
}

impl PurchaseIntent {
    /// Returns the identifier of the product to purchase.
    pub fn id(&self) -> (r: &str)
        ensures
            r@ == self.product.id@,
    {
        self.product.id.as_str()
    }
}

/// The purchase intent object that the bridge sends as JSON.
pub struct PurchaseIntentPayload {
    pub product: ProductPayload,
    pub offer: Option<SubscriptionOfferPayload>,
}

impl PurchaseIntentPayload {
    /// Converts the bridge's purchase intent object.
    pub fn into_purchase_intent(self) -> (r: PurchaseIntent)
        ensures
            is_product_of(r.product, self.product),
            r.offer == match self.offer {
                Some(o) => Some(spec_into_subscription_offer(o)),
                None => None,
            },
    {
        let offer = match self.offer {
            Some(o) => Some(o.into_subscription_offer()),
            None => None,
        };
        PurchaseIntent { product: self.product.into_product(), offer }
    }
}


/// A purchase intent read from its object is for the product of that object, with its
/// identifier, names and prices, and has the offer of the object, field by field.
pub proof fn purchase_intents_carry_every_field(p: PurchaseIntentPayload, r: PurchaseIntent)
    requires
        is_product_of(r.product, p.product),
        r.offer == match p.offer {
            Some(o) => Some(spec_into_subscription_offer(o)),
            None => None,
        },
    ensures
        r.product.id == p.product.id,
        r.product.display_name == p.product.display_name,
        r.product.price == p.product.price,
        r.product.display_price == p.product.display_price,
        r.product.product_type@ == p.product.product_type@,
        match (r.offer, p.offer) {
            (Some(o), Some(q)) => keeps_subscription_offer(o, q),
            (None, None) => true,
            _ => false,
        },
{
    products_carry_every_field(p.product, r.product);
    match p.offer {
        Some(q) => { offers_carry_every_field(q, r.offer->0); },
        None => {},
    }
}

} // verus!
