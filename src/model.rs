//! The values that travel between the HTTP adapter and the subscription service.
use vstd::prelude::*;

verus! {

/// Describes one subscription: the callback URL that notifications are sent to,
/// and the product category they are about.
#[derive(Clone, Debug)]
pub struct SubscriberRequest {
    pub url: String,
    pub product_type: String,
}

/// A failure reported by the subscription service: the HTTP status that names its
/// kind, and a human-readable message.
#[derive(Clone, Debug)]
pub struct ErrorResponse {
    pub status_code: u16,
    pub message: String,
}

/// What the subscription service answers to one call.
pub type ServiceOutcome = Result<SubscriberRequest, ErrorResponse>;

/// The outcome carries no descriptor for a product type other than `product_type`.
pub open spec fn echoes(product_type: Seq<char>, outcome: ServiceOutcome) -> bool {
    outcome matches Ok(d) ==> d.product_type@ == product_type
}

} // verus!
