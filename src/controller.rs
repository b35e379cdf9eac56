//! The two handlers. Each request is served in two steps: the handler decides which
//! call to make on the subscription service, and `respond` shapes the service's
//! answer into the HTTP reply.
use vstd::prelude::*;

use crate::model::{echoes, ErrorResponse, ServiceOutcome, SubscriberRequest};

verus! {

/// The status of a reply that carries a subscriber descriptor.
pub const STATUS_OK: u16 = 200;

/// The two operations that the subscription service offers.
#[derive(Clone, Copy, Debug, PartialEq, Eq, Structural)]
pub enum Operation {
    Subscribe,
    Unsubscribe,
}

/// The one call that a request delegates to the subscription service.
#[derive(Clone, Debug)]
pub struct ServiceCall {
    pub operation: Operation,
    pub product_type: String,
}

/// The payload of a reply, sent as JSON.
#[derive(Clone, Debug)]
pub enum ReplyBody {
    Subscriber(SubscriberRequest),
    Failure(ErrorResponse),
}

/// An HTTP reply: its status and its body.
#[derive(Clone, Debug)]
pub struct Reply {
    pub status: u16,
    pub body: ReplyBody,
}

/// `call` asks for `operation` on exactly the product type of the request path.
pub open spec fn delegates(call: ServiceCall, operation: Operation, product_type: Seq<char>) -> bool {
    call.operation == operation && call.product_type@ == product_type
}

/// The reply to a request that the service answered with `outcome`: a descriptor
/// goes out with status 200, an error goes out as it came, under its own status.
pub open spec fn reply_of(outcome: ServiceOutcome) -> Reply {
    match outcome {
        Ok(d) => Reply { status: STATUS_OK, body: ReplyBody::Subscriber(d) },
        Err(e) => Reply { status: e.status_code, body: ReplyBody::Failure(e) },
    }
}

/// Handles `GET /subscribe/<product_type>`: the request is delegated, once, to the
/// service's subscribe operation for that product type.
pub fn subscribe(product_type: &str) -> (call: ServiceCall)
    requires
        product_type@.len() > 0,
    ensures
        delegates(call, Operation::Subscribe, product_type@),
{
    ServiceCall { operation: Operation::Subscribe, product_type: product_type.to_owned() }
}

/// Handles `GET /unsubscribe/<product_type>`: the request is delegated, once, to the
/// service's unsubscribe operation for that product type.
pub fn unsubscribe(product_type: &str) -> (call: ServiceCall)
    requires
        product_type@.len() > 0,
    ensures
        delegates(call, Operation::Unsubscribe, product_type@),
{
    ServiceCall { operation: Operation::Unsubscribe, product_type: product_type.to_owned() }
}

/// Shapes the service's answer into the reply of the request.
pub fn respond(outcome: ServiceOutcome) -> (reply: Reply)
    ensures
        reply == reply_of(outcome),
{
    match outcome {
        Ok(d) => Reply { status: STATUS_OK, body: ReplyBody::Subscriber(d) },
        Err(e) => Reply { status: e.status_code, body: ReplyBody::Failure(e) },
    }
}

/// A subscribe request for a non-empty `p`, answered by a service that describes
/// the product type it was asked about, replies with status 200 exactly when the
/// service succeeded, and then with a descriptor whose product type is `p`.
pub proof fn subscribe_success_echoes_product_type(
    p: Seq<char>,
    call: ServiceCall,
    outcome: ServiceOutcome,
)
    requires
        p.len() > 0,
        delegates(call, Operation::Subscribe, p),
        echoes(call.product_type@, outcome),
    ensures
        reply_of(outcome).body is Subscriber <==> outcome is Ok,
        outcome is Ok ==> reply_of(outcome).status == STATUS_OK,
        reply_of(outcome).body matches ReplyBody::Subscriber(d) ==> d.product_type@ == p,
{
}

/// An unsubscribe request for a non-empty `p`, answered by a service that describes
/// the product type it was asked about, replies with status 200 exactly when the
/// service succeeded, and then with a descriptor whose product type is `p`.
pub proof fn unsubscribe_success_echoes_product_type(
    p: Seq<char>,
    call: ServiceCall,
    outcome: ServiceOutcome,
)
    requires
        p.len() > 0,
        delegates(call, Operation::Unsubscribe, p),
        echoes(call.product_type@, outcome),
    ensures
        reply_of(outcome).body is Subscriber <==> outcome is Ok,
        outcome is Ok ==> reply_of(outcome).status == STATUS_OK,
        reply_of(outcome).body matches ReplyBody::Subscriber(d) ==> d.product_type@ == p,
{
}

/// An error of the service reaches the reply unaltered: its status becomes the
/// reply's status and the error itself the reply's body, whichever operation failed.
pub proof fn service_error_passes_through(e: ErrorResponse)
    ensures
        reply_of(Err(e)).status == e.status_code,
        reply_of(Err(e)).body == ReplyBody::Failure(e),
{
}

} // verus!
