//! Creating a product.
//!
//! The write and the notification are done by the caller; this module decides
//! what follows each of them. The caller starts in `ProductFlow::Storing`,
//! performs the action it is given, and hands back what happened, until it is
//! told to respond.

use vstd::prelude::*;
use crate::dtos::ProductResponse;
use crate::error::AppError;
use crate::grpc_client::notification_request;
use crate::model::Product;
use crate::notification::ProductNotificationRequest;
use crate::utils::id::{format_uuid, uuid_text};

verus! {

/// Where the creation of a product stands.
#[derive(Debug)]
pub enum ProductFlow {
    /// The product is being written to the store on behalf of this user.
    Storing(u128),
    /// The product is stored and the notification is under way.
    Notifying(Product),
    /// The response has been decided.
    Done,
}

/// What the caller reports back.
#[derive(Debug)]
pub enum ProductEvent {
    /// The store returned the created product.
    Stored(Product),
    /// The store failed.
    StoreFailed(sqlx::Error),
    /// The notification call ended: with success, or with the text of its
    /// failure.
    Notified(Result<(), String>),
}

/// What the caller does next.
#[derive(Debug)]
pub enum ProductAction {
    /// Send this event to the notification service, once, and report how the
    /// call ended.
    Notify(ProductNotificationRequest),
    /// Answer the client with `response`; write `warning`, if there is one, to
    /// the log at warning level.
    Respond { response: Result<ProductResponse, AppError>, warning: Option<String> },
}

/// How the warning about a failed notification begins.
pub const NOTIFICATION_WARNING_PREFIX: &'static str = "Failed to send notification: ";

/// What is logged for a notification that ended as `outcome`: nothing on
/// success, the prefixed failure text otherwise.
pub open spec fn notification_warning(outcome: Result<(), String>) -> Option<Seq<char>> {
    match outcome {
        Ok(_) => None,
        Err(failure) => Some(NOTIFICATION_WARNING_PREFIX@ + failure@),
    }
}

/// The state that follows `flow` on `event`: a stored product leads on to the
/// notification, everything else ends the flow.
pub open spec fn next_flow(flow: ProductFlow, event: ProductEvent) -> ProductFlow {
    match (flow, event) {
        (ProductFlow::Storing(_), ProductEvent::Stored(product)) => ProductFlow::Notifying(product),
        _ => ProductFlow::Done,
    }
}

/// Whether the step from `flow` on `event` asks for a notification.
pub open spec fn asks_notification(flow: ProductFlow, event: ProductEvent) -> bool {
    flow is Storing && event is Stored
}

/// How many notifications are asked for while `events` are taken one after
/// the other, starting in `flow`.
pub open spec fn notifications_asked(flow: ProductFlow, events: Seq<ProductEvent>) -> nat
    decreases events.len(),
{
    if events.len() == 0 {
        0
    } else {
        let asked: nat = if asks_notification(flow, events[0]) {
            1
        } else {
            0
        };
        asked + notifications_asked(next_flow(flow, events[0]), events.drop_first())
    }
}

/// One step of a product's creation.
///
/// - While storing: a stored product leads to one notification, naming the
///   acting user and the product; a store failure is the response.
/// - While notifying: the response is the stored product, whatever became of
///   the notification. A failed notification leaves a warning and nothing
///   else: it never reaches the response.
/// - An event that the state does not wait for ends the flow with an internal
///   error.
pub fn create_product(flow: ProductFlow, event: ProductEvent) -> (step: (ProductFlow, ProductAction))
    ensures
        step.0 == next_flow(flow, event),
        step.1 is Notify <==> asks_notification(flow, event),
        match (flow, event) {
            (ProductFlow::Storing(user_id), ProductEvent::Stored(product)) => {
                &&& step.0 == ProductFlow::Notifying(product)
                &&& step.1 matches ProductAction::Notify(request)
                &&& request.user_id@ == uuid_text(user_id)
                &&& request.name@ == product.name@
                &&& request.username@ == Seq::<char>::empty()
            },
            (ProductFlow::Storing(_), ProductEvent::StoreFailed(cause)) => {
                &&& step.0 == ProductFlow::Done
                &&& step.1 == (ProductAction::Respond {
                    response: Err(AppError::Database(cause)),
                    warning: None,
                })
            },
            (ProductFlow::Notifying(product), ProductEvent::Notified(outcome)) => {
                &&& step.0 == ProductFlow::Done
                &&& step.1 matches ProductAction::Respond { response, warning }
                &&& response == Ok::<ProductResponse, AppError>(ProductResponse::showing(product))
                &&& match warning {
                    Some(text) => notification_warning(outcome) == Some(text@),
                    None => notification_warning(outcome) is None,
                }
            },
            _ => {
                &&& step.0 == ProductFlow::Done
                &&& step.1 == (ProductAction::Respond {
                    response: Err(AppError::InternalServerError),
                    warning: None,
                })
            },
        },
{
    match (flow, event) {
        (ProductFlow::Storing(user_id), ProductEvent::Stored(product)) => {
            let actor = format_uuid(user_id);
            let request = notification_request(actor.as_str(), product.name.as_str());
            (ProductFlow::Notifying(product), ProductAction::Notify(request))
        },
        (ProductFlow::Storing(_), ProductEvent::StoreFailed(cause)) => (
            ProductFlow::Done,
            ProductAction::Respond { response: Err(AppError::Database(cause)), warning: None },
        ),
        (ProductFlow::Notifying(product), ProductEvent::Notified(outcome)) => {
            let warning = match outcome {
                Ok(_) => None,
                Err(failure) => Some(
                    String::from_str(NOTIFICATION_WARNING_PREFIX).concat(failure.as_str()),
                ),
            };
            (
                ProductFlow::Done,
                ProductAction::Respond {
                    response: Ok(ProductResponse::from_product(product)),
                    warning,
                },
            )
        },
        _ => (
            ProductFlow::Done,
            ProductAction::Respond { response: Err(AppError::InternalServerError), warning: None },
        ),
    }
}

/// A notification is attempted at most once, whatever the caller reports and
/// in whatever order: there is no retry. Once the flow has left its first
/// state, none is asked for at all.
pub proof fn lemma_at_most_one_notification(flow: ProductFlow, events: Seq<ProductEvent>)
    ensures
        notifications_asked(flow, events) <= 1,
        !(flow is Storing) ==> notifications_asked(flow, events) == 0,
    decreases events.len(),
{
    if events.len() > 0 {
        lemma_at_most_one_notification(next_flow(flow, events[0]), events.drop_first());
    }
}

} // verus!
