//! The notification service: what travels to it, and what it answers.
//!
//! A notification is sent once after a successful write and never replayed.
//! The receiving side only observes: it validates nothing, stores nothing and
//! always acknowledges.

use vstd::prelude::*;

verus! {

/// The event that a product's creation sends downstream.
#[derive(Debug, PartialEq, Eq)]
pub struct ProductNotificationRequest {
    /// Identifier of the user who created the product, as text.
    pub user_id: String,
    /// Name of the product.
    pub name: String,
    /// Display name of the user; empty where the sender does not know it.
    pub username: String,
}

/// The acknowledgement of a notification.
#[derive(Debug, PartialEq, Eq)]
pub struct ProductNotificationResponse {
    pub success: bool,
    pub message: String,
}

/// How every acknowledgement begins; the product's name follows.
pub const ACKNOWLEDGEMENT_PREFIX: &'static str = "Notification received for product: ";

/// The receiving side of the notification channel.
#[derive(Debug, Default)]
pub struct NotificationServiceImpl {}

impl NotificationServiceImpl {
    /// Acknowledges a notification. Every request is accepted, whatever it
    /// holds, and the same request always gets the same answer.
    pub fn send_product_notification(&self, request: ProductNotificationRequest) -> (response:
        ProductNotificationResponse)
        ensures
            response.success,
            response.message@ == ACKNOWLEDGEMENT_PREFIX@ + request.name@,
    {
        let message = String::from_str(ACKNOWLEDGEMENT_PREFIX).concat(request.name.as_str());
        ProductNotificationResponse { success: true, message }
    }
}

} // verus!
