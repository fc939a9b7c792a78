//! The sending side of the notification channel: what is put on the wire.

use vstd::prelude::*;
use crate::notification::ProductNotificationRequest;

verus! {

/// How many seconds one notification may take before the sender gives it
/// up. The write that triggered it is answered either way.
pub const NOTIFICATION_TIMEOUT_SECONDS: u64 = 5;

/// Packages the event for the notification service: who acted, and on what.
/// The sender knows no display name, so that field stays empty.
pub fn notification_request(user_id: &str, product_name: &str) -> (request:
    ProductNotificationRequest)
    ensures
        request.user_id@ == user_id@,
        request.name@ == product_name@,
        request.username@ == Seq::<char>::empty(),
{
    ProductNotificationRequest {
        user_id: String::from_str(user_id),
        name: String::from_str(product_name),
        username: String::new(),
    }
}

} // verus!
