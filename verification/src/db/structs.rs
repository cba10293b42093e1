//! Event types of payment notifications.

use vstd::prelude::*;

verus! {

/// The notification's event type together with its form or payment type.
#[derive(Debug, Clone, Copy, PartialEq, Eq, Structural)]
pub enum EventType {
    OrderMembership,
    OrderDonation,
    OrderUnknown,
    PaymentMonthlyDonation,
    PaymentMembership,
    PaymentDonation,
    PaymentUnknown,
}

/// A recorded transaction.
pub struct Transaction {
    pub id: i32,
    pub username: String,
    pub message: String,
    pub email: String,
    pub day: chrono::NaiveDate,
    pub amount: i32,
    pub gems: i32,
    pub token: String,
    pub ha_id: i32,
    pub receipt_url: String,
    pub event_type: i32,
    pub is_mail_sent: bool,
    pub is_token_used: bool,
    pub is_checked: bool,
}

} // verus!
