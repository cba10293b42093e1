//! A transaction to be recorded.

use vstd::prelude::*;

verus! {

#[verifier::external_type_specification]
#[verifier::external_body]
pub struct ExNaiveDate(chrono::NaiveDate);

/// A new donation or membership transaction.
pub struct NewTransaction {
    pub username: String,
    pub message: String,
    pub email: String,
    pub day: chrono::NaiveDate,
    pub amount: i32,
    pub gems: i32,
    pub token: String,
    pub ha_id: i32,
    pub receipt_url: String,
    pub event_type: i32,
    pub is_mail_sent: bool,
    pub is_token_used: bool,
    pub is_checked: bool,
}

} // verus!
