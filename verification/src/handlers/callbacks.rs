//! What the server makes of a payment notification.

use vstd::prelude::*;
use crate::db::methods::{callback_panics, callback_spec, callback_would_panic, from_callback, tx_matches};
use crate::db::models::NewTransaction;
use crate::json::{json_parsed, parse_json, JsonValue};
use vstd::string::StringExecFns;

verus! {

/// What a payment notification turns into.
pub enum CallbackOutcome {
    /// The key in the notification's path is not the configured one.
    WrongKey,
    /// The body is not JSON.
    NotJson,
    /// Reading a custom field would cut a character in two, where the
    /// reading stops with a panic.
    CutInsideChar,
    /// The notification, read as this value, announces no transaction.
    NoTransaction(JsonValue),
    /// The transactions to record, dated today.
    Transactions(NewTransaction, Option<NewTransaction>),
}

/// Reads a payment notification sent with `given_key` in its path:
/// refused unless the key is `callback_key`; then its body is read as JSON
/// and the transactions it announces are taken out (see `from_callback`).
/// `field_username` and `field_message` name the custom fields that hold
/// the donor's username and message.
pub fn callback_helloasso(callback_key: &str, given_key: &str, body: &[u8], field_username: &String,
    field_message: &String) -> (r: CallbackOutcome)
    ensures
        callback_key@ != given_key@ ==> r is WrongKey,
        callback_key@ == given_key@ ==> match json_parsed(body@) {
            None => r is NotJson,
            Some(j) => if callback_panics(j, field_username@, field_message@) {
                r is CutInsideChar
            } else {
                match callback_spec(j, field_username@, field_message@) {
                    None => r == CallbackOutcome::NoTransaction(j),
                    Some((f0, f1)) => r matches CallbackOutcome::Transactions(t0, t1) && tx_matches(t0, f0)
                        && match f1 {
                        None => t1 is None,
                        Some(g1) => t1 matches Some(u1) && tx_matches(u1, g1) && u1.day == t0.day,
                    },
                }
            },
        },
{
    if String::from_str(callback_key) != String::from_str(given_key) {
        return CallbackOutcome::WrongKey;
    }
    let jresp = match parse_json(body) {
        Some(j) => j,
        None => {
            return CallbackOutcome::NotJson;
        },
    };
    if callback_would_panic(&jresp, field_username, field_message) {
        return CallbackOutcome::CutInsideChar;
    }
    match from_callback(&jresp, field_username, field_message) {
        Some((t0, t1)) => CallbackOutcome::Transactions(t0, t1),
        None => CallbackOutcome::NoTransaction(jresp),
    }
}

} // verus!
