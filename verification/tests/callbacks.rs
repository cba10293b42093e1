use lsforms::db::methods::{callback_would_panic, from_callback, override_transaction, transactions_on, Override};
use lsforms::handlers::callbacks::{callback_helloasso, CallbackOutcome};
use lsforms::db::models::NewTransaction;
use lsforms::db::structs::Transaction;
use lsforms::json::JsonValue;
use serde_json::Value;

fn to_json(v: &Value) -> JsonValue {
    match v {
        Value::Null => JsonValue::Null,
        Value::Bool(b) => JsonValue::Bool(*b),
        Value::Number(n) => JsonValue::Number(n.as_i64()),
        Value::String(s) => JsonValue::Str(s.clone()),
        Value::Array(a) => JsonValue::Array(a.iter().map(to_json).collect()),
        Value::Object(o) => JsonValue::Object(o.iter().map(|(k, x)| (k.clone(), to_json(x))).collect()),
    }
}

fn parse(text: &str) -> JsonValue {
    to_json(&serde_json::from_str::<Value>(text).unwrap())
}

fn fields() -> (String, String) {
    ("Pseudo".to_string(), "Message".to_string())
}

const ORDER: &str = r#"{
  "eventType": "Order",
  "data": {
    "formType": "Membership",
    "payer": {"email": "donor@example.org"},
    "items": [{"customFields": [
        {"name": "Pseudo", "answer": "<Bob>"},
        {"name": "Other", "answer": "x"},
        {"name": "Message", "answer": "Hello & welcome"}
    ]}],
    "payments": [{
        "paymentReceiptUrl": "https://example.org/receipt",
        "items": [{"shareAmount": 2500, "id": 41}, {"shareAmount": 10000, "id": 42}]
    }]
  }
}"#;

#[test]
fn order_with_membership_and_donation() {
    let (fu, fm) = fields();
    let j = parse(ORDER);
    assert!(!callback_would_panic(&j, &fu, &fm));
    let (t0, t1) = from_callback(&j, &fu, &fm).unwrap();
    assert_eq!(t0.username, "&lt;Bob&gt;");
    assert_eq!(t0.message, "Hello &amp; welcome");
    assert_eq!(t0.email, "donor@example.org");
    assert_eq!(t0.amount, 2500);
    assert_eq!(t0.gems, 15);
    assert_eq!(t0.ha_id, 41);
    assert_eq!(t0.receipt_url, "https://example.org/receipt");
    assert_eq!(t0.event_type, 0);
    assert_eq!(t0.token.len(), 32);
    assert!(!t0.is_mail_sent && !t0.is_token_used && !t0.is_checked);
    let t1 = t1.unwrap();
    assert_eq!(t1.amount, 10000);
    assert_eq!(t1.gems, NewTransaction::calc_gems(10000));
    assert_eq!(t1.ha_id, 42);
    assert_eq!(t1.event_type, 1);
    assert_eq!(t1.username, t0.username);
    assert_eq!(t1.day, t0.day);
    assert_ne!(t1.token, t0.token);
}

#[test]
fn payment_callback() {
    let (fu, fm) = fields();
    let j = parse(
        r#"{"eventType": "Payment", "data": {"paymentReceiptUrl": "r", "payer": {"email": "p@example.org"},
            "items": [{"type": "MonthlyDonation", "shareAmount": 500, "id": 7}]}}"#,
    );
    let (t0, t1) = from_callback(&j, &fu, &fm).unwrap();
    assert!(t1.is_none());
    assert_eq!(t0.username, "");
    assert_eq!(t0.event_type, 3);
    assert_eq!(t0.amount, 500);
    assert_eq!(t0.gems, 5);
    assert_eq!(t0.ha_id, 7);
}

#[test]
fn callbacks_without_transactions() {
    let (fu, fm) = fields();
    for text in [
        r#"{"eventType": "Form", "data": {}}"#,
        r#"{"eventType": "Payment"}"#,
        r#"{"data": {}}"#,
        r#"{"eventType": "Payment", "data": {"paymentReceiptUrl": "r", "payer": {"email": "p"}, "items": [{"type": "Donation", "shareAmount": 1.5, "id": 7}]}}"#,
        r#"{"eventType": "Order", "data": {"formType": "Donation", "payer": {"email": "e"}, "items": [{"customFields": [{"answer": "no name"}]}], "payments": [{"paymentReceiptUrl": "r", "items": [{"shareAmount": 100, "id": 1}]}]}}"#,
        r#"{"eventType": "Order", "data": {"formType": "Donation", "payer": {"email": "e"}, "items": [{}], "payments": [{"paymentReceiptUrl": "r", "items": [{"shareAmount": 100, "id": 1}, {"id": 2}]}]}}"#,
    ] {
        let j = parse(text);
        assert!(!callback_would_panic(&j, &fu, &fm));
        assert!(from_callback(&j, &fu, &fm).is_none(), "{text}");
    }
}

#[test]
fn long_names_are_cut() {
    let (fu, fm) = fields();
    let text = ORDER.replace("<Bob>", "abcdefghijklmnopqrstuvwxyz");
    let (t0, _) = from_callback(&parse(&text), &fu, &fm).unwrap();
    assert_eq!(t0.username, "abcdefghijklmno");
    // a cut inside a two-byte character is where the reading panics
    let text = ORDER.replace("<Bob>", "aaaaaaaaaaaaaaé");
    assert!(callback_would_panic(&parse(&text), &fu, &fm));
    let text = ORDER.replace("<Bob>", "aaaaaaaaaaaaaé");
    let j = parse(&text);
    assert!(!callback_would_panic(&j, &fu, &fm));
    assert_eq!(from_callback(&j, &fu, &fm).unwrap().0.username, "aaaaaaaaaaaaaé");
}

fn recorded(username: &str, message: &str, event_type: i32) -> Transaction {
    Transaction {
        id: 3,
        username: username.to_string(),
        message: message.to_string(),
        email: "e@example.org".to_string(),
        day: chrono::NaiveDate::from_ymd_opt(2024, 5, 6).unwrap(),
        amount: 2500,
        gems: 15,
        token: "t".to_string(),
        ha_id: 41,
        receipt_url: "r".to_string(),
        event_type,
        is_mail_sent: true,
        is_token_used: false,
        is_checked: true,
    }
}

#[test]
fn override_decisions() {
    let (fu, fm) = fields();
    let (new_tr, _) = from_callback(&parse(ORDER), &fu, &fm).unwrap();
    assert!(matches!(override_transaction(None, &new_tr), Override::Insert));
    assert!(matches!(override_transaction(Some(recorded("someone", "", 4)), &new_tr), Override::Exists));
    match override_transaction(Some(recorded("", "", 4)), &new_tr) {
        Override::Update(u) => {
            assert_eq!(u.username, "&lt;Bob&gt;");
            assert_eq!(u.message, "Hello &amp; welcome");
            assert_eq!(u.event_type, 0);
            assert_eq!(u.id, 3);
            assert!(u.is_mail_sent && u.is_checked);
        }
        _ => panic!("expected an update"),
    }
    match override_transaction(Some(recorded("", "kept", 5)), &new_tr) {
        Override::Update(u) => {
            assert_eq!(u.message, "kept");
            assert_eq!(u.event_type, 5);
        }
        _ => panic!("expected an update"),
    }
}

#[test]
fn transactions_are_dated_by_the_given_day() {
    let (fu, fm) = fields();
    let day = chrono::NaiveDate::from_ymd_opt(2024, 3, 9).unwrap();
    let (t0, t1) = transactions_on(&parse(ORDER), &fu, &fm, day).unwrap();
    assert_eq!(t0.day, day);
    assert_eq!(t1.unwrap().day, day);
}

#[test]
fn callback_outcomes() {
    let (fu, fm) = fields();
    assert!(matches!(callback_helloasso("key", "other", ORDER.as_bytes(), &fu, &fm), CallbackOutcome::WrongKey));
    assert!(matches!(callback_helloasso("key", "key", b"{not json", &fu, &fm), CallbackOutcome::NotJson));
    let cut = ORDER.replace("<Bob>", "aaaaaaaaaaaaaaé");
    assert!(matches!(callback_helloasso("key", "key", cut.as_bytes(), &fu, &fm), CallbackOutcome::CutInsideChar));
    match callback_helloasso("key", "key", br#"{"eventType": "Form", "data": {}}"#, &fu, &fm) {
        CallbackOutcome::NoTransaction(j) => assert!(j.get("eventType").is_some()),
        _ => panic!("expected no transaction"),
    }
    match callback_helloasso("key", "key", ORDER.as_bytes(), &fu, &fm) {
        CallbackOutcome::Transactions(t0, t1) => {
            assert_eq!(t0.username, "&lt;Bob&gt;");
            assert_eq!(t0.amount, 2500);
            assert_eq!(t1.unwrap().ha_id, 42);
        },
        _ => panic!("expected transactions"),
    }
}
