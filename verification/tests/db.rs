use lsforms::db::models::NewTransaction;
use lsforms::db::structs::EventType;

/// The gem formula as first written, with a single-precision factor.
fn gems_with_float(amount: i32) -> i32 {
    match amount / 100 {
        i32::MIN..=0 => 0,
        1..=499 => {
            let mut gems = (0.48 * (amount / 100) as f32) as i32;
            let gems_modulo = gems % 5;
            gems = gems + 5 - gems_modulo;
            if gems_modulo >= 3 {
                gems += 5;
            }
            gems
        }
        500..=i32::MAX => 250,
    }
}

#[test]
fn gems_exact_values() {
    assert_eq!(NewTransaction::calc_gems(-500), 0);
    assert_eq!(NewTransaction::calc_gems(99), 0);
    assert_eq!(NewTransaction::calc_gems(100), 5);
    assert_eq!(NewTransaction::calc_gems(1000), 10);
    assert_eq!(NewTransaction::calc_gems(2500), 15);
    assert_eq!(NewTransaction::calc_gems(49999), 245);
    assert_eq!(NewTransaction::calc_gems(50000), 250);
    assert_eq!(NewTransaction::calc_gems(i32::MAX), 250);
    assert_eq!(NewTransaction::calc_gems(i32::MIN), 0);
}

#[test]
fn gems_agree_with_float_formula() {
    for amount in -1000..60000 {
        assert_eq!(NewTransaction::calc_gems(amount), gems_with_float(amount), "amount {amount}");
    }
}

#[test]
fn gems_range_and_monotone() {
    let mut last = 0;
    for amount in 0..60000 {
        let g = NewTransaction::calc_gems(amount);
        assert!(g >= last);
        if amount >= 100 {
            assert!((5..=250).contains(&g) && g % 5 == 0);
        }
        last = g;
    }
}

#[test]
fn event_type_codes() {
    let all = [
        EventType::OrderMembership,
        EventType::OrderDonation,
        EventType::OrderUnknown,
        EventType::PaymentMonthlyDonation,
        EventType::PaymentMembership,
        EventType::PaymentDonation,
        EventType::PaymentUnknown,
    ];
    for (i, e) in all.iter().enumerate() {
        assert_eq!(e.to_int(), i as i32);
        assert_eq!(EventType::from_int(i as i32), Some(*e));
    }
    assert_eq!(EventType::from_int(7), None);
    assert_eq!(EventType::from_int(-1), None);
}

fn transaction(gems: i32, token: &str) -> NewTransaction {
    NewTransaction {
        username: "u".to_string(),
        message: "m".to_string(),
        email: "e@example.org".to_string(),
        day: chrono::NaiveDate::from_ymd_opt(2024, 1, 2).unwrap(),
        amount: 2500,
        gems,
        token: token.to_string(),
        ha_id: 7,
        receipt_url: "https://example.org/r".to_string(),
        event_type: 1,
        is_mail_sent: false,
        is_token_used: false,
        is_checked: false,
    }
}

#[test]
fn validate_fills_defaults() {
    let mut t = transaction(0, "");
    t.validate();
    assert_eq!(t.gems, 15);
    assert_eq!(t.token.len(), 32);
    assert!(t.token.chars().all(|c| c.is_ascii_alphanumeric()));
    let mut t = transaction(3, "keep");
    t.validate();
    assert_eq!(t.gems, 3);
    assert_eq!(t.token, "keep");
    assert_eq!(NewTransaction::gen_random().len(), 32);
    assert_ne!(NewTransaction::gen_random(), NewTransaction::gen_random());
}
