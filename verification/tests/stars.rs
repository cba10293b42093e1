use lsforms::handlers::transactions::{post_transaction_send_mail, MailPlan};
use lsforms::webmodels::{post_stars_own, validate_star_post, StarChoice, StarKind, StarRefusal};

fn catalog() -> Vec<StarKind> {
    vec![StarKind { startype: 1, price: 5 }, StarKind { startype: 2, price: 20 }, StarKind { startype: 1, price: 99 }]
}

fn star(startype: i32, x: bool, y: bool) -> StarChoice {
    StarChoice { startype, x_in_range: x, y_in_range: y }
}

#[test]
fn star_posts_within_budget_are_cleaned() {
    let stars = vec![star(1, true, true), star(2, true, true)];
    let (u, m) = validate_star_post("<Ann> with a long name", "hi & bye", &stars, &catalog(), 25).unwrap();
    assert_eq!(u, "&lt;Ann&gt; wit");
    assert_eq!(m, "hi &amp; bye");
    assert!(validate_star_post("a", "b", &vec![], &catalog(), 0).is_ok());
}

#[test]
fn star_posts_refused_in_order() {
    let c = catalog();
    let stars = vec![star(1, true, false), star(7, true, true)];
    assert_eq!(validate_star_post("a", "b", &stars, &c, 100).err(), Some(StarRefusal::InvalidPct(0)));
    let stars = vec![star(1, true, true), star(7, false, true)];
    assert_eq!(validate_star_post("a", "b", &stars, &c, 100).err(), Some(StarRefusal::InvalidStartype(1)));
    let stars = vec![star(2, true, true), star(1, true, true)];
    assert_eq!(validate_star_post("a", "b", &stars, &c, 24).err(), Some(StarRefusal::TooManyStars(25)));
    assert_eq!(validate_star_post("a", "b", &vec![], &c, -1).err(), Some(StarRefusal::TooManyStars(0)));
}

#[test]
fn star_posts_need_a_valid_token() {
    let stars = vec![star(1, true, true)];
    assert_eq!(post_stars_own(None, "a", "b", &stars, &catalog()).err(), Some(StarRefusal::InvalidToken));
    assert_eq!(post_stars_own(Some(10), "a", "b", &stars, &catalog()).ok(), Some(("a".to_string(), "b".to_string())));
}

#[test]
fn send_mail_plans() {
    let ids = vec![3, 5, 5];
    assert!(matches!(post_transaction_send_mail(0, &ids, "stars.example.org", "tok"), MailPlan::MarkSent));
    assert!(matches!(post_transaction_send_mail(4, &ids, "stars.example.org", "tok"), MailPlan::BadTemplateId(4)));
    match post_transaction_send_mail(5, &ids, "stars.example.org", "tok") {
        MailPlan::SendThenMark(i, url) => {
            assert_eq!(i, 1);
            assert_eq!(url, "https://stars.example.org/?token=tok");
        },
        _ => panic!("expected a mail to send"),
    }
}
