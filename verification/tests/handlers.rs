use base64::Engine;
use lsforms::config::methods::EmailRegex;
use lsforms::config::structs::{
    ConfCaptcha, ConfGeneral, ConfMail, Config, HostConfig, HostInput, HostInputKind, HostSettings, Hosts, Language,
    VerboseLevel,
};
use lsforms::config::methods::init_mail_template;
use lsforms::emails::deliver;
use lsforms::errors::ErrorKind;
use lsforms::handlers::{
    accept_submission, captcha_challenge, captcha_payload, check_captcha, form_input_check, form_to_hashmap, get_captcha, post_form, FormJson, FormValues,
    ServerStatus,
};
use lsforms::strmap::StrMap;
use lsforms::templates::gen_tpl;

const SECRET: &str = "super-secret";

fn config() -> Config {
    Config {
        config_version: 1,
        general: ConfGeneral {
            listening_address: "127.0.0.1".to_string(),
            listening_port: 8888,
            hostname: "forms.example.org".to_string(),
            verbose_level: VerboseLevel::Info,
        },
        captcha: ConfCaptcha { secret: SECRET.to_string(), complexity: 2000, expires: 5 },
        mail: ConfMail {
            mailserver_address: "smtp.example.org".to_string(),
            sender_email: "a@example.org".to_string(),
            sender_password: "pw".to_string(),
            send_as: "Forms <a@example.org>".to_string(),
            contact_spam: "abuse@example.org".to_string(),
            mail_signature: "-- forms".to_string(),
        },
    }
}

fn input(name: &str, kind: HostInputKind, required: bool, maxlength: Option<usize>, options: Option<Vec<&str>>) -> HostInput {
    HostInput {
        display_name: name.to_uppercase(),
        name: name.to_string(),
        kind,
        required,
        settings: HostSettings { maxlength, options: options.map(|o| o.into_iter().map(String::from).collect()) },
    }
}

fn hosts(captcha: bool) -> Hosts {
    let mut h: Hosts = StrMap::new();
    h.insert(
        "site".to_string(),
        HostConfig {
            language: Language::En,
            recipient: "owner@example.org".to_string(),
            enable_captcha: captcha,
            inputs: vec![
                input("name", HostInputKind::Text, true, Some(10), None),
                input("mail", HostInputKind::Email, true, None, None),
                input("topic", HostInputKind::Select, false, None, Some(vec!["-", "A", "B"])),
            ],
        },
    );
    h
}

fn form(pairs: &[(&str, Option<&str>)]) -> FormJson {
    FormJson {
        object: Some(pairs.iter().map(|(k, v)| (k.to_string(), v.map(String::from))).collect()),
        debug: "dbg".to_string(),
    }
}

fn values(pairs: &[(&str, &str)]) -> FormValues {
    let mut m: FormValues = StrMap::new();
    for (k, v) in pairs {
        m.insert(k.to_string(), v.to_string());
    }
    m
}

#[test]
fn form_to_hashmap_cases() {
    let not_object = FormJson { object: None, debug: "Array []".to_string() };
    let e = form_to_hashmap(&not_object).err().unwrap();
    assert_eq!(e.kind, ErrorKind::FormDataNotObject);
    assert_eq!(e.msg, "Received form data is not convertible to object: Array []");
    let e = form_to_hashmap(&form(&[("a", Some("1")), ("b", None)])).err().unwrap();
    assert_eq!(e.kind, ErrorKind::FormParamNotString);
    assert_eq!(e.msg, "Could not read form param as string: dbg");
    let m = form_to_hashmap(&form(&[("a", Some("1")), ("b", Some("2"))])).unwrap();
    assert_eq!(m.get("a").unwrap(), "1");
    assert_eq!(m.get("b").unwrap(), "2");
}

#[test]
fn input_checks() {
    let re = EmailRegex::new();
    let name = input("name", HostInputKind::Text, true, Some(5), None);
    let opt_name = input("nick", HostInputKind::TextArea, false, None, None);
    let mail = input("mail", HostInputKind::Email, false, None, None);
    let sel = input("topic", HostInputKind::Select, true, None, Some(vec!["-", "A", "B"]));
    let sel_none = input("other", HostInputKind::Select, false, None, None);

    let check = |f: &HostInput, v: &[(&str, &str)]| form_input_check(&re, f, &values(v));

    assert!(check(&opt_name, &[]).is_ok());
    let e = check(&name, &[]).err().unwrap();
    assert_eq!((e.kind, e.msg.as_str()), (ErrorKind::FieldRequiredButMissing, "missing field name"));
    let e = check(&name, &[("name", "")]).err().unwrap();
    assert_eq!((e.kind, e.msg.as_str()), (ErrorKind::FieldRequiredButEmpty, "field name is empty"));
    assert!(check(&name, &[("name", "abcde")]).is_ok());
    let e = check(&name, &[("name", "abcdef")]).err().unwrap();
    assert_eq!((e.kind, e.msg.as_str()), (ErrorKind::FieldTooLong, "user has written a novel for field name"));
    // the length is counted in bytes
    let e = check(&name, &[("name", "ééé")]).err().unwrap();
    assert_eq!(e.kind, ErrorKind::FieldTooLong);
    let long = "x".repeat(10001);
    assert_eq!(check(&opt_name, &[("nick", &long)]).err().unwrap().kind, ErrorKind::FieldTooLong);
    assert!(check(&opt_name, &[("nick", &long[1..])]).is_ok());

    assert!(check(&mail, &[("mail", "someone@example.org")]).is_ok());
    let e = check(&mail, &[("mail", "not an email")]).err().unwrap();
    assert_eq!((e.kind, e.msg.as_str()), (ErrorKind::FieldEmailWrongType, "field mail is not an email"));
    // an optional field may be sent empty
    assert!(check(&mail, &[("mail", "")]).is_ok());
    assert!(check(&opt_name, &[("nick", "")]).is_ok());
    let opt_sel = input("mood", HostInputKind::Select, false, None, Some(vec!["-", "A"]));
    assert!(check(&opt_sel, &[("mood", "")]).is_ok());

    assert!(check(&sel, &[("topic", "2")]).is_ok());
    let e = check(&sel, &[("topic", "x")]).err().unwrap();
    assert_eq!(
        (e.kind, e.msg.as_str()),
        (ErrorKind::FieldSelectWrongType, "field topic is not an unsigned integer: invalid digit found in string")
    );
    let e = check(&sel, &[("topic", "0")]).err().unwrap();
    assert_eq!((e.kind, e.msg.as_str()), (ErrorKind::FieldRequiredButEmpty, "field topic is required but empty"));
    let e = check(&sel, &[("topic", "3")]).err().unwrap();
    assert_eq!((e.kind, e.msg.as_str()), (ErrorKind::FieldSelectOutOfRange, "field topic is out of range"));
    let e = check(&sel_none, &[("other", "1")]).err().unwrap();
    assert_eq!((e.kind, e.msg.as_str()), (ErrorKind::FieldSelectNoOptions, "select other has no options"));
}

#[test]
fn email_pattern_language() {
    let re = EmailRegex::new();
    let mail = input("mail", HostInputKind::Email, true, None, None);
    let ok = |v: &str| form_input_check(&re, &mail, &values(&[("mail", v)])).is_ok();
    let label63 = "a".repeat(63);
    let label64 = "a".repeat(64);
    for good in ["a@b", "a.b+c!#$%&'*/=?^_`{|}~-@c-d.e9", "x@1.2.3", &format!("a@{label63}.org")] {
        assert!(ok(good), "{good}");
    }
    for bad in ["@b", "a@", "a@b.", "a@.b", "a@b..c", "a@-b", "a@b-", "a@b-.c", "a b@c", "a@b@c", "é@b", "a@b\n",
        &format!("a@{label64}.org")] {
        assert!(!ok(bad), "{bad}");
    }
}

#[test]
fn unknown_host() {
    let re = EmailRegex::new();
    let h = hosts(false);
    let e = post_form(&config(), &h, &re, "nope", &form(&[])).err().unwrap();
    assert_eq!((e.kind, e.msg.as_str()), (ErrorKind::UnknownHost, "no host named nope"));
    let e = get_captcha(&config(), &h, "nope").err().unwrap();
    assert_eq!(e.kind, ErrorKind::UnknownHost);
    let e = gen_tpl(&config(), &h, "nope").err().unwrap();
    assert_eq!(e.kind, ErrorKind::UnknownHost);
    let c = config();
    let t = gen_tpl(&c, &h, "site").ok().unwrap();
    assert_eq!(t.hostname, "site");
    assert_eq!(t.host.recipient, "owner@example.org");
}

#[test]
fn accepted_form_without_captcha() {
    let re = EmailRegex::new();
    let h = hosts(false);
    let f = form(&[("name", Some("Ann")), ("mail", Some("ann@example.org")), ("topic", Some("1"))]);
    let (name, hc, vals) = post_form(&config(), &h, &re, "site", &f).unwrap();
    assert_eq!(name, "site");
    assert_eq!(hc.recipient, "owner@example.org");
    assert_eq!(vals.get("topic").unwrap(), "1");
    let s = ServerStatus::ok();
    assert_eq!(s.status, "ok");
    assert!(s.message.is_none());

    let f = form(&[("name", Some("Ann")), ("mail", Some("ann@example.org")), ("altcha", Some("x"))]);
    let e = post_form(&config(), &h, &re, "site", &f).err().unwrap();
    assert_eq!(
        (e.kind, e.msg.as_str()),
        (ErrorKind::CaptchaFoundButDisabled, "contains captcha but captcha is disabled for site")
    );
    let f = form(&[("name", Some("Ann"))]);
    assert_eq!(post_form(&config(), &h, &re, "site", &f).err().unwrap().kind, ErrorKind::FieldRequiredButMissing);
}

#[test]
fn captcha_refusals() {
    let re = EmailRegex::new();
    let h = hosts(true);
    let base = [("name", Some("Ann")), ("mail", Some("ann@example.org"))];
    let e = post_form(&config(), &h, &re, "site", &form(&base)).err().unwrap();
    assert_eq!((e.kind, e.msg.as_str()), (ErrorKind::CaptchaFieldMissing, "no captcha field for site"));

    let mut f = base.to_vec();
    f.push(("altcha", Some("%%%")));
    let e = post_form(&config(), &h, &re, "site", &form(&f)).err().unwrap();
    assert_eq!(e.kind, ErrorKind::CaptchaPayloadB64Fail);
    assert!(e.msg.starts_with("payload base64 decode failed for site: "));

    let not_utf8 = base64::prelude::BASE64_STANDARD.encode([0xffu8, 0xfe]);
    let mut f = base.to_vec();
    f.push(("altcha", Some(&not_utf8)));
    let e = post_form(&config(), &h, &re, "site", &form(&f)).err().unwrap();
    assert_eq!(e.kind, ErrorKind::CaptchaPayloadUtf8Fail);
    assert!(e.msg.starts_with("payload utf8 decoding failed for site: "));

    let junk = base64::prelude::BASE64_STANDARD.encode("{\"not\": \"a payload\"}");
    let mut f = base.to_vec();
    f.push(("altcha", Some(&junk)));
    let e = post_form(&config(), &h, &re, "site", &form(&f)).err().unwrap();
    assert_eq!((e.kind, e.msg.as_str()), (ErrorKind::CaptchaResultInvalid, "captcha result is invalid for site"));
}

#[test]
fn captcha_roundtrip() {
    let re = EmailRegex::new();
    let h = hosts(true);
    let challenge = get_captcha(&config(), &h, "site").unwrap();
    assert_eq!(challenge.maxnumber, 2000);
    assert_eq!(challenge.algorithm, "SHA-256");
    let algorithm: altcha_lib_rs::algorithm::AltchaAlgorithm = challenge.algorithm.parse().unwrap();
    let number = altcha_lib_rs::solve_challenge(
        &challenge.challenge,
        &challenge.salt,
        Some(algorithm),
        Some(challenge.maxnumber),
        0,
    )
    .unwrap();
    assert!(number <= 2000);
    let payload = altcha_lib_rs::Payload {
        algorithm,
        challenge: challenge.challenge.clone(),
        number,
        salt: challenge.salt.clone(),
        signature: challenge.signature.clone(),
        took: None,
    };
    let encoded = base64::prelude::BASE64_STANDARD.encode(serde_json::to_string(&payload).unwrap());
    let f = form(&[("name", Some("Ann")), ("mail", Some("ann@example.org")), ("altcha", Some(&encoded))]);
    assert!(post_form(&config(), &h, &re, "site", &f).is_ok());
    let vals = values(&[("altcha", &encoded)]);
    assert!(check_captcha(true, SECRET, "site", &vals).is_ok());
    assert_eq!(check_captcha(true, "other-secret", "site", &vals).err().unwrap().kind, ErrorKind::CaptchaResultInvalid);
    assert_eq!(check_captcha(false, SECRET, "site", &vals).err().unwrap().kind, ErrorKind::CaptchaFoundButDisabled);
}

#[test]
fn captcha_expires_after_the_configured_minutes() {
    let h = hosts(true);
    let c = captcha_challenge(&config(), &h, "site", 1_700_000_000).ok().unwrap();
    assert_eq!(c.maxnumber, 2000);
    assert_eq!(c.algorithm, "SHA-256");
    assert_eq!(c.salt.len(), 24 + "?expires=1700000300&".len());
    assert!(c.salt[..24].chars().all(|x| x.is_ascii_digit() || ('a'..='f').contains(&x)));
    assert!(c.salt.ends_with("?expires=1700000300&"));
    let e = captcha_challenge(&config(), &h, "nowhere", 1_700_000_000).err().unwrap();
    assert_eq!((e.kind, e.msg.as_str()), (ErrorKind::UnknownHost, "no host named nowhere"));
    let e = captcha_challenge(&config(), &h, "site", i64::MAX).err().unwrap();
    assert_eq!((e.kind, e.msg.as_str()), (ErrorKind::CaptchaGenerationFailed, "could not generate challenge for site"));
    let e = captcha_challenge(&config(), &h, "site", 9_000_000_000_000_000).err().unwrap();
    assert_eq!(e.kind, ErrorKind::CaptchaGenerationFailed);
}

#[test]
fn captcha_refused_when_disabled() {
    let h = hosts(false);
    let e = get_captcha(&config(), &h, "site").err().unwrap();
    assert_eq!((e.kind, e.msg.as_str()), (ErrorKind::CaptchaDisabled, "captcha is disabled for host site"));
    let e = captcha_challenge(&config(), &h, "site", 1_700_000_000).err().unwrap();
    assert_eq!(e.kind, ErrorKind::CaptchaDisabled);
}

#[test]
fn accepted_form_can_be_mailed() {
    let re = EmailRegex::new();
    let h = hosts(false);
    let tpl = init_mail_template("S\n{{FORMDATA}}".to_string(), "S\n{{FORMDATA}}".to_string());
    let c = config();
    let f = form(&[("name", Some("Ann")), ("mail", Some("ann@example.org")), ("topic", Some("2"))]);
    let (name, hc, vals) = post_form(&c, &h, &re, "site", &f).ok().unwrap();
    let out = deliver(&c, &tpl, "1.2.3.4", name, hc, &vals).ok().unwrap();
    assert_eq!(out.body, "\nNAME: Ann\n\nMAIL: ann@example.org\n\nTOPIC: A\n\n");
    // the one exception: an optional select left at 0
    let f = form(&[("name", Some("Ann")), ("mail", Some("ann@example.org")), ("topic", Some("0"))]);
    let (name, hc, vals) = post_form(&c, &h, &re, "site", &f).ok().unwrap();
    let e = deliver(&c, &tpl, "1.2.3.4", name, hc, &vals).err().unwrap();
    assert_eq!(e.kind, ErrorKind::FieldSelectOutOfRange);
}

#[test]
fn submission_decided_by_the_verifiers_answer() {
    let re = EmailRegex::new();
    let h = hosts(true);
    let hc = h.get("site").unwrap();
    let payload = base64::prelude::BASE64_STANDARD.encode("{}");
    let good = values(&[("name", "Ann"), ("mail", "ann@example.org"), ("altcha", &payload)]);
    assert_eq!(captcha_payload(true, "site", &good).ok().unwrap(), Some("{}".to_string()));
    assert!(accept_submission(hc, &re, "site", &good, true).is_ok());
    let e = accept_submission(hc, &re, "site", &good, false).err().unwrap();
    assert_eq!((e.kind, e.msg.as_str()), (ErrorKind::CaptchaResultInvalid, "captcha result is invalid for site"));
    let bad_input = values(&[("mail", "ann@example.org"), ("altcha", &payload)]);
    assert_eq!(accept_submission(hc, &re, "site", &bad_input, true).err().unwrap().kind, ErrorKind::FieldRequiredButMissing);
    let no_captcha = values(&[("name", "Ann")]);
    assert_eq!(accept_submission(hc, &re, "site", &no_captcha, true).err().unwrap().kind, ErrorKind::CaptchaFieldMissing);
    let e = captcha_payload(true, "site", &values(&[("altcha", "%%%")])).err().unwrap();
    let text = base64::prelude::BASE64_STANDARD.decode("%%%").unwrap_err().to_string();
    assert_eq!((e.kind, e.msg), (ErrorKind::CaptchaPayloadB64Fail, format!("payload base64 decode failed for site: {text}")));
}
