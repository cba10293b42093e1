use lsforms::config::methods::init_mail_template;
use lsforms::config::structs::{
    ConfCaptcha, ConfGeneral, ConfMail, Config, HostConfig, HostInput, HostInputKind, HostSettings, Language,
    MailTemplates, VerboseLevel,
};
use lsforms::emails::{deliver, fill_form_data};
use lsforms::errors::ErrorKind;
use lsforms::handlers::FormValues;
use lsforms::strmap::StrMap;

fn config(send_as: &str) -> Config {
    Config {
        config_version: 1,
        general: ConfGeneral {
            listening_address: "127.0.0.1".to_string(),
            listening_port: 8888,
            hostname: String::new(),
            verbose_level: VerboseLevel::Info,
        },
        captcha: ConfCaptcha { secret: "s".to_string(), complexity: 1000, expires: 5 },
        mail: ConfMail {
            mailserver_address: "smtp.example.org".to_string(),
            sender_email: "a@example.org".to_string(),
            sender_password: "pw".to_string(),
            send_as: send_as.to_string(),
            contact_spam: "abuse@example.org".to_string(),
            mail_signature: "-- forms".to_string(),
        },
    }
}

fn input(name: &str, display: &str, kind: HostInputKind, options: Option<Vec<&str>>) -> HostInput {
    HostInput {
        display_name: display.to_string(),
        name: name.to_string(),
        kind,
        required: false,
        settings: HostSettings { maxlength: None, options: options.map(|o| o.into_iter().map(String::from).collect()) },
    }
}

fn host(language: Language, recipient: &str) -> HostConfig {
    HostConfig {
        language,
        recipient: recipient.to_string(),
        enable_captcha: false,
        inputs: vec![
            input("name", "Name", HostInputKind::Text, None),
            input("topic", "Topic", HostInputKind::Select, Some(vec!["-", "Sales", "Support"])),
        ],
    }
}

fn values(pairs: &[(&str, &str)]) -> FormValues {
    let mut m: FormValues = StrMap::new();
    for (k, v) in pairs {
        m.insert(k.to_string(), v.to_string());
    }
    m
}

#[test]
fn form_data_lines() {
    let h = host(Language::En, "owner@example.org");
    let d = fill_form_data(&h, &values(&[("name", "Ann"), ("topic", "2")])).unwrap();
    assert_eq!(d, "Name: Ann\n\nTopic: Sales\n\n");
    let d = fill_form_data(&h, &values(&[("topic", "3")])).unwrap();
    assert_eq!(d, "Name: \n\nTopic: Support\n\n");
    let d = fill_form_data(&h, &values(&[])).unwrap();
    assert_eq!(d, "Name: \n\nTopic: \n\n");
    let e = fill_form_data(&h, &values(&[("topic", "4")])).unwrap_err();
    assert_eq!((e.kind, e.msg.as_str()), (ErrorKind::FieldSelectOutOfRange, "field not found: topic"));
    // an optional select left at 0 passes the checks but names no option
    let e = fill_form_data(&h, &values(&[("topic", "0")])).unwrap_err();
    assert_eq!(e.kind, ErrorKind::FieldSelectOutOfRange);
    let e = fill_form_data(&h, &values(&[("topic", "-1")])).unwrap_err();
    assert_eq!(
        (e.kind, e.msg.as_str()),
        (ErrorKind::FieldSelectWrongType, "field topic is not an unsigned integer: invalid digit found in string")
    );
    let mut no_opts = host(Language::En, "owner@example.org");
    no_opts.inputs[1].settings.options = None;
    let e = fill_form_data(&no_opts, &values(&[("topic", "1")])).unwrap_err();
    assert_eq!((e.kind, e.msg.as_str()), (ErrorKind::FieldSelectNoOptions, "select topic has no options"));
}

fn templates() -> MailTemplates {
    init_mail_template(
        "{{SUBJECT}}Nouveau message de {{HOST}}{{/SUBJECT}}\nIP {{IP}}\n{{FORMDATA}}Spam: {{CONTACT}}\n{{MAIL_SIGNATURE}}".to_string(),
        "{{SUBJECT}}New message from {{HOST}}{{/SUBJECT}}\r\nFrom {{IP}}:\n{{FORMDATA}}Report: {{CONTACT}}\n{{MAIL_SIGNATURE}}".to_string(),
    )
}

#[test]
fn mail_composition() {
    let h = host(Language::En, "Owner <owner@example.org>");
    let v = values(&[("name", "Ann"), ("topic", "2")]);
    let out = deliver(&config("Forms <a@example.org>"), &templates(), "10.0.0.1", "site", &h, &v).ok().unwrap();
    assert_eq!(out.subject, "New message from {{HOST}}");
    assert_eq!(out.body, "\r\nFrom 10.0.0.1:\nName: Ann\n\nTopic: Sales\n\nReport: abuse@example.org\n-- forms");
    assert_eq!(out.from.email.to_string(), "a@example.org");
    assert_eq!(out.to.email.to_string(), "owner@example.org");
    let fr = host(Language::Fr, "owner@example.org");
    let out = deliver(&config("a@example.org"), &templates(), "::1", "site", &fr, &v).ok().unwrap();
    assert_eq!(out.subject, "Nouveau message de {{HOST}}");
    assert_eq!(out.body, "\nIP ::1\nName: Ann\n\nTopic: Sales\n\nSpam: abuse@example.org\n-- forms");
}

#[test]
fn mail_errors() {
    let v = values(&[]);
    let h = host(Language::Fr, "owner@example.org");
    let e = deliver(&config("a@example.org"), &MailTemplates::new(), "ip", "site", &h, &v).err().unwrap();
    assert_eq!((e.kind, e.msg.as_str()), (ErrorKind::EmailLanguageNotFound, "defined language not found for site (Fr)"));
    let empty = init_mail_template(String::new(), String::new());
    let e = deliver(&config("a@example.org"), &empty, "ip", "site", &h, &v).err().unwrap();
    assert_eq!((e.kind, e.msg.as_str()), (ErrorKind::EmailLinesFail, "Could not read next line for site, \"\""));
    let e = deliver(&config("not a mailbox"), &templates(), "ip", "site", &h, &v).err().unwrap();
    assert_eq!(e.kind, ErrorKind::EmailFromParseFail);
    let bad_to = host(Language::Fr, "nobody");
    let e = deliver(&config("a@example.org"), &templates(), "ip", "site", &bad_to, &v).err().unwrap();
    assert_eq!(e.kind, ErrorKind::EmailToParseFail);
    let e = deliver(&config("a@example.org"), &templates(), "ip", "site", &h, &values(&[("topic", "9")])).err().unwrap();
    assert_eq!(e.kind, ErrorKind::FieldSelectOutOfRange);
}
