use lsforms::config::global::{CONFIG_VERSION, MAIL_TEMPLATES_FOLDER};
use lsforms::config::methods::{
    init_mail_template, load_config, load_hosts, load_re_email, load_templates, template_path, EmailRegex, Globals,
};
use lsforms::config::structs::{
    ConfCaptcha, ConfGeneral, ConfMail, Config, HostConfig, Hosts, Language, MailTemplates, VerboseLevel,
};
use lsforms::strmap::StrMap;

fn config(version: u8) -> Config {
    Config {
        config_version: version,
        general: ConfGeneral {
            listening_address: "127.0.0.1".to_string(),
            listening_port: 8888,
            hostname: String::new(),
            verbose_level: VerboseLevel::Info,
        },
        captcha: ConfCaptcha { secret: "s".to_string(), complexity: 1000, expires: 5 },
        mail: ConfMail {
            mailserver_address: "smtp.example.org".to_string(),
            sender_email: "a@example.org".to_string(),
            sender_password: "pw".to_string(),
            send_as: "Forms <a@example.org>".to_string(),
            contact_spam: "abuse@example.org".to_string(),
            mail_signature: "-- forms".to_string(),
        },
    }
}

fn host(recipient: &str) -> HostConfig {
    HostConfig { language: Language::Fr, recipient: recipient.to_string(), enable_captcha: false, inputs: vec![] }
}

#[test]
fn strmap_latest_insert_wins() {
    let mut m: Hosts = StrMap::new();
    assert!(m.get("a").is_none());
    m.insert("a".to_string(), host("one@example.org"));
    m.insert("b".to_string(), host("two@example.org"));
    m.insert("a".to_string(), host("three@example.org"));
    assert_eq!(m.get("a").unwrap().recipient, "three@example.org");
    assert_eq!(m.get("b").unwrap().recipient, "two@example.org");
    let (k, v) = m.get_key_value("b").unwrap();
    assert_eq!(k, "b");
    assert_eq!(v.recipient, "two@example.org");
    assert!(m.contains_key("a"));
    assert!(!m.contains_key("c"));
    assert_eq!(m.find("a"), Some(2));
}

#[test]
fn mail_templates_by_language() {
    let t = init_mail_template("bonjour".to_string(), "hello".to_string());
    assert_eq!(t.get(&Language::Fr).unwrap(), "bonjour");
    assert_eq!(t.get(&Language::En).unwrap(), "hello");
    let empty = MailTemplates::new();
    assert!(empty.get(&Language::En).is_none());
    assert_eq!(template_path(MAIL_TEMPLATES_FOLDER, Language::Fr), "./mails/fr.txt");
    assert_eq!(template_path("/x/", Language::En), "/x/en.txt");
}

#[test]
fn config_version_check() {
    assert!(config(CONFIG_VERSION).check().is_ok());
    let err = config(CONFIG_VERSION + 1).check().unwrap_err();
    assert_eq!(
        err,
        format!("Your configuration file is obsolete! Please update it using config.toml.sample and update its version to {CONFIG_VERSION}.")
    );
}

#[test]
fn globals_are_set_once() {
    let mut g = Globals::new();
    assert!(g.set_config(config(1)).is_ok());
    assert!(g.set_config(config(2)).is_err());
    assert_eq!(load_config(&g).config_version, 1);
    let mut h: Hosts = StrMap::new();
    h.insert("x".to_string(), host("r@example.org"));
    assert!(g.set_hosts(h).is_ok());
    assert!(g.set_hosts(StrMap::new()).is_err());
    assert!(load_hosts(&g).contains_key("x"));
    assert!(g.set_templates(init_mail_template("f".to_string(), "e".to_string())).is_ok());
    assert!(g.set_templates(MailTemplates::new()).is_err());
    assert_eq!(load_templates(&g).get(&Language::En).unwrap(), "e");
    assert!(g.set_re_email(EmailRegex::new()).is_ok());
    assert!(g.set_re_email(EmailRegex::new()).is_err());
    let _ = load_re_email(&g);
}
