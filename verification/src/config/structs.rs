//! The settings of `config.toml` and `hosts.json`.

use vstd::prelude::*;
use crate::strmap::StrMap;

verus! {

/// General settings.
pub struct ConfGeneral {
    pub listening_address: String,
    pub listening_port: u16,
    pub hostname: String,
    pub verbose_level: VerboseLevel,
}

/// Captcha settings: HMAC secret, the largest number of a challenge, and
/// the minutes a challenge stays valid.
pub struct ConfCaptcha {
    pub secret: String,
    pub complexity: u64,
    pub expires: i64,
}

/// Mail settings.
pub struct ConfMail {
    pub mailserver_address: String,
    pub sender_email: String,
    pub sender_password: String,
    pub send_as: String,
    pub contact_spam: String,
    pub mail_signature: String,
}

/// The whole of `config.toml`.
pub struct Config {
    pub config_version: u8,
    pub general: ConfGeneral,
    pub captcha: ConfCaptcha,
    pub mail: ConfMail,
}

/// The kinds of form input.
#[derive(Debug, Clone, Copy, PartialEq, Eq, Structural)]
pub enum HostInputKind {
    Text,
    TextArea,
    Email,
    Select,
}

/// Per-input settings: the longest accepted text, and a select's options.
pub struct HostSettings {
    pub maxlength: Option<usize>,
    pub options: Option<Vec<String>>,
}

/// One input of a form.
pub struct HostInput {
    pub display_name: String,
    pub name: String,
    pub kind: HostInputKind,
    pub required: bool,
    pub settings: HostSettings,
}

/// The language of a host's mails.
#[derive(Debug, Clone, Copy, PartialEq, Eq, Hash, Structural)]
pub enum Language {
    Fr,
    En,
}

/// One host of `hosts.json`: its mail language and recipient, whether it
/// asks for a captcha, and its inputs.
pub struct HostConfig {
    pub language: Language,
    pub recipient: String,
    pub enable_captcha: bool,
    pub inputs: Vec<HostInput>,
}

/// How much the server prints.
#[derive(Debug, Clone, Copy, PartialEq, Eq, Structural)]
pub enum VerboseLevel {
    Info,
    Notice,
    Warn,
    Crit,
}

/// The hosts, by name.
pub type Hosts = StrMap<HostConfig>;

/// The mail template of each language.
pub struct MailTemplates {
    pub fr: Option<String>,
    pub en: Option<String>,
}

impl MailTemplates {
    pub open spec fn spec_get(&self, lang: Language) -> Option<String> {
        match lang {
            Language::Fr => self.fr,
            Language::En => self.en,
        }
    }

    /// No template yet.
    pub fn new() -> (r: MailTemplates)
        ensures
            r.spec_get(Language::Fr) is None,
            r.spec_get(Language::En) is None,
    {
        MailTemplates { fr: None, en: None }
    }

    /// Sets the template of `lang`.
    pub fn insert(&mut self, lang: Language, tpl: String)
        ensures
            final(self).spec_get(lang) == Some(tpl),
            forall|l: Language| l != lang ==> final(self).spec_get(l) == old(self).spec_get(l),
    {
        match lang {
            Language::Fr => self.fr = Some(tpl),
            Language::En => self.en = Some(tpl),
        }
    }

    /// The template of `lang`, if any.
    pub fn get(&self, lang: &Language) -> (r: Option<&String>)
        ensures
            r matches Some(t) ==> self.spec_get(*lang) == Some(*t),
            r is None ==> self.spec_get(*lang) is None,
    {
        match lang {
            Language::Fr => match &self.fr {
                Some(t) => Some(t),
                None => None,
            },
            Language::En => match &self.en {
                Some(t) => Some(t),
                None => None,
            },
        }
    }
}

} // verus!
