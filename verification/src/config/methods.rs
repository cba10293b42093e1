//! The loaded configuration and what is derived from it.

use vstd::prelude::*;
use crate::config::global::{CONFIG_VERSION, EMAIL_PATTERN};
use crate::config::structs::{Config, Hosts, Language, MailTemplates};
use crate::text::cat3;
use vstd::string::StringExecFns;

verus! {

#[verifier::external_type_specification]
#[verifier::external_body]
pub struct ExRegex(regex::Regex);

/// Whether the `regex` crate compiles `pattern`.
pub uninterp spec fn regex_compiles(pattern: Seq<char>) -> bool;

/// Trusted: `regex::Regex::new`, which compiles `pattern`; `None` stands for
/// its error. Claims that success depends on the pattern alone, and that
/// `EMAIL_PATTERN` compiles: it is valid syntax, far below the crate's
/// default size limit. What the compiled regex matches is claimed by
/// `EmailRegex::is_match`.
#[verifier::external_body]
fn regex_new(pattern: &str) -> (r: Option<regex::Regex>)
    ensures
        r is Some <==> regex_compiles(pattern@),
        pattern@ == EMAIL_PATTERN@ ==> r is Some,
{
    match regex::Regex::new(pattern) {
        Ok(re) => Some(re),
        Err(_) => None,
    }
}

pub open spec fn is_ascii_alnum(c: char) -> bool {
    ('a' <= c && c <= 'z') || ('A' <= c && c <= 'Z') || ('0' <= c && c <= '9')
}

/// A character allowed before the `@`: a letter, a digit, or one of
/// .!#$%&'*+/=?^_`{|}~-
pub open spec fn is_local_char(c: char) -> bool {
    is_ascii_alnum(c) || c == '.' || c == '!' || c == '#' || c == '$' || c == '%' || c == '&' || c == '\''
        || c == '*' || c == '+' || c == '/' || c == '=' || c == '?' || c == '^' || c == '_' || c == '`' || c == '{'
        || c == '|' || c == '}' || c == '~' || c == '-'
}

/// A domain as the pattern reads it: labels separated by single dots, each
/// label 1 to 63 letters, digits or hyphens, beginning and ending with a
/// letter or digit.
pub open spec fn is_email_domain(d: Seq<char>) -> bool {
    &&& d.len() > 0
    &&& is_ascii_alnum(d[0]) && is_ascii_alnum(d.last())
    &&& forall|i: int| 0 <= i < d.len() ==> (is_ascii_alnum(#[trigger] d[i]) || d[i] == '-' || d[i] == '.')
    &&& forall|i: int| 0 < i < d.len() - 1 && #[trigger] d[i] == '.' ==> is_ascii_alnum(d[i - 1]) && is_ascii_alnum(
        d[i + 1])
    &&& forall|i: int, j: int| #![trigger d[i], d[j]] 0 <= i <= j < d.len() && (forall|k: int| i <= k <= j ==> d[k]
        != '.') ==> j - i < 63
}

/// Whether the email pattern of the HTML standard (`EMAIL_PATTERN`, anchored
/// at both ends) matches `text`: one or more allowed characters, an `@`,
/// then a domain.
pub open spec fn email_regex_matches(text: Seq<char>) -> bool {
    exists|at: int|
        0 < at < text.len() && #[trigger] text[at] == '@' && (forall|k: int| 0 <= k < at ==> is_local_char(
            #[trigger] text[k])) && is_email_domain(text.skip(at + 1))
}

/// The email regex of the HTML standard, compiled. The only way to build
/// one is `EmailRegex::new`, which compiles `EMAIL_PATTERN`.
pub struct EmailRegex {
    re: regex::Regex,
}

impl EmailRegex {
    /// Compiles `EMAIL_PATTERN`.
    pub fn new() -> (r: EmailRegex) {
        EmailRegex { re: regex_new(EMAIL_PATTERN).unwrap() }
    }

    /// Trusted: `regex::Regex::is_match` on the regex compiled from
    /// `EMAIL_PATTERN` (the only regex an `EmailRegex` holds); claims that
    /// it accepts exactly the texts of the pattern's language, stated by
    /// `email_regex_matches`.
    #[verifier::external_body]
    pub(crate) fn is_match(&self, text: &str) -> (r: bool)
        ensures
            r == email_regex_matches(text@),
    {
        self.re.is_match(text)
    }
}

/// What the server holds once its files are read: each part is set once.
pub struct Globals {
    pub config: Option<Config>,
    pub hosts: Option<Hosts>,
    pub templates: Option<MailTemplates>,
    pub re_email: Option<EmailRegex>,
}

impl Globals {
    /// Nothing loaded yet.
    pub fn new() -> (r: Globals)
        ensures
            r.config is None,
            r.hosts is None,
            r.templates is None,
            r.re_email is None,
    {
        Globals { config: None, hosts: None, templates: None, re_email: None }
    }

    /// Sets the configuration; gives it back if it was already set.
    pub fn set_config(&mut self, c: Config) -> (r: Result<(), Config>)
        ensures
            old(self).config is None ==> r is Ok && final(self).config == Some(c),
            old(self).config is Some ==> r == Err::<(), Config>(c) && final(self).config == old(self).config,
            final(self).hosts == old(self).hosts,
            final(self).templates == old(self).templates,
            final(self).re_email == old(self).re_email,
    {
        if self.config.is_some() {
            Err(c)
        } else {
            self.config = Some(c);
            Ok(())
        }
    }

    /// Sets the hosts; gives them back if they were already set.
    pub fn set_hosts(&mut self, h: Hosts) -> (r: Result<(), Hosts>)
        ensures
            old(self).hosts is None ==> r is Ok && final(self).hosts == Some(h),
            old(self).hosts is Some ==> r == Err::<(), Hosts>(h) && final(self).hosts == old(self).hosts,
            final(self).config == old(self).config,
            final(self).templates == old(self).templates,
            final(self).re_email == old(self).re_email,
    {
        if self.hosts.is_some() {
            Err(h)
        } else {
            self.hosts = Some(h);
            Ok(())
        }
    }

    /// Sets the mail templates; gives them back if they were already set.
    pub fn set_templates(&mut self, t: MailTemplates) -> (r: Result<(), MailTemplates>)
        ensures
            old(self).templates is None ==> r is Ok && final(self).templates == Some(t),
            old(self).templates is Some ==> r == Err::<(), MailTemplates>(t) && final(self).templates
                == old(self).templates,
            final(self).config == old(self).config,
            final(self).hosts == old(self).hosts,
            final(self).re_email == old(self).re_email,
    {
        if self.templates.is_some() {
            Err(t)
        } else {
            self.templates = Some(t);
            Ok(())
        }
    }

    /// Sets the email regex; gives it back if it was already set.
    pub fn set_re_email(&mut self, re: EmailRegex) -> (r: Result<(), EmailRegex>)
        ensures
            old(self).re_email is None ==> r is Ok && final(self).re_email == Some(re),
            old(self).re_email is Some ==> r == Err::<(), EmailRegex>(re) && final(self).re_email
                == old(self).re_email,
            final(self).config == old(self).config,
            final(self).hosts == old(self).hosts,
            final(self).templates == old(self).templates,
    {
        if self.re_email.is_some() {
            Err(re)
        } else {
            self.re_email = Some(re);
            Ok(())
        }
    }
}

/// The loaded configuration.
pub fn load_config(g: &Globals) -> (r: &Config)
    requires
        g.config is Some,
    ensures
        Some(*r) == g.config,
{
    g.config.as_ref().unwrap()
}

/// The loaded hosts.
pub fn load_hosts(g: &Globals) -> (r: &Hosts)
    requires
        g.hosts is Some,
    ensures
        Some(*r) == g.hosts,
{
    g.hosts.as_ref().unwrap()
}

/// The loaded mail templates.
pub fn load_templates(g: &Globals) -> (r: &MailTemplates)
    requires
        g.templates is Some,
    ensures
        Some(*r) == g.templates,
{
    g.templates.as_ref().unwrap()
}

/// The compiled email regex.
pub fn load_re_email(g: &Globals) -> (r: &EmailRegex)
    requires
        g.re_email is Some,
    ensures
        Some(*r) == g.re_email,
{
    g.re_email.as_ref().unwrap()
}

pub open spec fn lang_code(l: Language) -> Seq<char> {
    match l {
        Language::Fr => "fr"@,
        Language::En => "en"@,
    }
}

/// The file of the template of `lang` in `tpl_folder`: `{folder}{code}.txt`.
pub fn template_path(tpl_folder: &str, lang: Language) -> (r: String)
    ensures
        r@ == tpl_folder@ + lang_code(lang) + ".txt"@,
{
    let code = match lang {
        Language::Fr => "fr",
        Language::En => "en",
    };
    cat3(tpl_folder, code, ".txt")
}

/// The mail templates, from the texts of the French and English files.
pub fn init_mail_template(fr: String, en: String) -> (r: MailTemplates)
    ensures
        r.spec_get(Language::Fr) == Some(fr),
        r.spec_get(Language::En) == Some(en),
{
    let mut tpl_list = MailTemplates::new();
    tpl_list.insert(Language::Fr, fr);
    tpl_list.insert(Language::En, en);
    tpl_list
}

pub open spec fn obsolete_config_message() -> Seq<char> {
    "Your configuration file is obsolete! Please update it using config.toml.sample and update its version to 1."@
}

impl Config {
    /// Checks the configuration's version; on a mismatch, gives the message
    /// to print before stopping.
    pub fn check(&self) -> (r: Result<(), String>)
        ensures
            r is Ok <==> self.config_version == CONFIG_VERSION,
            r matches Err(m) ==> m@ == obsolete_config_message(),
    {
        if self.config_version != CONFIG_VERSION {
            Err(String::from_str("Your configuration file is obsolete! Please update it using config.toml.sample and update its version to 1."))
        } else {
            Ok(())
        }
    }
}

} // verus!
