//! The mail sent for an accepted form: its form data, subject and body.

use vstd::prelude::*;
use crate::config::structs::{Config, HostConfig, HostInput, HostInputKind, Language, MailTemplates};
use crate::errors::{fails_with, throw, ErrorKind as EK, ServerError};
use crate::handlers::{input_check_spec, inputs_check_spec, is_text_kind, select_check_spec, FormValues};
use crate::strmap::lookup;
use crate::text::{cat2, cat3, first_line, first_line_of, parse_usize, parse_usize_spec, replace, replace_all};
use vstd::string::StringExecFns;

verus! {

/// One line of the form data: `{display name}: {value}` and a blank line.
pub open spec fn data_line(display_name: Seq<char>, value: Seq<char>) -> Seq<char> {
    display_name + ": "@ + value + "\n\n"@
}

/// The submitted value of a field, or the empty text.
pub open spec fn value_or_empty(values: Seq<(String, String)>, name: Seq<char>) -> Seq<char> {
    match lookup(values, name) {
        Some(v) => v@,
        None => Seq::empty(),
    }
}

/// The form-data line of one field. A non-empty select value is an index
/// counted from 1 into the select's options and is replaced by that option.
pub open spec fn field_line(f: HostInput, values: Seq<(String, String)>) -> Result<Seq<char>, (EK, Seq<char>)> {
    let v = value_or_empty(values, f.name@);
    if f.kind == HostInputKind::Select && v.len() > 0 {
        match f.settings.options {
            None => Err((EK::FieldSelectNoOptions, "select "@ + f.name@ + " has no options"@)),
            Some(opts) => match parse_usize_spec(v) {
                Err(e) => Err((EK::FieldSelectWrongType, "field "@ + f.name@ + " is not an unsigned integer: "@
                    + e.spec_description())),
                Ok(idx) => if 1 <= idx && idx - 1 < opts@.len() {
                    Ok(data_line(f.display_name@, opts@[idx - 1]@))
                } else {
                    Err((EK::FieldSelectOutOfRange, "field not found: "@ + f.name@))
                },
            },
        }
    } else {
        Ok(data_line(f.display_name@, v))
    }
}

/// The form data: the lines of all fields in order, or the first error.
pub open spec fn form_data_spec(fs: Seq<HostInput>, values: Seq<(String, String)>) -> Result<Seq<char>, (EK, Seq<char>)>
    decreases fs.len(),
{
    if fs.len() == 0 {
        Ok(Seq::empty())
    } else {
        match form_data_spec(fs.drop_last(), values) {
            Err(e) => Err(e),
            Ok(acc) => match field_line(fs.last(), values) {
                Err(e) => Err(e),
                Ok(l) => Ok(acc + l),
            },
        }
    }
}

proof fn lemma_form_data_err_extends(fs: Seq<HostInput>, values: Seq<(String, String)>, n: int)
    requires
        0 <= n <= fs.len(),
        form_data_spec(fs.take(n), values) is Err,
    ensures
        form_data_spec(fs, values) == form_data_spec(fs.take(n), values),
    decreases fs.len(),
{
    if n == fs.len() {
        assert(fs.take(n) =~= fs);
    } else {
        assert(fs.drop_last().take(n) =~= fs.take(n));
        lemma_form_data_err_extends(fs.drop_last(), values, n);
    }
}

/// The line of one field, or its error.
fn fill_field(field: &HostInput, form_values: &FormValues) -> (r: Result<String, ServerError>)
    ensures
        match field_line(*field, form_values.entries@) {
            Ok(l) => r matches Ok(s) && s@ == l,
            Err((k, m)) => fails_with(r, k, m),
        },
        field.kind != HostInputKind::Select ==> (r matches Ok(s) && s@ == field.display_name@ + ": "@ + match lookup(
            form_values.entries@, field.name@) {
            Some(v) => v@,
            None => Seq::empty(),
        } + "\n\n"@),
{
    proof {
        lemma_plain_field_line(*field, form_values.entries@);
    }
    let name = field.name.as_str();
    let field_value: String = match form_values.get(name) {
        Some(v) => v.clone(),
        None => String::new(),
    };
    if field.kind == HostInputKind::Select && !field_value.as_str().is_empty() {
        let select_options = match &field.settings.options {
            Some(o) => o,
            None => {
                return Err(throw(EK::FieldSelectNoOptions, cat3("select ", name, " has no options")));
            },
        };
        let selected_index: usize = match parse_usize(field_value.as_str()) {
            Ok(v) => v,
            Err(e) => {
                let mut m = cat3("field ", name, " is not an unsigned integer: ");
                m.append(e.description());
                return Err(throw(EK::FieldSelectWrongType, m));
            },
        };
        if selected_index == 0 || selected_index - 1 >= select_options.len() {
            return Err(throw(EK::FieldSelectOutOfRange, cat2("field not found: ", name)));
        }
        let real_value = &select_options[selected_index - 1];
        let mut line = cat3(field.display_name.as_str(), ": ", real_value.as_str());
        line.append("\n\n");
        Ok(line)
    } else {
        let mut line = cat3(field.display_name.as_str(), ": ", field_value.as_str());
        line.append("\n\n");
        Ok(line)
    }
}

/// A field that is not a select is written as it was sent: its display
/// name, `: `, the submitted value unchanged (empty when it was not sent),
/// and a blank line.
pub proof fn lemma_plain_field_line(f: HostInput, values: Seq<(String, String)>)
    ensures
        f.kind != HostInputKind::Select ==> field_line(f, values) == Ok::<Seq<char>, (EK, Seq<char>)>(
            f.display_name@ + ": "@ + match lookup(values, f.name@) {
                Some(v) => v@,
                None => Seq::empty(),
            } + "\n\n"@),
{
}

/// A select sent with the index `n` (counted from 1) is written with its
/// `n`-th option; sent empty or left out, it is written empty.
pub proof fn lemma_select_field_line(f: HostInput, values: Seq<(String, String)>)
    ensures
        f.kind == HostInputKind::Select && lookup(values, f.name@) is None ==> field_line(f, values) == Ok::<
            Seq<char>,
            (EK, Seq<char>),
        >(f.display_name@ + ": "@ + "\n\n"@),
        f.kind == HostInputKind::Select && (lookup(values, f.name@) matches Some(v) && v@.len() == 0)
            ==> field_line(f, values) == Ok::<Seq<char>, (EK, Seq<char>)>(f.display_name@ + ": "@ + "\n\n"@),
        f.kind == HostInputKind::Select && (lookup(values, f.name@) matches Some(v) && v@.len() > 0 && (
        f.settings.options matches Some(opts) && parse_usize_spec(v@) matches Ok(n) && 1 <= n <= opts@.len()))
            ==> field_line(f, values) == Ok::<Seq<char>, (EK, Seq<char>)>(f.display_name@ + ": "@
            + f.settings.options->0@[parse_usize_spec(lookup(values, f.name@)->0@)->Ok_0 - 1]@ + "\n\n"@),
        f.kind == HostInputKind::Select && (lookup(values, f.name@) matches Some(v) && v@.len() > 0 && (
        f.settings.options matches Some(opts) && parse_usize_spec(v@) matches Ok(n) && (n == 0 || n > opts@.len())))
            ==> field_line(f, values) == Err::<Seq<char>, (EK, Seq<char>)>((EK::FieldSelectOutOfRange,
            "field not found: "@ + f.name@)),
{
    assert(Seq::<char>::empty() + ": "@ =~= ": "@);
}

/// Adding a field that is not a select after others appends its line to
/// their form data: the form data of `fs` followed by `f` is that of `fs`,
/// then `f`'s display name, `: `, its submitted value and a blank line.
pub proof fn lemma_form_data_append_plain(fs: Seq<HostInput>, f: HostInput, values: Seq<(String, String)>)
    requires
        f.kind != HostInputKind::Select,
    ensures
        form_data_spec(fs, values) matches Ok(d) ==> form_data_spec(fs.push(f), values) == Ok::<
            Seq<char>,
            (EK, Seq<char>),
        >(d + (f.display_name@ + ": "@ + match lookup(values, f.name@) {
            Some(v) => v@,
            None => Seq::empty(),
        } + "\n\n"@)),
        form_data_spec(fs, values) is Err ==> form_data_spec(fs.push(f), values) == form_data_spec(fs, values),
{
    assert(fs.push(f).drop_last() =~= fs);
    assert(fs.push(f).last() == f);
    lemma_plain_field_line(f, values);
}

/// The form data of a mail: for each input of the host, in order, its
/// display name and submitted value (a select's option for a select).
pub fn fill_form_data(host_config: &HostConfig, form_values: &FormValues) -> (r: Result<String, ServerError>)
    ensures
        match form_data_spec(host_config.inputs@, form_values.entries@) {
            Ok(d) => r matches Ok(s) && s@ == d,
            Err((k, m)) => fails_with(r, k, m),
        },
{
    let inputs = &host_config.inputs;
    let mut form_data = String::new();
    let mut i: usize = 0;
    assert(inputs@.take(0) =~= Seq::<HostInput>::empty());
    while i < inputs.len()
        invariant
            i <= inputs@.len(),
            *inputs == host_config.inputs,
            form_data_spec(inputs@.take(i as int), form_values.entries@) == Ok::<Seq<char>, (EK, Seq<char>)>(form_data@),
        decreases inputs.len() - i,
    {
        assert(inputs@.take(i + 1).drop_last() =~= inputs@.take(i as int));
        assert(inputs@.take(i + 1).last() == inputs@[i as int]);
        match fill_field(&inputs[i], form_values) {
            Ok(line) => {
                form_data.append(line.as_str());
            },
            Err(e) => {
                proof {
                    lemma_form_data_err_extends(inputs@, form_values.entries@, i + 1);
                }
                return Err(e);
            },
        }
        i = i + 1;
    }
    assert(inputs@.take(i as int) =~= inputs@);
    Ok(form_data)
}

/// A select whose submitted value is the index 0 (accepted by the checks
/// when the select is optional, yet naming no option).
pub open spec fn is_zero_select(f: HostInput, values: Seq<(String, String)>) -> bool {
    f.kind == HostInputKind::Select && match lookup(values, f.name@) {
        Some(v) => parse_usize_spec(v@) == Ok::<int, crate::text::IntErrorKind>(0),
        None => false,
    }
}

proof fn lemma_checked_field_fills(f: HostInput, values: Seq<(String, String)>)
    requires
        input_check_spec(f, values) is Ok,
        !is_zero_select(f, values),
    ensures
        field_line(f, values) is Ok,
{
    let v = value_or_empty(values, f.name@);
    if f.kind == HostInputKind::Select && v.len() > 0 {
        assert(lookup(values, f.name@) is Some);
        let sv = lookup(values, f.name@)->0;
        assert(sv@ == v);
        assert(!is_text_kind(f.kind));
        assert(select_check_spec(f, v) is Ok);
        let opts = f.settings.options->0;
        let idx = parse_usize_spec(v)->Ok_0;
        assert(idx != 0);
        crate::text::lemma_parse_usize_range(v);
        assert(1 <= idx && idx - 1 < opts@.len());
    }
}

/// A form that passed the input checks can be written out as form data,
/// unless one of its optional selects was left at the index 0.
pub proof fn lemma_checked_form_fills(fs: Seq<HostInput>, values: Seq<(String, String)>)
    requires
        inputs_check_spec(fs, values) is Ok,
        forall|i: int| 0 <= i < fs.len() ==> !is_zero_select(#[trigger] fs[i], values),
    ensures
        form_data_spec(fs, values) is Ok,
    decreases fs.len(),
{
    if fs.len() > 0 {
        assert forall|i: int| 0 <= i < fs.drop_last().len() implies !is_zero_select(
            #[trigger] fs.drop_last()[i], values) by {
            assert(fs.drop_last()[i] == fs[i]);
        }
        lemma_checked_form_fills(fs.drop_last(), values);
        assert(!is_zero_select(fs[fs.len() - 1], values));
        lemma_checked_field_fills(fs.last(), values);
    }
}

#[verifier::external_type_specification]
#[verifier::external_body]
pub struct ExMailbox(lettre::message::Mailbox);

/// The mailbox that `lettre` reads from `s` (`Mailbox::from_str`), if any.
pub uninterp spec fn parsed_mailbox(s: Seq<char>) -> Option<lettre::message::Mailbox>;

pub open spec fn mailbox_parses(s: Seq<char>) -> bool {
    parsed_mailbox(s) is Some
}

/// The text (`Display`) of the `AddressError` that `lettre` gives when it
/// cannot read a mailbox from `s`.
pub uninterp spec fn mailbox_error_text(s: Seq<char>) -> Seq<char>;

/// Trusted: `lettre::message::Mailbox::from_str`; claims that its result
/// is `parsed_mailbox(s)`, and its error's text `mailbox_error_text(s)`,
/// both depending on `s` alone.
#[verifier::external_body]
fn parse_mailbox(s: &str) -> (r: Result<lettre::message::Mailbox, String>)
    ensures
        match r {
            Ok(m) => parsed_mailbox(s@) == Some(m),
            Err(e) => parsed_mailbox(s@) is None && e@ == mailbox_error_text(s@),
        },
{
    match s.parse::<lettre::message::Mailbox>() {
        Ok(m) => Ok(m),
        Err(e) => Err(e.to_string()),
    }
}

/// A mail ready to go: sender, recipient, subject and plain-text body.
pub struct Outgoing {
    pub from: lettre::message::Mailbox,
    pub to: lettre::message::Mailbox,
    pub subject: String,
    pub body: String,
}

pub open spec fn language_debug(l: Language) -> Seq<char> {
    match l {
        Language::Fr => "Fr"@,
        Language::En => "En"@,
    }
}

/// The body of the mail: the template without its subject line's text, with
/// the host, client IP, form data, spam contact and signature filled in.
pub open spec fn mail_body(tpl: Seq<char>, subject: Seq<char>, host_name: Seq<char>, client_ip: Seq<char>,
    form_data: Seq<char>, contact: Seq<char>, signature: Seq<char>) -> Seq<char> {
    replace_all(replace_all(replace_all(replace_all(replace_all(replace_all(
        tpl, subject, Seq::empty()),
        "{{HOST}}"@, host_name),
        "{{IP}}"@, client_ip),
        "{{FORMDATA}}"@, form_data),
        "{{CONTACT}}"@, contact),
        "{{MAIL_SIGNATURE}}"@, signature)
}

/// The subject of the mail: the template's first line without the subject
/// markers.
pub open spec fn mail_subject(first: Seq<char>) -> Seq<char> {
    replace_all(replace_all(first, "{{SUBJECT}}"@, Seq::empty()), "{{/SUBJECT}}"@, Seq::empty())
}

/// Builds the mail for a form accepted for `host_name`: the template of the
/// host's language (its first line is the subject), the form data, and the
/// sender and recipient mailboxes.
pub fn deliver(config: &Config, templates: &MailTemplates, client_ip: &str, host_name: &str,
    host_config: &HostConfig, form_values: &FormValues) -> (r: Result<Outgoing, ServerError>)
    ensures
        templates.spec_get(host_config.language) is None ==> fails_with(r, EK::EmailLanguageNotFound,
            "defined language not found for "@ + host_name@ + " ("@ + language_debug(host_config.language) + ")"@),
        templates.spec_get(host_config.language) is Some ==> match form_data_spec(host_config.inputs@, form_values.entries@) {
            Err((k, m)) => fails_with(r, k, m),
            Ok(data) => {
                let tpl = templates.spec_get(host_config.language)->0@;
                match first_line(tpl) {
                    None => fails_with(r, EK::EmailLinesFail, "Could not read next line for "@ + host_name@ + ", \"\""@),
                    Some(first) => if !mailbox_parses(config.mail.send_as@) {
                        fails_with(r, EK::EmailFromParseFail, mailbox_error_text(config.mail.send_as@))
                    } else if !mailbox_parses(host_config.recipient@) {
                        fails_with(r, EK::EmailToParseFail, mailbox_error_text(host_config.recipient@))
                    } else {
                        r matches Ok(o) && o.subject@ == mail_subject(first) && o.body@ == mail_body(tpl, first,
                            host_name@, client_ip@, data, config.mail.contact_spam@, config.mail.mail_signature@)
                            && parsed_mailbox(config.mail.send_as@) == Some(o.from)
                            && parsed_mailbox(host_config.recipient@) == Some(o.to)
                    },
                }
            },
        },
{
    let tpl = match templates.get(&host_config.language) {
        Some(t) => t,
        None => {
            let lang = match host_config.language {
                Language::Fr => "Fr",
                Language::En => "En",
            };
            let mut m = cat3("defined language not found for ", host_name, " (");
            m.append(lang);
            m.append(")");
            return Err(throw(EK::EmailLanguageNotFound, m));
        },
    };
    let form_data = fill_form_data(host_config, form_values)?;
    let subject = match first_line_of(tpl.as_str()) {
        Some(s) => s,
        None => {
            return Err(throw(EK::EmailLinesFail, cat3("Could not read next line for ", host_name, ", \"\"")));
        },
    };
    proof {
        reveal_strlit("");
        assert(""@ =~= Seq::<char>::empty());
    }
    let b0 = replace(tpl.as_str(), subject.as_str(), "");
    let b1 = replace(b0.as_str(), "{{HOST}}", host_name);
    let b2 = replace(b1.as_str(), "{{IP}}", client_ip);
    let b3 = replace(b2.as_str(), "{{FORMDATA}}", form_data.as_str());
    let b4 = replace(b3.as_str(), "{{CONTACT}}", config.mail.contact_spam.as_str());
    let body = replace(b4.as_str(), "{{MAIL_SIGNATURE}}", config.mail.mail_signature.as_str());
    let s0 = replace(subject.as_str(), "{{SUBJECT}}", "");
    let subject = replace(s0.as_str(), "{{/SUBJECT}}", "");
    let from = match parse_mailbox(config.mail.send_as.as_str()) {
        Ok(m) => m,
        Err(e) => {
            return Err(throw(EK::EmailFromParseFail, e));
        },
    };
    let to = match parse_mailbox(host_config.recipient.as_str()) {
        Ok(m) => m,
        Err(e) => {
            return Err(throw(EK::EmailToParseFail, e));
        },
    };
    Ok(Outgoing { from, to, subject, body })
}

} // verus!
