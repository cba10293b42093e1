//! What the server decides on a form submission and on a captcha request.

use vstd::prelude::*;
use vstd::utf8::{decode_utf8, valid_utf8};
use crate::config::methods::{EmailRegex, email_regex_matches};
use crate::config::structs::{Config, HostConfig, HostInput, HostInputKind, Hosts};
use crate::errors::{agrees, fails_with, throw, ErrorKind as EK, Outcome, ServerError};
use crate::strmap::{lookup, StrMap};
use crate::text::{byte_len, cat2, cat3, cat4, parse_usize, parse_usize_spec};
use vstd::string::StringExecFns;

pub mod callbacks;
pub mod transactions;

verus! {

/// The values of a submitted form, by field name.
pub type FormValues = StrMap<String>;

/// A submitted form as received: its fields in order, each with its value
/// when that value is a string, or no fields at all when the data is not an
/// object; and the data's debug text, for messages.
pub struct FormJson {
    pub object: Option<Vec<(String, Option<String>)>>,
    pub debug: String,
}

/// The status answered when a form was accepted.
pub struct ServerStatus {
    pub status: String,
    pub message: Option<String>,
}

impl ServerStatus {
    /// `{"status": "ok", "message": null}`.
    pub fn ok() -> (r: ServerStatus)
        ensures
            r.status@ == "ok"@,
            r.message is None,
    {
        ServerStatus { status: String::from_str("ok"), message: None }
    }
}

/// The longest accepted text when an input sets none.
pub const DEFAULT_MAXLENGTH: usize = 10000;

/// Every field of the form has a string value.
pub open spec fn all_strings(fields: Seq<(String, Option<String>)>) -> bool {
    forall|i: int| 0 <= i < fields.len() ==> (#[trigger] fields[i]).1 is Some
}

/// The fields with their string values, in order.
pub open spec fn submitted_values(fields: Seq<(String, Option<String>)>) -> Seq<(String, String)> {
    Seq::new(fields.len(), |i: int| (fields[i].0, fields[i].1->0))
}

/// `m` holds the fields, in order, with their string values.
pub open spec fn holds_fields(m: FormValues, fields: Seq<(String, Option<String>)>) -> bool {
    m.entries@ == submitted_values(fields)
}

/// Turns the submitted form into its values: an error if the data is not an
/// object or if a value is not a string; otherwise every field, in order.
pub fn form_to_hashmap(form_data: &FormJson) -> (r: Result<FormValues, ServerError>)
    ensures
        form_data.object is None ==> fails_with(r, EK::FormDataNotObject,
            "Received form data is not convertible to object: "@ + form_data.debug@),
        form_data.object matches Some(fields) && !all_strings(fields@) ==> fails_with(r,
            EK::FormParamNotString, "Could not read form param as string: "@ + form_data.debug@),
        form_data.object is Some && all_strings(form_data.object->0@) ==> (r matches Ok(m)
            && holds_fields(m, form_data.object->0@)),
{
    let mut form_values: FormValues = StrMap::new();
    let fields = match &form_data.object {
        Some(f) => f,
        None => {
            return Err(throw(EK::FormDataNotObject, cat2("Received form data is not convertible to object: ", form_data.debug.as_str())));
        },
    };
    let mut i: usize = 0;
    while i < fields.len()
        invariant
            i <= fields@.len(),
            form_data.object == Some(*fields),
            form_values.entries@.len() == i,
            forall|j: int| 0 <= j < i ==> (#[trigger] fields@[j]).1 is Some,
            forall|j: int| 0 <= j < i ==> #[trigger] form_values.entries@[j] == (fields@[j].0, fields@[j].1->0),
        decreases fields.len() - i,
    {
        match &fields[i].1 {
            Some(v) => {
                form_values.insert(fields[i].0.clone(), v.clone());
            },
            None => {
                return Err(throw(EK::FormParamNotString, cat2("Could not read form param as string: ", form_data.debug.as_str())));
            },
        }
        i = i + 1;
    }
    assert(form_values.entries@ =~= submitted_values(fields@));
    Ok(form_values)
}

pub open spec fn is_text_kind(k: HostInputKind) -> bool {
    k == HostInputKind::Text || k == HostInputKind::TextArea || k == HostInputKind::Email
}

pub open spec fn max_len(f: HostInput) -> int {
    match f.settings.maxlength {
        Some(m) => m as int,
        None => DEFAULT_MAXLENGTH as int,
    }
}

/// The check of a select's value: it must be an index, nonzero when the
/// field is required, and below the number of options.
pub open spec fn select_check_spec(f: HostInput, value: Seq<char>) -> Outcome {
    match f.settings.options {
        None => Err((EK::FieldSelectNoOptions, "select "@ + f.name@ + " has no options"@)),
        Some(opts) => match parse_usize_spec(value) {
            Err(e) => Err((EK::FieldSelectWrongType, "field "@ + f.name@ + " is not an unsigned integer: "@ + e.spec_description())),
            Ok(idx) => if idx == 0 && f.required {
                Err((EK::FieldRequiredButEmpty, "field "@ + f.name@ + " is required but empty"@))
            } else if idx >= opts@.len() {
                Err((EK::FieldSelectOutOfRange, "field "@ + f.name@ + " is out of range"@))
            } else {
                Ok(())
            },
        },
    }
}

/// The check of one input against the submitted values.
pub open spec fn input_check_spec(f: HostInput, values: Seq<(String, String)>) -> Outcome {
    match lookup(values, f.name@) {
        None => if !f.required {
            Ok(())
        } else {
            Err((EK::FieldRequiredButMissing, "missing field "@ + f.name@))
        },
        Some(v) => if v@.len() == 0 && f.required {
            Err((EK::FieldRequiredButEmpty, "field "@ + f.name@ + " is empty"@))
        } else if v@.len() == 0 {
            Ok(())
        } else if is_text_kind(f.kind) && byte_len(v@) > max_len(f) {
            Err((EK::FieldTooLong, "user has written a novel for field "@ + f.name@))
        } else if f.kind == HostInputKind::Email && !email_regex_matches(v@) {
            Err((EK::FieldEmailWrongType, "field "@ + f.name@ + " is not an email"@))
        } else if f.kind == HostInputKind::Select {
            select_check_spec(f, v@)
        } else {
            Ok(())
        },
    }
}

/// Checks one input of the host against the submitted values.
pub fn form_input_check(re_email: &EmailRegex, host_field: &HostInput, form_values: &FormValues) -> (r: Result<(), ServerError>)
    ensures
        agrees(r, input_check_spec(*host_field, form_values.entries@)),
        lookup(form_values.entries@, host_field.name@) is None && !host_field.required ==> r is Ok,
        (lookup(form_values.entries@, host_field.name@) matches Some(v) && v@.len() == 0) && !host_field.required
            ==> r is Ok,
        (lookup(form_values.entries@, host_field.name@) matches Some(v) && v@.len() == 0) && host_field.required
            ==> (r matches Err(e) && e.kind == EK::FieldRequiredButEmpty),
        lookup(form_values.entries@, host_field.name@) is None && host_field.required ==> (r matches Err(e)
            && e.kind == EK::FieldRequiredButMissing),
{
    proof {
        lemma_input_presence(*host_field, form_values.entries@);
    }
    let name = host_field.name.as_str();
    let form_field = match form_values.get(name) {
        Some(f) => {
            if f.as_str().is_empty() {
                if host_field.required {
                    return Err(throw(EK::FieldRequiredButEmpty, cat3("field ", name, " is empty")));
                }
                return Ok(());
            }
            f
        },
        None => {
            if !host_field.required {
                return Ok(());
            }
            return Err(throw(EK::FieldRequiredButMissing, cat2("missing field ", name)));
        },
    };
    let maxlength: usize = match host_field.settings.maxlength {
        Some(m) => m,
        None => DEFAULT_MAXLENGTH,
    };
    if (host_field.kind == HostInputKind::Text || host_field.kind == HostInputKind::TextArea
        || host_field.kind == HostInputKind::Email) && form_field.as_str().len() > maxlength {
        return Err(throw(EK::FieldTooLong, cat2("user has written a novel for field ", name)));
    }
    if host_field.kind == HostInputKind::Email && !re_email.is_match(form_field.as_str()) {
        return Err(throw(EK::FieldEmailWrongType, cat3("field ", name, " is not an email")));
    }
    if host_field.kind == HostInputKind::Select {
        let select_options = match &host_field.settings.options {
            Some(o) => o,
            None => {
                return Err(throw(EK::FieldSelectNoOptions, cat3("select ", name, " has no options")));
            },
        };
        let selected_index: usize = match parse_usize(form_field.as_str()) {
            Ok(v) => v,
            Err(e) => {
                return Err(throw(EK::FieldSelectWrongType, cat4("field ", name, " is not an unsigned integer: ", e.description())));
            },
        };
        if selected_index == 0 && host_field.required {
            return Err(throw(EK::FieldRequiredButEmpty, cat3("field ", name, " is required but empty")));
        }
        if selected_index >= select_options.len() {
            return Err(throw(EK::FieldSelectOutOfRange, cat3("field ", name, " is out of range")));
        }
    }
    Ok(())
}

/// Whether an input is sent decides first: an input left out, or sent
/// empty, passes its check exactly when it is not required, whatever its
/// kind; a required one is refused as missing, or as empty.
pub proof fn lemma_input_presence(f: HostInput, values: Seq<(String, String)>)
    ensures
        lookup(values, f.name@) is None ==> (input_check_spec(f, values) is Ok <==> !f.required),
        lookup(values, f.name@) is None && f.required ==> (input_check_spec(f, values) matches Err((k, _)) && k
            == EK::FieldRequiredButMissing),
        (lookup(values, f.name@) matches Some(v) && v@.len() == 0) ==> (input_check_spec(f, values) is Ok
            <==> !f.required),
        (lookup(values, f.name@) matches Some(v) && v@.len() == 0) && f.required ==> (input_check_spec(f, values)
            matches Err((k, _)) && k == EK::FieldRequiredButEmpty),
{
}

/// The checks of all inputs, in order, up to the first that fails.
pub open spec fn inputs_check_spec(fs: Seq<HostInput>, values: Seq<(String, String)>) -> Outcome
    decreases fs.len(),
{
    if fs.len() == 0 {
        Ok(())
    } else {
        match inputs_check_spec(fs.drop_last(), values) {
            Err(e) => Err(e),
            Ok(_) => input_check_spec(fs.last(), values),
        }
    }
}

proof fn lemma_inputs_err_extends(fs: Seq<HostInput>, values: Seq<(String, String)>, n: int)
    requires
        0 <= n <= fs.len(),
        inputs_check_spec(fs.take(n), values) is Err,
    ensures
        inputs_check_spec(fs, values) == inputs_check_spec(fs.take(n), values),
    decreases fs.len(),
{
    if n == fs.len() {
        assert(fs.take(n) =~= fs);
    } else {
        assert(fs.drop_last().take(n) =~= fs.take(n));
        lemma_inputs_err_extends(fs.drop_last(), values, n);
    }
}

/// Checks every input of the host, in order, and stops at the first error.
pub fn check_inputs(re_email: &EmailRegex, inputs: &Vec<HostInput>, form_values: &FormValues) -> (r: Result<(), ServerError>)
    ensures
        agrees(r, inputs_check_spec(inputs@, form_values.entries@)),
{
    let mut i: usize = 0;
    while i < inputs.len()
        invariant
            i <= inputs@.len(),
            inputs_check_spec(inputs@.take(i as int), form_values.entries@) is Ok,
        decreases inputs.len() - i,
    {
        assert(inputs@.take(i + 1).drop_last() =~= inputs@.take(i as int));
        assert(inputs@.take(i + 1).last() == inputs@[i as int]);
        let c = form_input_check(re_email, &inputs[i], form_values);
        if c.is_err() {
            proof {
                lemma_inputs_err_extends(inputs@, form_values.entries@, i + 1);
            }
            return c;
        }
        i = i + 1;
    }
    assert(inputs@.take(i as int) =~= inputs@);
    Ok(())
}

/// What an input that passed its check satisfies: a required input was
/// sent and is not empty; a non-empty text, text area or email is at most
/// its maximum length in bytes (10000 when unset); a non-empty email
/// matches the email regex; a non-empty select is an index below its
/// number of options, and not 0 when required. An optional input may be
/// left out or sent empty.
pub open spec fn input_accepted(f: HostInput, values: Seq<(String, String)>) -> bool {
    &&& f.required ==> (lookup(values, f.name@) matches Some(v) && v@.len() > 0)
    &&& match lookup(values, f.name@) {
        Some(v) => v@.len() > 0 ==> {
            &&& is_text_kind(f.kind) ==> byte_len(v@) <= max_len(f)
            &&& f.kind == HostInputKind::Email ==> email_regex_matches(v@)
            &&& f.kind == HostInputKind::Select ==> (f.settings.options matches Some(opts) && parse_usize_spec(v@)
                matches Ok(idx) && idx < opts@.len() && (f.required ==> idx != 0))
        },
        None => true,
    }
}

proof fn lemma_input_accepted(f: HostInput, values: Seq<(String, String)>)
    requires
        input_check_spec(f, values) is Ok,
    ensures
        input_accepted(f, values),
{
}

/// An input passes its check exactly when it is accepted as
/// `input_accepted` says: nothing more is refused, nothing less.
pub proof fn lemma_input_check_is_acceptance(f: HostInput, values: Seq<(String, String)>)
    ensures
        input_check_spec(f, values) is Ok <==> input_accepted(f, values),
{
}

/// Every input of a form whose checks all passed is accepted as
/// `input_accepted` says: required fields are filled, lengths are within
/// bounds, emails match, selects name an option.
pub proof fn lemma_checked_inputs_accepted(fs: Seq<HostInput>, values: Seq<(String, String)>)
    requires
        inputs_check_spec(fs, values) is Ok,
    ensures
        forall|i: int| 0 <= i < fs.len() ==> input_accepted(#[trigger] fs[i], values),
    decreases fs.len(),
{
    if fs.len() > 0 {
        lemma_checked_inputs_accepted(fs.drop_last(), values);
        lemma_input_accepted(fs.last(), values);
        assert forall|i: int| 0 <= i < fs.len() implies input_accepted(#[trigger] fs[i], values) by {
            if i < fs.len() - 1 {
                assert(fs[i] == fs.drop_last()[i]);
            }
        }
    }
}

/// Whether `base64`'s standard engine decodes `input`, and to which bytes.
pub uninterp spec fn base64_standard_decoded(input: Seq<char>) -> Option<Seq<u8>>;

/// The text (`Display`) of the error that `base64`'s standard engine gives
/// for `input`.
pub uninterp spec fn base64_error_text(input: Seq<char>) -> Seq<char>;

/// Trusted: `base64::Engine::decode` with `BASE64_STANDARD`; claims that it
/// succeeds exactly when `base64_standard_decoded` is some bytes, and then
/// gives those bytes; otherwise it gives the text of its error, which
/// depends on the input alone.
#[verifier::external_body]
fn base64_decode(input: &str) -> (r: Result<Vec<u8>, String>)
    ensures
        match r {
            Ok(v) => base64_standard_decoded(input@) == Some(v@),
            Err(e) => base64_standard_decoded(input@) is None && e@ == base64_error_text(input@),
        },
{
    match base64::Engine::decode(&base64::prelude::BASE64_STANDARD, input) {
        Ok(v) => Ok(v),
        Err(e) => Err(e.to_string()),
    }
}

/// The text (`Display`) of the `Utf8Error` that `std::str::from_utf8` gives
/// for `bytes`.
pub uninterp spec fn utf8_error_text(bytes: Seq<u8>) -> Seq<char>;

/// Trusted: `std::str::from_utf8`, which succeeds exactly on valid UTF-8
/// and then gives the decoded text; otherwise it gives the text of its
/// error, which depends on the bytes alone.
#[verifier::external_body]
fn utf8_decode(bytes: &[u8]) -> (r: Result<String, String>)
    ensures
        r is Ok <==> valid_utf8(bytes@),
        r matches Ok(s) ==> s@ == decode_utf8(bytes@),
        r matches Err(e) ==> e@ == utf8_error_text(bytes@),
{
    match std::str::from_utf8(bytes) {
        Ok(s) => Ok(s.to_string()),
        Err(e) => Err(e.to_string()),
    }
}

/// Whether `altcha_lib_rs::verify_json_solution(payload, key, false)` can
/// accept `payload`: it parses as a solution whose challenge is the digest of
/// its salt and number, signed under `key`. The clock plays no part. (When
/// the salt carries several parameters, the library rebuilds it in the order
/// a `HashMap` walks them; the name holds when some order is accepted.)
pub uninterp spec fn altcha_solution_valid(payload: Seq<char>, key: Seq<char>) -> bool;

/// Whether `payload` parses as an ALTCHA solution whose salt has no
/// `expires` parameter, or one that is an integer timestamp within
/// chrono's dates: what `verify_json_solution` reads before it compares the
/// expiry with the clock.
pub uninterp spec fn altcha_expiry_readable(payload: Seq<char>) -> bool;

/// Trusted: `altcha_lib_rs::verify_json_solution`; `true` when it accepts the
/// payload. Claims that an acceptance, with or without the expiry check, is
/// a valid solution under the key (the expiry check only adds refusals
/// before the same verification), and that an acceptance with the expiry
/// check found a readable expiry. Whether it accepts is not claimed: with
/// `check_expire` it depends on the clock.
#[verifier::external_body]
fn altcha_verify(payload: &str, hmac_key: &str, check_expire: bool) -> (r: bool)
    ensures
        r ==> altcha_solution_valid(payload@, hmac_key@),
        r && check_expire ==> altcha_expiry_readable(payload@),
{
    altcha_lib_rs::verify_json_solution(payload, hmac_key, check_expire).is_ok()
}

/// Where the captcha check of a submission stands before the solution
/// itself is verified.
pub enum CaptchaStage {
    /// Nothing to verify: the submission goes on.
    Pass,
    /// Refused with this kind and message.
    Fail(EK, Seq<char>),
    /// The payload, decoded, is to be verified against the secret.
    Verify(Seq<char>),
}

/// The captcha check: with the captcha enabled, the `altcha` field must be
/// there, decode as Base64, and be UTF-8; with it disabled, the field must
/// be absent.
pub open spec fn captcha_stage(enabled: bool, values: Seq<(String, String)>, host: Seq<char>) -> CaptchaStage {
    if enabled {
        match lookup(values, "altcha"@) {
            None => CaptchaStage::Fail(EK::CaptchaFieldMissing, "no captcha field for "@ + host),
            Some(p) => match base64_standard_decoded(p@) {
                None => CaptchaStage::Fail(EK::CaptchaPayloadB64Fail,
                    "payload base64 decode failed for "@ + host + ": "@ + base64_error_text(p@)),
                Some(b) => if !valid_utf8(b) {
                    CaptchaStage::Fail(EK::CaptchaPayloadUtf8Fail,
                        "payload utf8 decoding failed for "@ + host + ": "@ + utf8_error_text(b))
                } else {
                    CaptchaStage::Verify(decode_utf8(b))
                },
            },
        }
    } else if lookup(values, "altcha"@) is Some {
        CaptchaStage::Fail(EK::CaptchaFoundButDisabled, "contains captcha but captcha is disabled for "@ + host)
    } else {
        CaptchaStage::Pass
    }
}

pub open spec fn captcha_invalid_message(host: Seq<char>) -> Seq<char> {
    "captcha result is invalid for "@ + host
}

/// The captcha check up to the verification: an error, nothing to verify
/// (`None`), or the decoded payload to verify.
pub fn captcha_payload(enabled: bool, host_name: &str, form_values: &FormValues) -> (r: Result<Option<String>, ServerError>)
    ensures
        match captcha_stage(enabled, form_values.entries@, host_name@) {
            CaptchaStage::Pass => r == Ok::<Option<String>, ServerError>(None),
            CaptchaStage::Fail(k, m) => fails_with(r, k, m),
            CaptchaStage::Verify(p) => r matches Ok(Some(s)) && s@ == p,
        },
{
    if enabled {
        let altcha_form_entry = match form_values.get("altcha") {
            Some(e) => e,
            None => {
                return Err(throw(EK::CaptchaFieldMissing, cat2("no captcha field for ", host_name)));
            },
        };
        let decoded_payload = match base64_decode(altcha_form_entry.as_str()) {
            Ok(d) => d,
            Err(e) => {
                return Err(throw(EK::CaptchaPayloadB64Fail, cat4("payload base64 decode failed for ", host_name, ": ", e.as_str())));
            },
        };
        match utf8_decode(decoded_payload.as_slice()) {
            Ok(s) => Ok(Some(s)),
            Err(e) => Err(throw(EK::CaptchaPayloadUtf8Fail, cat4("payload utf8 decoding failed for ", host_name, ": ", e.as_str()))),
        }
    } else if form_values.contains_key("altcha") {
        Err(throw(EK::CaptchaFoundButDisabled, cat2("contains captcha but captcha is disabled for ", host_name)))
    } else {
        Ok(None)
    }
}

/// Verifies a decoded payload against the secret, the expiry included.
fn verify_payload(payload: &String, secret: &str) -> (r: bool)
    ensures
        r ==> altcha_solution_valid(payload@, secret@) && altcha_expiry_readable(payload@),
{
    altcha_verify(payload.as_str(), secret, true)
}

/// Checks the captcha part of a submission for the host `host_name`: the
/// payload is verified against `secret`, its expiry included.
pub fn check_captcha(enabled: bool, secret: &str, host_name: &str, form_values: &FormValues) -> (r: Result<(), ServerError>)
    ensures
        match captcha_stage(enabled, form_values.entries@, host_name@) {
            CaptchaStage::Pass => r is Ok,
            CaptchaStage::Fail(k, m) => fails_with(r, k, m),
            CaptchaStage::Verify(p) => (r is Ok && altcha_solution_valid(p, secret@) && altcha_expiry_readable(p))
                || fails_with(r, EK::CaptchaResultInvalid, captcha_invalid_message(host_name@)),
        },
{
    match captcha_payload(enabled, host_name, form_values)? {
        None => Ok(()),
        Some(p) => if verify_payload(&p, secret) {
            Ok(())
        } else {
            Err(throw(EK::CaptchaResultInvalid, cat2("captcha result is invalid for ", host_name)))
        },
    }
}

/// What a submission to an existing host turns into, given the verifier's
/// answer on its captcha (`captcha_accepted`, read only when there is a
/// payload to verify): the captcha check, then the checks of the inputs.
pub open spec fn submission_outcome<T>(r: Result<T, ServerError>, hc: HostConfig, values: Seq<(String, String)>,
    host: Seq<char>, captcha_accepted: bool) -> bool {
    match captcha_stage(hc.enable_captcha, values, host) {
        CaptchaStage::Pass => agrees(r, inputs_check_spec(hc.inputs@, values)),
        CaptchaStage::Fail(k, m) => fails_with(r, k, m),
        CaptchaStage::Verify(_) => if captcha_accepted {
            agrees(r, inputs_check_spec(hc.inputs@, values))
        } else {
            fails_with(r, EK::CaptchaResultInvalid, captcha_invalid_message(host))
        },
    }
}

/// Decides a submission to the host `host_name` with settings `host_config`
/// once the verifier has answered `captcha_accepted` on its captcha: the
/// captcha check, then each input's check in order.
pub fn accept_submission(host_config: &HostConfig, re_email: &EmailRegex, host_name: &str, form_values: &FormValues,
    captcha_accepted: bool) -> (r: Result<(), ServerError>)
    ensures
        submission_outcome(r, *host_config, form_values.entries@, host_name@, captcha_accepted),
{
    match captcha_payload(host_config.enable_captcha, host_name, form_values)? {
        None => {},
        Some(_) => {
            if !captcha_accepted {
                return Err(throw(EK::CaptchaResultInvalid, cat2("captcha result is invalid for ", host_name)));
            }
        },
    }
    check_inputs(re_email, &host_config.inputs, form_values)
}

/// What a submission to an existing host turns into, whatever the verifier
/// answered: the outcome for some answer, where an acceptance is a valid,
/// readable solution under `secret`.
pub open spec fn submission_agrees<T>(r: Result<T, ServerError>, hc: HostConfig, values: Seq<(String, String)>, host: Seq<char>,
    secret: Seq<char>) -> bool {
    match captcha_stage(hc.enable_captcha, values, host) {
        CaptchaStage::Verify(p) => submission_outcome(r, hc, values, host, false) || (altcha_solution_valid(p, secret)
            && altcha_expiry_readable(p) && submission_outcome(r, hc, values, host, true)),
        _ => submission_outcome(r, hc, values, host, true),
    }
}

/// Everything the server decides about a form posted to `host` before it
/// sends the mail: the host must exist, the form must hold strings, the
/// captcha must pass (its payload verified against the configured secret,
/// its expiry included, then decided by `accept_submission`), and every
/// input must pass its check. On success, gives the host's name and
/// settings and the submitted values.
pub fn post_form<'a>(config: &Config, hosts: &'a Hosts, re_email: &EmailRegex, host: &str, form: &FormJson)
    -> (r: Result<(&'a String, &'a HostConfig, FormValues), ServerError>)
    ensures
        hosts.spec_get(host@) is None ==> fails_with(r, EK::UnknownHost, "no host named "@ + host@),
        hosts.spec_get(host@) is Some && form.object is None ==> fails_with(r, EK::FormDataNotObject,
            "Received form data is not convertible to object: "@ + form.debug@),
        hosts.spec_get(host@) is Some && form.object is Some && !all_strings(form.object->0@) ==> fails_with(r,
            EK::FormParamNotString, "Could not read form param as string: "@ + form.debug@),
        hosts.spec_get(host@) is Some && form.object is Some && all_strings(form.object->0@) ==> submission_agrees(r,
            hosts.spec_get(host@)->0, submitted_values(form.object->0@), host@, config.captcha.secret@),
        r matches Ok((n, hc, m)) ==> n@ == host@ && hosts.spec_get(host@) == Some(*hc) && form.object is Some
            && holds_fields(m, form.object->0@),
        r matches Ok((n, hc, m)) ==> inputs_check_spec(hc.inputs@, m.entries@) is Ok && (hc.enable_captcha
            ==> (captcha_stage(true, m.entries@, host@) matches CaptchaStage::Verify(p) && altcha_solution_valid(p,
            config.captcha.secret@) && altcha_expiry_readable(p))) && (!hc.enable_captcha ==> lookup(m.entries@,
            "altcha"@) is None),
{
    let (host_name, host_config) = match hosts.get_key_value(host) {
        Some(kv) => kv,
        None => {
            return Err(throw(EK::UnknownHost, cat2("no host named ", host)));
        },
    };
    let form_values = form_to_hashmap(form)?;
    let accepted = match captcha_payload(host_config.enable_captcha, host_name.as_str(), &form_values)? {
        None => true,
        Some(p) => verify_payload(&p, config.captcha.secret.as_str()),
    };
    accept_submission(host_config, re_email, host_name.as_str(), &form_values, accepted)?;
    Ok((host_name, host_config, form_values))
}

/// A captcha challenge as the browser receives it.
pub struct CaptchaChallenge {
    pub algorithm: String,
    pub challenge: String,
    pub maxnumber: u64,
    pub salt: String,
    pub signature: String,
}

/// The largest number of minutes that `chrono::TimeDelta::minutes` accepts
/// (`i64::MAX` milliseconds, in whole minutes); beyond it the delta panics.
pub const MAX_DELTA_MINUTES: i64 = 153722867280912;

/// The timestamps (in seconds) that surely lie within chrono's dates, which
/// end in the years -262143 and 262142.
pub const SAFE_TIMESTAMP: i64 = 8000000000000;

/// Trusted: `chrono::Utc::now`, taken as its `timestamp()` in whole seconds;
/// nothing is claimed of it.
#[verifier::external_body]
fn utc_now_timestamp() -> (r: i64) {
    chrono::Utc::now().timestamp()
}

pub open spec fn is_lower_hex(c: char) -> bool {
    ('0' <= c && c <= '9') || ('a' <= c && c <= 'f')
}

pub open spec fn digit_char(d: nat) -> char {
    if d == 0 { '0' } else if d == 1 { '1' } else if d == 2 { '2' } else if d == 3 { '3' } else if d == 4 {
        '4'
    } else if d == 5 { '5' } else if d == 6 { '6' } else if d == 7 { '7' } else if d == 8 { '8' } else { '9' }
}

/// The decimal digits of `n`, as `to_string` writes them.
pub open spec fn nat_decimal(n: nat) -> Seq<char>
    decreases n,
{
    if n < 10 {
        seq![digit_char(n)]
    } else {
        nat_decimal(n / 10) + seq![digit_char(n % 10)]
    }
}

/// `n` as `to_string` writes it, with a minus sign when negative.
pub open spec fn int_decimal(n: int) -> Seq<char> {
    if n < 0 {
        seq!['-'] + nat_decimal((-n) as nat)
    } else {
        nat_decimal(n as nat)
    }
}

/// The lowercase hex SHA-256 digest that `altcha_lib_rs` computes of a text
/// (its private `hash_function` with SHA-256).
pub uninterp spec fn altcha_sha256_hex(data: Seq<char>) -> Seq<char>;

/// The lowercase hex HMAC-SHA-256 of a text under a key, as `altcha_lib_rs`
/// computes it (its private `hmac_function` with SHA-256).
pub uninterp spec fn altcha_hmac_sha256_hex(data: Seq<char>, key: Seq<char>) -> Seq<char>;

/// The salt of a challenge that expires at `expires_ts`: 24 lowercase hex
/// digits (12 random bytes), then `?expires=`, the timestamp and `&`.
pub open spec fn expiring_salt(salt: Seq<char>, expires_ts: i64) -> bool {
    &&& salt.len() >= 24
    &&& forall|i: int| 0 <= i < 24 ==> is_lower_hex(#[trigger] salt[i])
    &&& salt.skip(24) == "?expires="@ + int_decimal(expires_ts as int) + "&"@
}

/// `c` is a challenge made under `hmac_key` that expires at `expires_ts`:
/// SHA-256, the given largest number, its salt, the digest of the salt
/// followed by a secret number up to that largest number, and the HMAC of
/// that digest under the key.
pub open spec fn challenge_made(c: CaptchaChallenge, hmac_key: Seq<char>, expires_ts: i64, max_number: u64) -> bool {
    &&& c.algorithm@ == "SHA-256"@
    &&& c.maxnumber == max_number
    &&& expiring_salt(c.salt@, expires_ts)
    &&& exists|n: nat| n <= max_number && c.challenge@ == altcha_sha256_hex(c.salt@ + #[trigger] nat_decimal(n))
    &&& c.signature@ == altcha_hmac_sha256_hex(c.challenge@, hmac_key)
}

/// Trusted: `altcha_lib_rs::create_challenge` with the HMAC key, the expiry
/// (a timestamp in seconds, made a `chrono::DateTime` by `from_timestamp`)
/// and the largest number given, other options left to their defaults.
/// `None` when the expiry is outside chrono's dates; otherwise the creation
/// cannot fail (the secret number is drawn from `0..=max_number`). Claims
/// what the source shows of every challenge made: see `challenge_made`.
/// The random salt digits and number themselves are not claimed.
#[verifier::external_body]
fn altcha_create_challenge(hmac_key: &str, expires_ts: i64, max_number: u64) -> (r: Option<CaptchaChallenge>)
    ensures
        -SAFE_TIMESTAMP <= expires_ts <= SAFE_TIMESTAMP ==> r is Some,
        r matches Some(c) ==> c.algorithm@ == "SHA-256"@ && c.maxnumber == max_number && expiring_salt(c.salt@,
            expires_ts),
        r matches Some(c) ==> exists|n: nat| n <= max_number && c.challenge@ == altcha_sha256_hex(
            c.salt@ + #[trigger] nat_decimal(n)),
        r matches Some(c) ==> c.signature@ == altcha_hmac_sha256_hex(c.challenge@, hmac_key@),
{
    let expires = chrono::DateTime::from_timestamp(expires_ts, 0)?;
    let options =
        altcha_lib_rs::ChallengeOptions { hmac_key, expires: Some(expires), max_number: Some(max_number), ..Default::default() };
    match altcha_lib_rs::create_challenge(options) {
        Ok(c) => Some(CaptchaChallenge { algorithm: c.algorithm.to_string(), challenge: c.challenge,
            maxnumber: c.maxnumber, salt: c.salt, signature: c.signature }),
        Err(_) => None,
    }
}

pub open spec fn captcha_disabled_message(host: Seq<char>) -> Seq<char> {
    "captcha is disabled for host "@ + host
}

pub open spec fn challenge_failed_message(host: Seq<char>) -> Seq<char> {
    "could not generate challenge for "@ + host
}

/// A captcha challenge for `host` made at the time `now` (in seconds): it
/// expires the configured number of minutes later and its number is at most
/// the configured complexity. A host whose captcha is disabled gets none.
/// An expiry outside chrono's dates fails the generation.
pub fn captcha_challenge(config: &Config, hosts: &Hosts, host: &str, now: i64) -> (r: Result<CaptchaChallenge, ServerError>)
    requires
        hosts.spec_get(host@) matches Some(hc) && hc.enable_captcha ==> -MAX_DELTA_MINUTES <= config.captcha.expires
            <= MAX_DELTA_MINUTES,
    ensures
        hosts.spec_get(host@) is None ==> fails_with(r, EK::UnknownHost, "no host named "@ + host@),
        hosts.spec_get(host@) matches Some(hc) && !hc.enable_captcha ==> fails_with(r, EK::CaptchaDisabled,
            captcha_disabled_message(host@)),
        hosts.spec_get(host@) matches Some(hc) && hc.enable_captcha && -SAFE_TIMESTAMP <= now
            + config.captcha.expires * 60 <= SAFE_TIMESTAMP ==> r is Ok,
        hosts.spec_get(host@) matches Some(hc) && hc.enable_captcha ==> r is Ok || fails_with(r,
            EK::CaptchaGenerationFailed, challenge_failed_message(host@)),
        r matches Ok(c) ==> challenge_made(c, config.captcha.secret@, (now + config.captcha.expires * 60) as i64,
            config.captcha.complexity),
{
    let (host_name, host_config) = match hosts.get_key_value(host) {
        Some(kv) => kv,
        None => {
            return Err(throw(EK::UnknownHost, cat2("no host named ", host)));
        },
    };
    if !host_config.enable_captcha {
        return Err(throw(EK::CaptchaDisabled, cat2("captcha is disabled for host ", host_name.as_str())));
    }
    let expires: i64 = match now.checked_add(config.captcha.expires * 60) {
        Some(t) => t,
        None => {
            return Err(throw(EK::CaptchaGenerationFailed, cat2("could not generate challenge for ", host_name.as_str())));
        },
    };
    match altcha_create_challenge(config.captcha.secret.as_str(), expires, config.captcha.complexity) {
        Some(c) => Ok(c),
        None => Err(throw(EK::CaptchaGenerationFailed, cat2("could not generate challenge for ", host_name.as_str()))),
    }
}

/// A captcha challenge for `host`, made now (see `captcha_challenge`).
pub fn get_captcha(config: &Config, hosts: &Hosts, host: &str) -> (r: Result<CaptchaChallenge, ServerError>)
    requires
        hosts.spec_get(host@) matches Some(hc) && hc.enable_captcha ==> -MAX_DELTA_MINUTES <= config.captcha.expires
            <= MAX_DELTA_MINUTES,
    ensures
        hosts.spec_get(host@) is None ==> fails_with(r, EK::UnknownHost, "no host named "@ + host@),
        hosts.spec_get(host@) matches Some(hc) && !hc.enable_captcha ==> fails_with(r, EK::CaptchaDisabled,
            captcha_disabled_message(host@)),
        hosts.spec_get(host@) matches Some(hc) && hc.enable_captcha ==> r is Ok || fails_with(r,
            EK::CaptchaGenerationFailed, challenge_failed_message(host@)),
        r matches Ok(c) ==> exists|t: i64| challenge_made(c, config.captcha.secret@, t, config.captcha.complexity),
{
    let now: i64 = utc_now_timestamp();
    let r = captcha_challenge(config, hosts, host, now);
    proof {
        if r is Ok {
            let t = (now + config.captcha.expires * 60) as i64;
            assert(challenge_made(r->Ok_0, config.captcha.secret@, t, config.captcha.complexity));
        }
    }
    r
}

} // verus!
