//! Error kinds, their severities, and what is shown of an error.

use vstd::prelude::*;
use vstd::string::StringExecFns;
use crate::config::structs::VerboseLevel;

verus! {

/// What went wrong. Each kind has a numeric code (see `code`): 0..99 are
/// critical, 100..199 server-side warnings, 200..299 client-side errors.
#[derive(Debug, Clone, Copy, PartialEq, Eq, Structural)]
pub enum ErrorKind {
    FileNotFound,
    FileReadFail,
    CaptchaGenerationFailed,
    FieldSelectNoOptions,
    EmailLanguageNotFound,
    EmailLinesFail,
    EmailSendFail,
    EmailHostnameReadFail,
    EmailBodyParseFail,
    EmailToParseFail,
    EmailFromParseFail,
    NoClientIP,
    UnknownHost,
    CaptchaDisabled,
    CaptchaFieldMissing,
    CaptchaPayloadB64Fail,
    CaptchaPayloadUtf8Fail,
    CaptchaResultInvalid,
    CaptchaFoundButDisabled,
    FormDataNotObject,
    FormParamNotString,
    FieldSelectWrongType,
    FieldEmailWrongType,
    FieldSelectOutOfRange,
    FieldRequiredButEmpty,
    FieldRequiredButMissing,
    FieldTooLong,
}

/// How serious an error is.
#[derive(Debug, Clone, Copy, PartialEq, Eq, Structural)]
pub enum ErrorSeverity {
    Crit,
    Warn,
    Notice,
    Info,
}

/// An error with its kind and a message for the server's log.
#[derive(Debug, Clone)]
pub struct ServerError {
    pub kind: ErrorKind,
    pub msg: String,
}

/// The body of an error response: the kind's name and code only.
pub struct ErrorServerStatus {
    pub status: String,
    pub error_kind: String,
    pub code: u16,
}

impl ErrorKind {
    pub open spec fn spec_code(self) -> u16 {
        match self {
            ErrorKind::FileNotFound => 0,
            ErrorKind::FileReadFail => 1,
            ErrorKind::CaptchaGenerationFailed => 100,
            ErrorKind::FieldSelectNoOptions => 101,
            ErrorKind::EmailLanguageNotFound => 102,
            ErrorKind::EmailLinesFail => 103,
            ErrorKind::EmailSendFail => 104,
            ErrorKind::EmailHostnameReadFail => 105,
            ErrorKind::EmailBodyParseFail => 106,
            ErrorKind::EmailToParseFail => 107,
            ErrorKind::EmailFromParseFail => 108,
            ErrorKind::NoClientIP => 109,
            ErrorKind::UnknownHost => 200,
            ErrorKind::CaptchaDisabled => 201,
            ErrorKind::CaptchaFieldMissing => 202,
            ErrorKind::CaptchaPayloadB64Fail => 203,
            ErrorKind::CaptchaPayloadUtf8Fail => 204,
            ErrorKind::CaptchaResultInvalid => 205,
            ErrorKind::CaptchaFoundButDisabled => 206,
            ErrorKind::FormDataNotObject => 207,
            ErrorKind::FormParamNotString => 208,
            ErrorKind::FieldSelectWrongType => 209,
            ErrorKind::FieldEmailWrongType => 210,
            ErrorKind::FieldSelectOutOfRange => 211,
            ErrorKind::FieldRequiredButEmpty => 212,
            ErrorKind::FieldRequiredButMissing => 213,
            ErrorKind::FieldTooLong => 214,
        }
    }

    /// The numeric code of the kind.
    pub fn code(&self) -> (r: u16)
        ensures
            r == self.spec_code(),
    {
        match self {
            ErrorKind::FileNotFound => 0,
            ErrorKind::FileReadFail => 1,
            ErrorKind::CaptchaGenerationFailed => 100,
            ErrorKind::FieldSelectNoOptions => 101,
            ErrorKind::EmailLanguageNotFound => 102,
            ErrorKind::EmailLinesFail => 103,
            ErrorKind::EmailSendFail => 104,
            ErrorKind::EmailHostnameReadFail => 105,
            ErrorKind::EmailBodyParseFail => 106,
            ErrorKind::EmailToParseFail => 107,
            ErrorKind::EmailFromParseFail => 108,
            ErrorKind::NoClientIP => 109,
            ErrorKind::UnknownHost => 200,
            ErrorKind::CaptchaDisabled => 201,
            ErrorKind::CaptchaFieldMissing => 202,
            ErrorKind::CaptchaPayloadB64Fail => 203,
            ErrorKind::CaptchaPayloadUtf8Fail => 204,
            ErrorKind::CaptchaResultInvalid => 205,
            ErrorKind::CaptchaFoundButDisabled => 206,
            ErrorKind::FormDataNotObject => 207,
            ErrorKind::FormParamNotString => 208,
            ErrorKind::FieldSelectWrongType => 209,
            ErrorKind::FieldEmailWrongType => 210,
            ErrorKind::FieldSelectOutOfRange => 211,
            ErrorKind::FieldRequiredButEmpty => 212,
            ErrorKind::FieldRequiredButMissing => 213,
            ErrorKind::FieldTooLong => 214,
        }
    }

    pub open spec fn spec_name(self) -> Seq<char> {
        match self {
            ErrorKind::FileNotFound => "FileNotFound"@,
            ErrorKind::FileReadFail => "FileReadFail"@,
            ErrorKind::CaptchaGenerationFailed => "CaptchaGenerationFailed"@,
            ErrorKind::FieldSelectNoOptions => "FieldSelectNoOptions"@,
            ErrorKind::EmailLanguageNotFound => "EmailLanguageNotFound"@,
            ErrorKind::EmailLinesFail => "EmailLinesFail"@,
            ErrorKind::EmailSendFail => "EmailSendFail"@,
            ErrorKind::EmailHostnameReadFail => "EmailHostnameReadFail"@,
            ErrorKind::EmailBodyParseFail => "EmailBodyParseFail"@,
            ErrorKind::EmailToParseFail => "EmailToParseFail"@,
            ErrorKind::EmailFromParseFail => "EmailFromParseFail"@,
            ErrorKind::NoClientIP => "NoClientIP"@,
            ErrorKind::UnknownHost => "UnknownHost"@,
            ErrorKind::CaptchaDisabled => "CaptchaDisabled"@,
            ErrorKind::CaptchaFieldMissing => "CaptchaFieldMissing"@,
            ErrorKind::CaptchaPayloadB64Fail => "CaptchaPayloadB64Fail"@,
            ErrorKind::CaptchaPayloadUtf8Fail => "CaptchaPayloadUtf8Fail"@,
            ErrorKind::CaptchaResultInvalid => "CaptchaResultInvalid"@,
            ErrorKind::CaptchaFoundButDisabled => "CaptchaFoundButDisabled"@,
            ErrorKind::FormDataNotObject => "FormDataNotObject"@,
            ErrorKind::FormParamNotString => "FormParamNotString"@,
            ErrorKind::FieldSelectWrongType => "FieldSelectWrongType"@,
            ErrorKind::FieldEmailWrongType => "FieldEmailWrongType"@,
            ErrorKind::FieldSelectOutOfRange => "FieldSelectOutOfRange"@,
            ErrorKind::FieldRequiredButEmpty => "FieldRequiredButEmpty"@,
            ErrorKind::FieldRequiredButMissing => "FieldRequiredButMissing"@,
            ErrorKind::FieldTooLong => "FieldTooLong"@,
        }
    }

    /// The kind's name, as its `Display` shows it.
    pub fn name(&self) -> (r: &'static str)
        ensures
            r@ == self.spec_name(),
    {
        match self {
            ErrorKind::FileNotFound => "FileNotFound",
            ErrorKind::FileReadFail => "FileReadFail",
            ErrorKind::CaptchaGenerationFailed => "CaptchaGenerationFailed",
            ErrorKind::FieldSelectNoOptions => "FieldSelectNoOptions",
            ErrorKind::EmailLanguageNotFound => "EmailLanguageNotFound",
            ErrorKind::EmailLinesFail => "EmailLinesFail",
            ErrorKind::EmailSendFail => "EmailSendFail",
            ErrorKind::EmailHostnameReadFail => "EmailHostnameReadFail",
            ErrorKind::EmailBodyParseFail => "EmailBodyParseFail",
            ErrorKind::EmailToParseFail => "EmailToParseFail",
            ErrorKind::EmailFromParseFail => "EmailFromParseFail",
            ErrorKind::NoClientIP => "NoClientIP",
            ErrorKind::UnknownHost => "UnknownHost",
            ErrorKind::CaptchaDisabled => "CaptchaDisabled",
            ErrorKind::CaptchaFieldMissing => "CaptchaFieldMissing",
            ErrorKind::CaptchaPayloadB64Fail => "CaptchaPayloadB64Fail",
            ErrorKind::CaptchaPayloadUtf8Fail => "CaptchaPayloadUtf8Fail",
            ErrorKind::CaptchaResultInvalid => "CaptchaResultInvalid",
            ErrorKind::CaptchaFoundButDisabled => "CaptchaFoundButDisabled",
            ErrorKind::FormDataNotObject => "FormDataNotObject",
            ErrorKind::FormParamNotString => "FormParamNotString",
            ErrorKind::FieldSelectWrongType => "FieldSelectWrongType",
            ErrorKind::FieldEmailWrongType => "FieldEmailWrongType",
            ErrorKind::FieldSelectOutOfRange => "FieldSelectOutOfRange",
            ErrorKind::FieldRequiredButEmpty => "FieldRequiredButEmpty",
            ErrorKind::FieldRequiredButMissing => "FieldRequiredButMissing",
            ErrorKind::FieldTooLong => "FieldTooLong",
        }
    }

    pub open spec fn spec_severity(self) -> ErrorSeverity {
        severity_of_code(self.spec_code())
    }

    /// The severity that the kind's code range gives.
    pub fn severity(&self) -> (r: ErrorSeverity)
        ensures
            r == self.spec_severity(),
    {
        let index: u16 = self.code();
        if 100 <= index && index <= 199 {
            ErrorSeverity::Warn
        } else if 200 <= index && index <= 299 {
            ErrorSeverity::Notice
        } else if 300 <= index && index <= 399 {
            ErrorSeverity::Info
        } else {
            ErrorSeverity::Crit
        }
    }
}

/// 100..=199 is a warning, 200..=299 a notice, 300..=399 an info, anything
/// else critical.
pub open spec fn severity_of_code(index: u16) -> ErrorSeverity {
    if 100 <= index <= 199 {
        ErrorSeverity::Warn
    } else if 200 <= index <= 299 {
        ErrorSeverity::Notice
    } else if 300 <= index <= 399 {
        ErrorSeverity::Info
    } else {
        ErrorSeverity::Crit
    }
}

impl ErrorSeverity {
    pub open spec fn spec_label(self) -> Seq<char> {
        match self {
            ErrorSeverity::Crit => "CRITICAL"@,
            ErrorSeverity::Warn => "WARN"@,
            ErrorSeverity::Notice => "NOTICE"@,
            ErrorSeverity::Info => "INFO"@,
        }
    }

    /// The severity as its `Display` shows it.
    pub fn label(&self) -> (r: &'static str)
        ensures
            r@ == self.spec_label(),
    {
        match self {
            ErrorSeverity::Crit => "CRITICAL",
            ErrorSeverity::Warn => "WARN",
            ErrorSeverity::Notice => "NOTICE",
            ErrorSeverity::Info => "INFO",
        }
    }

    /// The severity's position in declaration order (its discriminant).
    pub open spec fn spec_index(self) -> u16 {
        match self {
            ErrorSeverity::Crit => 0,
            ErrorSeverity::Warn => 1,
            ErrorSeverity::Notice => 2,
            ErrorSeverity::Info => 3,
        }
    }

    pub fn index(&self) -> (r: u16)
        ensures
            r == self.spec_index(),
    {
        match self {
            ErrorSeverity::Crit => 0,
            ErrorSeverity::Warn => 1,
            ErrorSeverity::Notice => 2,
            ErrorSeverity::Info => 3,
        }
    }
}

/// The position of a verbosity level, from the quietest (`Crit`) up.
pub open spec fn verbosity_rank(level: VerboseLevel) -> int {
    match level {
        VerboseLevel::Crit => 0,
        VerboseLevel::Warn => 1,
        VerboseLevel::Notice => 2,
        VerboseLevel::Info => 3,
    }
}

/// Whether an error of severity `s` is printed at verbosity `level`:
/// at `Crit` only critical errors, at `Warn` also warnings, at `Notice`
/// also notices, at `Info` everything.
pub open spec fn spec_should_display(s: ErrorSeverity, level: VerboseLevel) -> bool {
    match (s, level) {
        (ErrorSeverity::Crit, VerboseLevel::Crit) => true,
        (ErrorSeverity::Crit, VerboseLevel::Warn) | (ErrorSeverity::Warn, VerboseLevel::Warn) => true,
        (ErrorSeverity::Crit, VerboseLevel::Notice)
        | (ErrorSeverity::Warn, VerboseLevel::Notice)
        | (ErrorSeverity::Notice, VerboseLevel::Notice) => true,
        (_, VerboseLevel::Info) => true,
        _ => false,
    }
}

/// Decides whether an error of severity `s` is printed at verbosity `level`.
pub fn should_display(s: ErrorSeverity, level: &VerboseLevel) -> (r: bool)
    ensures
        r == spec_should_display(s, *level),
{
    match (s, level) {
        (ErrorSeverity::Crit, VerboseLevel::Crit) => true,
        (ErrorSeverity::Crit | ErrorSeverity::Warn, VerboseLevel::Warn) => true,
        (ErrorSeverity::Crit | ErrorSeverity::Warn | ErrorSeverity::Notice, VerboseLevel::Notice) => true,
        (_, VerboseLevel::Info) => true,
        _ => false,
    }
}

/// A message printed at one verbosity is printed at every more verbose
/// one, and exactly the severities up to the level's rank are printed.
pub proof fn lemma_display_monotone(s: ErrorSeverity, l1: VerboseLevel, l2: VerboseLevel)
    ensures
        spec_should_display(s, l1) <==> s.spec_index() <= verbosity_rank(l1),
        spec_should_display(s, l1) && verbosity_rank(l1) <= verbosity_rank(l2)
            ==> spec_should_display(s, l2),
{
}

/// Builds an error from its kind and message.
pub fn throw(kind: ErrorKind, msg: String) -> (r: ServerError)
    ensures
        r.kind == kind,
        r.msg == msg,
{
    ServerError { kind, msg }
}

/// The HTTP status an error is answered with, from its kind's code:
/// 200..=299 (client-side errors) gives 400, 300..=399 gives 200, anything
/// else 500.
pub open spec fn status_for(index: u16) -> u16 {
    if 200 <= index <= 299 {
        400
    } else if 300 <= index <= 399 {
        200
    } else {
        500
    }
}

impl ServerError {
    pub open spec fn spec_line(self) -> Seq<char> {
        "["@ + self.kind.spec_severity().spec_label() + "] "@ + self.kind.spec_name() + ": "@
            + self.msg@
    }

    /// The error as its `Display` shows it: `[SEVERITY] Kind: message`.
    pub fn to_string(&self) -> (r: String)
        ensures
            r@ == self.spec_line(),
    {
        let sev = self.kind.severity();
        let mut r = String::from_str("[");
        r.append(sev.label());
        r.append("] ");
        r.append(self.kind.name());
        r.append(": ");
        r.append(self.msg.as_str());
        r
    }

    /// The line to print for this error at verbosity `level`, if any.
    pub fn display(&self, level: &VerboseLevel) -> (r: Option<String>)
        ensures
            r is Some <==> spec_should_display(self.kind.spec_severity(), *level),
            r matches Some(line) ==> line@ == self.spec_line(),
    {
        if should_display(self.kind.severity(), level) {
            Some(self.to_string())
        } else {
            None
        }
    }

    /// The HTTP status code of the error response.
    pub fn status_code(&self) -> (r: u16)
        ensures
            r == status_for(self.kind.spec_code()),
    {
        let index: u16 = self.kind.code();
        if 200 <= index && index <= 299 {
            400
        } else if 300 <= index && index <= 399 {
            200
        } else {
            500
        }
    }

    /// The body of the error response.
    pub fn status_body(&self) -> (r: ErrorServerStatus)
        ensures
            r.status@ == "error"@,
            r.error_kind@ == self.kind.spec_name(),
            r.code == self.kind.spec_code(),
    {
        ErrorServerStatus {
            status: String::from_str("error"),
            error_kind: String::from_str(self.kind.name()),
            code: self.kind.code(),
        }
    }
}

/// `r` is the error of kind `k` with message `m`.
pub open spec fn fails_with<T>(r: Result<T, ServerError>, k: ErrorKind, m: Seq<char>) -> bool {
    r matches Err(e) && e.kind == k && e.msg@ == m
}

/// An outcome stated as a kind and a message.
pub type Outcome = Result<(), (ErrorKind, Seq<char>)>;

/// `r` is what the outcome `o` describes: success, or that error.
pub open spec fn agrees<T>(r: Result<T, ServerError>, o: Outcome) -> bool {
    match o {
        Ok(_) => r is Ok,
        Err((k, m)) => fails_with(r, k, m),
    }
}

/// A client-side error (a notice) is answered with status 400 Bad Request;
/// every other error, with 500.
pub proof fn lemma_status_by_severity(e: ServerError)
    ensures
        e.kind.spec_severity() == ErrorSeverity::Notice ==> status_for(e.kind.spec_code()) == 400,
        e.kind.spec_severity() != ErrorSeverity::Notice ==> status_for(e.kind.spec_code()) == 500,
{
}

} // verus!
