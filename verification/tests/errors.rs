use lsforms::config::structs::VerboseLevel;
use lsforms::errors::{should_display, throw, ErrorKind, ErrorSeverity};

#[test]
fn codes_and_severities() {
    assert_eq!(ErrorKind::FileNotFound.code(), 0);
    assert_eq!(ErrorKind::FileReadFail.code(), 1);
    assert_eq!(ErrorKind::CaptchaGenerationFailed.code(), 100);
    assert_eq!(ErrorKind::NoClientIP.code(), 109);
    assert_eq!(ErrorKind::UnknownHost.code(), 200);
    assert_eq!(ErrorKind::FieldTooLong.code(), 214);
    assert_eq!(ErrorKind::FileReadFail.severity(), ErrorSeverity::Crit);
    assert_eq!(ErrorKind::EmailSendFail.severity(), ErrorSeverity::Warn);
    assert_eq!(ErrorKind::FieldEmailWrongType.severity(), ErrorSeverity::Notice);
}

#[test]
fn error_line() {
    let e = throw(ErrorKind::UnknownHost, "no host named x".to_string());
    assert_eq!(e.to_string(), "[NOTICE] UnknownHost: no host named x");
    let e = throw(ErrorKind::FileNotFound, "gone".to_string());
    assert_eq!(e.to_string(), "[CRITICAL] FileNotFound: gone");
}

#[test]
fn display_follows_verbosity() {
    let levels = [VerboseLevel::Crit, VerboseLevel::Warn, VerboseLevel::Notice, VerboseLevel::Info];
    let sevs = [ErrorSeverity::Crit, ErrorSeverity::Warn, ErrorSeverity::Notice, ErrorSeverity::Info];
    for (li, l) in levels.iter().enumerate() {
        for (si, s) in sevs.iter().enumerate() {
            assert_eq!(should_display(*s, l), si <= li);
        }
    }
    let e = throw(ErrorKind::EmailSendFail, "smtp".to_string());
    assert_eq!(e.display(&VerboseLevel::Crit), None);
    assert_eq!(e.display(&VerboseLevel::Warn), Some("[WARN] EmailSendFail: smtp".to_string()));
    assert_eq!(e.display(&VerboseLevel::Info), Some("[WARN] EmailSendFail: smtp".to_string()));
}

#[test]
fn responses() {
    for (k, status) in [
        (ErrorKind::FileNotFound, 500),
        (ErrorKind::EmailSendFail, 500),
        (ErrorKind::UnknownHost, 400),
        (ErrorKind::FieldTooLong, 400),
        (ErrorKind::CaptchaResultInvalid, 400),
    ] {
        let e = throw(k, String::new());
        assert_eq!(e.status_code(), status);
        let body = e.status_body();
        assert_eq!(body.status, "error");
        assert_eq!(body.error_kind, format!("{:?}", k));
        assert_eq!(body.code, k.code());
    }
}
