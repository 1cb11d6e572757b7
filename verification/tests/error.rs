use cadence_crater::error::{CraterError, ErrorKind};

#[test]
fn error_without_cause_prints_its_message() {
    let e = CraterError::new(ErrorKind::MissingField, "no version".to_string());
    assert_eq!(e.kind(), ErrorKind::MissingField);
    assert_eq!(e.message(), "no version");
    assert!(e.source().is_none());
    assert_eq!(e.to_string(), "no version");
}

#[test]
fn error_with_cause_prints_the_whole_chain() {
    let inner = CraterError::new(ErrorKind::Read, "permission denied".to_string());
    let middle = CraterError::new_err(ErrorKind::Read, "unable to read x".to_string(), inner);
    let outer = CraterError::new_err(ErrorKind::Read, "unable to open x".to_string(), middle);
    assert_eq!(
        outer.to_string(),
        "unable to open x: unable to read x: permission denied"
    );
    assert_eq!(outer.message(), "unable to open x");
    let middle = outer.source().unwrap();
    assert_eq!(middle.message(), "unable to read x");
    let inner = middle.source().unwrap();
    assert_eq!(inner.message(), "permission denied");
    assert!(inner.source().is_none());
}

#[test]
fn causes_keep_their_own_kind() {
    let inner = CraterError::new(ErrorKind::Parse, "bad".to_string());
    let outer = CraterError::new_err(ErrorKind::Vcs, "worse".to_string(), inner);
    assert_eq!(outer.kind(), ErrorKind::Vcs);
    assert_eq!(outer.source().unwrap().kind(), ErrorKind::Parse);
}

#[test]
fn with_reason_wraps_the_text_of_an_outside_failure() {
    let e = CraterError::with_reason(
        ErrorKind::Write,
        "unable to write".to_string(),
        Some("disk full".to_string()),
    );
    assert_eq!(e.kind(), ErrorKind::Write);
    assert_eq!(e.to_string(), "unable to write: disk full");
    assert_eq!(e.source().unwrap().kind(), ErrorKind::Write);
    let e = CraterError::with_reason(ErrorKind::Write, "unable to write".to_string(), None);
    assert_eq!(e.to_string(), "unable to write");
    assert!(e.source().is_none());
}

#[test]
fn empty_messages_are_kept() {
    let e = CraterError::new_err(
        ErrorKind::Read,
        String::new(),
        CraterError::new(ErrorKind::Read, String::new()),
    );
    assert_eq!(e.to_string(), ": ");
}
