use attest::{Reddit, StatementError, Statements, SubjectError, SubjectKind, Subjects};

#[test]
fn reddit_public_key_scenario() {
    let statement = Reddit::new(
        "u/alice".to_owned(),
        Subjects::PublicKey { key: "abc123".to_owned() },
    );
    let text = statement.generate_statement().unwrap();
    assert_eq!(
        text,
        "I am attesting that this Reddit handle u/alice is linked to the the public key abc123"
    );
}

#[test]
fn reddit_address_scenario() {
    let statement = Reddit::new(
        "u/bob".to_owned(),
        Subjects::Address { address: "deadbeef".to_owned() },
    );
    let text = statement.generate_statement().unwrap();
    assert_eq!(
        text,
        "I am attesting that this Reddit handle u/bob is linked to the the address deadbeef"
    );
}

#[test]
fn generate_statement_is_deterministic() {
    let statement = Reddit::new(
        "u/alice".to_owned(),
        Subjects::PublicKey { key: "abc123".to_owned() },
    );
    let first = statement.generate_statement().unwrap();
    let second = statement.clone().generate_statement().unwrap();
    assert_eq!(first, second);
}

#[test]
fn handle_is_taken_verbatim() {
    let statement = Reddit::new(
        "  spaced handle  ".to_owned(),
        Subjects::PublicKey { key: "k".to_owned() },
    );
    let text = statement.generate_statement().unwrap();
    assert_eq!(
        text,
        "I am attesting that this Reddit handle   spaced handle   is linked to the the public key k"
    );
}

#[test]
fn empty_key_fails_with_public_key_kind() {
    let statement = Reddit::new(
        "u/alice".to_owned(),
        Subjects::PublicKey { key: "".to_owned() },
    );
    let err = statement.generate_statement().unwrap_err();
    assert_eq!(
        err,
        StatementError::Subject(SubjectError { kind: SubjectKind::PublicKey })
    );
}

#[test]
fn malformed_address_fails_with_address_kind() {
    let statement = Reddit::new(
        "u/bob".to_owned(),
        Subjects::Address { address: "DEADBEEF".to_owned() },
    );
    let err = statement.generate_statement().unwrap_err();
    assert_eq!(
        err,
        StatementError::Subject(SubjectError { kind: SubjectKind::Address })
    );
}

#[test]
fn statement_error_wraps_subject_error() {
    let statement = Reddit::new(
        "u/bob".to_owned(),
        Subjects::Address { address: "".to_owned() },
    );
    let err = statement.generate_statement().unwrap_err();
    assert_eq!(err.subject_error(), SubjectError { kind: SubjectKind::Address });
}

#[test]
fn statement_titles_are_fixed_phrases() {
    let key = Subjects::PublicKey { key: "abc123".to_owned() };
    let addr = Subjects::Address { address: "deadbeef".to_owned() };
    assert_eq!(key.statement_title().unwrap(), "the public key");
    assert_eq!(addr.statement_title().unwrap(), "the address");
}

#[test]
fn display_id_returns_identifier_verbatim() {
    let key = Subjects::PublicKey { key: "abc123".to_owned() };
    let addr = Subjects::Address { address: "0123456789abcdef".to_owned() };
    assert_eq!(key.display_id().unwrap(), "abc123");
    assert_eq!(addr.display_id().unwrap(), "0123456789abcdef");
}

#[test]
fn display_id_rejects_malformed_data() {
    let empty_key = Subjects::PublicKey { key: "".to_owned() };
    let empty_addr = Subjects::Address { address: "".to_owned() };
    let bad_addr = Subjects::Address { address: "xyz".to_owned() };
    assert_eq!(
        empty_key.display_id().unwrap_err(),
        SubjectError { kind: SubjectKind::PublicKey }
    );
    assert_eq!(
        empty_addr.display_id().unwrap_err(),
        SubjectError { kind: SubjectKind::Address }
    );
    assert_eq!(
        bad_addr.display_id().unwrap_err(),
        SubjectError { kind: SubjectKind::Address }
    );
}

#[test]
fn statements_enum_dispatches_to_reddit() {
    let inner = Reddit::new(
        "u/carol".to_owned(),
        Subjects::PublicKey { key: "abc123".to_owned() },
    );
    let statement = Statements::Reddit(inner.clone());
    assert_eq!(
        statement.generate_statement().unwrap(),
        inner.generate_statement().unwrap()
    );
}
