use mailfetch::{extract_message, HeaderName, MimeEntity, MimePart, MyMailbox, ParseError};

#[test]
fn default_mailbox_values() {
    let mb = MyMailbox::default();
    assert_eq!(mb.host, "");
    assert_eq!(mb.port, 993);
    assert_eq!(mb.user, "");
    assert_eq!(mb.password, "");
    assert_eq!(mb.selection, "INBOX");
}

#[test]
fn extract_single_part_entity() {
    let e = MimeEntity {
        from: Some(String::from("x@y.z")),
        subject: Some(String::from("note")),
        body: Some(String::from("kept \t\n")),
        subparts: vec![],
    };
    let m = extract_message(e).unwrap();
    assert_eq!(m.from, "x@y.z");
    assert_eq!(m.subject, "note");
    assert_eq!(m.body, "kept");
}

#[test]
fn extract_multipart_entity_picks_first_plain() {
    let e = MimeEntity {
        from: Some(String::from("x@y.z")),
        subject: Some(String::from("note")),
        body: Some(String::from("outer")),
        subparts: vec![
            MimePart { mimetype: String::from("text/html"), body: Some(String::from("<p>h</p>")) },
            MimePart { mimetype: String::from("text/plain"), body: Some(String::from("inner")) },
            MimePart { mimetype: String::from("text/plain"), body: Some(String::from("later")) },
        ],
    };
    let m = extract_message(e).unwrap();
    assert_eq!(m.body, "inner");
}

#[test]
fn extract_missing_subject_entity_fails() {
    let e = MimeEntity {
        from: Some(String::from("x@y.z")),
        subject: None,
        body: Some(String::from("b")),
        subparts: vec![],
    };
    let r = extract_message(e);
    assert_eq!(r.unwrap_err(), ParseError::MissingHeader(HeaderName::Subject));
}

#[test]
fn extract_undecoded_part_body_fails() {
    let e = MimeEntity {
        from: Some(String::from("x@y.z")),
        subject: Some(String::from("note")),
        body: None,
        subparts: vec![],
    };
    let r = extract_message(e);
    assert_eq!(r.unwrap_err(), ParseError::MalformedMessage);
}
