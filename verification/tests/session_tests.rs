use mailfetch::{Event, FetchError, FetchSession, HeaderName, ParseError, Step};

const GOOD_ONE: &[u8] = b"From: one@example.com\r\nSubject: first\r\n\r\none body\r\n";
const GOOD_TWO: &[u8] = b"From: two@example.com\r\nSubject: second\r\n\r\ntwo body\r\n";
const NO_SUBJECT: &[u8] = b"From: bad@example.com\r\n\r\nno subject here\r\n";

#[test]
fn empty_folder_returns_empty() {
    let mut s = FetchSession::new();
    assert_eq!(s.next_step(), Step::Connect);
    s.advance(Event::ConnectOk).unwrap();
    assert_eq!(s.next_step(), Step::Login);
    s.advance(Event::LoginOk).unwrap();
    assert_eq!(s.next_step(), Step::Select);
    s.advance(Event::SelectOk).unwrap();
    assert_eq!(s.next_step(), Step::Search);
    s.advance(Event::SearchOk(vec![])).unwrap();
    assert_eq!(s.next_step(), Step::Logout);
    s.advance(Event::LogoutOk).unwrap();
    assert!(s.is_done());
    let msgs = s.finish().unwrap();
    assert_eq!(msgs.len(), 0);
}

#[test]
fn happy_path_keeps_order() {
    let mut s = FetchSession::new();
    s.advance(Event::ConnectOk).unwrap();
    s.advance(Event::LoginOk).unwrap();
    s.advance(Event::SelectOk).unwrap();
    s.advance(Event::SearchOk(vec![4, 7])).unwrap();
    assert_eq!(s.next_step(), Step::FetchPeek(4));
    s.advance(Event::FetchOk(GOOD_ONE.to_vec())).unwrap();
    assert_eq!(s.next_step(), Step::FetchPeek(7));
    s.advance(Event::FetchOk(GOOD_TWO.to_vec())).unwrap();
    assert_eq!(s.next_step(), Step::Logout);
    s.advance(Event::LogoutOk).unwrap();
    let msgs = s.finish().unwrap();
    assert_eq!(msgs.len(), 2);
    assert_eq!(msgs[0].from, "one@example.com");
    assert_eq!(msgs[0].subject, "first");
    assert_eq!(msgs[0].body, "one body");
    assert_eq!(msgs[1].from, "two@example.com");
    assert_eq!(msgs[1].subject, "second");
    assert_eq!(msgs[1].body, "two body");
}

#[test]
fn one_malformed_among_ten_fails_whole_batch() {
    let mut s = FetchSession::new();
    s.advance(Event::ConnectOk).unwrap();
    s.advance(Event::LoginOk).unwrap();
    s.advance(Event::SelectOk).unwrap();
    let uids: Vec<u32> = (1..=10).collect();
    s.advance(Event::SearchOk(uids)).unwrap();
    for uid in 1..=5u32 {
        assert_eq!(s.next_step(), Step::FetchPeek(uid));
        s.advance(Event::FetchOk(GOOD_ONE.to_vec())).unwrap();
    }
    assert_eq!(s.next_step(), Step::FetchPeek(6));
    s.advance(Event::FetchOk(NO_SUBJECT.to_vec())).unwrap();
    // No further message is fetched: the session now owes only the logout.
    assert_eq!(s.next_step(), Step::Logout);
    s.advance(Event::LogoutOk).unwrap();
    let err = s.finish().unwrap_err();
    assert_eq!(
        err,
        FetchError::Parse(ParseError::MissingHeader(HeaderName::Subject))
    );
}

#[test]
fn fetch_steps_use_peek() {
    let mut s = FetchSession::new();
    s.advance(Event::ConnectOk).unwrap();
    s.advance(Event::LoginOk).unwrap();
    s.advance(Event::SelectOk).unwrap();
    s.advance(Event::SearchOk(vec![9])).unwrap();
    // The only fetching step the machine ever issues is the peek variant,
    // which leaves the read/unread flag on the server untouched.
    assert!(matches!(s.next_step(), Step::FetchPeek(9)));
}

#[test]
fn out_of_order_event_rejected() {
    let mut s = FetchSession::new();
    let r = s.advance(Event::LoginOk);
    assert_eq!(r.unwrap_err(), FetchError::Protocol);
    assert_eq!(s.next_step(), Step::Connect);
}

#[test]
fn transport_failure_reported() {
    let mut s = FetchSession::new();
    s.advance(Event::TransportFailed).unwrap();
    assert!(s.is_done());
    assert_eq!(s.finish().unwrap_err(), FetchError::Transport);
}

#[test]
fn handshake_failure_reported() {
    let mut s = FetchSession::new();
    s.advance(Event::SessionFailed).unwrap();
    assert_eq!(s.finish().unwrap_err(), FetchError::Protocol);
}

#[test]
fn auth_failure_reported() {
    let mut s = FetchSession::new();
    s.advance(Event::ConnectOk).unwrap();
    s.advance(Event::LoginFailed).unwrap();
    assert!(s.is_done());
    assert_eq!(s.finish().unwrap_err(), FetchError::Auth);
}

#[test]
fn folder_failure_reported_after_logout() {
    let mut s = FetchSession::new();
    s.advance(Event::ConnectOk).unwrap();
    s.advance(Event::LoginOk).unwrap();
    s.advance(Event::SelectFailed).unwrap();
    assert_eq!(s.next_step(), Step::Logout);
    s.advance(Event::LogoutOk).unwrap();
    assert_eq!(s.finish().unwrap_err(), FetchError::Folder);
}

#[test]
fn search_failure_reported_after_logout() {
    let mut s = FetchSession::new();
    s.advance(Event::ConnectOk).unwrap();
    s.advance(Event::LoginOk).unwrap();
    s.advance(Event::SelectOk).unwrap();
    s.advance(Event::SearchFailed).unwrap();
    s.advance(Event::LogoutOk).unwrap();
    assert_eq!(s.finish().unwrap_err(), FetchError::Protocol);
}

#[test]
fn fetch_failure_reported_after_logout() {
    let mut s = FetchSession::new();
    s.advance(Event::ConnectOk).unwrap();
    s.advance(Event::LoginOk).unwrap();
    s.advance(Event::SelectOk).unwrap();
    s.advance(Event::SearchOk(vec![1])).unwrap();
    s.advance(Event::FetchFailed).unwrap();
    s.advance(Event::LogoutOk).unwrap();
    assert_eq!(s.finish().unwrap_err(), FetchError::Protocol);
}

#[test]
fn logout_failure_reported_on_clean_run() {
    let mut s = FetchSession::new();
    s.advance(Event::ConnectOk).unwrap();
    s.advance(Event::LoginOk).unwrap();
    s.advance(Event::SelectOk).unwrap();
    s.advance(Event::SearchOk(vec![])).unwrap();
    s.advance(Event::LogoutFailed).unwrap();
    assert_eq!(s.finish().unwrap_err(), FetchError::Protocol);
}

#[test]
fn logout_failure_keeps_first_error() {
    let mut s = FetchSession::new();
    s.advance(Event::ConnectOk).unwrap();
    s.advance(Event::LoginOk).unwrap();
    s.advance(Event::SelectFailed).unwrap();
    s.advance(Event::LogoutFailed).unwrap();
    assert_eq!(s.finish().unwrap_err(), FetchError::Folder);
}
