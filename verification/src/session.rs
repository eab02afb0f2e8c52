use vstd::prelude::*;

use crate::errors::FetchError;
use crate::message::{MessageView, MyMessage};
use crate::parse::{parse, res_view, spec_parse};

verus! {

/// Where a protocol session stands. The order of the phases mirrors the
/// fixed step sequence: connect, authenticate, select, enumerate, fetch
/// each message, log out.
#[derive(Clone, Copy, Debug, PartialEq, Eq, Structural)]
pub enum Phase {
    /// The encrypted transport and the protocol session are still owed.
    Connect,
    /// The session is open; authentication is owed.
    Login,
    /// Authenticated; selecting the folder is owed.
    Select,
    /// The folder is selected; enumerating all identifiers is owed.
    Search,
    /// Identifiers are known; the next one is still to be fetched.
    Fetch,
    /// All work is done or abandoned; a clean logout is owed.
    Logout,
    /// The session is over; only the outcome remains.
    Done,
}

/// What the driver must do next. Fetching always uses peek semantics: there
/// is no action that would mark a message as read.
#[derive(Clone, Copy, Debug, PartialEq, Eq, Structural)]
pub enum Step {
    /// Establish the encrypted transport and open the protocol session.
    Connect,
    /// Authenticate with the configured credentials.
    Login,
    /// Select the configured folder.
    Select,
    /// Enumerate the identifiers of every message in the folder.
    Search,
    /// Fetch the raw bytes of the message with this identifier, without
    /// altering its read state.
    FetchPeek(u32),
    /// Close the session cleanly.
    Logout,
    /// Nothing is left; take the outcome.
    Finished,
}

/// What the outside world answered to the pending step.
pub enum Event {
    ConnectOk,
    /// TLS negotiation failed or the host is unreachable.
    TransportFailed,
    /// The protocol handshake failed.
    SessionFailed,
    LoginOk,
    LoginFailed,
    SelectOk,
    SelectFailed,
    /// The identifiers of every message in the folder, in server order.
    SearchOk(Vec<u32>),
    SearchFailed,
    /// The raw bytes of the message just fetched.
    FetchOk(Vec<u8>),
    FetchFailed,
    LogoutOk,
    LogoutFailed,
}

/// The mathematical content of a `FetchSession`.
#[verifier::ext_equal]
pub struct SessionModel {
    pub phase: Phase,
    pub uids: Seq<u32>,
    pub next: int,
    pub messages: Seq<MessageView>,
    pub failure: Option<FetchError>,
}

impl SessionModel {
    /// The identifier count never runs out under the cursor, and in the
    /// fetching phase something is left to fetch.
    pub open spec fn wf(self) -> bool {
        &&& 0 <= self.next <= self.uids.len()
        &&& self.phase == Phase::Fetch ==> self.next < self.uids.len()
    }
}

/// Whether an event answers the step owed in `phase`.
pub open spec fn event_matches(phase: Phase, e: Event) -> bool {
    match (phase, e) {
        (Phase::Connect, Event::ConnectOk) => true,
        (Phase::Connect, Event::TransportFailed) => true,
        (Phase::Connect, Event::SessionFailed) => true,
        (Phase::Login, Event::LoginOk) => true,
        (Phase::Login, Event::LoginFailed) => true,
        (Phase::Select, Event::SelectOk) => true,
        (Phase::Select, Event::SelectFailed) => true,
        (Phase::Search, Event::SearchOk(_)) => true,
        (Phase::Search, Event::SearchFailed) => true,
        (Phase::Fetch, Event::FetchOk(_)) => true,
        (Phase::Fetch, Event::FetchFailed) => true,
        (Phase::Logout, Event::LogoutOk) => true,
        (Phase::Logout, Event::LogoutFailed) => true,
        _ => false,
    }
}

/// The transition relation of the session. Failures before authentication
/// leave no session worth closing and end at once; failures after it first
/// owe a clean logout, and the first failure recorded is the one reported.
pub open spec fn spec_advance(m: SessionModel, e: Event) -> SessionModel {
    match (m.phase, e) {
        (Phase::Connect, Event::ConnectOk) => SessionModel { phase: Phase::Login, ..m },
        (Phase::Connect, Event::TransportFailed) => SessionModel {
            phase: Phase::Done,
            failure: Some(FetchError::Transport),
            ..m
        },
        (Phase::Connect, Event::SessionFailed) => SessionModel {
            phase: Phase::Done,
            failure: Some(FetchError::Protocol),
            ..m
        },
        (Phase::Login, Event::LoginOk) => SessionModel { phase: Phase::Select, ..m },
        (Phase::Login, Event::LoginFailed) => SessionModel {
            phase: Phase::Done,
            failure: Some(FetchError::Auth),
            ..m
        },
        (Phase::Select, Event::SelectOk) => SessionModel { phase: Phase::Search, ..m },
        (Phase::Select, Event::SelectFailed) => SessionModel {
            phase: Phase::Logout,
            failure: Some(FetchError::Folder),
            ..m
        },
        (Phase::Search, Event::SearchOk(uids)) => SessionModel {
            phase: if uids@.len() > 0 {
                Phase::Fetch
            } else {
                Phase::Logout
            },
            uids: uids@,
            next: 0,
            messages: Seq::empty(),
            ..m
        },
        (Phase::Search, Event::SearchFailed) => SessionModel {
            phase: Phase::Logout,
            failure: Some(FetchError::Protocol),
            ..m
        },
        (Phase::Fetch, Event::FetchOk(raw)) => match spec_parse(raw@) {
            Ok(mv) => SessionModel {
                phase: if m.next + 1 < m.uids.len() {
                    Phase::Fetch
                } else {
                    Phase::Logout
                },
                next: m.next + 1,
                messages: m.messages.push(mv),
                ..m
            },
            Err(pe) => SessionModel {
                phase: Phase::Logout,
                failure: Some(FetchError::Parse(pe)),
                ..m
            },
        },
        (Phase::Fetch, Event::FetchFailed) => SessionModel {
            phase: Phase::Logout,
            failure: Some(FetchError::Protocol),
            ..m
        },
        (Phase::Logout, Event::LogoutOk) => SessionModel { phase: Phase::Done, ..m },
        (Phase::Logout, Event::LogoutFailed) => SessionModel {
            phase: Phase::Done,
            failure: if m.failure is Some {
                m.failure
            } else {
                Some(FetchError::Protocol)
            },
            ..m
        },
        _ => m,
    }
}

/// The state a fresh session starts in.
pub open spec fn init_model() -> SessionModel {
    SessionModel {
        phase: Phase::Connect,
        uids: Seq::empty(),
        next: 0,
        messages: Seq::empty(),
        failure: None,
    }
}

pub open spec fn messages_view(v: Seq<MyMessage>) -> Seq<MessageView> {
    v.map_values(|m: MyMessage| m@)
}

/// One read of a mailbox, as a state machine: the driver asks `next_step`
/// what to do, performs the outside work, and reports what happened through
/// `advance`; an event out of state order is rejected and changes nothing.
/// When the machine is done, `finish` yields the ordered messages, or the
/// first error met.
pub struct FetchSession {
    phase: Phase,
    uids: Vec<u32>,
    next: usize,
    messages: Vec<MyMessage>,
    failure: Option<FetchError>,
}

impl View for FetchSession {
    type V = SessionModel;

    closed spec fn view(&self) -> SessionModel {
        SessionModel {
            phase: self.phase,
            uids: self.uids@,
            next: self.next as int,
            messages: messages_view(self.messages@),
            failure: self.failure,
        }
    }
}

impl FetchSession {
    /// A fresh session, with the whole step sequence still ahead.
    pub fn new() -> (s: FetchSession)
        ensures
            s@ == init_model(),
            s@.wf(),
    {
        let s = FetchSession {
            phase: Phase::Connect,
            uids: Vec::new(),
            next: 0,
            messages: Vec::new(),
            failure: None,
        };
        proof {
            assert(s@ =~= init_model());
        }
        s
    }

    /// What the driver owes next in the current phase.
    pub fn next_step(&self) -> (s: Step)
        requires
            self@.wf(),
        ensures
            s == spec_step(self@),
            self@.phase == Phase::Fetch ==> s == Step::FetchPeek(self@.uids[self@.next]),
    {
        match self.phase {
            Phase::Connect => Step::Connect,
            Phase::Login => Step::Login,
            Phase::Select => Step::Select,
            Phase::Search => Step::Search,
            Phase::Fetch => Step::FetchPeek(self.uids[self.next]),
            Phase::Logout => Step::Logout,
            Phase::Done => Step::Finished,
        }
    }

    /// Whether only the outcome remains.
    pub fn is_done(&self) -> (r: bool)
        ensures
            r == (self@.phase == Phase::Done),
    {
        matches!(self.phase, Phase::Done)
    }

    /// Record what the outside world answered. An event out of state order
    /// is rejected as a protocol error and leaves the session unchanged.
    pub fn advance(&mut self, e: Event) -> (r: Result<(), FetchError>)
        requires
            old(self)@.wf(),
        ensures
            final(self)@.wf(),
            event_matches(old(self)@.phase, e) ==> r is Ok && final(self)@ == spec_advance(
                old(self)@,
                e,
            ),
            !event_matches(old(self)@.phase, e) ==> r == Err::<(), FetchError>(
                FetchError::Protocol,
            ) && final(self)@ == old(self)@,
    {
        let ghost m = self@;
        match (self.phase, e) {
            (Phase::Connect, Event::ConnectOk) => {
                self.phase = Phase::Login;
            },
            (Phase::Connect, Event::TransportFailed) => {
                self.phase = Phase::Done;
                self.failure = Some(FetchError::Transport);
            },
            (Phase::Connect, Event::SessionFailed) => {
                self.phase = Phase::Done;
                self.failure = Some(FetchError::Protocol);
            },
            (Phase::Login, Event::LoginOk) => {
                self.phase = Phase::Select;
            },
            (Phase::Login, Event::LoginFailed) => {
                self.phase = Phase::Done;
                self.failure = Some(FetchError::Auth);
            },
            (Phase::Select, Event::SelectOk) => {
                self.phase = Phase::Search;
            },
            (Phase::Select, Event::SelectFailed) => {
                self.phase = Phase::Logout;
                self.failure = Some(FetchError::Folder);
            },
            (Phase::Search, Event::SearchOk(uids)) => {
                self.phase = if uids.len() > 0 {
                    Phase::Fetch
                } else {
                    Phase::Logout
                };
                self.uids = uids;
                self.next = 0;
                self.messages = Vec::new();
                proof {
                    assert(messages_view(self.messages@) =~= Seq::<MessageView>::empty());
                }
            },
            (Phase::Search, Event::SearchFailed) => {
                self.phase = Phase::Logout;
                self.failure = Some(FetchError::Protocol);
            },
            (Phase::Fetch, Event::FetchOk(raw)) => {
                match parse(raw.as_slice()) {
                    Ok(msg) => {
                        proof {
                            assert(messages_view(self.messages@.push(msg)) =~= messages_view(
                                self.messages@,
                            ).push(msg@));
                        }
                        self.messages.push(msg);
                        let total = self.uids.len();
                        self.next = self.next + 1;
                        self.phase = if self.next < total {
                            Phase::Fetch
                        } else {
                            Phase::Logout
                        };
                    },
                    Err(pe) => {
                        self.phase = Phase::Logout;
                        self.failure = Some(FetchError::Parse(pe));
                    },
                }
            },
            (Phase::Fetch, Event::FetchFailed) => {
                self.phase = Phase::Logout;
                self.failure = Some(FetchError::Protocol);
            },
            (Phase::Logout, Event::LogoutOk) => {
                self.phase = Phase::Done;
            },
            (Phase::Logout, Event::LogoutFailed) => {
                self.phase = Phase::Done;
                if self.failure.is_none() {
                    self.failure = Some(FetchError::Protocol);
                }
            },
            _ => {
                return Err(FetchError::Protocol);
            },
        }
        proof {
            assert(self@ =~= spec_advance(m, e));
        }
        Ok(())
    }

    /// The outcome of a finished session: the messages in fetch order, or
    /// the first error met.
    pub fn finish(self) -> (r: Result<Vec<MyMessage>, FetchError>)
        requires
            self@.phase == Phase::Done,
        ensures
            r is Ok <==> self@.failure is None,
            r matches Ok(v) ==> messages_view(v@) == self@.messages,
            r matches Err(err) ==> self@.failure == Some(err),
    {
        match self.failure {
            Some(err) => Err(err),
            None => Ok(self.messages),
        }
    }
}

/// The step owed in each phase.
pub open spec fn spec_step(m: SessionModel) -> Step {
    match m.phase {
        Phase::Connect => Step::Connect,
        Phase::Login => Step::Login,
        Phase::Select => Step::Select,
        Phase::Search => Step::Search,
        Phase::Fetch => Step::FetchPeek(m.uids[m.next]),
        Phase::Logout => Step::Logout,
        Phase::Done => Step::Finished,
    }
}

} // verus!
