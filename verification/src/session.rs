//! One refresh attempt against the remote query service, step by step.
//!
//! The library decides which call comes next and what a failure means; the
//! caller performs each call and reports back what came of it.

use crate::records::{ChannelRecord, ClientRecord};
use vstd::prelude::*;

verus! {

/// A call to the remote query service.
#[derive(Clone, Copy, Debug, PartialEq, Eq, Structural)]
pub enum Command {
    Connect,
    Login,
    SelectServer,
    ServerInfo,
    Channels,
    Clients,
    Logout,
}

/// Why a call to the remote query service failed, as the service's client
/// reports it.
#[derive(Clone, Copy, Debug, PartialEq, Eq, Structural)]
pub enum Cause {
    /// The answer was not valid UTF-8.
    Utf8,
    /// Reading from or writing to the connection failed.
    Io,
    /// The server closed the connection.
    ConnectionClosed,
    /// The address of the server could not be resolved.
    InvalidSocketAddress,
    /// The answer was not of the expected form.
    InvalidResponse,
    /// A number in the answer could not be read.
    InvalidIntResponse,
    /// The server answered the call with an error.
    ServerError,
    /// The answer was longer than the client accepts.
    ResponseLimit,
    /// The answer lacks an expected key.
    NoEntryResponse,
    /// A key of the answer lacks its value.
    NoValueResponse,
}

/// A failed call: its cause and the client's description of it.
#[derive(Debug, PartialEq, Eq)]
pub struct Failure {
    pub cause: Cause,
    pub detail: String,
}

/// The kinds of error that a refresh attempt can end with.
#[derive(Clone, Copy, Debug, PartialEq, Eq, Structural)]
pub enum ErrorKind {
    /// The remote server could not be reached.
    Connection,
    /// The login or the choice of the virtual server was rejected.
    Auth,
    /// An answer was malformed or not the expected one.
    Protocol,
}

/// The error that a refresh attempt ends with.
#[derive(Debug, PartialEq, Eq)]
pub struct StatusError {
    pub kind: ErrorKind,
    pub message: String,
}

/// Mathematical value of a [`StatusError`].
pub struct StatusErrorView {
    pub kind: ErrorKind,
    pub message: Seq<char>,
}

impl View for StatusError {
    type V = StatusErrorView;

    open spec fn view(&self) -> StatusErrorView {
        StatusErrorView { kind: self.kind, message: self.message@ }
    }
}

/// What came of a call.
#[derive(Debug, PartialEq, Eq)]
pub enum Reply {
    /// The call succeeded and has nothing to hand back.
    Done,
    /// The lines of the `serverinfo` answer.
    Lines(Vec<String>),
    /// The channels that were enumerated.
    Channels(Vec<ChannelRecord>),
    /// The connections that were enumerated.
    Clients(Vec<ClientRecord>),
    /// The call failed.
    Failed(Failure),
}

/// All that a refresh attempt has gathered when every call has succeeded.
#[derive(Debug, PartialEq, Eq)]
pub struct Fetched {
    pub lines: Vec<String>,
    pub channels: Vec<ChannelRecord>,
    pub clients: Vec<ClientRecord>,
}

/// A refresh attempt that waits for the reply to its pending call, with what
/// it has gathered so far.
#[derive(Debug, PartialEq, Eq)]
pub enum Session {
    Connecting,
    LoggingIn,
    Selecting,
    ReadingInfo,
    ListingChannels { lines: Vec<String> },
    ListingClients { lines: Vec<String>, channels: Vec<ChannelRecord> },
    LoggingOut { lines: Vec<String>, channels: Vec<ChannelRecord>, clients: Vec<ClientRecord> },
}

/// Where a refresh attempt stands after a reply.
#[derive(Debug, PartialEq, Eq)]
pub enum Progress {
    /// The attempt goes on: the pending call of the session is to be made.
    Call(Session),
    /// Every call has succeeded.
    Fetched(Fetched),
    /// The attempt is over; no further call is to be made.
    Failed(StatusError),
}

/// Mathematical value of a [`Progress`].
pub enum ProgressView {
    Call(Session),
    Fetched(Fetched),
    Failed(StatusErrorView),
}

impl View for Progress {
    type V = ProgressView;

    open spec fn view(&self) -> ProgressView {
        match *self {
            Progress::Call(session) => ProgressView::Call(session),
            Progress::Fetched(fetched) => ProgressView::Fetched(fetched),
            Progress::Failed(error) => ProgressView::Failed(error@),
        }
    }
}

/// The message of the error that ends an attempt whose reply does not answer
/// the pending call.
pub const UNEXPECTED_REPLY: &'static str = "unexpected reply from the query service";

/// The position of a call in a refresh attempt.
pub open spec fn position(command: Command) -> nat {
    match command {
        Command::Connect => 0,
        Command::Login => 1,
        Command::SelectServer => 2,
        Command::ServerInfo => 3,
        Command::Channels => 4,
        Command::Clients => 5,
        Command::Logout => 6,
    }
}

/// The kind of error that a failed call stands for.
///
/// A connection that cannot be opened or used is a connection error. An error
/// answer of the server to the login or to the choice of the virtual server is
/// a rejection. Everything else is a protocol error.
pub open spec fn kind_of(command: Command, cause: Cause) -> ErrorKind {
    match cause {
        Cause::Io | Cause::ConnectionClosed | Cause::InvalidSocketAddress => ErrorKind::Connection,
        Cause::ServerError => match command {
            Command::Login | Command::SelectServer => ErrorKind::Auth,
            _ => ErrorKind::Protocol,
        },
        _ => ErrorKind::Protocol,
    }
}

/// Decides the kind of error that a failed call stands for.
pub fn classify(command: Command, cause: Cause) -> (kind: ErrorKind)
    ensures
        kind == kind_of(command, cause),
{
    match cause {
        Cause::Io | Cause::ConnectionClosed | Cause::InvalidSocketAddress => ErrorKind::Connection,
        Cause::ServerError => match command {
            Command::Login | Command::SelectServer => ErrorKind::Auth,
            _ => ErrorKind::Protocol,
        },
        _ => ErrorKind::Protocol,
    }
}

impl Session {
    /// The call that this session waits for.
    pub open spec fn pending_call(self) -> Command {
        match self {
            Session::Connecting => Command::Connect,
            Session::LoggingIn => Command::Login,
            Session::Selecting => Command::SelectServer,
            Session::ReadingInfo => Command::ServerInfo,
            Session::ListingChannels { .. } => Command::Channels,
            Session::ListingClients { .. } => Command::Clients,
            Session::LoggingOut { .. } => Command::Logout,
        }
    }

    /// Where the attempt stands after the reply to the pending call.
    ///
    /// A reply of the kind that the pending call answers with moves the
    /// attempt to the next call, and the reply to the logout completes it. A
    /// failure ends the attempt with the error kind that the failed call and
    /// the cause stand for, and any other reply ends it with a protocol error.
    pub open spec fn step(self, reply: Reply) -> ProgressView {
        match (self, reply) {
            (_, Reply::Failed(failure)) => ProgressView::Failed(
                StatusErrorView {
                    kind: kind_of(self.pending_call(), failure.cause),
                    message: failure.detail@,
                },
            ),
            (Session::Connecting, Reply::Done) => ProgressView::Call(Session::LoggingIn),
            (Session::LoggingIn, Reply::Done) => ProgressView::Call(Session::Selecting),
            (Session::Selecting, Reply::Done) => ProgressView::Call(Session::ReadingInfo),
            (Session::ReadingInfo, Reply::Lines(lines)) => ProgressView::Call(
                Session::ListingChannels { lines },
            ),
            (Session::ListingChannels { lines }, Reply::Channels(channels)) => ProgressView::Call(
                Session::ListingClients { lines, channels },
            ),
            (Session::ListingClients { lines, channels }, Reply::Clients(clients)) => {
                ProgressView::Call(Session::LoggingOut { lines, channels, clients })
            },
            (Session::LoggingOut { lines, channels, clients }, Reply::Done) => {
                ProgressView::Fetched(Fetched { lines, channels, clients })
            },
            _ => ProgressView::Failed(
                StatusErrorView { kind: ErrorKind::Protocol, message: UNEXPECTED_REPLY@ },
            ),
        }
    }

    /// A fresh refresh attempt: nothing gathered, the connection still to be
    /// opened.
    pub fn start() -> (session: Session)
        ensures
            session == Session::Connecting,
    {
        Session::Connecting
    }

    /// The call that this session waits for.
    pub fn pending(&self) -> (command: Command)
        ensures
            command == self.pending_call(),
    {
        match self {
            Session::Connecting => Command::Connect,
            Session::LoggingIn => Command::Login,
            Session::Selecting => Command::SelectServer,
            Session::ReadingInfo => Command::ServerInfo,
            Session::ListingChannels { .. } => Command::Channels,
            Session::ListingClients { .. } => Command::Clients,
            Session::LoggingOut { .. } => Command::Logout,
        }
    }

    /// Takes the reply to the pending call and says how the attempt goes on.
    pub fn advance(self, reply: Reply) -> (progress: Progress)
        ensures
            progress@ == self.step(reply),
    {
        let command = self.pending();
        match (self, reply) {
            (_, Reply::Failed(failure)) => Progress::Failed(
                StatusError { kind: classify(command, failure.cause), message: failure.detail },
            ),
            (Session::Connecting, Reply::Done) => Progress::Call(Session::LoggingIn),
            (Session::LoggingIn, Reply::Done) => Progress::Call(Session::Selecting),
            (Session::Selecting, Reply::Done) => Progress::Call(Session::ReadingInfo),
            (Session::ReadingInfo, Reply::Lines(lines)) => Progress::Call(
                Session::ListingChannels { lines },
            ),
            (Session::ListingChannels { lines }, Reply::Channels(channels)) => Progress::Call(
                Session::ListingClients { lines, channels },
            ),
            (Session::ListingClients { lines, channels }, Reply::Clients(clients)) => {
                Progress::Call(Session::LoggingOut { lines, channels, clients })
            },
            (Session::LoggingOut { lines, channels, clients }, Reply::Done) => Progress::Fetched(
                Fetched { lines, channels, clients },
            ),
            _ => Progress::Failed(
                StatusError { kind: ErrorKind::Protocol, message: UNEXPECTED_REPLY.to_owned() },
            ),
        }
    }
}

/// Where an attempt stands after a run of replies, each taken as the reply to
/// the call that was pending when it came. Replies that come after the
/// attempt is over are not looked at.
pub open spec fn run(session: Session, replies: Seq<Reply>) -> ProgressView
    decreases replies.len(),
{
    if replies.len() == 0 {
        ProgressView::Call(session)
    } else {
        match session.step(replies.first()) {
            ProgressView::Call(next) => run(next, replies.drop_first()),
            over => over,
        }
    }
}

/// The calls that a run of replies answers: the pending call of the session,
/// then that of each session the attempt moves to, as long as it goes on.
pub open spec fn calls(session: Session, replies: Seq<Reply>) -> Seq<Command>
    decreases replies.len(),
{
    if replies.len() == 0 {
        Seq::empty()
    } else {
        seq![session.pending_call()] + match session.step(replies.first()) {
            ProgressView::Call(next) => calls(next, replies.drop_first()),
            _ => Seq::empty(),
        }
    }
}

/// The replies of an attempt in which every call succeeds.
pub open spec fn successful_replies(
    lines: Vec<String>,
    channels: Vec<ChannelRecord>,
    clients: Vec<ClientRecord>,
) -> Seq<Reply> {
    seq![
        Reply::Done,
        Reply::Done,
        Reply::Done,
        Reply::Lines(lines),
        Reply::Channels(channels),
        Reply::Clients(clients),
        Reply::Done,
    ]
}

/// The calls of a refresh attempt, in their order.
pub open spec fn call_sequence() -> Seq<Command> {
    seq![
        Command::Connect,
        Command::Login,
        Command::SelectServer,
        Command::ServerInfo,
        Command::Channels,
        Command::Clients,
        Command::Logout,
    ]
}

/// An attempt in which every call succeeds makes each call once, from the
/// connect to the logout, and ends with what the calls handed back.
pub proof fn lemma_attempt_runs_once(
    lines: Vec<String>,
    channels: Vec<ChannelRecord>,
    clients: Vec<ClientRecord>,
)
    ensures
        calls(Session::Connecting, successful_replies(lines, channels, clients))
            == call_sequence(),
        run(Session::Connecting, successful_replies(lines, channels, clients))
            == ProgressView::Fetched(Fetched { lines, channels, clients }),
{
    let r0 = successful_replies(lines, channels, clients);
    let r1 = r0.drop_first();
    let r2 = r1.drop_first();
    let r3 = r2.drop_first();
    let r4 = r3.drop_first();
    let r5 = r4.drop_first();
    let r6 = r5.drop_first();
    let s4 = Session::ListingChannels { lines };
    let s5 = Session::ListingClients { lines, channels };
    let s6 = Session::LoggingOut { lines, channels, clients };
    assert(calls(s6, r6) =~= seq![Command::Logout]);
    assert(calls(s5, r5) =~= seq![Command::Clients, Command::Logout]);
    assert(calls(s4, r4) =~= seq![Command::Channels, Command::Clients, Command::Logout]);
    assert(calls(Session::ReadingInfo, r3) =~= call_sequence().skip(3));
    assert(calls(Session::Selecting, r2) =~= call_sequence().skip(2));
    assert(calls(Session::LoggingIn, r1) =~= call_sequence().skip(1));
    assert(calls(Session::Connecting, r0) =~= call_sequence());
    assert(run(s6, r6) == ProgressView::Fetched(Fetched { lines, channels, clients }));
    assert(run(s5, r5) == run(s6, r6));
    assert(run(s4, r4) == run(s5, r5));
    assert(run(Session::ReadingInfo, r3) == run(s4, r4));
    assert(run(Session::Selecting, r2) == run(Session::ReadingInfo, r3));
    assert(run(Session::LoggingIn, r1) == run(Session::Selecting, r2));
}

/// Whatever the replies, an attempt makes its calls in order and none twice:
/// each call it makes is the one that follows the call before it.
pub proof fn lemma_calls_in_order(session: Session, replies: Seq<Reply>, j: int)
    requires
        0 <= j < calls(session, replies).len(),
    ensures
        position(calls(session, replies)[j]) == position(session.pending_call()) + j,
    decreases replies.len(),
{
    if j > 0 {
        match session.step(replies.first()) {
            ProgressView::Call(next) => {
                lemma_calls_in_order(next, replies.drop_first(), j - 1);
            },
            _ => {},
        }
    }
}

/// Every reply that keeps an attempt going moves it one call ahead, so that
/// no attempt outlasts the calls from its pending one to the logout.
pub proof fn lemma_attempt_moves_ahead(session: Session, replies: Seq<Reply>)
    ensures
        run(session, replies) matches ProgressView::Call(next) ==> position(next.pending_call())
            == position(session.pending_call()) + replies.len(),
        run(session, replies) is Call ==> position(session.pending_call()) + replies.len() <= 6,
    decreases replies.len(),
{
    if replies.len() > 0 {
        match session.step(replies.first()) {
            ProgressView::Call(next) => {
                lemma_attempt_moves_ahead(next, replies.drop_first());
            },
            _ => {},
        }
    }
}

/// A failed call ends the attempt at once, with the error that the call and
/// the cause stand for; no reply that comes later changes that.
pub proof fn lemma_failure_ends_attempt(session: Session, failure: Failure, later: Seq<Reply>)
    ensures
        run(session, seq![Reply::Failed(failure)] + later) == ProgressView::Failed(
            StatusErrorView {
                kind: kind_of(session.pending_call(), failure.cause),
                message: failure.detail@,
            },
        ),
        calls(session, seq![Reply::Failed(failure)] + later) == seq![session.pending_call()],
{
}

} // verus!
