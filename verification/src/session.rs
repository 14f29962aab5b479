//! The session manager: the life of the one session, from the request to
//! connect until the session has closed.
//!
//! The manager does not talk to the transport. Its driver does, and reports
//! each thing that happened as a [`SessionEvent`]; the manager answers with
//! the [`SessionAction`]s to carry out and writes to the event log.

use crate::event_log::{LogRecord, Logger, Severity};
use crate::stream_id::StreamIdAllocator;
use vstd::prelude::*;
use vstd::string::StringExecFns;

verus! {

/// Why a session is closed.
#[derive(Clone, Copy, Debug, PartialEq, Eq, Structural)]
pub enum CloseReason {
    /// The session ended gracefully.
    Normal,
    /// The session broke off.
    Abrupt,
}

/// Where the manager stands.
#[derive(Clone, Copy, Debug, PartialEq, Eq, Structural)]
pub enum SessionState {
    /// No session, and none asked for.
    Idle,
    /// The transport has been asked to make a session.
    Creating,
    /// The session exists and its handshake is under way.
    Connecting,
    /// The session is established.
    Ready,
    /// The session was established and has closed.
    Closed { reason: CloseReason },
}

/// How the transport says a session closed.
#[derive(Debug, PartialEq, Eq)]
pub enum CloseOutcome {
    Normal,
    Abrupt { cause: String },
}

impl CloseOutcome {
    /// The reason kept in the state for this outcome.
    pub open spec fn reason(self) -> CloseReason {
        match self {
            CloseOutcome::Normal => CloseReason::Normal,
            CloseOutcome::Abrupt { .. } => CloseReason::Abrupt,
        }
    }
}

/// What the driver reports to the manager.
#[derive(Debug, PartialEq, Eq)]
pub enum SessionEvent {
    /// The user asks for a session with the endpoint at `url`.
    ConnectRequested { url: String },
    /// The transport made the session object.
    Created,
    /// The transport could not make the session object.
    CreateFailed { detail: String },
    /// The session became usable.
    HandshakeCompleted,
    /// The session failed before it became usable.
    HandshakeFailed { detail: String },
    /// The session closed.
    Closed { outcome: CloseOutcome },
}

/// One thing for the driver to do.
#[derive(Debug, PartialEq, Eq)]
pub enum SessionAction {
    /// Ask the transport for a session with the endpoint at `url`, and report
    /// `Created` or `CreateFailed`.
    CreateSession { url: String },
    /// Wait until the session is usable, and report `HandshakeCompleted` or
    /// `HandshakeFailed`.
    AwaitReady,
    /// Start the task that waits for the session to close and reports
    /// `Closed`.
    WatchClosure,
    /// Start the task that runs the loop which receives datagrams.
    ReceiveDatagrams,
    /// Start the task that runs the loop which accepts unidirectional
    /// streams.
    AcceptStreams,
    /// Tell the user interface that sending is possible.
    EnableSend,
    /// Tell the user interface that connecting is no longer possible.
    DisableConnect,
}

/// One thing for the driver to do, with its text as a sequence.
pub enum ActionView {
    CreateSession { url: Seq<char> },
    AwaitReady,
    WatchClosure,
    ReceiveDatagrams,
    AcceptStreams,
    EnableSend,
    DisableConnect,
}

impl View for SessionAction {
    type V = ActionView;

    open spec fn view(&self) -> ActionView {
        match *self {
            SessionAction::CreateSession { url } => ActionView::CreateSession { url: url@ },
            SessionAction::AwaitReady => ActionView::AwaitReady,
            SessionAction::WatchClosure => ActionView::WatchClosure,
            SessionAction::ReceiveDatagrams => ActionView::ReceiveDatagrams,
            SessionAction::AcceptStreams => ActionView::AcceptStreams,
            SessionAction::EnableSend => ActionView::EnableSend,
            SessionAction::DisableConnect => ActionView::DisableConnect,
        }
    }
}

/// An answer of the manager to an event, as contracts see it.
pub open spec fn answer_view(answer: Result<Vec<SessionAction>, ConnectError>) -> Result<
    Seq<ActionView>,
    ConnectError,
> {
    match answer {
        Ok(actions) => Ok(actions@.map_values(|action: SessionAction| action@)),
        Err(error) => Err(error),
    }
}

/// Why a request to connect failed, or a report was turned down.
#[derive(Clone, Copy, Debug, PartialEq, Eq, Structural)]
pub enum ConnectError {
    /// The transport could not make a session object.
    CreateFailed,
    /// The session did not become usable.
    HandshakeFailed,
    /// The manager is not in a state to take this event: a request to
    /// connect while a session is asked for, live or closed, or a report
    /// out of turn. Nothing but the event log has changed.
    Rejected,
}

/// Whether an event is in turn in a state. At most one session is ever asked
/// for at a time, and a closed session is not replaced.
pub open spec fn accepts(state: SessionState, event: SessionEvent) -> bool {
    match event {
        SessionEvent::ConnectRequested { .. } => state is Idle,
        SessionEvent::Created => state is Creating,
        SessionEvent::CreateFailed { .. } => state is Creating,
        SessionEvent::HandshakeCompleted => state is Connecting,
        SessionEvent::HandshakeFailed { .. } => state is Connecting,
        SessionEvent::Closed { .. } => state is Ready,
    }
}

/// The state after an event. An event out of turn changes nothing.
pub open spec fn next_state(state: SessionState, event: SessionEvent) -> SessionState {
    if !accepts(state, event) {
        state
    } else {
        match event {
            SessionEvent::ConnectRequested { .. } => SessionState::Creating,
            SessionEvent::Created => SessionState::Connecting,
            SessionEvent::CreateFailed { .. } => SessionState::Idle,
            SessionEvent::HandshakeCompleted => SessionState::Ready,
            SessionEvent::HandshakeFailed { .. } => SessionState::Idle,
            SessionEvent::Closed { outcome } => SessionState::Closed { reason: outcome.reason() },
        }
    }
}

/// What an event adds to the event log.
pub open spec fn reported(state: SessionState, event: SessionEvent) -> Seq<LogRecord> {
    if !accepts(state, event) {
        seq![LogRecord::error("Rejected: not expected in the current state of the session."@)]
    } else {
        match event {
            SessionEvent::ConnectRequested { .. } => seq![],
            SessionEvent::Created => seq![LogRecord::info("Initiating connection..."@)],
            SessionEvent::CreateFailed { detail } => seq![
                LogRecord::error("Failed to create connection object. "@ + detail@),
            ],
            SessionEvent::HandshakeCompleted => seq![LogRecord::info("Connection ready."@)],
            SessionEvent::HandshakeFailed { detail } => seq![
                LogRecord::error("Connection failed. "@ + detail@),
            ],
            SessionEvent::Closed { outcome } => match outcome {
                CloseOutcome::Normal => seq![LogRecord::info("Connection closed normally."@)],
                CloseOutcome::Abrupt { cause } => seq![
                    LogRecord::error("Connection closed abruptly: "@ + cause@),
                ],
            },
        }
    }
}

/// What the manager answers to an event: what the driver is to do, in this
/// order, or the error to hand to whoever asked to connect.
///
/// Once the session is established, the three background tasks are started
/// whatever else holds, and the user interface is told that sending is
/// possible and connecting is not. The tasks are on their own: no answer of
/// the manager hands a failure of theirs to whoever asked to connect.
pub open spec fn answer(state: SessionState, event: SessionEvent) -> Result<
    Seq<ActionView>,
    ConnectError,
> {
    if !accepts(state, event) {
        Err(ConnectError::Rejected)
    } else {
        match event {
            SessionEvent::ConnectRequested { url } => Ok(
                seq![ActionView::CreateSession { url: url@ }],
            ),
            SessionEvent::Created => Ok(seq![ActionView::AwaitReady]),
            SessionEvent::CreateFailed { .. } => Err(ConnectError::CreateFailed),
            SessionEvent::HandshakeCompleted => Ok(
                seq![
                    ActionView::WatchClosure,
                    ActionView::ReceiveDatagrams,
                    ActionView::AcceptStreams,
                    ActionView::EnableSend,
                    ActionView::DisableConnect,
                ],
            ),
            SessionEvent::HandshakeFailed { .. } => Err(ConnectError::HandshakeFailed),
            SessionEvent::Closed { .. } => Ok(seq![]),
        }
    }
}

/// What the manager holds, as contracts see it.
pub struct SessionView {
    /// The event log, oldest entry first.
    pub log: Seq<LogRecord>,
    /// Where the manager stands.
    pub state: SessionState,
    /// The identifier that the next new stream gets.
    pub next_stream: u32,
}

impl SessionView {
    /// A manager without a session, with an empty event log, whose first
    /// stream will be number 1.
    pub open spec fn initial() -> SessionView {
        SessionView { log: Seq::empty(), state: SessionState::Idle, next_stream: 1 }
    }

    /// The manager after an event of the life of the session. Events never
    /// touch the stream numbers.
    pub open spec fn after(self, event: SessionEvent) -> SessionView {
        SessionView {
            log: self.log + reported(self.state, event),
            state: next_state(self.state, event),
            ..self
        }
    }

    /// The same, with `more` added at the end of the event log.
    pub open spec fn with_log(self, more: Seq<LogRecord>) -> SessionView {
        SessionView { log: self.log + more, ..self }
    }

    /// A session was established at some time, so there is a connection to
    /// send on, even if it has closed since.
    pub open spec fn has_connection(self) -> bool {
        self.state is Ready || self.state is Closed
    }

    /// A new stream can be given an identifier.
    pub open spec fn can_allocate(self) -> bool {
        self.next_stream < u32::MAX
    }
}

/// The session manager.
#[derive(Debug)]
pub struct WasmCtx {
    logger: Logger,
    state: SessionState,
    stream_number: StreamIdAllocator,
}

impl View for WasmCtx {
    type V = SessionView;

    closed spec fn view(&self) -> SessionView {
        SessionView {
            log: self.logger@,
            state: self.state,
            next_stream: self.stream_number.next_id(),
        }
    }
}

impl WasmCtx {
    /// A manager without a session, with an empty event log, whose first
    /// stream will be number 1.
    pub fn new() -> (ctx: Self)
        ensures
            ctx@ == SessionView::initial(),
    {
        WasmCtx {
            logger: Logger::new(),
            state: SessionState::Idle,
            stream_number: StreamIdAllocator::new(),
        }
    }

    /// Where the manager stands.
    pub fn state(&self) -> (state: SessionState)
        ensures
            state == self@.state,
    {
        self.state
    }

    /// The event log.
    pub fn logger(&self) -> (logger: &Logger)
        ensures
            logger@ == self@.log,
    {
        &self.logger
    }

    /// The number that the next new stream gets.
    pub fn next_stream_number(&self) -> (number: u32)
        ensures
            number == self@.next_stream,
            number >= 1,
    {
        self.stream_number.peek()
    }

    /// Whether there is a connection to send on.
    pub fn has_connection(&self) -> (connected: bool)
        ensures
            connected == self@.has_connection(),
    {
        match self.state {
            SessionState::Ready => true,
            SessionState::Closed { .. } => true,
            _ => false,
        }
    }

    /// Whether a new stream can be given a number.
    pub fn can_allocate(&self) -> (free: bool)
        ensures
            free == self@.can_allocate(),
    {
        self.stream_number.can_allocate()
    }

    /// Adds an entry at the end of the event log.
    pub(crate) fn report(&mut self, text: &str, severity: Severity)
        ensures
            final(self)@ == old(self)@.with_log(seq![LogRecord { message: text@, severity }]),
    {
        self.logger.add_to_event_log_with_severity(text, severity);
        assert(self@.log =~= old(self)@.log + seq![LogRecord { message: text@, severity }]);
    }

    /// Takes the identifier of a new stream.
    pub(crate) fn allocate_stream_number(&mut self) -> (number: u32)
        requires
            old(self)@.can_allocate(),
        ensures
            number == old(self)@.next_stream,
            final(self)@ == (SessionView { next_stream: (number + 1) as u32, ..old(self)@ }),
    {
        self.stream_number.allocate()
    }

    /// Takes one event of the life of the session: moves to the next state,
    /// writes what happened to the event log, and answers with what to do
    /// next or with the error to hand to whoever asked to connect. Every
    /// error is in the event log before it is returned. No stream number
    /// is used up.
    pub fn connect(&mut self, event: SessionEvent) -> (step: Result<
        Vec<SessionAction>,
        ConnectError,
    >)
        ensures
            final(self)@ == old(self)@.after(event),
            answer_view(step) == answer(old(self)@.state, event),
    {
        let mut actions: Vec<SessionAction> = Vec::new();
        match (self.state, event) {
            (SessionState::Idle, SessionEvent::ConnectRequested { url }) => {
                self.state = SessionState::Creating;
                assert(self@.log =~= old(self)@.log + Seq::<LogRecord>::empty());
                actions.push(SessionAction::CreateSession { url });
            },
            (SessionState::Creating, SessionEvent::Created) => {
                self.state = SessionState::Connecting;
                self.report("Initiating connection...", Severity::Info);
                actions.push(SessionAction::AwaitReady);
            },
            (SessionState::Creating, SessionEvent::CreateFailed { detail }) => {
                self.state = SessionState::Idle;
                let mut text = String::from_str("Failed to create connection object. ");
                text.append(detail.as_str());
                self.report(text.as_str(), Severity::Error);
                return Err(ConnectError::CreateFailed);
            },
            (SessionState::Connecting, SessionEvent::HandshakeCompleted) => {
                self.state = SessionState::Ready;
                self.report("Connection ready.", Severity::Info);
                actions.push(SessionAction::WatchClosure);
                actions.push(SessionAction::ReceiveDatagrams);
                actions.push(SessionAction::AcceptStreams);
                actions.push(SessionAction::EnableSend);
                actions.push(SessionAction::DisableConnect);
            },
            (SessionState::Connecting, SessionEvent::HandshakeFailed { detail }) => {
                self.state = SessionState::Idle;
                let mut text = String::from_str("Connection failed. ");
                text.append(detail.as_str());
                self.report(text.as_str(), Severity::Error);
                return Err(ConnectError::HandshakeFailed);
            },
            (SessionState::Ready, SessionEvent::Closed { outcome }) => {
                match outcome {
                    CloseOutcome::Normal => {
                        self.state = SessionState::Closed { reason: CloseReason::Normal };
                        self.report("Connection closed normally.", Severity::Info);
                    },
                    CloseOutcome::Abrupt { cause } => {
                        self.state = SessionState::Closed { reason: CloseReason::Abrupt };
                        let mut text = String::from_str("Connection closed abruptly: ");
                        text.append(cause.as_str());
                        self.report(text.as_str(), Severity::Error);
                    },
                }
            },
            (_, _) => {
                self.report(
                    "Rejected: not expected in the current state of the session.",
                    Severity::Error,
                );
                return Err(ConnectError::Rejected);
            },
        }
        assert(actions@.map_values(|action: SessionAction| action@) =~= answer(
            old(self)@.state,
            event,
        )->Ok_0);
        Ok(actions)
    }
}

/// A session that is asked for, made and established, and that then closes
/// gracefully, leaves three entries in the event log. All are
/// informational: there is no error entry. The last one, and no other,
/// tells that the session has ended. This holds for every endpoint.
pub proof fn lemma_graceful_session(url: String)
    ensures
        ({
            let end = SessionView::initial().after(SessionEvent::ConnectRequested { url }).after(
                SessionEvent::Created,
            ).after(SessionEvent::HandshakeCompleted).after(
                SessionEvent::Closed { outcome: CloseOutcome::Normal },
            );
            &&& end.state == SessionState::Closed { reason: CloseReason::Normal }
            &&& end.next_stream == 1
            &&& end.log == seq![
                LogRecord::info("Initiating connection..."@),
                LogRecord::info("Connection ready."@),
                LogRecord::info("Connection closed normally."@),
            ]
            &&& forall|i: int| 0 <= i < end.log.len() ==> end.log[i].severity is Info
            &&& forall|i: int|
                0 <= i < end.log.len() ==> (end.log[i].message == "Connection closed normally."@
                    <==> i == 2)
        }),
{
    reveal_strlit("Initiating connection...");
    reveal_strlit("Connection ready.");
    reveal_strlit("Connection closed normally.");
    let created = SessionView::initial().after(SessionEvent::ConnectRequested { url });
    assert(created.log =~= Seq::<LogRecord>::empty());
    let connecting = created.after(SessionEvent::Created);
    assert(connecting.log =~= seq![LogRecord::info("Initiating connection..."@)]);
    let ready = connecting.after(SessionEvent::HandshakeCompleted);
    let end = ready.after(SessionEvent::Closed { outcome: CloseOutcome::Normal });
    assert(end.log =~= seq![
        LogRecord::info("Initiating connection..."@),
        LogRecord::info("Connection ready."@),
        LogRecord::info("Connection closed normally."@),
    ]);
    assert("Initiating connection..."@.len() != "Connection closed normally."@.len());
    assert("Connection ready."@.len() != "Connection closed normally."@.len());
}

/// An event out of turn changes neither the state nor the stream numbers:
/// it is answered with `Rejected` and one error entry. So a request to
/// connect while a session is asked for, live or closed never replaces that
/// session.
pub proof fn lemma_out_of_turn_is_rejected(ctx: SessionView, event: SessionEvent)
    requires
        !accepts(ctx.state, event),
    ensures
        ctx.after(event).state == ctx.state,
        ctx.after(event).next_stream == ctx.next_stream,
        ctx.after(event).log.len() == ctx.log.len() + 1,
        ctx.after(event).log.last().severity is Error,
        answer(ctx.state, event) == Err::<Seq<ActionView>, ConnectError>(ConnectError::Rejected),
{
}

/// Once there is a connection to send on, there always is: no event takes
/// it away or puts another in its place.
pub proof fn lemma_connection_is_kept(ctx: SessionView, event: SessionEvent)
    requires
        ctx.has_connection(),
    ensures
        ctx.after(event).has_connection(),
        !(ctx.after(event).state is Creating),
        !(ctx.after(event).state is Connecting),
{
}

/// The event log only grows: what was in it before an event is still there
/// after it, at the same place.
pub proof fn lemma_events_keep_the_log(ctx: SessionView, event: SessionEvent)
    ensures
        ctx.log.is_prefix_of(ctx.after(event).log),
{
}

} // verus!
