//! What is sent: one datagram, one new unidirectional stream, or one new
//! bidirectional stream whose answer is then drained.
//!
//! A send is a short conversation with the transport. The manager names the
//! request to make, the driver makes it and reports how it went, and the
//! manager names the next request or ends the send. The first failure ends
//! it: nothing is tried twice.

use crate::event_log::{LogRecord, Severity};
use crate::inbound::{datagram_report, drain_report, InboundStream, InboundStreamView};
use crate::session::{SessionView, WasmCtx};
use crate::text::{decimal, lemma_lossy_text_of_encoding, push_decimal, same_text};
use crate::transport::{bytes_from_vec, RequestView, TransportRequest};
use vstd::prelude::*;
use vstd::string::StrSliceExecFns;
use vstd::string::StringExecFns;
use vstd::utf8::encode_utf8;

verus! {

/// Which of the three ways of sending is meant.
#[derive(Clone, Copy, Debug, PartialEq, Eq, Structural)]
pub enum Selector {
    Datagram,
    Unidirectional,
    Bidirectional,
}

impl Selector {
    /// The selector that a name stands for: `datagram`, `unidi` or `bidi`.
    /// No other name stands for one.
    pub open spec fn named(name: Seq<char>) -> Option<Selector> {
        if name == "datagram"@ {
            Some(Selector::Datagram)
        } else if name == "unidi"@ {
            Some(Selector::Unidirectional)
        } else if name == "bidi"@ {
            Some(Selector::Bidirectional)
        } else {
            None
        }
    }

    /// The selector that a name stands for, if any.
    pub fn parse(name: &str) -> (selector: Option<Selector>)
        ensures
            selector == Selector::named(name@),
    {
        if same_text(name, "datagram") {
            Some(Selector::Datagram)
        } else if same_text(name, "unidi") {
            Some(Selector::Unidirectional)
        } else if same_text(name, "bidi") {
            Some(Selector::Bidirectional)
        } else {
            None
        }
    }
}

/// Why a send failed.
#[derive(Clone, Copy, Debug, PartialEq, Eq, Structural)]
pub enum SendError {
    /// The datagram could not be sent, or the stream could not be written
    /// to or closed.
    WriteFailed,
    /// The stream could not be opened.
    OpenFailed,
    /// The name given stands for none of the three ways of sending.
    InvalidSelection,
}

/// The request of a send that the transport is working on.
#[derive(Clone, Copy, Debug, PartialEq, Eq, Structural)]
pub enum SendPhase {
    /// The datagram is being sent.
    Sending,
    /// The stream is being opened.
    Opening,
    /// The payload is being written to the stream.
    Writing,
    /// The sending side of the stream is being closed.
    Closing,
}

/// A send that is under way.
#[derive(Debug, PartialEq, Eq)]
pub struct SendOperation {
    selector: Selector,
    value: String,
    phase: SendPhase,
    stream: Option<u32>,
}

/// A send that is under way, as contracts see it.
pub struct SendOperationView {
    /// The way of sending.
    pub selector: Selector,
    /// The text to send.
    pub value: Seq<char>,
    /// The request that the transport is working on.
    pub phase: SendPhase,
    /// The number of the stream, once a bidirectional stream is open.
    pub stream: Option<u32>,
}

impl SendOperationView {
    /// A datagram is sent in one request. A stream is opened, written to and
    /// closed, and has a number exactly when it is bidirectional and open.
    pub open spec fn wf(self) -> bool {
        &&& self.selector is Datagram <==> self.phase is Sending
        &&& self.stream is Some <==> self.selector is Bidirectional && !(self.phase is Opening)
    }

    /// A send with its first request under way.
    pub open spec fn started(selector: Selector, value: Seq<char>) -> SendOperationView {
        SendOperationView {
            selector,
            value,
            phase: if selector is Datagram {
                SendPhase::Sending
            } else {
                SendPhase::Opening
            },
            stream: None,
        }
    }

    /// The request that the transport is working on. What is sent or written
    /// is the text in UTF-8.
    pub open spec fn request(self) -> RequestView {
        match self.phase {
            SendPhase::Sending => RequestView::SendDatagram { payload: encode_utf8(self.value) },
            SendPhase::Opening => if self.selector is Bidirectional {
                RequestView::OpenBidirectional
            } else {
                RequestView::OpenUnidirectional
            },
            SendPhase::Writing => RequestView::WriteAll { data: encode_utf8(self.value) },
            SendPhase::Closing => RequestView::Close,
        }
    }

    /// How the stream of this send is called in the event log.
    pub open spec fn stream_name(self) -> Seq<char> {
        match self.stream {
            Some(number) => "bidirectional stream #"@ + decimal(number as nat),
            None => "unidirectional stream"@,
        }
    }

    /// The entry for the failure of the request under way.
    pub open spec fn failure(self, detail: Seq<char>) -> LogRecord {
        LogRecord::error(
            match self.phase {
                SendPhase::Sending => "Failed to send datagram: "@ + detail,
                SendPhase::Opening => if self.selector is Bidirectional {
                    "Failed to open bidirectional stream: "@ + detail
                } else {
                    "Failed to open unidirectional stream: "@ + detail
                },
                SendPhase::Writing => "Failed to write to "@ + self.stream_name() + ": "@ + detail,
                SendPhase::Closing => "Failed to close "@ + self.stream_name() + ": "@ + detail,
            },
        )
    }

    /// The error for the failure of the request under way.
    pub open spec fn error(self) -> SendError {
        if self.phase is Opening {
            SendError::OpenFailed
        } else {
            SendError::WriteFailed
        }
    }

    /// The entry for a send that is complete.
    pub open spec fn success(self) -> LogRecord {
        LogRecord::info(
            match self.stream {
                Some(number) => "Opened bidirectional stream #"@ + decimal(number as nat)
                    + " with data: "@ + self.value,
                None => if self.selector is Datagram {
                    "Sent datagram: "@ + self.value
                } else {
                    "Sent a unidirectional stream with data: "@ + self.value
                },
            },
        )
    }
}

impl View for SendOperation {
    type V = SendOperationView;

    closed spec fn view(&self) -> SendOperationView {
        SendOperationView {
            selector: self.selector,
            value: self.value@,
            phase: self.phase,
            stream: self.stream,
        }
    }
}

/// How a send goes on.
#[derive(Debug, PartialEq, Eq)]
pub enum SendStep {
    /// Make this request, and report how it went together with this send.
    Perform(SendOperation, TransportRequest),
    /// The datagram or the unidirectional stream is sent. The send is over.
    Sent,
    /// The bidirectional stream is sent. The send is over; drain the
    /// receiving side of the stream, in a task of its own, as this stream.
    Opened(InboundStream),
}

/// How a send goes on, as contracts see it.
pub enum SendStepView {
    Perform(SendOperationView, RequestView),
    Sent,
    Opened(InboundStreamView),
}

impl View for SendStep {
    type V = SendStepView;

    open spec fn view(&self) -> SendStepView {
        match *self {
            SendStep::Perform(operation, request) => SendStepView::Perform(operation@, request@),
            SendStep::Sent => SendStepView::Sent,
            SendStep::Opened(stream) => SendStepView::Opened(stream@),
        }
    }
}

/// An answer of the manager to a send, as contracts see it.
pub open spec fn answer_view(answer: Result<SendStep, SendError>) -> Result<
    SendStepView,
    SendError,
> {
    match answer {
        Ok(step) => Ok(step@),
        Err(error) => Err(error),
    }
}

/// The start of a send. A name that stands for no way of sending is an
/// error, written to the event log; no request is made. Else the first
/// request is named, and nothing is written yet.
pub open spec fn begin_send(ctx: SessionView, selected: Seq<char>, value: Seq<char>) -> (
    SessionView,
    Result<SendStepView, SendError>,
) {
    match Selector::named(selected) {
        Some(selector) => {
            let operation = SendOperationView::started(selector, value);
            (ctx, Ok(SendStepView::Perform(operation, operation.request())))
        },
        None => (
            ctx.with_log(seq![LogRecord::error("Unexpected selection: "@ + selected)]),
            Err(SendError::InvalidSelection),
        ),
    }
}

/// Whether the request under way, if it succeeds, gives the stream its
/// number.
pub open spec fn takes_number(operation: SendOperationView, outcome: Result<(), String>) -> bool {
    outcome is Ok && operation.phase is Opening && operation.selector is Bidirectional
}

/// The next step of a send, once the request under way has succeeded or
/// failed.
///
/// A failure is written to the event log and ends the send. After the
/// datagram is sent, the send is over. A stream that is open is written to;
/// a bidirectional stream gets its number at this point. A stream that is
/// written to is closed. Once it is closed the send is over, and the
/// receiving side of a bidirectional stream is handed out under the number
/// of the stream. The entry for a completed send is written in the step
/// that ends it.
pub open spec fn continue_send(
    ctx: SessionView,
    operation: SendOperationView,
    outcome: Result<(), String>,
) -> (SessionView, Result<SendStepView, SendError>) {
    match outcome {
        Err(detail) => (ctx.with_log(seq![operation.failure(detail@)]), Err(operation.error())),
        Ok(_) => match operation.phase {
            SendPhase::Sending => (ctx.with_log(seq![operation.success()]), Ok(SendStepView::Sent)),
            SendPhase::Opening => {
                let writing = SendOperationView {
                    phase: SendPhase::Writing,
                    stream: if operation.selector is Bidirectional {
                        Some(ctx.next_stream)
                    } else {
                        None
                    },
                    ..operation
                };
                let after = if operation.selector is Bidirectional {
                    SessionView { next_stream: (ctx.next_stream + 1) as u32, ..ctx }
                } else {
                    ctx
                };
                (after, Ok(SendStepView::Perform(writing, writing.request())))
            },
            SendPhase::Writing => {
                let closing = SendOperationView { phase: SendPhase::Closing, ..operation };
                (ctx, Ok(SendStepView::Perform(closing, closing.request())))
            },
            SendPhase::Closing => (
                ctx.with_log(seq![operation.success()]),
                Ok(
                    match operation.stream {
                        Some(number) => SendStepView::Opened(InboundStreamView::fresh(number)),
                        None => SendStepView::Sent,
                    },
                ),
            ),
        },
    }
}

impl SendOperation {
    #[verifier::type_invariant]
    spec fn well_formed(self) -> bool {
        self@.wf()
    }

    fn request(&self) -> (request: TransportRequest)
        ensures
            request@ == self@.request(),
    {
        match self.phase {
            SendPhase::Sending => TransportRequest::SendDatagram {
                payload: bytes_from_vec(self.value.as_str().as_bytes_vec()),
            },
            SendPhase::Opening => match self.selector {
                Selector::Bidirectional => TransportRequest::OpenBidirectional,
                _ => TransportRequest::OpenUnidirectional,
            },
            SendPhase::Writing => TransportRequest::WriteAll {
                data: self.value.as_str().as_bytes_vec(),
            },
            SendPhase::Closing => TransportRequest::Close,
        }
    }

    fn stream_name(&self) -> (name: String)
        ensures
            name@ == self@.stream_name(),
    {
        match self.stream {
            Some(number) => {
                let mut name = String::from_str("bidirectional stream #");
                push_decimal(&mut name, number);
                name
            },
            None => String::from_str("unidirectional stream"),
        }
    }

    fn failure(&self, detail: &str) -> (text: String)
        ensures
            LogRecord::error(text@) == self@.failure(detail@),
    {
        let mut text = match self.phase {
            SendPhase::Sending => String::from_str("Failed to send datagram: "),
            SendPhase::Opening => match self.selector {
                Selector::Bidirectional => String::from_str("Failed to open bidirectional stream: "),
                _ => String::from_str("Failed to open unidirectional stream: "),
            },
            SendPhase::Writing => {
                let mut text = String::from_str("Failed to write to ");
                text.append(self.stream_name().as_str());
                text.append(": ");
                text
            },
            SendPhase::Closing => {
                let mut text = String::from_str("Failed to close ");
                text.append(self.stream_name().as_str());
                text.append(": ");
                text
            },
        };
        text.append(detail);
        text
    }

    fn success(&self) -> (text: String)
        ensures
            LogRecord::info(text@) == self@.success(),
    {
        let mut text = match self.stream {
            Some(number) => {
                let mut text = String::from_str("Opened bidirectional stream #");
                push_decimal(&mut text, number);
                text.append(" with data: ");
                text
            },
            None => match self.selector {
                Selector::Datagram => String::from_str("Sent datagram: "),
                _ => String::from_str("Sent a unidirectional stream with data: "),
            },
        };
        text.append(self.value.as_str());
        text
    }
}

impl WasmCtx {
    /// Starts a send of `value` in the way that `selected` names.
    ///
    /// Where `selected` names no way of sending, the send fails at once with
    /// `InvalidSelection`: the error is written to the event log and no
    /// request to the transport is named. Else the answer holds the first
    /// request to make and the send to report on.
    pub fn send_data(&mut self, selected: &str, value: &str) -> (answer: Result<
        SendStep,
        SendError,
    >)
        requires
            old(self)@.has_connection(),
        ensures
            (final(self)@, answer_view(answer)) == begin_send(old(self)@, selected@, value@),
            answer matches Ok(SendStep::Perform(operation, _)) ==> operation@.wf(),
    {
        match Selector::parse(selected) {
            Some(selector) => {
                let phase = match selector {
                    Selector::Datagram => SendPhase::Sending,
                    _ => SendPhase::Opening,
                };
                let operation = SendOperation {
                    selector,
                    value: String::from_str(value),
                    phase,
                    stream: None,
                };
                let request = operation.request();
                Ok(SendStep::Perform(operation, request))
            },
            None => {
                let mut text = String::from_str("Unexpected selection: ");
                text.append(selected);
                self.report(text.as_str(), Severity::Error);
                Err(SendError::InvalidSelection)
            },
        }
    }

    /// Takes the outcome of the request that `operation` is waiting for and
    /// answers with the next step of the send, or with the error that ends
    /// it. Every error is in the event log before it is returned.
    pub fn send_progress(&mut self, operation: SendOperation, outcome: Result<(), String>) -> (answer:
        Result<SendStep, SendError>)
        requires
            takes_number(operation@, outcome) ==> old(self)@.can_allocate(),
        ensures
            (final(self)@, answer_view(answer)) == continue_send(old(self)@, operation@, outcome),
            answer matches Ok(SendStep::Perform(next, _)) ==> next@.wf(),
    {
        proof {
            use_type_invariant(&operation);
        }
        match outcome {
            Err(detail) => {
                let text = operation.failure(detail.as_str());
                self.report(text.as_str(), Severity::Error);
                match operation.phase {
                    SendPhase::Opening => Err(SendError::OpenFailed),
                    _ => Err(SendError::WriteFailed),
                }
            },
            Ok(_) => match operation.phase {
                SendPhase::Sending => {
                    let text = operation.success();
                    self.report(text.as_str(), Severity::Info);
                    Ok(SendStep::Sent)
                },
                SendPhase::Opening => {
                    let stream = match operation.selector {
                        Selector::Bidirectional => Some(self.allocate_stream_number()),
                        _ => None,
                    };
                    let writing = SendOperation {
                        selector: operation.selector,
                        value: operation.value,
                        phase: SendPhase::Writing,
                        stream,
                    };
                    let request = writing.request();
                    Ok(SendStep::Perform(writing, request))
                },
                SendPhase::Writing => {
                    let closing = SendOperation {
                        selector: operation.selector,
                        value: operation.value,
                        phase: SendPhase::Closing,
                        stream: operation.stream,
                    };
                    let request = closing.request();
                    Ok(SendStep::Perform(closing, request))
                },
                SendPhase::Closing => {
                    let text = operation.success();
                    self.report(text.as_str(), Severity::Info);
                    match operation.stream {
                        Some(number) => Ok(SendStep::Opened(InboundStream::new(number))),
                        None => Ok(SendStep::Sent),
                    }
                },
            },
        }
    }
}

/// A datagram that comes back as it was sent is written to the event log
/// with the text that was sent: the send names one request, a datagram that
/// holds the text in UTF-8, and a datagram received with these bytes gives
/// the entry `Datagram received: ` and then the text.
pub proof fn lemma_datagram_round_trip(ctx: SessionView, value: Seq<char>, received: &[u8])
    requires
        received@ == encode_utf8(value),
    ensures
        begin_send(ctx, "datagram"@, value) == (
            ctx,
            Ok::<SendStepView, SendError>(
                SendStepView::Perform(
                    SendOperationView::started(Selector::Datagram, value),
                    RequestView::SendDatagram { payload: received@ },
                ),
            ),
        ),
        datagram_report(Ok(received)) == LogRecord::info("Datagram received: "@ + value),
{
    lemma_lossy_text_of_encoding(value);
}

/// A unidirectional send asks the transport to open a stream, then to
/// write the text in UTF-8, then to close the stream: each once, in this
/// order, when each succeeds. Only the last step writes to the event log:
/// one informational entry that ends with the text. A write that fails
/// ends the send with `WriteFailed` and one error entry; no further
/// request is named. Other tasks may run between the steps: no step
/// depends on what the manager held at an earlier one, and none takes a
/// stream number.
pub proof fn lemma_unidirectional_send(
    at_start: SessionView,
    at_open: SessionView,
    at_write: SessionView,
    at_close: SessionView,
    value: Seq<char>,
    done: Result<(), String>,
    failed: Result<(), String>,
)
    requires
        done is Ok,
        failed is Err,
    ensures
        ({
            let opening = SendOperationView::started(Selector::Unidirectional, value);
            let writing = SendOperationView { phase: SendPhase::Writing, ..opening };
            let closing = SendOperationView { phase: SendPhase::Closing, ..opening };
            &&& begin_send(at_start, "unidi"@, value) == (
                at_start,
                Ok::<SendStepView, SendError>(
                    SendStepView::Perform(opening, RequestView::OpenUnidirectional),
                ),
            )
            &&& continue_send(at_open, opening, done) == (
                at_open,
                Ok::<SendStepView, SendError>(
                    SendStepView::Perform(
                        writing,
                        RequestView::WriteAll { data: encode_utf8(value) },
                    ),
                ),
            )
            &&& continue_send(at_write, writing, done) == (
                at_write,
                Ok::<SendStepView, SendError>(SendStepView::Perform(closing, RequestView::Close)),
            )
            &&& continue_send(at_close, closing, done) == (
                at_close.with_log(
                    seq![LogRecord::info("Sent a unidirectional stream with data: "@ + value)],
                ),
                Ok::<SendStepView, SendError>(SendStepView::Sent),
            )
            &&& continue_send(at_write, writing, failed) == (
                at_write.with_log(
                    seq![
                        LogRecord::error(
                            "Failed to write to "@ + "unidirectional stream"@ + ": "@
                                + failed->Err_0@,
                        ),
                    ],
                ),
                Err::<SendStepView, SendError>(SendError::WriteFailed),
            )
        }),
{
    reveal_strlit("unidi");
    reveal_strlit("datagram");
    assert("unidi"@.len() != "datagram"@.len());
}

/// A bidirectional send takes exactly one stream number: when the stream
/// has been opened, and at no other step. The entry for the send, with
/// this number and the text, is written by the step that hands out the
/// receiving side of the stream, and that side carries the same number.
/// Other tasks may run between the steps, and may take numbers of their
/// own.
pub proof fn lemma_bidirectional_send(
    at_start: SessionView,
    at_open: SessionView,
    at_write: SessionView,
    at_close: SessionView,
    value: Seq<char>,
    done: Result<(), String>,
)
    requires
        done is Ok,
        at_open.can_allocate(),
    ensures
        ({
            let number = at_open.next_stream;
            let opening = SendOperationView::started(Selector::Bidirectional, value);
            let writing = SendOperationView {
                phase: SendPhase::Writing,
                stream: Some(number),
                ..opening
            };
            let closing = SendOperationView { phase: SendPhase::Closing, ..writing };
            &&& begin_send(at_start, "bidi"@, value) == (
                at_start,
                Ok::<SendStepView, SendError>(
                    SendStepView::Perform(opening, RequestView::OpenBidirectional),
                ),
            )
            &&& continue_send(at_open, opening, done).0.next_stream == number + 1
            &&& continue_send(at_open, opening, done).0.log == at_open.log
            &&& continue_send(at_open, opening, done).0.state == at_open.state
            &&& continue_send(at_open, opening, done).1 == Ok::<SendStepView, SendError>(
                SendStepView::Perform(writing, RequestView::WriteAll { data: encode_utf8(value) }),
            )
            &&& continue_send(at_write, writing, done) == (
                at_write,
                Ok::<SendStepView, SendError>(SendStepView::Perform(closing, RequestView::Close)),
            )
            &&& continue_send(at_close, closing, done) == (
                at_close.with_log(
                    seq![
                        LogRecord::info(
                            "Opened bidirectional stream #"@ + decimal(number as nat)
                                + " with data: "@ + value,
                        ),
                    ],
                ),
                Ok::<SendStepView, SendError>(
                    SendStepView::Opened(InboundStreamView::fresh(number)),
                ),
            )
        }),
{
    reveal_strlit("bidi");
    reveal_strlit("unidi");
    reveal_strlit("datagram");
    assert("bidi"@.len() != "datagram"@.len());
    assert("bidi"@.len() != "unidi"@.len());
}

/// The receiving side of a bidirectional stream is handed out by the step
/// that writes the entry for the send, so it cannot be drained before that
/// entry is in the event log. The event log only grows: the entry keeps
/// its place, and whatever draining this stream writes, at whatever later
/// time, is added at the end of the log and so stands behind that entry.
pub proof fn lemma_opened_entry_comes_first(
    at_close: SessionView,
    closing: SendOperationView,
    done: Result<(), String>,
    later: SessionView,
    read: Result<Option<usize>, String>,
)
    requires
        done is Ok,
        continue_send(at_close, closing, done).1 is Ok,
        continue_send(at_close, closing, done).1->Ok_0 is Opened,
        continue_send(at_close, closing, done).0.log.is_prefix_of(later.log),
    ensures
        ({
            let stream = continue_send(at_close, closing, done).1->Ok_0->Opened_0;
            let place = at_close.log.len() as int;
            let end = later.with_log(drain_report(stream, read));
            &&& place < later.log.len()
            &&& end.log[place] == closing.success()
            &&& end.log.subrange(later.log.len() as int, end.log.len() as int) == drain_report(
                stream,
                read,
            )
        }),
{
    let opened = continue_send(at_close, closing, done).0;
    let stream = continue_send(at_close, closing, done).1->Ok_0->Opened_0;
    let end = later.with_log(drain_report(stream, read));
    assert(opened.log == at_close.log + seq![closing.success()]);
    assert(opened.log[at_close.log.len() as int] == closing.success());
    assert(end.log.subrange(later.log.len() as int, end.log.len() as int) =~= drain_report(
        stream,
        read,
    ));
}

/// No step of a send but the opening of a bidirectional stream takes a
/// stream number, and none changes the state of the session or anything
/// that is in the event log already.
pub proof fn lemma_send_keeps_the_rest(
    ctx: SessionView,
    operation: SendOperationView,
    outcome: Result<(), String>,
)
    requires
        takes_number(operation, outcome) ==> ctx.can_allocate(),
    ensures
        continue_send(ctx, operation, outcome).0.state == ctx.state,
        ctx.log.is_prefix_of(continue_send(ctx, operation, outcome).0.log),
        continue_send(ctx, operation, outcome).0.next_stream == if takes_number(
            operation,
            outcome,
        ) {
            ctx.next_stream + 1
        } else {
            ctx.next_stream as int
        },
{
}

} // verus!
