//! What arrives: datagrams, unidirectional streams that the peer opens, and
//! the bytes of a stream until its end.
//!
//! Each of the three is a loop that the driver runs around one call of the
//! transport. After each call it hands the result to the manager, which
//! writes to the event log and says whether the loop goes on. A failure ends
//! the loop in which it happened and nothing else.

use crate::event_log::{LogRecord, Severity};
use crate::session::{SessionView, WasmCtx};
use crate::text::{decimal, lemma_lossy_text_of_nothing, lossy_text, push_decimal, push_lossy};
use vstd::prelude::*;
use vstd::slice::slice_subrange;
use vstd::string::StringExecFns;

verus! {

/// Whether a loop goes round again.
#[derive(Clone, Copy, Debug, PartialEq, Eq, Structural)]
pub enum LoopControl {
    Continue,
    Stop,
}

/// The receiving side of a stream: of a unidirectional stream that the peer
/// opened, or of a bidirectional stream opened here. It holds the number
/// under which the stream appears in the event log and the bytes received
/// so far.
#[derive(Debug, PartialEq, Eq)]
pub struct InboundStream {
    number: u32,
    data: Vec<u8>,
}

/// A receiving side, with its bytes as a sequence.
pub struct InboundStreamView {
    pub number: u32,
    pub data: Seq<u8>,
}

impl InboundStreamView {
    /// A stream of which nothing has been received.
    pub open spec fn fresh(number: u32) -> InboundStreamView {
        InboundStreamView { number, data: Seq::empty() }
    }
}

impl View for InboundStream {
    type V = InboundStreamView;

    closed spec fn view(&self) -> InboundStreamView {
        InboundStreamView { number: self.number, data: self.data@ }
    }
}

impl InboundStream {
    pub(crate) fn new(number: u32) -> (stream: Self)
        ensures
            stream@ == InboundStreamView::fresh(number),
    {
        InboundStream { number, data: Vec::new() }
    }

    /// The number under which the stream appears in the event log.
    pub fn number(&self) -> (number: u32)
        ensures
            number == self@.number,
    {
        self.number
    }

    /// The bytes received so far.
    pub fn data(&self) -> (data: &Vec<u8>)
        ensures
            data@ == self@.data,
    {
        &self.data
    }
}

/// The entry for one round of the datagram loop: the datagram as text, or
/// the error that ends the loop.
pub open spec fn datagram_report(received: Result<&[u8], String>) -> LogRecord {
    match received {
        Ok(payload) => LogRecord::info("Datagram received: "@ + lossy_text(payload@)),
        Err(detail) => LogRecord::error("Error while reading datagrams: "@ + detail@),
    }
}

/// The entry for one round of the loop that accepts streams, where `number`
/// is the next free stream number: the new stream, or the error that ends
/// the loop.
pub open spec fn accept_report(number: u32, accepted: Result<(), String>) -> LogRecord {
    match accepted {
        Ok(_) => LogRecord::info("New incoming unidirectional stream #"@ + decimal(number as nat)),
        Err(detail) => LogRecord::error("Error while accepting uni streams: "@ + detail@),
    }
}

/// What one read adds to the event log. Bytes that arrive add nothing; the
/// end of the stream adds that the stream closed and then all its bytes as
/// one text; an error adds itself.
pub open spec fn drain_report(stream: InboundStreamView, read: Result<Option<usize>, String>) -> Seq<
    LogRecord,
> {
    match read {
        Ok(Some(_)) => seq![],
        Ok(None) => seq![
            LogRecord::info("Stream #"@ + decimal(stream.number as nat) + " closed"@),
            LogRecord::info("Data received: "@ + lossy_text(stream.data)),
        ],
        Err(detail) => seq![
            LogRecord::error(
                "Error while reading stream "@ + decimal(stream.number as nat) + ": "@ + detail@,
            ),
        ],
    }
}

/// The stream after one read into `buf`: with the bytes read added at its
/// end, or gone where the stream ended or failed.
pub open spec fn drained(
    stream: InboundStreamView,
    buf: Seq<u8>,
    read: Result<Option<usize>, String>,
) -> Option<InboundStreamView> {
    match read {
        Ok(Some(count)) => Some(
            InboundStreamView { data: stream.data + buf.subrange(0, count as int), ..stream },
        ),
        _ => None,
    }
}

impl WasmCtx {
    /// One round of the datagram loop, after the transport was asked for
    /// the next datagram. A datagram is written to the event log as text,
    /// and the loop goes on. An error is written to the event log and ends
    /// the loop; it reaches nobody else.
    pub fn read_datagrams(&mut self, received: Result<&[u8], String>) -> (control: LoopControl)
        ensures
            final(self)@ == old(self)@.with_log(seq![datagram_report(received)]),
            control == (if received is Ok {
                LoopControl::Continue
            } else {
                LoopControl::Stop
            }),
    {
        match received {
            Ok(payload) => {
                let mut text = String::from_str("Datagram received: ");
                push_lossy(&mut text, payload);
                self.report(text.as_str(), Severity::Info);
                LoopControl::Continue
            },
            Err(detail) => {
                let mut text = String::from_str("Error while reading datagrams: ");
                text.append(detail.as_str());
                self.report(text.as_str(), Severity::Error);
                LoopControl::Stop
            },
        }
    }

    /// One round of the loop that accepts unidirectional streams, after the
    /// transport was asked for the next one. An accepted stream gets the
    /// next stream number and an entry in the event log; its receiving side
    /// is returned, to be drained by a task of its own while the loop goes
    /// on. An error is written to the event log and ends the loop: nothing
    /// is returned.
    pub fn accept_unidirectional_streams(&mut self, accepted: Result<(), String>) -> (stream: Option<
        InboundStream,
    >)
        requires
            accepted is Ok ==> old(self)@.can_allocate(),
        ensures
            final(self)@.log == old(self)@.log.push(
                accept_report(old(self)@.next_stream, accepted),
            ),
            final(self)@.state == old(self)@.state,
            accepted is Ok ==> final(self)@.next_stream == old(self)@.next_stream + 1,
            accepted is Err ==> final(self)@.next_stream == old(self)@.next_stream,
            stream.is_some() == accepted is Ok,
            stream matches Some(accepted_stream) ==> accepted_stream@ == InboundStreamView::fresh(
                old(self)@.next_stream,
            ),
    {
        match accepted {
            Ok(_) => {
                let number = self.allocate_stream_number();
                let mut text = String::from_str("New incoming unidirectional stream #");
                push_decimal(&mut text, number);
                self.report(text.as_str(), Severity::Info);
                assert(self@.log =~= old(self)@.log.push(
                    accept_report(old(self)@.next_stream, accepted),
                ));
                Some(InboundStream::new(number))
            },
            Err(detail) => {
                let mut text = String::from_str("Error while accepting uni streams: ");
                text.append(detail.as_str());
                self.report(text.as_str(), Severity::Error);
                assert(self@.log =~= old(self)@.log.push(
                    accept_report(old(self)@.next_stream, accepted),
                ));
                None
            },
        }
    }

    /// One round of the task that drains a stream, after the transport was
    /// asked to read into `buf`. `Ok(Some(count))` says that the first
    /// `count` bytes of `buf` were read: they are added to what the stream
    /// holds, nothing is written to the event log, and the stream is
    /// returned for the next round. `Ok(None)` says that the stream has
    /// ended: the event log is told so, then gets all the bytes of the
    /// stream as one text, and the task is over. An error is written to
    /// the event log with the number of the stream, and the task is over.
    pub fn read_from_incoming_stream(
        &mut self,
        stream: InboundStream,
        buf: &[u8],
        read: Result<Option<usize>, String>,
    ) -> (rest: Option<InboundStream>)
        requires
            read matches Ok(Some(count)) ==> count <= buf@.len(),
        ensures
            final(self)@ == old(self)@.with_log(drain_report(stream@, read)),
            match drained(stream@, buf@, read) {
                Some(longer) => rest matches Some(kept) && kept@ == longer,
                None => rest is None,
            },
    {
        let ghost before = stream@;
        let mut stream = stream;
        match read {
            Ok(Some(count)) => {
                stream.data.extend_from_slice(slice_subrange(buf, 0, count));
                assert(stream@.data =~= before.data + buf@.subrange(0, count as int));
                assert(self@.log =~= old(self)@.log + Seq::<LogRecord>::empty());
                Some(stream)
            },
            Ok(None) => {
                let mut closed = String::from_str("Stream #");
                push_decimal(&mut closed, stream.number);
                closed.append(" closed");
                self.report(closed.as_str(), Severity::Info);
                let mut received = String::from_str("Data received: ");
                push_lossy(&mut received, stream.data.as_slice());
                self.report(received.as_str(), Severity::Info);
                assert(self@.log =~= old(self)@.log + drain_report(stream@, read));
                None
            },
            Err(detail) => {
                let mut text = String::from_str("Error while reading stream ");
                push_decimal(&mut text, stream.number);
                text.append(": ");
                text.append(detail.as_str());
                self.report(text.as_str(), Severity::Error);
                None
            },
        }
    }
}

/// Draining a stream that ends before a single byte has arrived: the event
/// log is told once that the stream closed, and then gets the entry for
/// the data with no text behind its label. Nothing else is written, and no
/// stream is left to drain again. This holds for every stream number and
/// whatever the buffer holds.
pub proof fn lemma_drain_of_empty_stream(ctx: SessionView, number: u32, buf: Seq<u8>)
    ensures
        ctx.with_log(drain_report(InboundStreamView::fresh(number), Ok(None))).log == ctx.log
            + seq![
            LogRecord::info("Stream #"@ + decimal(number as nat) + " closed"@),
            LogRecord::info("Data received: "@),
        ],
        drained(InboundStreamView::fresh(number), buf, Ok(None)) is None,
{
    lemma_lossy_text_of_nothing();
    assert("Data received: "@ + Seq::<char>::empty() =~= "Data received: "@);
}

/// Bytes that arrive are kept in the order of their arrival and are not
/// written to the event log before the stream has ended: two reads in a row
/// leave the stream with the bytes of the first and then those of the
/// second, and the event log as it was.
pub proof fn lemma_drain_keeps_order(
    stream: InboundStreamView,
    first: Seq<u8>,
    first_count: usize,
    second: Seq<u8>,
    second_count: usize,
)
    requires
        first_count <= first.len(),
        second_count <= second.len(),
    ensures
        ({
            let once = drained(stream, first, Ok(Some(first_count)));
            let twice = drained(once.unwrap(), second, Ok(Some(second_count)));
            &&& once is Some
            &&& twice is Some
            &&& twice.unwrap().number == stream.number
            &&& twice.unwrap().data == stream.data + first.subrange(0, first_count as int)
                + second.subrange(0, second_count as int)
            &&& drain_report(stream, Ok(Some(first_count))) == Seq::<LogRecord>::empty()
            &&& drain_report(once.unwrap(), Ok(Some(second_count))) == Seq::<LogRecord>::empty()
        }),
{
}

} // verus!
