//! What the session manager asks of the transport.

use bytes::Bytes;
use vstd::prelude::*;

verus! {

/// `bytes::Bytes`: a buffer of bytes that can be handed on without a copy.
/// Nothing inside it is visible here; `bytes_contents` names what it holds.
#[verifier::external_type_specification]
#[verifier::external_body]
pub struct ExBytes(bytes::Bytes);

/// The bytes that a `Bytes` holds, first to last.
pub uninterp spec fn bytes_contents(buffer: Bytes) -> Seq<u8>;

/// `Bytes::from` on a `Vec<u8>`. Trusted: the result holds the bytes of the
/// vector, in the same order.
#[verifier::external_body]
pub(crate) fn bytes_from_vec(bytes: Vec<u8>) -> (buffer: Bytes)
    ensures
        bytes_contents(buffer) == bytes@,
{
    Bytes::from(bytes)
}

/// One thing for the driver to ask of the transport. The driver reports
/// whether it succeeded.
#[derive(Debug, PartialEq, Eq)]
pub enum TransportRequest {
    /// Send one datagram that holds `payload`.
    SendDatagram { payload: Bytes },
    /// Open a unidirectional stream for sending.
    OpenUnidirectional,
    /// Open a bidirectional stream.
    OpenBidirectional,
    /// Write all of `data` to the sending side of the stream just opened.
    WriteAll { data: Vec<u8> },
    /// Close the sending side of the stream just opened.
    Close,
}

/// A request to the transport, with the bytes it carries as a sequence.
pub enum RequestView {
    SendDatagram { payload: Seq<u8> },
    OpenUnidirectional,
    OpenBidirectional,
    WriteAll { data: Seq<u8> },
    Close,
}

impl View for TransportRequest {
    type V = RequestView;

    open spec fn view(&self) -> RequestView {
        match *self {
            TransportRequest::SendDatagram { payload } => RequestView::SendDatagram {
                payload: bytes_contents(payload),
            },
            TransportRequest::OpenUnidirectional => RequestView::OpenUnidirectional,
            TransportRequest::OpenBidirectional => RequestView::OpenBidirectional,
            TransportRequest::WriteAll { data } => RequestView::WriteAll { data: data@ },
            TransportRequest::Close => RequestView::Close,
        }
    }
}

} // verus!
